//! Lowercase hexadecimal text of byte strings.
use vstd::prelude::*;
use vstd::string::StringExecFns;

verus! {

/// Lowercase hexadecimal digit of a nibble.
pub open spec fn hex_digit(n: u8) -> char {
    if n < 10 {
        (48 + n) as char
    } else {
        (87 + n) as char
    }
}

/// Two lowercase hexadecimal digits per byte, in order.
pub open spec fn hex_of(bytes: Seq<u8>) -> Seq<char>
    decreases bytes.len(),
{
    if bytes.len() == 0 {
        Seq::empty()
    } else {
        hex_of(bytes.drop_last()) + seq![hex_digit(bytes.last() / 16), hex_digit(
            bytes.last() % 16,
        )]
    }
}

/// `String::push` (std): appends the char at the end of the string.
#[verifier::external_body]
pub(crate) fn string_push(s: &mut String, c: char)
    ensures
        final(s)@ == old(s)@.push(c),
{
    s.push(c);
}

fn hex_digit_char(n: u8) -> (c: char)
    requires
        n < 16,
    ensures
        c == hex_digit(n),
{
    if n < 10 {
        (48 + n) as char
    } else {
        (87 + n) as char
    }
}

/// Lowercase hexadecimal text of `bytes` (two digits per byte).
pub fn hex_string(bytes: &[u8]) -> (r: String)
    ensures
        r@ == hex_of(bytes@),
{
    let mut s = String::new();
    let mut i: usize = 0;
    while i < bytes.len()
        invariant
            i <= bytes.len(),
            s@ == hex_of(bytes@.subrange(0, i as int)),
        decreases bytes.len() - i,
    {
        let b = bytes[i];
        string_push(&mut s, hex_digit_char(b / 16));
        string_push(&mut s, hex_digit_char(b % 16));
        assert(bytes@.subrange(0, i + 1).drop_last() == bytes@.subrange(0, i as int));
        i = i + 1;
    }
    assert(bytes@.subrange(0, bytes@.len() as int) == bytes@);
    s
}


/// Appends the string slice at the end of the string.
pub(crate) fn string_push_str(s: &mut String, t: &str)
    ensures
        final(s)@ == old(s)@ + t@,
{
    s.append(t);
}

/// Decimal digits of `n` (no sign, no leading zero; `0` is `"0"`).
pub open spec fn decimal_of(n: nat) -> Seq<char>
    decreases n,
{
    if n < 10 {
        seq![(48 + n) as char]
    } else {
        decimal_of(n / 10) + seq![(48 + n % 10) as char]
    }
}

/// Appends the decimal digits of `n`.
pub fn push_decimal(s: &mut String, n: u64)
    ensures
        final(s)@ == old(s)@ + decimal_of(n as nat),
    decreases n,
{
    if n >= 10 {
        push_decimal(s, n / 10);
    }
    let d = (n % 10) as u8;
    string_push(s, (48 + d) as char);
}

/// Appends the two lowercase hexadecimal digits of `b`.
pub fn push_hex_byte(s: &mut String, b: u8)
    ensures
        final(s)@ == old(s)@ + hex_of(seq![b]),
{
    string_push(s, hex_digit_char(b / 16));
    string_push(s, hex_digit_char(b % 16));
    assert(seq![b].drop_last() =~= Seq::<u8>::empty());
    assert(seq![b].last() == b);
    assert(hex_of(Seq::<u8>::empty()) =~= Seq::<char>::empty());
    assert(hex_of(seq![b]) =~= seq![hex_digit(b / 16), hex_digit(b % 16)]);
}

/// String of a literal.
pub fn text_of(t: &str) -> (r: String)
    ensures
        r@ == t@,
{
    let mut s = String::new();
    string_push_str(&mut s, t);
    s
}

/// Decimal items of `b` separated by `", "`.
pub open spec fn byte_items(b: Seq<u8>) -> Seq<char>
    decreases b.len(),
{
    if b.len() == 0 {
        Seq::empty()
    } else if b.len() == 1 {
        decimal_of(b[0] as nat)
    } else {
        byte_items(b.drop_last()) + seq![',', ' '] + decimal_of(b.last() as nat)
    }
}

/// `Debug` text of a byte slice: `[1, 2, 3]`.
pub open spec fn bytes_debug(b: Seq<u8>) -> Seq<char> {
    seq!['['] + byte_items(b) + seq![']']
}

/// Appends the `Debug` text of `b` (`[1, 2, 3]`).
pub fn push_bytes_debug(s: &mut String, b: &[u8])
    ensures
        final(s)@ == old(s)@ + bytes_debug(b@),
{
    string_push(s, '[');
    let mut i: usize = 0;
    while i < b.len()
        invariant
            i <= b@.len(),
            s@ == old(s)@ + seq!['['] + byte_items(b@.subrange(0, i as int)),
        decreases b.len() - i,
    {
        if i > 0 {
            string_push(s, ',');
            string_push(s, ' ');
        }
        push_decimal(s, b[i] as u64);
        proof {
            let t = b@.subrange(0, i + 1);
            assert(t.drop_last() == b@.subrange(0, i as int));
            assert(t.last() == b@[i as int]);
        }
        i = i + 1;
    }
    assert(b@.subrange(0, b@.len() as int) == b@);
    string_push(s, ']');
}

/// Escape of one char in a `Debug` string: `\"`, `\\`, `\n`, `\r`, `\t`, `\0`, `\u{..}` for the
/// other ASCII control chars; any other char as it is.
pub open spec fn char_escape(c: char) -> Seq<char> {
    if c == '"' {
        seq!['\\', '"']
    } else if c == '\\' {
        seq!['\\', '\\']
    } else if c == '\n' {
        seq!['\\', 'n']
    } else if c == '\r' {
        seq!['\\', 'r']
    } else if c == '\t' {
        seq!['\\', 't']
    } else if c == '\0' {
        seq!['\\', '0']
    } else if (c as u32) < 0x20 || c as u32 == 0x7f {
        seq!['\\', 'u', '{'] + (if (c as u32) < 0x10 { seq![hex_digit(c as u8)] } else { hex_of(seq![c as u8]) }) + seq!['}']
    } else {
        seq![c]
    }
}

/// Escapes of the chars of `s`, in order.
pub open spec fn escaped(s: Seq<char>) -> Seq<char>
    decreases s.len(),
{
    if s.len() == 0 {
        Seq::empty()
    } else {
        escaped(s.drop_last()) + char_escape(s.last())
    }
}

/// `Debug` text of a string: quoted, with quotes, backslashes and ASCII control chars escaped.
pub open spec fn str_debug(s: Seq<char>) -> Seq<char> {
    seq!['"'] + escaped(s) + seq!['"']
}

fn push_char_escape(s: &mut String, c: char)
    ensures
        final(s)@ == old(s)@ + char_escape(c),
{
    if c == '"' {
        string_push(s, '\\');
        string_push(s, '"');
    } else if c == '\\' {
        string_push(s, '\\');
        string_push(s, '\\');
    } else if c == '\n' {
        string_push(s, '\\');
        string_push(s, 'n');
    } else if c == '\r' {
        string_push(s, '\\');
        string_push(s, 'r');
    } else if c == '\t' {
        string_push(s, '\\');
        string_push(s, 't');
    } else if c == '\0' {
        string_push(s, '\\');
        string_push(s, '0');
    } else if (c as u32) < 0x20 || c as u32 == 0x7f {
        string_push(s, '\\');
        string_push(s, 'u');
        string_push(s, '{');
        let v = c as u32;
        let b = v as u8;
        assert(b as u32 == v);
        if v < 0x10 {
            string_push(s, hex_digit_char(b));
        } else {
            push_hex_byte(s, b);
        }
        string_push(s, '}');
    } else {
        string_push(s, c);
    }
}

/// Appends the `Debug` text of `t` (see `str_debug`).
pub fn push_str_debug(s: &mut String, t: &str)
    ensures
        final(s)@ == old(s)@ + str_debug(t@),
{
    string_push(s, '"');
    let ghost s0 = s@;
    for c in it: t.chars()
        invariant
            it.seq() == t@,
            s@ == s0 + escaped(t@.subrange(0, it.index() as int)),
    {
        proof {
            let u = t@.subrange(0, it.index() + 1);
            assert(u.drop_last() == t@.subrange(0, it.index() as int));
            assert(u.last() == c);
        }
        push_char_escape(s, c);
    }
    assert(t@.subrange(0, t@.len() as int) == t@);
    string_push(s, '"');
}

/// ASCII lowercase of a char.
pub open spec fn char_ascii_lower(c: char) -> char {
    if 'A' <= c && c <= 'Z' { ((c as u32) + 32) as char } else { c }
}

/// ASCII lowercase of a string's chars.
pub open spec fn chars_ascii_lower(s: Seq<char>) -> Seq<char> {
    s.map_values(|c: char| char_ascii_lower(c))
}

/// The string `t` with its ASCII letters lowercased.
pub fn ascii_lowercase_string(t: &str) -> (r: String)
    ensures
        r@ == chars_ascii_lower(t@),
{
    let mut s = String::new();
    for c in it: t.chars()
        invariant
            it.seq() == t@,
            s@ =~= chars_ascii_lower(t@.subrange(0, it.index() as int)),
    {
        let l = if 'A' <= c && c <= 'Z' { ((c as u32) + 32) as u8 as char } else { c };
        assert(l == char_ascii_lower(c)) by {
            if 'A' <= c && c <= 'Z' {
                assert(((c as u32) + 32) < 128);
            }
        }
        string_push(&mut s, l);
    }
    assert(t@.subrange(0, t@.len() as int) == t@);
    s
}

} // verus!
