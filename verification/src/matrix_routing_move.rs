//! Split / merge move (HX Edit drag & drop), opcodes `1d` then `1b` on lane `cd:03`, one
//! editor double step per bulk.
use vstd::prelude::*;
use crate::bytes::{lo8, hi8, wadd8};
use crate::state::{next_editor_double_spec, Counters, EditorLanes, HelixState};
use crate::text::{decimal_of, push_decimal, string_push_str};

verus! {

pub const SPLIT_SLOT_BUS: u8 = 0x0a;
pub const MERGE_SLOT_BUS: u8 = 0x13;

#[derive(PartialEq, Eq, Structural, Clone, Copy, Debug)]
pub enum RoutingMarkerKind {
    Split,
    Merge,
}

impl RoutingMarkerKind {
    pub open spec fn bus_spec(self) -> u8 {
        match self {
            RoutingMarkerKind::Split => SPLIT_SLOT_BUS,
            RoutingMarkerKind::Merge => MERGE_SLOT_BUS,
        }
    }

    pub fn slot_bus(self) -> (r: u8)
        ensures
            r == self.bus_spec(),
    {
        match self {
            RoutingMarkerKind::Split => SPLIT_SLOT_BUS,
            RoutingMarkerKind::Merge => MERGE_SLOT_BUS,
        }
    }

    pub fn label(self) -> (r: &'static str)
        ensures
            self == RoutingMarkerKind::Split ==> r@ == "split"@,
            self == RoutingMarkerKind::Merge ==> r@ == "merge"@,
    {
        match self {
            RoutingMarkerKind::Split => "split",
            RoutingMarkerKind::Merge => "merge",
        }
    }
}

/// Message of a boundary column out of `0..8`.
pub open spec fn column_range_message(col: u8) -> Seq<char> {
    "routing move : colonne frontière hors plage 0..8 ("@ + decimal_of(col as nat) + ")"@
}

/// Checks the boundary column `0..8` and returns `col + 0x11`.
pub fn routing_move_tag_byte(dest_boundary_col: u8) -> (r: Result<u8, String>)
    ensures
        dest_boundary_col <= 8 ==> r == Ok::<u8, String>((dest_boundary_col + 0x11) as u8),
        dest_boundary_col > 8 ==> (r matches Err(e) && e@ == column_range_message(dest_boundary_col)),
{
    if dest_boundary_col > 8 {
        let mut e = String::new();
        string_push_str(&mut e, "routing move : colonne frontière hors plage 0..8 (");
        push_decimal(&mut e, dest_boundary_col as u64);
        string_push_str(&mut e, ")");
        return Err(e);
    }
    Ok(dest_boundary_col + 0x11)
}

/// Marker move `1d` (40 bytes): session byte and editor double on bytes 12-14, the next
/// editor double low byte as tag (byte 28), `82:62:<marker bus>:1a`.
pub open spec fn marker_move_packet(cnt: u8, session: u8, d_lo: u8, d_hi: u8, tag: u8, bus: u8) -> Seq<u8> {
    seq![
        0x1du8, 0x00, 0x00, 0x18, 0x80, 0x10, 0xed, 0x03, 0x00, cnt, 0x00, 0x04, session, d_lo, d_hi,
        0x00, 0x01, 0x00, 0x06, 0x00, 0x0d, 0x00, 0x00, 0x00, 0x83, 0x66, 0xcd, 0x03, tag, 0x64, 0x4e,
        0x65, 0x82, 0x62, bus, 0x1a, 0x00, 0x00, 0x00, 0x00,
    ]
}

/// The marker move `1d` and its tag; a column out of `0..8` is refused with no change.
pub fn build_matrix_routing_marker_move_packet(
    state: &mut HelixState,
    kind: RoutingMarkerKind,
    dest_boundary_col: u8,
) -> (r: Result<(Vec<u8>, u8), String>)
    ensures
        dest_boundary_col > 8 ==> *final(state) == *old(state) && (r matches Err(e) && e@
            == column_range_message(dest_boundary_col)),
        dest_boundary_col <= 8 ==> ({
            let s = *old(state);
            let d = next_editor_double_spec(s.lanes.editor_ed03_double, s.lanes.editor_double_pin_hi, s.lanes.editor_double_skip_00);
            &&& r matches Ok(p) && p.1 == lo8(d) && p.0@ == marker_move_packet(
                s.counters.x80_cnt,
                s.counters.session_no,
                lo8(d),
                hi8(d),
                lo8(d),
                kind.bus_spec(),
            )
            &&& *final(state) == (HelixState {
                counters: Counters { x80_cnt: wadd8(s.counters.x80_cnt, 1), ..s.counters },
                lanes: EditorLanes { editor_ed03_double: d, ..s.lanes },
                ..s
            })
        }),
{
    match routing_move_tag_byte(dest_boundary_col) {
        Err(e) => return Err(e),
        Ok(_) => {},
    }
    let tag = state.next_editor_ed03_double()[0];
    let slot_bus = kind.slot_bus();
    let cnt = state.next_x80_cnt();
    let session = state.counters.session_no;
    let double = state.preset_data_packet_double();
    let pkt = vec![
        0x1d, 0x00, 0x00, 0x18, 0x80, 0x10, 0xed, 0x03, 0x00, cnt, 0x00, 0x04, session,
        double[0], double[1], 0x00, 0x01, 0x00, 0x06, 0x00, 0x0d, 0x00, 0x00, 0x00, 0x83, 0x66,
        0xcd, 0x03, tag, 0x64, 0x4e, 0x65, 0x82, 0x62, slot_bus, 0x1a, 0x00, 0x00, 0x00, 0x00,
    ];
    Ok((pkt, tag))
}

/// First rule that a marker move breaks (as a message), if any.
pub open spec fn move_violation(
    kind: RoutingMarkerKind,
    dest: u8,
    first_path2_col: u8,
    last_path2_col: u8,
    current_split_col: u8,
    current_merge_col: u8,
) -> Option<Seq<char>> {
    if dest > 8 {
        Some(column_range_message(dest))
    } else if first_path2_col > 7 || last_path2_col > 7 {
        Some("routing move : colonnes path 2 invalides"@)
    } else {
        match kind {
            RoutingMarkerKind::Split => if dest > first_path2_col {
                Some("routing move split : colonne "@ + decimal_of(dest as nat)
                    + " après le premier slot path 2 ("@ + decimal_of(first_path2_col as nat) + ")"@)
            } else if dest >= current_merge_col {
                Some("routing move split : colonne "@ + decimal_of(dest as nat)
                    + " doit rester avant merge ("@ + decimal_of(current_merge_col as nat) + ")"@)
            } else {
                None
            },
            RoutingMarkerKind::Merge => {
                let min_merge: u8 = if last_path2_col + 1 < 8 { (last_path2_col + 1) as u8 } else { 8 };
                if dest < min_merge {
                    Some("routing move merge : colonne "@ + decimal_of(dest as nat)
                        + " avant la fin path 2 (min "@ + decimal_of(min_merge as nat) + ")"@)
                } else if dest <= current_split_col {
                    Some("routing move merge : colonne "@ + decimal_of(dest as nat)
                        + " doit rester après split ("@ + decimal_of(current_split_col as nat) + ")"@)
                } else {
                    None
                }
            },
        }
    }
}

/// A marker move is accepted exactly when the column is in `0..8`, the path 2 columns are in
/// `0..7`, and: for a split, the column is at or before the first path 2 slot and before the
/// merge; for a merge, the column is at or after the end of path 2 (column 8 at the latest)
/// and after the split.
pub proof fn law_marker_move_accepted_iff_in_place(
    kind: RoutingMarkerKind,
    dest: u8,
    first_path2_col: u8,
    last_path2_col: u8,
    current_split_col: u8,
    current_merge_col: u8,
)
    ensures
        move_violation(kind, dest, first_path2_col, last_path2_col, current_split_col, current_merge_col) is None <==> {
            &&& dest <= 8
            &&& first_path2_col <= 7 && last_path2_col <= 7
            &&& kind == RoutingMarkerKind::Split ==> dest <= first_path2_col && dest < current_merge_col
            &&& kind == RoutingMarkerKind::Merge ==> (dest >= last_path2_col + 1 || dest == 8) && dest > current_split_col
        },
{
}

fn message_with_two_numbers(a: &str, x: u8, b: &str, y: u8) -> (r: String)
    ensures
        r@ == a@ + decimal_of(x as nat) + b@ + decimal_of(y as nat) + ")"@,
{
    let mut e = String::new();
    string_push_str(&mut e, a);
    push_decimal(&mut e, x as u64);
    string_push_str(&mut e, b);
    push_decimal(&mut e, y as u64);
    string_push_str(&mut e, ")");
    e
}

/// Checks a split/merge move: column in `0..8`, path 2 columns in `0..7`, a split not after
/// the first path 2 slot nor at or after the merge, a merge not before the end of path 2
/// nor at or before the split.
pub fn validate_routing_marker_move(
    kind: RoutingMarkerKind,
    dest_boundary_col: u8,
    first_path2_col: u8,
    last_path2_col: u8,
    current_split_col: u8,
    current_merge_col: u8,
) -> (r: Result<(), String>)
    ensures
        ({
            let v = move_violation(kind, dest_boundary_col, first_path2_col, last_path2_col, current_split_col, current_merge_col);
            &&& v is None ==> r is Ok
            &&& v matches Some(m) ==> (r matches Err(e) && e@ == m)
        }),
{
    match routing_move_tag_byte(dest_boundary_col) {
        Err(e) => return Err(e),
        Ok(_) => {},
    }
    if first_path2_col > 7 || last_path2_col > 7 {
        return Err(crate::text::text_of("routing move : colonnes path 2 invalides"));
    }
    match kind {
        RoutingMarkerKind::Split => {
            if dest_boundary_col > first_path2_col {
                return Err(message_with_two_numbers(
                    "routing move split : colonne ",
                    dest_boundary_col,
                    " après le premier slot path 2 (",
                    first_path2_col,
                ));
            }
            if dest_boundary_col >= current_merge_col {
                return Err(message_with_two_numbers(
                    "routing move split : colonne ",
                    dest_boundary_col,
                    " doit rester avant merge (",
                    current_merge_col,
                ));
            }
        },
        RoutingMarkerKind::Merge => {
            let min_merge: u8 = if last_path2_col + 1 < 8 { last_path2_col + 1 } else { 8 };
            if dest_boundary_col < min_merge {
                return Err(message_with_two_numbers(
                    "routing move merge : colonne ",
                    dest_boundary_col,
                    " avant la fin path 2 (min ",
                    min_merge,
                ));
            }
            if dest_boundary_col <= current_split_col {
                return Err(message_with_two_numbers(
                    "routing move merge : colonne ",
                    dest_boundary_col,
                    " doit rester après split (",
                    current_split_col,
                ));
            }
        },
    }
    Ok(())
}

} // verus!
