use hxlinux::usb_assign::{
    build_amp_cab_replace_cab_bulk, parse_hex_bytes, resolve_usb_assign_bulk, resolve_usb_assign_chain_hex_hint,
    usb_assign_entry_from_record, UsbAssignEntry,
};

const WHOWATT_LEGACY: &str =
    "230000188010ed03003900 04bd6c0200010006001300000083 66cd07fb642865826201648317c3192c1a4700";
const OTHER_LEGACY: &str =
    "230000188010ed0300390004bd6c020001000600130000008366cd07fb642865826201648317c319231a3300";
const CAB_LEGACY: &str =
    "230000188010ed0300550004482a000001000600130000008366cd03f6642865826204648317c219331aff00";
const CAB_LONG: &str =
    "250000188010ed0300550004482a000001000600150000008366cd03f6642865826204648317c219cd024d1aff00";

fn rec(id: &str, variant: &str, hex: &str, hint: &str) -> UsbAssignEntry {
    usb_assign_entry_from_record(Some(id), Some(variant), Some(hex), Some(hint)).expect("entry")
}

fn catalog() -> Vec<UsbAssignEntry> {
    vec![
        rec("HD2_AmpWhoWatt100", "amp+cab-legacy", WHOWATT_LEGACY, ""),
        rec("HD2_AmpOther", "amp+cab-legacy", OTHER_LEGACY, ""),
        rec("HD2_CabX", "legacy", CAB_LEGACY, " 33 "),
        rec("HD2_CabLong", "legacy", CAB_LONG, "cd024d"),
    ]
}

#[test]
fn parse_hex_skips_non_digits_and_refuses_odd() {
    assert_eq!(parse_hex_bytes("2f 00:AA"), Some(vec![0x2f, 0x00, 0xaa]));
    assert_eq!(parse_hex_bytes("abc"), None);
    assert_eq!(parse_hex_bytes("  "), None);
}

#[test]
fn records_need_id_and_long_bulk() {
    assert!(usb_assign_entry_from_record(Some(" "), None, Some(WHOWATT_LEGACY), None).is_none());
    assert!(usb_assign_entry_from_record(Some("X"), None, Some("2300"), None).is_none());
    assert!(usb_assign_entry_from_record(Some("X"), None, None, None).is_none());
    let e = usb_assign_entry_from_record(Some(" X "), None, Some(WHOWATT_LEGACY), None).unwrap();
    assert_eq!(e.id, b"X".to_vec());
    assert_eq!(e.variant, b"mono".to_vec());
    assert_eq!(e.bulk.len(), 44);
    assert_eq!(e.chain_hex_hint, "");
}

#[test]
fn resolves_bulk_and_hint_by_id_and_variant() {
    let cat = catalog();
    assert_eq!(resolve_usb_assign_bulk(&cat, " HD2_CabX ", " LEGACY ").map(|b| b.len()), Some(44));
    assert_eq!(resolve_usb_assign_bulk(&cat, "HD2_CabX", "mono"), None);
    assert_eq!(resolve_usb_assign_bulk(&cat, "", "legacy"), None);
    assert_eq!(resolve_usb_assign_chain_hex_hint(&cat, "HD2_CabX", "legacy"), Some("33".to_string()));
    assert_eq!(resolve_usb_assign_chain_hex_hint(&cat, "HD2_AmpWhoWatt100", "amp+cab-legacy"), None);
}

#[test]
fn legacy_replace_patches_cab_and_wire_before_1a() {
    let cat = catalog();
    let bulk = build_amp_cab_replace_cab_bulk(&cat, "HD2_AmpWhoWatt100", " Amp+Cab-Legacy ", "HD2_CabX", "legacy")
        .expect("replace");
    assert_eq!(bulk.len(), 44);
    assert_eq!(&bulk[38..44], &[0xc3, 0x19, 0x23, 0x1a, 0x33, 0x00]);
}

#[test]
fn replace_errors_name_their_cause() {
    let cat = catalog();
    assert_eq!(
        build_amp_cab_replace_cab_bulk(&cat, "HD2_AmpWhoWatt100", "mono", "HD2_CabX", "legacy"),
        Err("variante ampli attendue amp+cab ou amp+cab-legacy, reçu \"mono\"".to_string())
    );
    assert_eq!(
        build_amp_cab_replace_cab_bulk(&cat, "HD2_Nope", "amp+cab", "HD2_CabX", "legacy"),
        Err("Pas d'entrée HX_ModelUsbAssign pour ampli \"HD2_Nope\" variant \"amp+cab\"".to_string())
    );
    assert_eq!(
        build_amp_cab_replace_cab_bulk(&cat, "HD2_AmpWhoWatt100", "amp+cab-legacy", "HD2_CabLong", "legacy"),
        Err("cab legacy \"HD2_CabLong\" (hint cd024d) incompatible avec ampli compact legacy (cab 1 o) — choisir un cab hybrid court".to_string())
    );
}
