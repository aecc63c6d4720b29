use hxlinux::model_catalog::{
    chain_hex_entry_from_record, chain_hex_hint_index_eligible, chain_hex_hint_shared_with_amp,
    chain_hex_lookup_candidates, model_id_by_hex_map, module_by_hex_map, resolve_chain_hex_and_name,
    resolve_chain_hex_entry, usb_assign_variant_priority, ChainHexCatalogEntry,
};

fn entry(id: &str, variant: Option<&str>, hint: &str, name: &str, cat: &str, sub: &str) -> ChainHexCatalogEntry {
    chain_hex_entry_from_record(Some(id), variant, Some(hint), Some(name), Some(cat), Some(sub)).expect("entry")
}

fn catalog() -> Vec<ChainHexCatalogEntry> {
    vec![
        entry("HD2_DistHeirApparent", None, "cd0223", "Heir Apparent", "Distortion", "Mono"),
        entry("HD2_DelayTesselatorMono", Some("mono"), "cd0279", "Tesselator", "Delay", "Mono"),
        entry("HD2_DelayTesselatorStereo", Some("stereo"), "cd027a", "Tesselator", "Delay", "Stereo"),
        entry("HD2_DistMinotaurStereo", Some("stereo"), "70", "Minotaur", "Distortion", "Stereo"),
        entry("HD2_DistMinotaur", Some("mono"), "70", "Minotaur", "Distortion", "Mono"),
        entry("HD2_AmpWhoWatt100", Some("amp"), "2c", "WhoWatt 100", "Amp", ""),
    ]
}

#[test]
fn record_fields_are_trimmed_and_defaulted() {
    let e = chain_hex_entry_from_record(Some("  HD2_X "), None, Some(" CD0223 "), Some(" Heir Apparent "), None, None)
        .expect("entry");
    assert_eq!(e.model_id, b"HD2_X".to_vec());
    assert_eq!(e.variant, b"mono".to_vec());
    assert_eq!(e.chain_hex, b"cd0223".to_vec());
    assert_eq!(e.name, b"Heir Apparent".to_vec());
    assert_eq!(e.category, b"Unknown".to_vec());
    assert_eq!(e.sub_category, Vec::<u8>::new());
}

#[test]
fn records_without_required_fields_or_shared_variant_are_dropped() {
    assert!(chain_hex_entry_from_record(None, None, Some("2c"), Some("A"), None, None).is_none());
    assert!(chain_hex_entry_from_record(Some("  "), None, Some("2c"), Some("A"), None, None).is_none());
    assert!(chain_hex_entry_from_record(Some("X"), None, None, Some("A"), None, None).is_none());
    assert!(chain_hex_entry_from_record(Some("X"), None, Some("   "), Some("A"), None, None).is_none());
    assert!(chain_hex_entry_from_record(Some("X"), None, Some("2c"), Some(" "), None, None).is_none());
    assert!(chain_hex_entry_from_record(Some("X"), Some(" Amp+Cab "), Some("2c"), Some("A"), None, None).is_none());
    assert!(chain_hex_entry_from_record(Some("X"), Some("amp+cab-legacy"), Some("2c"), Some("A"), None, None).is_none());
}

#[test]
fn variant_flags_and_priorities() {
    assert!(chain_hex_hint_shared_with_amp(" AMP+CAB "));
    assert!(!chain_hex_hint_index_eligible("amp+cab-legacy"));
    assert!(chain_hex_hint_index_eligible("amp"));
    assert_eq!(usb_assign_variant_priority(" Amp "), 100);
    assert_eq!(usb_assign_variant_priority("preamp"), 95);
    assert_eq!(usb_assign_variant_priority("STEREO"), 50);
    assert_eq!(usb_assign_variant_priority("dual"), 49);
    assert_eq!(usb_assign_variant_priority("mono"), 48);
    assert_eq!(usb_assign_variant_priority("single"), 47);
    assert_eq!(usb_assign_variant_priority("legacy"), 46);
    assert_eq!(usb_assign_variant_priority("other"), 1);
}

#[test]
fn candidates_longest_first_with_prefix_and_cd_windows() {
    let c = chain_hex_lookup_candidates(" 19231A09CD0223 ");
    assert_eq!(c, vec![b"19231a09cd0223".to_vec(), b"cd0223".to_vec(), b"1923".to_vec()]);
    assert!(chain_hex_lookup_candidates("  ").is_empty());
    assert_eq!(chain_hex_lookup_candidates("cd0223"), vec![b"cd0223".to_vec()]);
}

#[test]
fn resolves_by_chain_hex_and_embedded_module_id() {
    let cat = catalog();
    let e = resolve_chain_hex_entry(&cat, "cd0223").expect("cd0223");
    assert_eq!(e.name, b"Heir Apparent".to_vec());
    assert_eq!(e.category, b"Distortion".to_vec());
    let e = resolve_chain_hex_entry(&cat, "19231a09cd0223").expect("embedded");
    assert_eq!(e.chain_hex, b"cd0223".to_vec());
    let e = resolve_chain_hex_entry(&cat, "cd027a").expect("stereo");
    assert_eq!(e.sub_category, b"Stereo".to_vec());
    let e = resolve_chain_hex_entry(&cat, "cd0279").expect("mono");
    assert_eq!(e.sub_category, b"Mono".to_vec());
    assert!(resolve_chain_hex_entry(&cat, "cdffff").is_none());
    assert_eq!(
        resolve_chain_hex_and_name(&cat, "CD0223"),
        Some((b"cd0223".to_vec(), b"Heir Apparent".to_vec()))
    );
}

#[test]
fn shared_hint_goes_to_higher_priority_variant() {
    let cat = catalog();
    let e = resolve_chain_hex_entry(&cat, "70").expect("70");
    assert_eq!(e.name, b"Minotaur".to_vec());
    assert_eq!(e.sub_category, b"Stereo".to_vec());
    let m = module_by_hex_map(&cat);
    let pair = m.iter().find(|(k, _)| k == b"2c").map(|(_, v)| v.clone()).expect("2c");
    assert_eq!(pair, (b"Amp".to_vec(), b"WhoWatt 100".to_vec()));
    let ids = model_id_by_hex_map(&cat);
    let id = ids.iter().find(|(k, _)| k == b"70").map(|(_, v)| v.clone()).expect("70");
    assert_eq!(id, b"HD2_DistMinotaurStereo".to_vec());
}

#[test]
fn equal_priority_keeps_the_later_entry() {
    let cat = vec![
        entry("A", Some("mono"), "cd0100", "First", "X", ""),
        entry("B", Some("mono"), "cd0100", "Second", "X", ""),
    ];
    let e = resolve_chain_hex_entry(&cat, "cd0100").expect("hit");
    assert_eq!(e.name, b"Second".to_vec());
}
