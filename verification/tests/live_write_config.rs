use hxlinux::live_write_config::{
    discrete_23_step_count, infer_bool_wire_payload, pp_override_for_display_type,
    validate_usb_live_write_metadata, HelixLiveWriteCfg,
};

/// The shipped configuration lists `comp_mode` as a two-position segmented display type.
fn shipped_cfg() -> HelixLiveWriteCfg {
    let mut c = HelixLiveWriteCfg::defaults();
    c.discrete_23_display_types.push((b"comp_mode".to_vec(), 2));
    c
}

#[test]
fn comp_mode_is_discrete_segmented_not_bool_markers() {
    let cfg = shipped_cfg();
    assert_eq!(discrete_23_step_count(&cfg, Some("comp_mode")), Some(2));
    assert!(!infer_bool_wire_payload(&cfg, Some("comp_mode"), Some(2)));
}

#[test]
fn off_on_stays_bool_even_with_value_type_2() {
    let cfg = shipped_cfg();
    assert!(infer_bool_wire_payload(&cfg, Some("off_on"), Some(2)));
}

#[test]
fn display_type_is_trimmed_and_case_folded() {
    let cfg = shipped_cfg();
    assert_eq!(discrete_23_step_count(&cfg, Some("  Comp_MODE\t")), Some(2));
    assert_eq!(discrete_23_step_count(&cfg, Some("\u{3000}comp_mode\u{a0}")), Some(2));
    assert!(infer_bool_wire_payload(&cfg, Some(" Polarity "), None));
    assert_eq!(discrete_23_step_count(&cfg, Some("   ")), None);
    assert_eq!(discrete_23_step_count(&cfg, None), None);
}

#[test]
fn zero_positions_is_not_segmented() {
    let mut cfg = shipped_cfg();
    cfg.discrete_23_display_types.insert(0, (b"gate".to_vec(), 0));
    assert_eq!(discrete_23_step_count(&cfg, Some("gate")), None);
}

#[test]
fn page_override_by_display_type() {
    let mut cfg = shipped_cfg();
    cfg.pp_by_display_type.push((b"Wave_Shape".to_vec(), 0x04));
    assert_eq!(pp_override_for_display_type(&cfg, Some("wave_shape")), Some(0x04));
    assert_eq!(pp_override_for_display_type(&cfg, Some("rate")), None);
}

#[test]
fn float_write_needs_an_allowed_value_type() {
    let cfg = shipped_cfg();
    assert!(validate_usb_live_write_metadata(&cfg, Some("knob"), Some(1)).is_ok());
    assert!(validate_usb_live_write_metadata(&cfg, Some("comp_mode"), None).is_ok());
    assert!(validate_usb_live_write_metadata(&cfg, Some("off_on"), None).is_ok());
    let missing = validate_usb_live_write_metadata(&cfg, Some("knob"), None).unwrap_err();
    assert_eq!(
        missing,
        "Live write USB refusé : valueType absent. Ajoute valueType dans le .models ou désactive l’écriture USB pour ce param."
    );
    let refused = validate_usb_live_write_metadata(&cfg, Some("knob"), Some(-7)).unwrap_err();
    assert_eq!(
        refused,
        "Live write USB refusé : valueType=-7 hors liste allowedFloatValueTypes [0, 1] — le chemin float 0x27 n’est pas validé pour ce type. Capture HX Edit ou étends HelixLiveWrite.json ; sinon risque de comportement erratique sur le hardware."
    );
}
