use sap_automation::cli_overrides::CliOverrides;
use sap_automation::config_types::SapConfig;
use sap_automation::date::Date;

const DEFAULT_DIR: &str = "C:\\Users\\me\\Documents\\Reports";

/// The configuration read from a file whose text is `content`.
fn load(content: &str) -> SapConfig {
    SapConfig::load_from_path("config.toml", Some(content), DEFAULT_DIR, &CliOverrides::default())
        .expect("load_from_path")
}

/// The configuration when the file does not exist.
fn load_missing() -> SapConfig {
    SapConfig::load_from_path("missing.toml", None, DEFAULT_DIR, &CliOverrides::default())
        .expect("load_from_path tolerates missing files")
}

fn some(s: &str) -> Option<String> {
    Some(s.to_string())
}

#[test]
fn by_delivery_cli_false_overrides_file_true_loop_run() {
    let mut cfg = load(
        r#"
[global]
reports_dir = "C:\\Test\\Reports"

[tcode.VT11]
variant = "TEST_VARIANT"
layout = "TEST_LAYOUT"
by_delivery = "true"
"#,
    );
    let overrides = CliOverrides { tcode: some("VT11"), by_delivery: Some(false), ..Default::default() };
    cfg.apply_overrides_with(&overrides);
    let merged = cfg.get_tcode_config("VT11", Some(true)).expect("VT11 config present");
    assert_eq!(merged.get("by_delivery").map(String::as_str), Some("false"));
}

#[test]
fn by_delivery_cli_false_overrides_file_true_normal_run() {
    let mut cfg = load(
        r#"
[tcode.VT11]
by_delivery = "true"
"#,
    );
    let overrides = CliOverrides { tcode: some("VT11"), by_delivery: Some(false), ..Default::default() };
    cfg.apply_overrides_with(&overrides);
    let merged = cfg.get_tcode_config("VT11", Some(false)).expect("VT11 config present");
    assert_eq!(merged.get("by_delivery").map(String::as_str), Some("false"));
}

#[test]
fn by_date_cli_false_overrides_file_true() {
    let mut cfg = load(
        r#"
[tcode.VT11]
by_date = "true"
"#,
    );
    let overrides = CliOverrides { tcode: some("VT11"), by_date: Some(false), ..Default::default() };
    cfg.apply_overrides_with(&overrides);
    let merged = cfg.get_tcode_config("VT11", Some(true)).unwrap();
    assert_eq!(merged.get("by_date").map(String::as_str), Some("false"));
}

#[test]
fn missing_config_with_cli_flags_yields_overrides_only() {
    let mut cfg = load_missing();
    let overrides = CliOverrides {
        tcode: some("VT11"),
        variant: some("v1"),
        layout: some("l1"),
        by_delivery: Some(false),
        by_date: Some(true),
        ..Default::default()
    };
    cfg.apply_overrides_with(&overrides);
    let merged = cfg.get_tcode_config("VT11", Some(true)).unwrap();
    assert_eq!(merged.get("variant").map(String::as_str), Some("v1"));
    assert_eq!(merged.get("layout").map(String::as_str), Some("l1"));
    assert_eq!(merged.get("by_delivery").map(String::as_str), Some("false"));
    assert_eq!(merged.get("by_date").map(String::as_str), Some("true"));
}

#[test]
fn overrides_given_to_load_are_applied() {
    let overrides = CliOverrides { tcode: some("VT11"), variant: some("v1"), ..Default::default() };
    let cfg = SapConfig::load_from_path("missing.toml", None, DEFAULT_DIR, &overrides).unwrap();
    let merged = cfg.get_tcode_config("VT11", None).unwrap();
    assert_eq!(merged.get("variant").map(String::as_str), Some("v1"));
}

#[test]
fn variant_layout_export_type_win_over_file() {
    let mut cfg = load(
        r#"
[tcode.VT11]
variant = "FILE_VARIANT"
layout = "FILE_LAYOUT"
export_type = 0
"#,
    );
    let overrides = CliOverrides {
        tcode: some("VT11"),
        variant: some("CLI_VARIANT"),
        layout: some("CLI_LAYOUT"),
        export_type: Some(2),
        ..Default::default()
    };
    cfg.apply_overrides_with(&overrides);
    let merged = cfg.get_tcode_config("VT11", Some(true)).unwrap();
    assert_eq!(merged.get("variant").map(String::as_str), Some("CLI_VARIANT"));
    assert_eq!(merged.get("layout").map(String::as_str), Some("CLI_LAYOUT"));
    assert_eq!(merged.get("export_type").map(String::as_str), Some("2"));
}

#[test]
fn global_overrides_win_over_file() {
    let mut cfg = load(
        r#"
[global]
reports_dir = "C:\\From\\File"
date_format = "mm/dd/yyyy"
timezone = "UTC"
"#,
    );
    let overrides = CliOverrides {
        reports_dir: some("D:\\From\\CLI"),
        date_format: some("yyyy-mm-dd"),
        timezone: some("America/Denver"),
        ..Default::default()
    };
    cfg.apply_overrides_with(&overrides);
    let g = cfg.global.as_ref().expect("global present");
    assert_eq!(g.reports_dir, "D:\\\\From\\\\CLI");
    assert_eq!(g.date_format, "yyyy-mm-dd");
    assert_eq!(g.timezone, "America/Denver");
}

#[test]
fn global_overrides_create_global_section_when_absent() {
    let mut cfg = load_missing();
    let overrides = CliOverrides { reports_dir: some("E:\\Reports"), ..Default::default() };
    cfg.apply_overrides_with(&overrides);
    assert!(cfg.global.is_some());
    assert_eq!(cfg.global.unwrap().reports_dir, "E:\\\\Reports");
}

#[test]
fn limiter_writes_into_additional_params() {
    let mut cfg = load(
        r#"
[tcode.VT11]
variant = "v"
"#,
    );
    let overrides = CliOverrides { tcode: some("VT11"), limiter: some("date_range"), ..Default::default() };
    cfg.apply_overrides_with(&overrides);
    let entry = cfg.tcode.as_ref().unwrap().get("VT11").unwrap();
    assert_eq!(entry.additional_params.get("limiter").map(String::as_str), Some("date_range"));
}

#[test]
fn date_range_writes_iso_strings() {
    let mut cfg = load_missing();
    let overrides = CliOverrides {
        tcode: some("VT11"),
        date_start: Date::from_ymd(2026, 5, 1),
        date_end: Date::from_ymd(2026, 5, 31),
        ..Default::default()
    };
    cfg.apply_overrides_with(&overrides);
    let entry = cfg.tcode.as_ref().unwrap().get("VT11").unwrap();
    assert_eq!(entry.date_range_start.as_deref(), Some("2026-05-01"));
    assert_eq!(entry.date_range_end.as_deref(), Some("2026-05-31"));
}

#[test]
fn by_shipment_true_on_vl06o_autofills_column_name() {
    let mut cfg = load_missing();
    let overrides = CliOverrides { tcode: some("VL06O"), by_shipment: Some(true), ..Default::default() };
    cfg.apply_overrides_with(&overrides);
    let entry = cfg.tcode.as_ref().unwrap().get("VL06O").unwrap();
    assert_eq!(entry.column_name.as_deref(), Some("Shipment Number"));
    assert_eq!(entry.additional_params.get("by_shipment").map(String::as_str), Some("true"));
}

#[test]
fn shipment_col_overrides_default_column_name() {
    let mut cfg = load_missing();
    let overrides = CliOverrides {
        tcode: some("VL06O"),
        by_shipment: Some(true),
        shipment_col: some("Custom Header"),
        ..Default::default()
    };
    cfg.apply_overrides_with(&overrides);
    let entry = cfg.tcode.as_ref().unwrap().get("VL06O").unwrap();
    assert_eq!(entry.column_name.as_deref(), Some("Custom Header"));
    assert_eq!(
        entry.additional_params.get("cli_shipment_col").map(String::as_str),
        Some("Custom Header")
    );
}

#[test]
fn by_shipment_false_does_not_autofill_column_name() {
    let mut cfg = load_missing();
    let overrides = CliOverrides { tcode: some("VL06O"), by_shipment: Some(false), ..Default::default() };
    cfg.apply_overrides_with(&overrides);
    let entry = cfg.tcode.as_ref().unwrap().get("VL06O").unwrap();
    assert!(entry.column_name.is_none());
}

#[test]
fn pre_export_back_lands_only_on_zmdesnr() {
    let mut cfg = load_missing();
    let overrides = CliOverrides { tcode: some("ZMDESNR"), pre_export_back: Some(true), ..Default::default() };
    cfg.apply_overrides_with(&overrides);
    let entry = cfg.tcode.as_ref().unwrap().get("ZMDESNR").unwrap();
    assert_eq!(entry.additional_params.get("pre_export_back").map(String::as_str), Some("true"));
}

#[test]
fn pre_export_back_ignored_when_tcode_not_zmdesnr() {
    let mut cfg = load_missing();
    let overrides = CliOverrides { tcode: some("VT11"), pre_export_back: Some(true), ..Default::default() };
    cfg.apply_overrides_with(&overrides);
    let entry = cfg.tcode.as_ref().unwrap().get("VT11").unwrap();
    assert!(!entry.additional_params.contains_key("pre_export_back"));
}

#[test]
fn tab_number_lands_only_on_zmdesnr() {
    let mut cfg = load_missing();
    let overrides = CliOverrides { tcode: some("ZMDESNR"), tab_number: Some(7), ..Default::default() };
    cfg.apply_overrides_with(&overrides);
    let entry = cfg.tcode.as_ref().unwrap().get("ZMDESNR").unwrap();
    assert_eq!(entry.tab_number.as_deref(), Some("7"));
}

#[test]
fn tab_number_ignored_when_tcode_not_zmdesnr() {
    let mut cfg = load_missing();
    let overrides = CliOverrides { tcode: some("VT11"), tab_number: Some(7), ..Default::default() };
    cfg.apply_overrides_with(&overrides);
    let entry = cfg.tcode.as_ref().unwrap().get("VT11").unwrap();
    assert!(entry.tab_number.is_none());
}

#[test]
fn delivery_file_and_col_land_in_additional_params() {
    let mut cfg = load_missing();
    let overrides = CliOverrides {
        tcode: some("VT11"),
        delivery_file: some("vt11"),
        delivery_col: some("Delivery"),
        ..Default::default()
    };
    cfg.apply_overrides_with(&overrides);
    let entry = cfg.tcode.as_ref().unwrap().get("VT11").unwrap();
    assert_eq!(entry.additional_params.get("cli_delivery_file").map(String::as_str), Some("vt11"));
    assert_eq!(entry.additional_params.get("cli_delivery_col").map(String::as_str), Some("Delivery"));
}

#[test]
fn cli_overrides_lowercase_149_section_case_insensitively() {
    let mut cfg = load(
        r#"
[tcode.y_dn3_47000149]
variant = "FILE_VARIANT"
layout = "FILE_LAYOUT"
export_type = 1
plants = ["FROM_FILE"]
"#,
    );
    let overrides = CliOverrides {
        tcode: some("Y_DN3_47000149"),
        variant: some("CLI_VARIANT"),
        layout: some("CLI_LAYOUT"),
        export_type: Some(0),
        plants: Some(vec!["CLI_PLT".to_string()]),
        ..Default::default()
    };
    cfg.apply_overrides_with(&overrides);

    let keys = cfg.tcode.as_ref().unwrap().names();
    assert_eq!(keys, vec!["y_dn3_47000149".to_string()]);

    let merged = cfg.get_tcode_config("y_dn3_47000149", Some(true)).expect("149 config present");
    assert_eq!(merged.get("variant").map(String::as_str), Some("CLI_VARIANT"));
    assert_eq!(merged.get("layout").map(String::as_str), Some("CLI_LAYOUT"));
    assert_eq!(merged.get("export_type").map(String::as_str), Some("0"));
    assert_eq!(merged.get("plants").map(String::as_str), Some("CLI_PLT"));

    let upper = cfg.get_tcode_config("Y_DN3_47000149", Some(true)).unwrap();
    assert_eq!(upper.get("variant").map(String::as_str), Some("CLI_VARIANT"));
}

#[test]
fn plants_cli_overrides_file_plants() {
    let mut cfg = load(
        r#"
[tcode.y_dn3_47000149]
plants = ["FILE_A", "FILE_B"]
"#,
    );
    let overrides = CliOverrides {
        tcode: some("y_dn3_47000149"),
        plants: Some(vec!["CLI_ONLY".to_string()]),
        ..Default::default()
    };
    cfg.apply_overrides_with(&overrides);
    let entry = cfg.tcode.as_ref().unwrap().get("y_dn3_47000149").expect("lowercase key preserved");
    assert_eq!(entry.plants, Some(vec!["CLI_ONLY".to_string()]));
}

#[test]
fn plants_loaded_from_file_when_no_cli() {
    let cfg = load(
        r#"
[tcode.y_dn3_47000149]
plants = ["A", "B"]
"#,
    );
    let entry = cfg.tcode.as_ref().unwrap().get("y_dn3_47000149").unwrap();
    assert_eq!(entry.plants, Some(vec!["A".to_string(), "B".to_string()]));
}

#[test]
fn empty_overrides_are_a_noop() {
    let mut cfg = load(
        r#"
[tcode.VT11]
variant = "FILE_VARIANT"
by_delivery = "true"
"#,
    );
    cfg.apply_overrides_with(&CliOverrides::default());
    let entry = cfg.tcode.as_ref().unwrap().get("VT11").unwrap();
    assert_eq!(entry.variant.as_deref(), Some("FILE_VARIANT"));
    assert_eq!(entry.by_delivery.as_deref(), Some("true"));
}

#[test]
fn applying_same_overrides_twice_is_idempotent() {
    let mut cfg = load(
        r#"
[tcode.VT11]
variant = "FILE"
"#,
    );
    let overrides = CliOverrides {
        tcode: some("VT11"),
        variant: some("CLI"),
        by_delivery: Some(false),
        ..Default::default()
    };
    cfg.apply_overrides_with(&overrides);
    cfg.apply_overrides_with(&overrides);
    let entry = cfg.tcode.as_ref().unwrap().get("VT11").unwrap();
    assert_eq!(entry.variant.as_deref(), Some("CLI"));
    assert_eq!(entry.by_delivery.as_deref(), Some("false"));
}
