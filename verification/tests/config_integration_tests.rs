use sap_automation::assoc::StrMap;
use sap_automation::cli_overrides::CliOverrides;
use sap_automation::config_types::{SapConfig, TcodeConfig, TcodeMap};
use sap_automation::date::Date;
use sap_automation::params::create_vl06o_params_from_config;

const DEFAULT_DIR: &str = "C:\\Users\\me\\Documents\\Reports";

fn load(content: &str) -> SapConfig {
    SapConfig::load_from_path("config.toml", Some(content), DEFAULT_DIR, &CliOverrides::default())
        .expect("load")
}

fn some(s: &str) -> Option<String> {
    Some(s.to_string())
}

#[test]
fn load_global_and_tcode_section() {
    let cfg = load(
        r#"
[global]
reports_dir = "C:\\Test\\Reports"
default_tcode = "VL06O"
timezone = "MST"

[tcode.VL06O]
variant = "TEST_VARIANT"
layout = "TEST_LAYOUT"
column_name = "Test Column"
date_range_start = "04/01/2025"
date_range_end = "04/15/2025"
"#,
    );
    let g = cfg.global.as_ref().expect("global section");
    assert_eq!(g.reports_dir, "C:\\\\Test\\\\Reports");
    assert_eq!(g.default_tcode.as_deref(), Some("VL06O"));
    assert_eq!(g.timezone, "MST");

    let tcodes = cfg.tcode.as_ref().expect("tcode map");
    let v = tcodes.get("VL06O").expect("VL06O entry");
    assert_eq!(v.variant.as_deref(), Some("TEST_VARIANT"));
    assert_eq!(v.layout.as_deref(), Some("TEST_LAYOUT"));
    assert_eq!(v.column_name.as_deref(), Some("Test Column"));
    assert_eq!(v.date_range_start.as_deref(), Some("04/01/2025"));
    assert_eq!(v.date_range_end.as_deref(), Some("04/15/2025"));
}

#[test]
fn get_tcode_config_returns_full_map_for_vl06o() {
    let mut cfg = SapConfig::new(DEFAULT_DIR);
    if cfg.tcode.is_none() {
        cfg.tcode = Some(TcodeMap::new());
    }
    let vl = TcodeConfig {
        variant: some("V"),
        layout: some("L"),
        column_name: some("Col"),
        date_range_start: some("04/01/2025"),
        date_range_end: some("04/15/2025"),
        by_date: some("true"),
        ..Default::default()
    };
    cfg.tcode.as_mut().unwrap().insert("VL06O".to_string(), vl);

    let mut vt = TcodeConfig::default();
    vt.additional_params.insert("custom_param".to_string(), "custom_value".to_string());
    cfg.tcode.as_mut().unwrap().insert("VT11".to_string(), vt);

    let vl_map = cfg.get_tcode_config("VL06O", None).unwrap();
    assert_eq!(vl_map.get("variant").map(String::as_str), Some("V"));
    assert_eq!(vl_map.get("layout").map(String::as_str), Some("L"));
    assert_eq!(vl_map.get("column_name").map(String::as_str), Some("Col"));
    assert_eq!(vl_map.get("date_range_start").map(String::as_str), Some("04/01/2025"));
    assert_eq!(vl_map.get("date_range_end").map(String::as_str), Some("04/15/2025"));
    assert_eq!(vl_map.get("by_date").map(String::as_str), Some("true"));

    let vt_map = cfg.get_tcode_config("VT11", None).unwrap();
    assert_eq!(vt_map.get("custom_param").map(String::as_str), Some("custom_value"));
    assert!(!vt_map.contains_key("by_date"));
}

#[test]
fn unknown_tcode_returns_none() {
    let cfg = SapConfig::new(DEFAULT_DIR);
    assert!(cfg.get_tcode_config("DOES_NOT_EXIST", None).is_none());
}

#[test]
fn loop_section_round_trips() {
    let cfg = load(
        r#"
[global]
reports_dir = "C:\\Reports"

[loop]
tcode = "VL06O"
iterations = "5"
delay_seconds = "10"
"#,
    );
    let lc = cfg.loop_config.as_ref().expect("loop config");
    assert_eq!(lc.tcode, "VL06O");
    assert_eq!(lc.iterations, "5");
    assert_eq!(lc.delay_seconds, "10");
}

#[test]
fn loop_section_alone_is_ignored() {
    let cfg = load(
        r#"
[loop]
tcode = "VL06O"
"#,
    );
    assert!(cfg.loop_config.is_none());
}

#[test]
fn empty_file_loads_with_default_global() {
    let cfg = load("");
    assert!(cfg.global.is_some());
}

#[test]
fn malformed_toml_returns_err() {
    let result = SapConfig::load_from_path(
        "config.toml",
        Some("this is not [valid toml"),
        DEFAULT_DIR,
        &CliOverrides::default(),
    );
    assert!(result.is_err());
    assert!(result.err().unwrap().starts_with("Failed to parse config: "));
}

// ---------- the settings the report modules read ----------

fn setting(m: &StrMap, key: &str) -> Option<String> {
    m.get(key).cloned()
}

#[test]
fn vl06o_full_config_round_trips() {
    let cfg = load(
        r#"
[global]
reports_dir = "C:\\Test\\Reports"
default_tcode = "VL06O"

[tcode.VL06O]
variant = "TEST_VARIANT"
layout = "TEST_LAYOUT"
column_name = "Test Column"
date_range_start = "04/01/2025"
date_range_end = "04/15/2025"
by_date = "true"
"#,
    );
    let map = cfg.get_tcode_config("VL06O", None).expect("VL06O config present");
    let today = Date::from_ymd(2030, 1, 1).unwrap();
    let p = create_vl06o_params_from_config(&map, "mm/dd/yyyy", today);
    assert_eq!(p.sap_variant_name.as_deref(), Some("TEST_VARIANT"));
    assert_eq!(p.layout_row.as_deref(), Some("TEST_LAYOUT"));
    assert_eq!(p.column_name.as_deref(), Some("Test Column"));
    assert!(p.by_date);
    assert_eq!(Some(p.start_date), Date::from_ymd(2025, 4, 1));
    assert_eq!(Some(p.end_date), Date::from_ymd(2025, 4, 15));
}

#[test]
fn vt11_full_config_round_trips() {
    let cfg = load(
        r#"
[tcode.VT11]
variant = "VT11_VARIANT"
layout = "VT11_LAYOUT"
column_name = "VT11 Column"
date_range_start = "04/01/2025"
date_range_end = "04/15/2025"
"#,
    );
    let map = cfg.get_tcode_config("VT11", None).unwrap();
    assert_eq!(setting(&map, "variant").as_deref(), Some("VT11_VARIANT"));
    assert_eq!(setting(&map, "layout").as_deref(), Some("VT11_LAYOUT"));
    assert_eq!(setting(&map, "column_name").as_deref(), Some("VT11 Column"));
}

#[test]
fn zmdesnr_full_config_round_trips() {
    let cfg = load(
        r#"
[tcode.ZMDESNR]
variant = "ZMD_VARIANT"
layout = "ZMD_LAYOUT"
serial_number = "123456789"
"#,
    );
    let map = cfg.get_tcode_config("ZMDESNR", None).unwrap();
    assert_eq!(setting(&map, "variant").as_deref(), Some("ZMD_VARIANT"));
    assert_eq!(setting(&map, "layout").as_deref(), Some("ZMD_LAYOUT"));
    assert_eq!(setting(&map, "serial_number").as_deref(), Some("123456789"));
}

#[test]
fn missing_config_returns_none_for_unknown_tcode() {
    let cfg = load("");
    assert!(cfg.get_tcode_config("VT11", None).is_none());
    assert!(cfg.get_tcode_config("ZMDESNR", None).is_none());
}

#[test]
fn nonexistent_path_returns_default_config() {
    let cfg = SapConfig::load_from_path("never-existed.toml", None, DEFAULT_DIR, &CliOverrides::default())
        .expect("load_from_path tolerates a missing file");
    assert!(cfg.get_tcode_config("VT11", None).is_none());
}

#[test]
fn multiple_date_formats_are_accepted() {
    let cfg = load(
        r#"
[tcode.VL06O]
variant = "v"
date_range_start = "2025-04-01"
date_range_end = "04-15-2025"
"#,
    );
    let map = cfg.get_tcode_config("VL06O", None).unwrap();
    let today = Date::from_ymd(2030, 1, 1).unwrap();
    let p = create_vl06o_params_from_config(&map, "mm/dd/yyyy", today);
    assert_eq!(Some(p.start_date), Date::from_ymd(2025, 4, 1));
    assert_eq!(Some(p.end_date), Date::from_ymd(2025, 4, 15));
}

#[test]
fn tcode_specific_sections_are_isolated() {
    let cfg = load(
        r#"
[tcode.VL06O]
variant = "VL06O_VARIANT"
by_date = "true"

[tcode.VT11]
column_name = "VT11 Column"

[tcode.ZMDESNR]
serial_number = "123456789"
"#,
    );
    let vl_map = cfg.get_tcode_config("VL06O", None).unwrap();
    assert_eq!(vl_map.get("variant").map(String::as_str), Some("VL06O_VARIANT"));
    assert_eq!(vl_map.get("by_date").map(String::as_str), Some("true"));
    assert!(vl_map.get("serial_number").is_none());

    let vt_map = cfg.get_tcode_config("VT11", None).unwrap();
    assert_eq!(vt_map.get("column_name").map(String::as_str), Some("VT11 Column"));
    assert!(vt_map.get("by_date").is_none());

    let zm_map = cfg.get_tcode_config("ZMDESNR", None).unwrap();
    assert_eq!(zm_map.get("serial_number").map(String::as_str), Some("123456789"));
    assert!(zm_map.get("by_date").is_none());
}

#[test]
fn saved_text_reads_back_the_same_sections() {
    let cfg = load(
        r#"
[global]
reports_dir = "C:\\Reports"
timezone = "MST"

[tcode.VT11]
variant = "V"
by_date = "true"
"#,
    );
    let text = cfg.to_toml_string();
    let again = load(&text);
    let a = cfg.get_tcode_config("VT11", None).unwrap();
    let b = again.get_tcode_config("VT11", None).unwrap();
    assert_eq!(a.get("variant"), b.get("variant"));
    assert_eq!(a.get("by_date"), b.get("by_date"));
    assert_eq!(again.global.as_ref().unwrap().timezone, "MST");
}

#[test]
fn reports_dir_set_then_get() {
    let mut cfg = SapConfig::new(DEFAULT_DIR);
    cfg.set_reports_dir("D:\\Out");
    assert_eq!(cfg.get_reports_dir(), "D:\\Out");
    cfg.set_instance_id("prod");
    assert_eq!(cfg.get_instance_id(), "prod");
}

#[test]
fn layout_columns_are_given_as_json() {
    let cfg = load(
        r#"
[tcode.VT11]
layout_columns = ["Plant", "Delivery \"No\""]
"#,
    );
    let map = cfg.get_tcode_config("VT11", None).unwrap();
    assert_eq!(map.get("layout_columns").map(String::as_str), Some("[\"Plant\",\"Delivery \\\"No\\\"\"]"));
}

#[test]
fn plants_are_joined_with_commas() {
    let cfg = load(
        r#"
[tcode.y_dn3_47000149]
plants = ["FV52", "FV55"]
"#,
    );
    let map = cfg.get_tcode_config("y_dn3_47000149", None).unwrap();
    assert_eq!(map.get("plants").map(String::as_str), Some("FV52,FV55"));
}

#[test]
fn string_plants_is_an_additional_parameter() {
    let cfg = load(
        r#"
[tcode.y_dn3_47000149]
plants = "FV52"
"#,
    );
    let entry = cfg.tcode.as_ref().unwrap().get("y_dn3_47000149").unwrap();
    assert_eq!(entry.plants, None);
    assert_eq!(entry.additional_params.get("plants").map(String::as_str), Some("FV52"));
}

#[test]
fn unknown_sections_survive_load_save_load() {
    let cfg = load(
        r#"
[global]
reports_dir = "C:\\Reports"

[inbond]
variant_149 = "V"
export_type = 2
layout_columns = ["Plant", "Material"]
"#,
    );
    let again = load(&cfg.to_toml_string());
    let third = load(&again.to_toml_string());
    assert_eq!(again.to_toml_string(), third.to_toml_string());
    let s = sap_automation::inbond::InbondSettings::from_config(&third.raw_config);
    assert_eq!(s.variant_149, "V");
    assert_eq!(s.export_type, 2);
    assert_eq!(s.layout_columns, vec!["Plant".to_string(), "Material".to_string()]);
}

#[test]
fn every_saved_setting_reads_back() {
    let cfg = load(
        r#"
[global]
reports_dir = "C:\\Reports"

[tcode.VL06O]
variant = "V1"
layout = "L1"
column_name = "Delivery"
date_range_start = "04/01/2025"
date_range_end = "04/15/2025"
by_date = "true"
by_delivery = "false"
serial_number = "42"
tab_number = "3"
export_type = 7
layout_columns = ["Plant", "Material"]
limiter = "500"
plants = "FV52"
"#,
    );
    let again = load(&cfg.to_toml_string());
    let a = cfg.tcode.as_ref().unwrap().get("VL06O").unwrap();
    let b = again.tcode.as_ref().unwrap().get("VL06O").unwrap();
    assert_eq!(b.variant, a.variant);
    assert_eq!(b.layout, a.layout);
    assert_eq!(b.column_name, a.column_name);
    assert_eq!(b.date_range_start, a.date_range_start);
    assert_eq!(b.date_range_end, a.date_range_end);
    assert_eq!(b.by_date, a.by_date);
    assert_eq!(b.serial_number, a.serial_number);
    assert_eq!(b.tab_number, a.tab_number);
    assert_eq!(b.export_type, Some(7));
    assert_eq!(b.layout_columns, Some(vec!["Plant".to_string(), "Material".to_string()]));
    assert_eq!(a.by_delivery.as_deref(), Some("false"));
    assert_eq!(b.by_delivery, None);
    assert_eq!(b.plants, None);
    assert_eq!(b.additional_params.get("limiter").map(String::as_str), Some("500"));
    assert_eq!(b.additional_params.get("plants").map(String::as_str), Some("FV52"));
}

#[test]
fn layout_columns_json_escapes_control_characters() {
    let cfg = load(
        r#"
[tcode.VT11]
layout_columns = ["Tab\tHere", "Bell\u0001", "Back\\slash"]
"#,
    );
    let map = cfg.get_tcode_config("VT11", None).unwrap();
    assert_eq!(
        map.get("layout_columns").map(String::as_str),
        Some("[\"Tab\\tHere\",\"Bell\\u0001\",\"Back\\\\slash\"]")
    );
}
