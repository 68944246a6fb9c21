use sap_automation::assoc::StrMap;
use sap_automation::cli_overrides::CliOverrides;
use sap_automation::config_types::SapConfig;
use sap_automation::date::{format_date_as, parse_date_as, Date, DateStyle};
use sap_automation::inbond::{inbond_149_params, inbond_default_layout_columns, inbond_shipment, InbondSettings};
use sap_automation::params::{
    create_149_material_params_from_config, create_149_params_from_config, create_lx03_params_from_config,
    create_vl06o_params_from_config, create_zvt11_params_from_config, get_export_type_description, parse_date,
    resolve_export_type, LX03Params, Report149ByDeliveryParams, Report149MaterialParams, Report149Params,
    VL06OParams, VT11Params, ZVT11Params,
};
use sap_automation::prompts::{
    comma_separated, confirms_yes, date_entry_style, excel_directory, item_type_name, layout_prompt,
    paste_line, pasted_numbers, reports_dir_answer, typed_numbers, typed_or, typed_or_none, variant_prompt,
    PasteLine,
};

fn day(y: i32, m: u32, d: u32) -> Date {
    Date::from_ymd(y, m, d).unwrap()
}

fn settings(pairs: &[(&str, &str)]) -> StrMap {
    let mut m = StrMap::new();
    for (k, v) in pairs {
        m.insert(k.to_string(), v.to_string());
    }
    m
}

fn load(content: &str) -> SapConfig {
    SapConfig::load_from_path("config.toml", Some(content), "C:\\Reports", &CliOverrides::default()).unwrap()
}

#[test]
fn dates_parse_and_format_through_chrono() {
    assert_eq!(parse_date_as("2026-02-28", DateStyle::Iso), Some(day(2026, 2, 28)));
    assert_eq!(parse_date_as("2026-02-30", DateStyle::Iso), None);
    assert_eq!(parse_date_as("02/28/2026", DateStyle::MonthDayYearSlash), Some(day(2026, 2, 28)));
    assert_eq!(parse_date_as("28-02-26", DateStyle::DayMonthShortYear), Some(day(2026, 2, 28)));
    assert_eq!(format_date_as(day(2026, 3, 4), DateStyle::MonthDayYearSlash), "03/04/2026");
    assert_eq!(format_date_as(day(2026, 3, 4), DateStyle::Iso), "2026-03-04");
    assert_eq!(format_date_as(day(2026, 3, 4), DateStyle::DayMonthYear), "04-03-2026");
    assert_eq!(Date::from_ymd(2025, 2, 29), None);
    assert_eq!(Date::from_ymd(2024, 2, 29), Some(day(2024, 2, 29)));
}

#[test]
fn parse_date_tries_the_configured_format_first() {
    assert_eq!(parse_date("2026-01-05", "YYYY-MM-DD"), Some(day(2026, 1, 5)));
    assert_eq!(parse_date("01/05/2026", "yyyy-mm-dd"), Some(day(2026, 1, 5)));
    assert_eq!(parse_date("01-05-2026", "mm/dd/yyyy"), Some(day(2026, 1, 5)));
    assert_eq!(parse_date("5 Jan 2026", "mm/dd/yyyy"), None);
}

#[test]
fn vl06o_params_from_settings() {
    let today = day(2030, 6, 1);
    let m = settings(&[("variant", "V"), ("date_range_start", "bad"), ("by_date", "TRUE")]);
    let p = create_vl06o_params_from_config(&m, "mm/dd/yyyy", today);
    assert_eq!(p.sap_variant_name.as_deref(), Some("V"));
    assert_eq!(p.layout_row, None);
    assert_eq!(p.start_date, today);
    assert_eq!(p.end_date, today);
    assert!(p.by_date);
    let n = VL06OParams::new(today);
    assert_eq!(n.start_date, today);
    assert!(!n.by_date);
}

#[test]
fn zvt11_params_from_settings() {
    let today = day(2030, 6, 1);
    let m = settings(&[
        ("date_range_start", "2026-01-02"),
        ("date_range_end", "01/09/2026"),
        ("by_date", "TRUE"),
        ("by_delivery", "true"),
        ("limiter", "date_range"),
    ]);
    let p = create_zvt11_params_from_config(&m, today);
    assert_eq!(p.start_date, day(2026, 1, 2));
    assert_eq!(p.end_date, today);
    assert!(!p.by_date);
    assert!(p.by_delivery);
    assert_eq!(p.limiter.as_deref(), Some("date_range"));
    assert_eq!(p.t_code, "ZVT11");
    assert_eq!(ZVT11Params::new(today).t_code, "ZVT11");
    assert_eq!(VT11Params::new(today).t_code, "VT11");
}

#[test]
fn lx03_params_and_export_type() {
    let p = create_lx03_params_from_config(&settings(&[("layout", "L"), ("export_type", "3")]));
    assert_eq!(p.layout_row.as_deref(), Some("L"));
    assert_eq!(p.export_type, Some(3));
    assert_eq!(p.t_code, "LX03");
    let q = create_lx03_params_from_config(&settings(&[("export_type", "x")]));
    assert_eq!(q.export_type, None);
    assert_eq!(LX03Params::new().t_code, "LX03");
    assert_eq!(resolve_export_type(Some(2), Some(3)), 2);
    assert_eq!(resolve_export_type(None, Some(3)), 3);
    assert_eq!(resolve_export_type(None, None), 1);
}

#[test]
fn export_type_descriptions() {
    assert_eq!(get_export_type_description(0), "unconverted");
    assert_eq!(get_export_type_description(1), "text with tabs");
    assert_eq!(get_export_type_description(2), "rich text format");
    assert_eq!(get_export_type_description(3), "HTML format");
    assert_eq!(get_export_type_description(4), "clipboard");
    assert_eq!(get_export_type_description(5), "unknown");
}

#[test]
fn report_149_params_from_config() {
    let cfg = load("[tcode.y_dn3_47000149]\nvariant = \"V149\"\nplants = [\"FV52\", \"FV55\"]\n");
    let p = create_149_params_from_config(&cfg);
    assert_eq!(p.variant, "V149");
    assert_eq!(p.plants, vec!["FV52".to_string(), "FV55".to_string()]);
    assert_eq!(p.export_type, 1);
    let d = Report149Params::default();
    assert_eq!(d.variant, "149_unload");
    assert!(d.plants.is_empty());
    let e = create_149_params_from_config(&load("[tcode.y_dn3_47000149]\nexport_type = 3\n"));
    assert_eq!(e.variant, "149_unload");
    assert_eq!(e.export_type, 3);
}

#[test]
fn material_params_from_settings() {
    let p = create_149_material_params_from_config(&settings(&[("material", "M1"), ("signi", "S")]));
    assert_eq!(p.plant, "BRUH");
    assert_eq!(p.signi, "S");
    assert_eq!(p.material, "M1");
    assert_eq!(p.export_type, 1);
    let q = create_149_material_params_from_config(&settings(&[("mat_variant", "MV"), ("plant", "FV52"), ("export_type", "2")]));
    assert_eq!(q.variant.as_deref(), Some("MV"));
    assert_eq!(q.plant, "");
    assert_eq!(q.export_type, 2);
    assert_eq!(Report149MaterialParams::default().export_type, 1);
}

#[test]
fn inbond_settings_defaults_and_overrides() {
    let d = InbondSettings::from_config(&None);
    assert_eq!(d.vl06o_variant, "blank_");
    assert_eq!(d.variant_149, "inb_ship");
    assert_eq!(d.layout_149, "inb_ship");
    assert_eq!(d.layout_columns, inbond_default_layout_columns());
    assert_eq!(d.export_type, 1);
    assert!(d.open_notepad);
    let cfg = load(
        "[global]\nreports_dir = \"C:\\\\R\"\n\n[inbond]\nvl06o_variant = \"\"\nvariant_149 = \"V\"\nlayout_columns = [\"Plant\", \"\"]\nexport_type = 9\nopen_notepad = \"No\"\n",
    );
    let s = InbondSettings::from_config(&cfg.raw_config);
    assert_eq!(s.vl06o_variant, "blank_");
    assert_eq!(s.variant_149, "V");
    assert_eq!(s.layout_columns, vec!["Plant".to_string()]);
    assert_eq!(s.export_type, 1);
    assert!(!s.open_notepad);
}

#[test]
fn inbond_run_parameters() {
    assert_eq!(inbond_shipment("  4711 "), Some("4711".to_string()));
    assert_eq!(inbond_shipment("   "), None);
    let s = InbondSettings::from_config(&None);
    let p = inbond_149_params(&s, vec!["1".to_string()], "4711");
    assert_eq!(p.variant, "inb_ship");
    assert_eq!(p.delivery_numbers, vec!["1".to_string()]);
    assert_eq!(p.filename_suffix.as_deref(), Some("inbond-4711"));
    let d = Report149ByDeliveryParams::default();
    assert_eq!(d.filename_suffix.as_deref(), Some("inbond"));
    assert_eq!(
        inbond_default_layout_columns(),
        vec!["Plant", "Delivery Number", "Material", "Quantity", "UOM", "Logistics Reference Number"]
    );
}

#[test]
fn prompt_answers() {
    assert_eq!(date_entry_style("YYYY-mm-dd"), (DateStyle::Iso, "YYYY-MM-DD"));
    assert_eq!(date_entry_style("mm/dd/yyyy"), (DateStyle::MonthDayYearSlash, "MM/DD/YYYY"));
    assert_eq!(typed_or_none(String::new()), None);
    assert_eq!(typed_or_none("x".to_string()), Some("x".to_string()));
    assert_eq!(typed_or(String::new(), "d"), "d");
    assert_eq!(typed_or("t".to_string(), "d"), "t");
    assert_eq!(comma_separated(" 1, ,2 ,"), vec!["1", "2"]);
    assert_eq!(typed_numbers("1 2\t3"), vec!["1", "2", "3"]);
    assert_eq!(typed_numbers("1, 2 3"), vec!["1", "2 3"]);
    assert_eq!(pasted_numbers(" 1\n\n 2 \r\n"), vec!["1", "2"]);
    assert_eq!(paste_line("  ", ""), PasteLine::Nothing);
    assert_eq!(paste_line("", "1\n"), PasteLine::Finish);
    assert_eq!(paste_line("3", ""), PasteLine::More);
    assert_eq!(variant_prompt(&Some("V".to_string())), "SAP variant name (default: V)");
    assert_eq!(variant_prompt(&None), "SAP variant name (leave empty for none)");
    assert_eq!(layout_prompt(&Some("L".to_string())), "Layout row (default: L)");
    assert_eq!(layout_prompt(&None), "Layout row (leave empty for default)");
    assert_eq!(item_type_name(true), "shipment");
    assert_eq!(item_type_name(false), "delivery");
    assert_eq!(excel_directory("C:\\R", ""), "C:\\R");
    assert_eq!(excel_directory("C:\\R", "vt11"), "C:\\R\\vt11");
    assert!(confirms_yes(" Y "));
    assert!(!confirms_yes("yes"));
}

#[test]
fn reports_dir_answers() {
    assert_eq!(reports_dir_answer("", "C:\\R", None), None);
    assert_eq!(reports_dir_answer("C:\\R", "C:\\R", None), None);
    assert_eq!(reports_dir_answer("..\\Other", "C:\\R", Some("C:\\")), Some("C:\\\\Other".to_string()));
    assert_eq!(reports_dir_answer("../Other", "C:\\R", None), Some("../Other".to_string()));
    assert_eq!(reports_dir_answer("sub", "C:\\R", None), Some("C:\\R\\sub".to_string()));
    assert_eq!(reports_dir_answer("D:\\X", "C:\\R", None), Some("D:\\X".to_string()));
}

#[test]
fn dates_within_chronos_years_only() {
    assert!(Date::from_ymd(262142, 12, 31).is_some());
    assert!(Date::from_ymd(262143, 1, 1).is_none());
    assert!(Date::from_ymd(-262143, 1, 1).is_some());
    assert!(Date::from_ymd(-262144, 12, 31).is_none());
}

#[test]
fn ordinary_years_format_with_padded_fields() {
    let d = Date::from_ymd(987, 1, 5).unwrap();
    assert_eq!(format_date_as(d, DateStyle::Iso), "0987-01-05");
    assert_eq!(format_date_as(d, DateStyle::MonthDayYearDash), "01-05-0987");
    assert_eq!(format_date_as(d, DateStyle::DayMonthShortYear), "05-01-87");
    let invalid = Date { year: 2025, month: 2, day: 30 };
    assert_eq!(format_date_as(invalid, DateStyle::Iso), "");
}
