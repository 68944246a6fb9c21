use sap_automation::cli::{validate_overrides, Cli, RunMode};
use sap_automation::cli_overrides::CliOverrides;
use sap_automation::date::Date;

/// A command line with no flag given.
fn blank() -> Cli {
    Cli {
        command: None,
        run_loop: false,
        run_sequence: false,
        skip_sap_check: false,
        keep_awake: false,
        tcode: None,
        layout: None,
        variant: None,
        export_type: None,
        tcode_run_type: None,
        iterations: None,
        interval_seconds: None,
        delay_seconds: None,
        reports_dir: None,
        date_format: None,
        timezone: None,
        by_date: None,
        by_delivery: None,
        by_shipment: None,
        limiter: None,
        date_start: None,
        date_end: None,
        delivery_file: None,
        delivery_col: None,
        shipment_file: None,
        shipment_col: None,
        pre_export_back: None,
        tab_number: None,
    }
}

fn some(s: &str) -> Option<String> {
    Some(s.to_string())
}

#[test]
fn tcode_uppercases() {
    let mut cli = blank();
    cli.tcode = some("vt11");
    let o = cli.to_overrides().unwrap();
    assert_eq!(o.tcode, Some("VT11".to_string()));
}

#[test]
fn omitted_flags_yield_all_none() {
    let cli = blank();
    let o = cli.to_overrides().unwrap();
    assert!(o.tcode.is_none());
    assert!(o.layout.is_none());
    assert!(o.variant.is_none());
    assert!(o.export_type.is_none());
    assert!(o.iterations.is_none());
    assert!(o.interval_seconds.is_none());
    assert!(o.delay_seconds.is_none());
    assert!(o.tcode_run_type.is_none());
    assert!(o.date_format.is_none());
    assert!(o.timezone.is_none());
    assert!(o.reports_dir.is_none());
    assert!(o.by_date.is_none());
    assert!(o.by_delivery.is_none());
    assert!(o.by_shipment.is_none());
    assert!(o.limiter.is_none());
    assert!(o.date_start.is_none());
    assert!(o.date_end.is_none());
    assert!(o.delivery_file.is_none());
    assert!(o.delivery_col.is_none());
    assert!(o.shipment_file.is_none());
    assert!(o.shipment_col.is_none());
    assert!(o.pre_export_back.is_none());
    assert!(o.tab_number.is_none());
}

#[test]
fn boolean_filter_flags_round_trip() {
    let mut cli = blank();
    cli.by_date = Some(true);
    cli.by_delivery = Some(false);
    cli.by_shipment = Some(true);
    cli.pre_export_back = Some(false);
    let o = cli.to_overrides().unwrap();
    assert_eq!(o.by_date, Some(true));
    assert_eq!(o.by_delivery, Some(false));
    assert_eq!(o.by_shipment, Some(true));
    assert_eq!(o.pre_export_back, Some(false));
}

#[test]
fn numeric_flags_parse() {
    let mut cli = blank();
    cli.export_type = Some(2);
    cli.iterations = Some(10);
    cli.interval_seconds = Some(30);
    cli.delay_seconds = Some(5);
    cli.tab_number = Some(7);
    let o = cli.to_overrides().unwrap();
    assert_eq!(o.export_type, Some(2));
    assert_eq!(o.iterations, Some(10));
    assert_eq!(o.interval_seconds, Some(30));
    assert_eq!(o.delay_seconds, Some(5));
    assert_eq!(o.tab_number, Some(7));
}

#[test]
fn date_start_iso_ok() {
    let mut cli = blank();
    cli.date_start = some("2026-05-08");
    let o = cli.to_overrides().unwrap();
    assert_eq!(o.date_start, Date::from_ymd(2026, 5, 8));
}

#[test]
fn date_end_iso_ok() {
    let mut cli = blank();
    cli.date_end = some("2026-12-31");
    let o = cli.to_overrides().unwrap();
    assert_eq!(o.date_end, Date::from_ymd(2026, 12, 31));
}

#[test]
fn date_start_garbage_errors_with_iso_hint() {
    let mut cli = blank();
    cli.date_start = some("not-a-date");
    let msg = cli.to_overrides().expect_err("garbage date should be rejected");
    assert!(msg.contains("YYYY-MM-DD"), "expected ISO hint in error, got: {msg}");
    assert!(msg.contains("--date-start"), "expected flag name in error, got: {msg}");
}

#[test]
fn date_end_garbage_errors_with_iso_hint() {
    let mut cli = blank();
    cli.date_end = some("2026-13-99");
    let msg = cli.to_overrides().expect_err("invalid date should reject");
    assert!(msg.contains("YYYY-MM-DD"), "got: {msg}");
    assert!(msg.contains("--date-end"), "got: {msg}");
}

#[test]
fn string_flags_round_trip() {
    let mut cli = blank();
    cli.tcode = some("ZMDESNR");
    cli.layout = some("ob_6");
    cli.variant = some("window_tk");
    cli.limiter = some("date_range");
    cli.reports_dir = some("C:\\Reports");
    cli.date_format = some("yyyy-mm-dd");
    cli.timezone = some("America/Denver");
    cli.tcode_run_type = some("rcv");
    cli.delivery_file = some("vt11");
    cli.delivery_col = some("Delivery");
    cli.shipment_file = some("vl06o");
    cli.shipment_col = some("Shipment Number");
    let o = cli.to_overrides().unwrap();
    assert_eq!(o.tcode.as_deref(), Some("ZMDESNR"));
    assert_eq!(o.layout.as_deref(), Some("ob_6"));
    assert_eq!(o.variant.as_deref(), Some("window_tk"));
    assert_eq!(o.limiter.as_deref(), Some("date_range"));
    assert_eq!(o.reports_dir.as_deref(), Some("C:\\Reports"));
    assert_eq!(o.date_format.as_deref(), Some("yyyy-mm-dd"));
    assert_eq!(o.timezone.as_deref(), Some("America/Denver"));
    assert_eq!(o.tcode_run_type.as_deref(), Some("rcv"));
    assert_eq!(o.delivery_file.as_deref(), Some("vt11"));
    assert_eq!(o.delivery_col.as_deref(), Some("Delivery"));
    assert_eq!(o.shipment_file.as_deref(), Some("vl06o"));
    assert_eq!(o.shipment_col.as_deref(), Some("Shipment Number"));
}

#[test]
fn run_loop_alone_parses() {
    let mut cli = blank();
    cli.run_loop = true;
    assert!(cli.run_loop);
    assert!(!cli.run_sequence);
    assert_eq!(
        cli.run_mode(),
        RunMode::Loop { skip_sap_check: false, keep_awake: false }
    );
}

#[test]
fn run_sequence_alone_parses() {
    let mut cli = blank();
    cli.run_sequence = true;
    assert!(!cli.run_loop);
    assert!(cli.run_sequence);
    assert_eq!(
        cli.run_mode(),
        RunMode::Sequence { skip_sap_check: false, keep_awake: false }
    );
}

#[test]
fn skip_sap_check_and_keep_awake_default_false() {
    let cli = blank();
    assert!(!cli.skip_sap_check);
    assert!(!cli.keep_awake);
    assert_eq!(cli.run_mode(), RunMode::Interactive);
}

#[test]
fn tcode_alone_runs_once() {
    let mut cli = blank();
    cli.tcode = some("vt11");
    cli.keep_awake = true;
    assert_eq!(
        cli.run_mode(),
        RunMode::SingleShot { skip_sap_check: false, keep_awake: true }
    );
}

#[test]
fn looks_like_path_recognizes_paths() {
    assert!(CliOverrides::looks_like_path("./out.csv"));
    assert!(CliOverrides::looks_like_path("C:\\foo\\bar.xlsx"));
    assert!(CliOverrides::looks_like_path("/home/user/data.csv"));
    assert!(CliOverrides::looks_like_path("data.tsv"));
}

#[test]
fn looks_like_path_recognizes_slugs() {
    assert!(!CliOverrides::looks_like_path("vt11"));
    assert!(!CliOverrides::looks_like_path("vl06o"));
    assert!(!CliOverrides::looks_like_path("ZMDESNR"));
}

#[test]
fn per_tcode_flag_names_empty_when_unset() {
    let o = CliOverrides::default();
    assert!(o.per_tcode_flag_names().is_empty());
}

#[test]
fn per_tcode_flag_names_lists_only_set_fields() {
    let mut cli = blank();
    cli.tcode = some("vt11");
    cli.by_date = Some(true);
    cli.limiter = some("date_range");
    cli.tab_number = Some(7);
    let o = cli.to_overrides().unwrap();
    let names = o.per_tcode_flag_names();
    assert!(names.contains(&"--tcode"));
    assert!(names.contains(&"--by-date"));
    assert!(names.contains(&"--limiter"));
    assert!(names.contains(&"--tab-number"));
    assert!(!names.contains(&"--by-delivery"));
    assert!(!names.contains(&"--variant"));
}

#[test]
fn summary_line_none_when_empty() {
    assert!(CliOverrides::default().summary_line().is_none());
}

#[test]
fn summary_line_includes_set_flags() {
    let mut cli = blank();
    cli.tcode = some("vt11");
    cli.variant = some("v1");
    cli.by_delivery = Some(false);
    cli.iterations = Some(3);
    cli.date_start = some("2026-01-01");
    let o = cli.to_overrides().unwrap();
    let line = o.summary_line().expect("non-empty CliOverrides has summary");
    assert!(line.contains("--tcode=VT11"));
    assert!(line.contains("--variant=v1"));
    assert!(line.contains("--by-delivery=false"));
    assert!(line.contains("--iterations=3"));
    assert!(line.contains("--date-start=2026-01-01"));
}

// ---------- the rules checked before connecting ----------

fn overrides(cli: Cli) -> CliOverrides {
    cli.to_overrides().unwrap()
}

#[test]
fn rejects_by_delivery_and_by_shipment_both_true() {
    let mut cli = blank();
    cli.by_delivery = Some(true);
    cli.by_shipment = Some(true);
    cli.tcode = some("vl06o");
    let err = validate_overrides(&overrides(cli), false).unwrap_err();
    assert!(err.contains("--by-delivery=true and --by-shipment=true"));
}

#[test]
fn rejects_by_shipment_with_non_vl06o_tcode() {
    let mut cli = blank();
    cli.by_shipment = Some(true);
    cli.tcode = some("vt11");
    let err = validate_overrides(&overrides(cli), false).unwrap_err();
    assert!(err.contains("only supported for VL06O"));
}

#[test]
fn accepts_by_shipment_with_vl06o() {
    let mut cli = blank();
    cli.by_shipment = Some(true);
    cli.tcode = some("vl06o");
    assert_eq!(validate_overrides(&overrides(cli), false), Ok(()));
}

#[test]
fn rejects_pre_export_back_with_non_zmdesnr_tcode() {
    let mut cli = blank();
    cli.pre_export_back = Some(true);
    cli.tcode = some("vt11");
    let err = validate_overrides(&overrides(cli), false).unwrap_err();
    assert!(err.contains("only supported for ZMDESNR"));
    assert!(err.starts_with("--pre-export-back"));
}

#[test]
fn rejects_tab_number_with_non_zmdesnr_tcode() {
    let mut cli = blank();
    cli.tab_number = Some(7);
    cli.tcode = some("vt11");
    let err = validate_overrides(&overrides(cli), false).unwrap_err();
    assert!(err.contains("only supported for ZMDESNR"));
    assert!(err.starts_with("--tab-number"));
}

#[test]
fn rejects_garbage_date_start() {
    let mut cli = blank();
    cli.date_start = some("not-a-date");
    assert!(cli.to_overrides().unwrap_err().contains("YYYY-MM-DD"));
}

#[test]
fn rejects_garbage_date_end() {
    let mut cli = blank();
    cli.date_end = some("2026-13-99");
    assert!(cli.to_overrides().unwrap_err().contains("YYYY-MM-DD"));
}

#[test]
fn rejects_run_sequence_with_per_tcode_flags() {
    let mut cli = blank();
    cli.run_sequence = true;
    cli.tcode = some("vt11");
    cli.by_date = Some(true);
    let err = validate_overrides(&overrides(cli), true).unwrap_err();
    assert!(err.contains("--tcode"));
    assert!(err.contains("--run-sequence"));
}

#[test]
fn run_sequence_with_global_flags_only_is_accepted() {
    let mut cli = blank();
    cli.run_sequence = true;
    cli.reports_dir = some("C:\\Reports");
    assert_eq!(validate_overrides(&overrides(cli), true), Ok(()));
}
