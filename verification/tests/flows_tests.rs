use sap_automation::date::Date;
use sap_automation::flows::{
    clears_period_high, control_id, execution_state_outcome, high_date_text, join_error_lines, keep_paging,
    no_shipments_found, paste_field_id, run_delivery_numbers, runs_149, sbar_empty_149, PasteProgress,
};

fn strings(v: &[&str]) -> Vec<String> {
    v.iter().map(|s| s.to_string()).collect()
}

#[test]
fn control_ids() {
    assert_eq!(control_id(0, "/usr/btn"), "wnd[0]/usr/btn");
    assert_eq!(control_id(12, ""), "wnd[12]");
    assert_eq!(control_id(-1, "/x"), "wnd[-1]/x");
}

#[test]
fn error_lines_skip_blank_texts() {
    let texts = strings(&["", "first", "", "second"]);
    assert_eq!(join_error_lines(&texts, Some("E: ")), "E: first\nE: second");
    assert_eq!(join_error_lines(&texts, None), "first\nsecond");
    assert_eq!(join_error_lines(&Vec::new(), None), "");
}

#[test]
fn paste_field_ids() {
    assert_eq!(paste_field_id("wnd[1]/usr/tabsX/tblT", 3), "wnd[1]/usr/tabsX/tblT/ctxtRSCSEL_255-SLOW_I[1,3]");
}

#[test]
fn paste_in_batches() {
    let values = strings(&[" 1001,, ", "1002", "1003", "1004", "1005"]);
    let mut p = PasteProgress::new(&values, 2);
    assert_eq!(p.values[0], "1001");
    assert!(!p.done());
    assert!(!p.begin_batch());
    assert_eq!(p.batch_len(), 2);
    assert_eq!(p.batch_start(Some("x")), 0);
    assert_eq!(p.value(1), "1002");
    assert!(p.end_batch(0, 2));
    assert!(p.begin_batch());
    assert_eq!(p.scroll_position, 7);
    assert_eq!(p.batch_start(Some("1002")), 1);
    assert_eq!(p.batch_start(Some("  ")), 0);
    assert_eq!(p.value(0), "1003");
    assert!(p.end_batch(1, 3));
    assert_eq!(p.batch_len(), 1);
    assert!(!p.end_batch(0, 1));
    assert!(p.done());
    assert!(p.succeeded());
}

#[test]
fn paste_stops_when_nothing_filled() {
    let mut p = PasteProgress::new(&strings(&["a", "b"]), 5);
    assert!(!p.end_batch(0, 0));
    assert!(!p.succeeded());
}

#[test]
fn paging_stops_on_empty_row_or_after_five() {
    assert!(keep_paging(1, Some("x")));
    assert!(keep_paging(1, None));
    assert!(!keep_paging(1, Some("")));
    assert!(!keep_paging(5, Some("x")));
}

#[test]
fn delivery_numbers_prefer_the_command_line() {
    let z = strings(&["3", "1"]);
    let l = strings(&["2", "1"]);
    assert_eq!(run_delivery_numbers(Some(strings(&["9", " 9 ", "", "9"])), &z, &l), strings(&[" 9 ", "9"]));
    assert_eq!(run_delivery_numbers(None, &z, &l), strings(&["1", "2", "3"]));
}

#[test]
fn high_date_empty_for_one_day() {
    let d = Date::from_ymd(2026, 1, 2).unwrap();
    let e = Date::from_ymd(2026, 1, 9).unwrap();
    assert_eq!(high_date_text(d, d, "01/02/2026"), "");
    assert_eq!(high_date_text(d, e, "01/09/2026"), "01/09/2026");
}

#[test]
fn only_date_range_clears_the_period() {
    assert!(clears_period_high(&Some("Date_Range".to_string())));
    assert!(!clears_period_high(&Some("".to_string())));
    assert!(!clears_period_high(&Some("delivery".to_string())));
    assert!(!clears_period_high(&None));
}

#[test]
fn status_texts() {
    assert!(no_shipments_found("Info: No shipments were found for the selection criteria."));
    assert!(!no_shipments_found("12 shipments selected"));
    assert!(sbar_empty_149("No data was selected"));
    assert!(sbar_empty_149("Entry NOT FOUND"));
    assert!(sbar_empty_149("no items to display"));
    assert!(!sbar_empty_149(""));
    assert!(!sbar_empty_149("120 entries"));
}

#[test]
fn runs_per_plant_or_all() {
    assert_eq!(runs_149(&Vec::new()), strings(&["ALL"]));
    assert_eq!(runs_149(&strings(&["FV52", "FV55"])), strings(&["FV52", "FV55"]));
}

#[test]
fn execution_state_results() {
    assert_eq!(execution_state_outcome(5, false), Ok(()));
    assert_eq!(execution_state_outcome(0, false), Err("Failed to set thread execution state".to_string()));
    assert_eq!(execution_state_outcome(0, true), Err("Failed to reset thread execution state".to_string()));
}
