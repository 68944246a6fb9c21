use sap_automation::assoc::StrMap;
use sap_automation::date::Date;
use sap_automation::runner::setting_number;
use sap_automation::sources::cli_delivery_numbers;
use sap_automation::vl06o_flow::{
    vl06o_auto_step, vl06o_params_step, DialogAnswer, DialogKind, DialogStep, ParamsDialog, Prompt, Vl06oAction,
    Vl06oAutoState, Vl06oEvent,
};
use sap_automation::vt11_flow::{
    listcheck_step, vt11_export_step, ExportAction, ExportEvent, ListcheckAction, ListcheckEvent, ListcheckState,
    Vt11ExportState,
};

fn day(y: i32, m: u32, d: u32) -> Date {
    Date::from_ymd(y, m, d).unwrap()
}

#[test]
fn listcheck_run_logs_a_locked_delivery_and_stops_on_a_repeated_page() {
    let s = ListcheckState::new(Some("V1".to_string()), None, None);
    let (s, a) = listcheck_step(s, ListcheckEvent::Done);
    assert!(matches!(a, ListcheckAction::SelectVariant(ref v) if v == "V1"));
    let (s, a) = listcheck_step(s, ListcheckEvent::Done);
    assert!(matches!(a, ListcheckAction::Execute));
    let (s, a) = listcheck_step(s, ListcheckEvent::Done);
    assert!(matches!(a, ListcheckAction::ReadFirstRow));
    let (s, a) = listcheck_step(s, ListcheckEvent::Text(Some("0001234567".to_string())));
    assert!(matches!(a, ListcheckAction::ReadRow(4)));
    let (s, a) = listcheck_step(s, ListcheckEvent::Text(Some("Shipment 0001234567".to_string())));
    assert!(matches!(a, ListcheckAction::OpenRow(4)));
    let (s, a) = listcheck_step(s, ListcheckEvent::Done);
    assert!(matches!(a, ListcheckAction::CheckPopup));
    let (s, a) = listcheck_step(s, ListcheckEvent::Popup(false));
    assert!(matches!(a, ListcheckAction::ReadOutcome));
    let (s, a) = listcheck_step(
        s,
        ListcheckEvent::Outcome {
            status: "This delivery (80012345) is currently being processed by (JDOE)".to_string(),
            transaction: "VT11".to_string(),
            timestamp: "2026-01-01 10:00:00".to_string(),
        },
    );
    assert!(matches!(a, ListcheckAction::CloseMessage));
    let (s, a) = listcheck_step(s, ListcheckEvent::Done);
    assert!(matches!(a, ListcheckAction::ReadRow(5)));
    let (s, a) = listcheck_step(s, ListcheckEvent::Text(None));
    assert!(matches!(a, ListcheckAction::PageDown));
    let (s, a) = listcheck_step(s, ListcheckEvent::Done);
    assert!(matches!(a, ListcheckAction::ReadFirstRow));
    let (s, a) = listcheck_step(s, ListcheckEvent::Text(Some("0001234567".to_string())));
    assert!(matches!(a, ListcheckAction::Finish));
    assert_eq!(s.log.total_attempted, 1);
    assert_eq!(s.log.blocked_count, 1);
    assert_eq!(s.log.deliveries, vec!["80012345".to_string()]);
    assert_eq!(s.log.csv(), "Shipment,Delivery,User\n0001234567,80012345,JDOE\n");
}

#[test]
fn listcheck_confirms_at_most_three_popups() {
    let s = ListcheckState::new(None, None, Some(("a".to_string(), "b".to_string())));
    let (s, a) = listcheck_step(s, ListcheckEvent::Done);
    assert!(matches!(a, ListcheckAction::SetDates(ref x, ref y) if x == "a" && y == "b"));
    let (s, _) = listcheck_step(s, ListcheckEvent::Done);
    let (s, _) = listcheck_step(s, ListcheckEvent::Done);
    let (s, _) = listcheck_step(s, ListcheckEvent::Text(Some("1234567".to_string())));
    let (s, _) = listcheck_step(s, ListcheckEvent::Text(Some("1234567".to_string())));
    let (mut s, _) = listcheck_step(s, ListcheckEvent::Done);
    for _ in 0..3 {
        let (s1, a) = listcheck_step(s, ListcheckEvent::Popup(true));
        assert!(matches!(a, ListcheckAction::DismissPopup));
        let (s2, _) = listcheck_step(s1, ListcheckEvent::Done);
        s = s2;
    }
    let (_, a) = listcheck_step(
        s,
        ListcheckEvent::Outcome { status: String::new(), transaction: "VT03N".to_string(), timestamp: String::new() },
    );
    assert!(matches!(a, ListcheckAction::LeaveDetail));
}

#[test]
fn vt11_export_by_delivery_without_numbers_fails() {
    let d = day(2026, 3, 4);
    let s = Vt11ExportState::new(
        None,
        false,
        d,
        d,
        "03/04/2026".to_string(),
        "03/04/2026",
        true,
        vec![" ".to_string()],
        &None,
        None,
        None,
    );
    let (_, a) = vt11_export_step(s, ExportEvent::Done);
    assert!(matches!(a, ExportAction::Finish(false)));
}

#[test]
fn vt11_export_stops_when_no_shipment_is_found() {
    let d = day(2026, 3, 4);
    let s = Vt11ExportState::new(
        None,
        true,
        d,
        d,
        "03/04/2026".to_string(),
        "03/04/2026",
        false,
        Vec::new(),
        &Some("DATE_RANGE".to_string()),
        Some("L".to_string()),
        Some(1),
    );
    let (s, a) = vt11_export_step(s, ExportEvent::Done);
    assert!(matches!(a, ExportAction::SetDates(ref lo, ref hi) if lo == "03/04/2026" && hi.is_empty()));
    let (s, a) = vt11_export_step(s, ExportEvent::Done);
    assert!(matches!(a, ExportAction::ClearDescriptionHigh));
    let (s, a) = vt11_export_step(s, ExportEvent::Done);
    assert!(matches!(a, ExportAction::Execute));
    let (s, a) = vt11_export_step(s, ExportEvent::Done);
    assert!(matches!(a, ExportAction::ReadMessage));
    let (s, a) = vt11_export_step(
        s,
        ExportEvent::Message(Some("No shipments were found for the selection criteria".to_string())),
    );
    assert!(matches!(a, ExportAction::CloseNoShipments));
    let (_, a) = vt11_export_step(s, ExportEvent::Done);
    assert!(matches!(a, ExportAction::Finish(false)));
}

#[test]
fn vt11_export_falls_back_to_excel() {
    let d = day(2026, 3, 4);
    let s = Vt11ExportState::new(
        None, false, d, d, String::new(), "", false, Vec::new(), &None, Some(String::new()), Some(1),
    );
    let (s, a) = vt11_export_step(s, ExportEvent::Done);
    assert!(matches!(a, ExportAction::Execute));
    let (s, _) = vt11_export_step(s, ExportEvent::Done);
    let (s, a) = vt11_export_step(s, ExportEvent::Message(None));
    assert!(matches!(a, ExportAction::CloseLayoutPopup));
    let (s, a) = vt11_export_step(s, ExportEvent::Done);
    assert!(matches!(a, ExportAction::ExportLocal(1)));
    let (s, a) = vt11_export_step(s, ExportEvent::Exported(false));
    assert!(matches!(a, ExportAction::ExportExcel));
    let (_, a) = vt11_export_step(s, ExportEvent::Exported(true));
    assert!(matches!(a, ExportAction::Finish(true)));
}

#[test]
fn export_dialog_reads_pasted_numbers() {
    let today = day(2026, 3, 4);
    let d = ParamsDialog::new(DialogKind::Export, "mm/dd/yyyy".to_string(), today, day(2026, 3, 5), "C:\\R".to_string());
    let (d, p) = vl06o_params_step(d, DialogAnswer::Begin);
    assert!(matches!(p, Prompt::Input { ref prompt, ref initial, as_default: true, .. }
        if prompt == "Start date (MM/DD/YYYY)" && initial == "03/04/2026"));
    let (d, _) = vl06o_params_step(d, DialogAnswer::Text("03/01/2026".to_string()));
    let (d, _) = vl06o_params_step(d, DialogAnswer::Text("nonsense".to_string()));
    assert_eq!(d.start, day(2026, 3, 1));
    assert_eq!(d.end, today);
    let (d, _) = vl06o_params_step(d, DialogAnswer::Text("VAR".to_string()));
    let (d, p) = vl06o_params_step(d, DialogAnswer::Text(String::new()));
    assert!(matches!(p, Prompt::Select { ref items, default: 1, .. } if items.len() == 2));
    let (d, _) = vl06o_params_step(d, DialogAnswer::Choice(0));
    let (d, _) = vl06o_params_step(d, DialogAnswer::Text(String::new()));
    assert_eq!(d.column, "Shipment Number");
    let (d, p) = vl06o_params_step(d, DialogAnswer::Choice(2));
    assert!(matches!(p, Prompt::ReadLine));
    let (d, _) = vl06o_params_step(d, DialogAnswer::Text(" 123 \n".to_string()));
    let (d, _) = vl06o_params_step(d, DialogAnswer::Text("456\n".to_string()));
    let (d, p) = vl06o_params_step(d, DialogAnswer::Text("\n".to_string()));
    assert!(matches!(p, Prompt::Finished));
    assert_eq!(d.step, DialogStep::Finished);
    assert_eq!(d.variant.as_deref(), Some("VAR"));
    assert_eq!(d.layout, None);
    assert!(d.by_date);
    assert_eq!(d.numbers, vec!["123".to_string(), "456".to_string()]);
}

#[test]
fn date_update_dialog_defaults_and_typed_numbers() {
    let d = ParamsDialog::new(DialogKind::DateUpdate, "yyyy-mm-dd".to_string(), day(2026, 3, 4), day(2026, 3, 5), "C:\\R".to_string());
    let (d, p) = vl06o_params_step(d, DialogAnswer::Begin);
    assert!(matches!(p, Prompt::Input { ref prompt, ref initial, .. }
        if prompt == "Target date (YYYY-MM-DD)" && initial == "2026-03-05"));
    let (d, _) = vl06o_params_step(d, DialogAnswer::Text("bad".to_string()));
    assert_eq!(d.target, day(2026, 3, 5));
    let (d, _) = vl06o_params_step(d, DialogAnswer::Text(String::new()));
    assert_eq!(d.variant.as_deref(), Some("blank_"));
    let (d, p) = vl06o_params_step(d, DialogAnswer::Choice(0));
    assert!(matches!(p, Prompt::Select { ref prompt, .. } if prompt == "How would you like to input shipment numbers?"));
    let (d, p) = vl06o_params_step(d, DialogAnswer::Choice(1));
    assert!(matches!(p, Prompt::Input { ref prompt, .. } if prompt == "Enter shipment numbers (space or comma-separated)"));
    let (d, _) = vl06o_params_step(d, DialogAnswer::Text("11 22".to_string()));
    assert!(d.is_shipment);
    assert_eq!(d.numbers, vec!["11".to_string(), "22".to_string()]);
}

#[test]
fn dialog_excel_path_retries_a_column() {
    let d = ParamsDialog::new(DialogKind::Export, "mm/dd/yyyy".to_string(), day(2026, 3, 4), day(2026, 3, 5), "C:\\R".to_string());
    let (d, _) = vl06o_params_step(d, DialogAnswer::Begin);
    let (d, _) = vl06o_params_step(d, DialogAnswer::Text(String::new()));
    let (d, _) = vl06o_params_step(d, DialogAnswer::Text(String::new()));
    let (d, _) = vl06o_params_step(d, DialogAnswer::Text(String::new()));
    let (d, _) = vl06o_params_step(d, DialogAnswer::Text(String::new()));
    let (d, _) = vl06o_params_step(d, DialogAnswer::Choice(1));
    let (d, _) = vl06o_params_step(d, DialogAnswer::Text("Ship".to_string()));
    let (d, p) = vl06o_params_step(d, DialogAnswer::Choice(0));
    assert!(matches!(p, Prompt::Input { ref prompt, .. } if prompt == "Enter subdirectory (optional)"));
    let (d, p) = vl06o_params_step(d, DialogAnswer::Text("sub".to_string()));
    assert!(matches!(p, Prompt::PickFile(ref dir) if dir == "C:\\R\\sub"));
    let (d, p) = vl06o_params_step(d, DialogAnswer::File(Some("f.xlsx".to_string())));
    assert!(matches!(p, Prompt::Input { ref initial, .. } if initial == "Ship"));
    let (d, p) = vl06o_params_step(d, DialogAnswer::Text("Col".to_string()));
    assert!(matches!(p, Prompt::ReadColumn { ref path, ref column } if path == "f.xlsx" && column == "Col"));
    let (d, p) = vl06o_params_step(d, DialogAnswer::Column(None));
    assert!(matches!(p, Prompt::Select { ref items, .. } if items[0] == "Try another column"));
    let (d, _) = vl06o_params_step(d, DialogAnswer::Choice(0));
    let (d, _) = vl06o_params_step(d, DialogAnswer::Text("Col".to_string()));
    let (d, p) = vl06o_params_step(d, DialogAnswer::Column(Some(vec!["9".to_string()])));
    assert!(matches!(p, Prompt::Finished));
    assert_eq!(d.numbers, vec!["9".to_string()]);
}

#[test]
fn vl06o_auto_without_section_stops() {
    let s = Vl06oAutoState::new(None, "mm/dd/yyyy", day(2026, 3, 4));
    let (_, a) = vl06o_auto_step(s, Vl06oEvent::Done);
    assert!(matches!(a, Vl06oAction::Finish(ref m) if m == "No configuration found for VL06O."));
}

#[test]
fn vl06o_auto_by_delivery_merges_and_marks_the_listcheck_file() {
    let mut m = StrMap::new();
    m.insert("by_delivery".to_string(), "TRUE".to_string());
    let s = Vl06oAutoState::new(Some(m), "mm/dd/yyyy", day(2026, 3, 4));
    let (s, a) = vl06o_auto_step(s, Vl06oEvent::Done);
    assert!(matches!(a, Vl06oAction::ReadDeliverySources));
    let (s, a) = vl06o_auto_step(
        s,
        Vl06oEvent::Sources {
            zmdesnr: vec!["2".to_string(), "1".to_string(), " ".to_string()],
            listcheck: vec!["1".to_string(), "3".to_string()],
            listcheck_path: Some("C:\\x\\a.csv".to_string()),
        },
    );
    assert!(matches!(a, Vl06oAction::RunDeliveryExport));
    assert_eq!(s.deliveries, vec!["1".to_string(), "2".to_string(), "3".to_string()]);
    let (s, a) = vl06o_auto_step(s, Vl06oEvent::Exported(true));
    assert!(matches!(a, Vl06oAction::MarkListcheckUsed { ref from, ref to } if from == "C:\\x\\a.csv" && to == "C:\\x\\a_.csv"));
    let (_, a) = vl06o_auto_step(s, Vl06oEvent::Done);
    assert!(matches!(a, Vl06oAction::Finish(ref m) if m == "VL06O (by_delivery) export completed successfully!"));
}

#[test]
fn vl06o_auto_reads_the_configured_column() {
    let mut m = StrMap::new();
    m.insert("column_name".to_string(), "Shipment Number".to_string());
    let s = Vl06oAutoState::new(Some(m), "mm/dd/yyyy", day(2026, 3, 4));
    let (s, a) = vl06o_auto_step(s, Vl06oEvent::Done);
    assert!(matches!(a, Vl06oAction::ReadShipmentColumn(ref c) if c == "Shipment Number"));
    let (s, a) = vl06o_auto_step(s, Vl06oEvent::Shipments(Some(vec!["5".to_string()])));
    assert!(matches!(a, Vl06oAction::RunExport));
    assert_eq!(s.shipments, vec!["5".to_string()]);
    let (_, a) = vl06o_auto_step(s, Vl06oEvent::Exported(false));
    assert!(matches!(a, Vl06oAction::Finish(ref m) if m == "VL06O export failed or was cancelled."));
}

#[test]
fn loop_numbers_prefer_the_command_line() {
    assert_eq!(setting_number(Some(3), Some("7"), 1), 3);
    assert_eq!(setting_number(None, Some(" 7 "), 1), 7);
    assert_eq!(setting_number(None, Some("x"), 60), 60);
    assert_eq!(setting_number(None, None, 10), 10);
}

#[test]
fn cli_delivery_file_numbers_are_cleaned() {
    let content = "Delivery,Other\n30,a\n10,b\n30,c\n ,d\n";
    assert_eq!(cli_delivery_numbers(content, "Delivery"), vec!["10".to_string(), "30".to_string()]);
}
