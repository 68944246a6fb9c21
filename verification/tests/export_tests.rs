use sap_automation::export::{
    consumed_name, delivery_header_candidates, export_file_name, export_radio_id, export_type_to_extension,
    listcheck_deliveries, merge_deliveries, zmdesnr_extension,
};

#[test]
fn extensions_by_export_type() {
    assert_eq!(export_type_to_extension(0), "txt");
    assert_eq!(export_type_to_extension(1), "txt");
    assert_eq!(export_type_to_extension(2), "rtf");
    assert_eq!(export_type_to_extension(3), "html");
    assert_eq!(export_type_to_extension(4), "");
    assert_eq!(export_type_to_extension(9), "txt");
}

#[test]
fn radio_button_by_export_type() {
    let base = "wnd[1]/usr/subSUBSCREEN_STEPLOOP:SAPLSPO5:0150/sub:SAPLSPO5:0150/radSPOPLI-SELFLAG[";
    assert_eq!(export_radio_id(3), format!("{base}3,0]"));
    assert_eq!(export_radio_id(0), format!("{base}0,0]"));
    assert_eq!(export_radio_id(7), format!("{base}1,0]"));
}

#[test]
fn file_names_take_the_suffix_before_the_extension() {
    assert_eq!(export_file_name("vl06o_20260101.txt", "txt", Some("12345")), "vl06o_20260101-12345.txt");
    assert_eq!(export_file_name("report", "txt", Some("A")), "report-A.txt");
    assert_eq!(export_file_name("report", "", Some("A")), "report-A");
    assert_eq!(export_file_name("report.txt", "txt", None), "report.txt");
}

#[test]
fn zmdesnr_extensions() {
    assert_eq!(zmdesnr_extension(Some(2)), "rtf");
    assert_eq!(zmdesnr_extension(Some(3)), "html");
    assert_eq!(zmdesnr_extension(Some(4)), "xlsx");
    assert_eq!(zmdesnr_extension(Some(1)), "txt");
    assert_eq!(zmdesnr_extension(None), "txt");
}

#[test]
fn delivery_headers_in_order() {
    assert_eq!(delivery_header_candidates(), vec!["Delivery", "delivery", "delivery number", "delivery_number"]);
}

#[test]
fn listcheck_csv_second_column_unquoted() {
    let csv = "Shipment,Delivery,User\n1000001, \"8000001\" ,U1\n1000002,,U2\nbad\n1000003,8000003,U3\n";
    assert_eq!(listcheck_deliveries(csv), vec!["8000001".to_string(), "8000003".to_string()]);
    assert!(listcheck_deliveries("").is_empty());
}

#[test]
fn consumed_names() {
    assert_eq!(consumed_name("C:\\R\\listcheck_1.CSV"), Some("C:\\R\\listcheck_1_.csv".to_string()));
    assert_eq!(consumed_name("a.b.csv"), Some("a.b_.csv".to_string()));
    assert_eq!(consumed_name("a.txt"), None);
    assert_eq!(consumed_name("noext"), None);
}

#[test]
fn merged_deliveries_are_sorted_and_unique() {
    let z = vec!["300".to_string(), " 100 ".to_string(), "".to_string()];
    let l = vec!["200".to_string(), "100".to_string()];
    assert_eq!(merge_deliveries(&z, &l), vec![" 100 ".to_string(), "100".to_string(), "200".to_string(), "300".to_string()]);
}
