use sap_automation::report::{delivery_numbers_in, normalize_tsv_row};

#[test]
fn dedupes_delivery_numbers_preserving_order() {
    let content = "Plant\tDelivery Number\tMaterial\nFV52\t1001\tMAT1\nFV52\t1002\tMAT2\nFV52\t1001\tMAT1\nFV52\t1003\tMAT3\n";
    let got = delivery_numbers_in(content);
    assert_eq!(got, vec!["1001", "1002", "1003"]);
}

#[test]
fn drops_empty_tab_fields_between_columns() {
    let row = normalize_tsv_row("FV55\t8012178144\t\tM22830X3\t376,164.000\tFT").unwrap();
    assert_eq!(row, "FV55\t8012178144\tM22830X3\t376,164.000\tFT");
    let clean = normalize_tsv_row("FV55\t8012178164\t33129011\t2,000.000\tPC\tQP01430157744").unwrap();
    assert_eq!(clean, "FV55\t8012178164\t33129011\t2,000.000\tPC\tQP01430157744");
}

use sap_automation::report::{
    inbond_suffix, paste_file_name, paste_ready_rows, paste_ready_text, sbar_reports_no_data,
    split_report_columns,
};

#[test]
fn report_columns_by_tab_or_space() {
    assert_eq!(split_report_columns(" a \tb\t\tc "), vec!["a", "b", "", "c"]);
    assert_eq!(split_report_columns("  x  y z "), vec!["x", "y", "z"]);
}

#[test]
fn blank_row_normalizes_to_none() {
    assert_eq!(normalize_tsv_row("\t \t"), None);
}

#[test]
fn deliveries_skip_totals_and_repeated_headers() {
    let content = "Title line\nPlant Delivery Material\nFV52 1001 M1\nFV52 *9999 total\nFV52 Delivery M\nFV52 Sum x\nFV52 1002 M2\nFV52 ---- M3\nFV52 1001 again\n";
    assert_eq!(delivery_numbers_in(content), vec!["1001", "1002"]);
    assert!(delivery_numbers_in("no header here\n1 2 3\n").is_empty());
}

#[test]
fn paste_rows_under_the_header() {
    let content = "List\nPlant\tDelivery Number\tMaterial\r\nFV55\t8012178144\t\tM22830X3\r\n\r\nSum\t1\r\n*\t2\r\nFV55 plain row\r\n";
    assert_eq!(
        paste_ready_rows(content),
        vec!["FV55\t8012178144\tM22830X3".to_string(), "FV55 plain row".to_string()]
    );
    assert_eq!(paste_ready_text(content), "FV55\t8012178144\tM22830X3\r\nFV55 plain row\r\n");
    assert_eq!(paste_ready_text(""), "");
}

#[test]
fn paste_names() {
    assert_eq!(paste_file_name("20260101_120000", " 4711 "), "20260101_120000_y_149-inbond-paste-4711.txt");
    assert_eq!(inbond_suffix(" 4711 "), "inbond-4711");
}

#[test]
fn no_data_messages() {
    assert!(sbar_reports_no_data("No shipment selected"));
    assert!(sbar_reports_no_data("NO DATA"));
    assert!(sbar_reports_no_data("Object not found"));
    assert!(sbar_reports_no_data("No items"));
    assert!(!sbar_reports_no_data("15 entries displayed"));
}
