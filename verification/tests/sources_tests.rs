use sap_automation::cli_overrides::CliOverrides;
use sap_automation::sources::{
    dedup_and_sanitize, delivery_source, newest_source, read_csv_column, shipment_source, source_kind,
    source_kind_of, source_location, SourceEntry, SourceKind, SourceLocation,
};

fn strings(v: &[&str]) -> Vec<String> {
    v.iter().map(|s| s.to_string()).collect()
}

#[test]
fn sanitize_drops_blanks_and_repeats_and_sorts() {
    let got = dedup_and_sanitize(strings(&["300", " 100", "", "200", "100 ", "  ", "200"]));
    assert_eq!(got, strings(&[" 100", "100 ", "200", "300"]));
}

#[test]
fn sanitize_is_idempotent() {
    let once = dedup_and_sanitize(strings(&["b", "a", "b", " c "]));
    let twice = dedup_and_sanitize(once.clone());
    assert_eq!(once, twice);
}

#[test]
fn csv_column_by_trimmed_header() {
    let csv = "Shipment, Delivery ,User\n1,  8001 ,a\n2,,b\n3\n4,8004,d\n";
    assert_eq!(read_csv_column(csv, "Delivery"), strings(&["8001", "8004"]));
    assert!(read_csv_column(csv, "Missing").is_empty());
    assert!(read_csv_column("", "Delivery").is_empty());
}

#[test]
fn source_kind_by_extension_any_case() {
    assert_eq!(source_kind(Some("CSV")), SourceKind::Csv);
    assert_eq!(source_kind(Some("txt")), SourceKind::Tab);
    assert_eq!(source_kind(Some("Html")), SourceKind::Tab);
    assert_eq!(source_kind(Some("XLSX")), SourceKind::Excel);
    assert_eq!(source_kind(Some("pdf")), SourceKind::Unsupported);
    assert_eq!(source_kind(None), SourceKind::Unsupported);
}

#[test]
fn source_kind_of_reads_the_path_extension() {
    assert_eq!(source_kind_of("C:/Reports/vt11/list.csv"), SourceKind::Csv);
    assert_eq!(source_kind_of("/tmp/export.XLS"), SourceKind::Excel);
    assert_eq!(source_kind_of("/tmp/noext"), SourceKind::Unsupported);
}

#[test]
fn sources_from_overrides() {
    let o = CliOverrides { delivery_file: Some("vt11".to_string()), ..Default::default() };
    let d = delivery_source(&o).unwrap();
    assert_eq!(d.file, "vt11");
    assert_eq!(d.column, "Delivery");
    assert!(shipment_source(&o).is_none());
    let o = CliOverrides {
        shipment_file: Some("x.csv".to_string()),
        shipment_col: Some("Ship".to_string()),
        ..Default::default()
    };
    let s = shipment_source(&o).unwrap();
    assert_eq!(s.file, "x.csv");
    assert_eq!(s.column, "Ship");
    let o = CliOverrides { shipment_file: Some("vl06o".to_string()), ..Default::default() };
    assert_eq!(shipment_source(&o).unwrap().column, "Shipment Number");
}

#[test]
fn slug_or_path() {
    match source_location("VT11", "C:\\Reports") {
        SourceLocation::Directory(d) => assert_eq!(d, "C:\\Reports\\vt11"),
        SourceLocation::File(_) => panic!("a slug is a directory"),
    }
    match source_location("./list.csv", "C:\\Reports") {
        SourceLocation::File(p) => assert_eq!(p, "./list.csv"),
        SourceLocation::Directory(_) => panic!("a path is a file"),
    }
}

fn entry(name: &str, is_file: bool, modified: Option<u128>) -> SourceEntry {
    SourceEntry { name: name.to_string(), is_file, modified }
}

#[test]
fn newest_usable_source() {
    let entries = vec![
        entry("old.csv", true, Some(10)),
        entry("used_.csv", true, Some(99)),
        entry("dir", false, Some(98)),
        entry("new.csv", true, Some(50)),
        entry("same.csv", true, Some(50)),
        entry("unknown.csv", true, None),
    ];
    assert_eq!(newest_source(&entries), Some(3));
    assert_eq!(newest_source(&vec![entry("used_.csv", true, Some(1))]), None);
    assert_eq!(newest_source(&Vec::new()), None);
}

#[test]
fn one_component_paths_use_what_follows_the_final_dot() {
    assert_eq!(source_kind_of("list.CSV"), SourceKind::Csv);
    assert_eq!(source_kind_of("a.b.xlsx"), SourceKind::Excel);
    assert_eq!(source_kind_of(".csv"), SourceKind::Unsupported);
    assert_eq!(source_kind_of("data."), SourceKind::Unsupported);
    assert_eq!(source_kind_of(".."), SourceKind::Unsupported);
}
