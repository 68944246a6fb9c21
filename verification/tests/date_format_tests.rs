use sap_automation::cli::VERSION;
use sap_automation::config_query::{get_sap_expected_date_format, is_date_format_error};

#[test]
fn test_is_date_format_error() {
    assert!(is_date_format_error("Enter date in the format __-__-__"));
    assert!(is_date_format_error("Date format error"));
    assert!(is_date_format_error("Invalid date"));
    assert!(is_date_format_error("Date not valid"));
    assert!(is_date_format_error("Incorrect date format"));
    assert!(is_date_format_error("Wrong date format"));
    assert!(!is_date_format_error("No data found"));
    assert!(!is_date_format_error("Success"));
}

#[test]
fn test_get_sap_expected_date_format() {
    assert_eq!(
        get_sap_expected_date_format("Enter date in the format __-__-__"),
        Some("DD-MM-YY".to_string())
    );
    assert_eq!(
        get_sap_expected_date_format("Date format: dd-mm-yy"),
        Some("DD-MM-YY".to_string())
    );
    assert_eq!(
        get_sap_expected_date_format("Enter date in the format __/__/__"),
        Some("MM/DD/YYYY".to_string())
    );
    assert_eq!(
        get_sap_expected_date_format("Date format: mm/dd/yyyy"),
        Some("MM/DD/YYYY".to_string())
    );
    assert_eq!(
        get_sap_expected_date_format("Enter date in the format ____-__-__"),
        Some("YYYY-MM-DD".to_string())
    );
    assert_eq!(
        get_sap_expected_date_format("Date format: yyyy-mm-dd"),
        Some("YYYY-MM-DD".to_string())
    );
    assert_eq!(get_sap_expected_date_format("Some other error"), None);
}

#[test]
fn test_version_constant() {
    let version = VERSION;
    assert!(!version.is_empty());
    let parts: Vec<&str> = version.split('.').collect();
    assert!(
        parts.len() >= 3
            && parts
                .iter()
                .take(3)
                .all(|p| !p.is_empty() && p.chars().all(|c| c.is_ascii_digit())),
        "version '{}' does not look like semver",
        version
    );
    println!("Current version: {}", version);
}
