use sap_automation::config_types::{SapConfig, TcodeConfig, TcodeMap};
use sap_automation::date::Date;
use sap_automation::listcheck::{
    listcheck_dates, listcheck_variant_layout, read_status, shipment_number, went_deeper, ListcheckLog,
};

#[test]
fn locked_message_names_delivery_and_user() {
    let r = read_status("This delivery (80012345) is currently being processed by user (JSMITH)");
    assert_eq!(r.delivery, "80012345");
    assert_eq!(r.user, "JSMITH");
    assert!(r.blocked);
}

#[test]
fn lock_word_counts_as_locked() {
    let r = read_status("Shipment 1234567 is locked by (MUSER)");
    assert_eq!(r.delivery, "1234567");
    assert_eq!(r.user, "MUSER");
    assert!(r.blocked);
}

#[test]
fn other_messages_are_unlocked() {
    let r = read_status("Display shipment 12345678");
    assert_eq!(r.delivery, "12345678");
    assert_eq!(r.user, "");
    assert!(!r.blocked);
    let r = read_status("Nothing here 123");
    assert_eq!(r.delivery, "");
    assert!(!r.blocked);
}

#[test]
fn shipment_number_is_first_long_number() {
    assert_eq!(shipment_number("  0001234567  Truck 12  "), "0001234567");
    assert_eq!(shipment_number("no number 123456"), "");
}

#[test]
fn deeper_means_left_vt11() {
    assert!(went_deeper("VT02N"));
    assert!(!went_deeper("VT11"));
}

#[test]
fn pages_are_seen_once() {
    let mut log = ListcheckLog::new();
    assert!(log.enter_page("0001"));
    assert!(log.enter_page("0002"));
    assert!(!log.enter_page("0001"));
    assert!(!log.enter_page(""));
    assert_eq!(log.seen_pages, vec!["0001".to_string(), "0002".to_string()]);
}

#[test]
fn log_counts_and_csv() {
    let mut log = ListcheckLog::new();
    log.log_shipment("1000001 A", read_status("This delivery (8000001) is currently being processed by (USR1)"), false, "t1");
    log.log_shipment("1000002 B", read_status("Display 8000002"), false, "t2");
    log.log_shipment("1000003 C", read_status("Display 8000003"), true, "t3");
    log.log_shipment("1000001 A", read_status("This delivery (8000001) is currently being processed by (USR1)"), false, "t4");
    assert_eq!(log.total_attempted, 4);
    assert_eq!(log.blocked_count, 2);
    assert_eq!(log.blocked_deliveries(), vec!["8000001".to_string()]);
    assert_eq!(
        log.csv(),
        "Shipment,Delivery,User\n1000001,8000001,USR1\n1000001,8000001,USR1\n"
    );
    let stats = log.stats("20260101");
    assert_eq!(stats.total_attempted, 4);
    assert_eq!(stats.blocked_count, 2);
    assert_eq!(stats.blocked_shipments.len(), 1);
    assert_eq!(stats.blocked_shipments[0].shipment, "1000001");
    assert_eq!(stats.unblocked_count, 2);
    assert_eq!(stats.unblocked_shipments.len(), 2);
    assert_eq!(stats.timestamp, "20260101");
}

#[test]
fn empty_log_csv_is_header_only() {
    assert_eq!(ListcheckLog::new().csv(), "Shipment,Delivery,User\n");
}

#[test]
fn same_day_range_widens_to_neighbours() {
    let d = Date::from_ymd(2026, 3, 1).unwrap();
    let today = Date::from_ymd(2026, 1, 1).unwrap();
    let (a, b) = listcheck_dates(d, d, today).unwrap();
    assert_eq!(a, "12/31/2025*");
    assert_eq!(b, "01/02/2026*");
}

#[test]
fn distinct_dates_are_used_as_given() {
    let s = Date::from_ymd(2026, 2, 3).unwrap();
    let e = Date::from_ymd(2026, 2, 9).unwrap();
    let today = Date::from_ymd(2026, 5, 5).unwrap();
    assert_eq!(
        listcheck_dates(s, e, today),
        Some(("02/03/2026*".to_string(), "02/09/2026*".to_string()))
    );
}

#[test]
fn variant_layout_fall_back_to_vt11_settings() {
    let mut cfg = SapConfig::new("C:\\Reports");
    let mut map = TcodeMap::new();
    map.insert(
        "VT11".to_string(),
        TcodeConfig { variant: Some("CFG_V".to_string()), layout: Some("CFG_L".to_string()), ..Default::default() },
    );
    cfg.tcode = Some(map);
    let (v, l) = listcheck_variant_layout(&Some("GIVEN".to_string()), &None, &cfg);
    assert_eq!(v.as_deref(), Some("GIVEN"));
    assert_eq!(l.as_deref(), Some("CFG_L"));
    let empty = SapConfig::new("C:\\Reports");
    assert_eq!(listcheck_variant_layout(&None, &None, &empty), (None, None));
}

#[test]
fn same_day_range_at_the_calendar_end_has_no_dates() {
    let last = Date::from_ymd(262142, 12, 31).unwrap();
    assert_eq!(listcheck_dates(last, last, last), None);
}

#[test]
fn same_day_range_crosses_a_leap_day() {
    let d = Date::from_ymd(2024, 6, 1).unwrap();
    let today = Date::from_ymd(2024, 3, 1).unwrap();
    let (a, b) = listcheck_dates(d, d, today).unwrap();
    assert_eq!(a, "02/29/2024*");
    assert_eq!(b, "03/02/2024*");
    let first = Date::from_ymd(-262143, 1, 1).unwrap();
    assert_eq!(listcheck_dates(first, first, first), None);
}
