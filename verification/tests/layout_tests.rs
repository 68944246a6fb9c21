use sap_automation::layout::{
    chosen_layout_name, find_layout_row, find_layout_row_any, find_layout_row_ascii, inbond_columns,
    inbond_save_name, layout_cancelled_message, layout_method, layout_popup_action, retry_layout,
    LayoutMethod, LayoutPopup, LayoutSearch, SearchAction, SearchEvent, SearchStage,
};

fn cells(v: &[Option<&str>]) -> Vec<Option<String>> {
    v.iter().map(|c| c.map(|s| s.to_string())).collect()
}

#[test]
fn layout_method_by_tcode_any_case() {
    assert_eq!(layout_method("Y_DN3_47000149"), LayoutMethod::Grid149);
    assert_eq!(layout_method("zvt11"), LayoutMethod::GridZvt11);
    assert_eq!(layout_method("VL06O"), LayoutMethod::Search);
}

#[test]
fn layout_popup_by_tcode_any_case() {
    assert_eq!(layout_popup_action("LX03"), LayoutPopup::LayoutButton);
    assert_eq!(layout_popup_action("lx02"), LayoutPopup::LayoutButton);
    assert_eq!(layout_popup_action("y_dn3_47000149"), LayoutPopup::LayoutButton);
    assert_eq!(layout_popup_action("VT11"), LayoutPopup::Vt11Menu);
    assert_eq!(layout_popup_action("vl06o"), LayoutPopup::Vl06oMenu);
    assert_eq!(layout_popup_action("ZMDESNR"), LayoutPopup::LayoutButtonIfPresent);
    assert_eq!(layout_popup_action("MB51"), LayoutPopup::Nothing);
}

#[test]
fn layout_row_found_trimmed_and_case_blind() {
    let grid = cells(&[Some("OTHER"), None, Some("  Inb_Ship "), Some("inb_ship")]);
    assert_eq!(find_layout_row(&grid, "INB_SHIP"), Some(2));
    assert_eq!(find_layout_row(&grid, "missing"), None);
    assert_eq!(find_layout_row(&cells(&[]), "x"), None);
}

#[test]
fn layout_row_ascii_ignores_blank_name() {
    let grid = cells(&[Some(" "), Some("Ob_6")]);
    assert_eq!(find_layout_row_ascii(&grid, "  "), None);
    assert_eq!(find_layout_row_ascii(&grid, "OB_6"), Some(1));
}

#[test]
fn layout_row_any_column() {
    let rows = vec![
        cells(&[Some("a"), Some("b")]),
        cells(&[None, Some("Window_TK")]),
        cells(&[Some("window_tk")]),
    ];
    assert_eq!(find_layout_row_any(&rows, "window_tk"), Some(1));
    assert_eq!(find_layout_row_any(&rows, "zzz"), None);
}

#[test]
fn inbond_names_and_columns() {
    assert_eq!(inbond_save_name("   "), "inb_ship");
    assert_eq!(inbond_save_name(" mine "), "mine");
    assert_eq!(chosen_layout_name("inb_ship", " "), "inb_ship");
    assert_eq!(chosen_layout_name("inb_ship", " other "), "other");
    let given = vec!["A".to_string(), "B".to_string()];
    assert_eq!(inbond_columns(&given), given);
    assert!(!inbond_columns(&Vec::new()).is_empty());
}

#[test]
fn retry_only_with_a_typed_name() {
    assert_eq!(retry_layout(0, "L2"), Some("L2".to_string()));
    assert_eq!(retry_layout(0, ""), None);
    assert_eq!(retry_layout(1, "L2"), None);
    assert_eq!(layout_cancelled_message(), "Layout selection cancelled");
}

#[test]
fn search_through_window_two_to_the_status() {
    let (mut s, a) = LayoutSearch::start("ob_6");
    assert!(matches!(a, SearchAction::CheckWindow(1)));
    assert!(matches!(s.step(SearchEvent::Window(false)), SearchAction::OpenPopup));
    assert!(matches!(s.step(SearchEvent::Done), SearchAction::CheckWindow(1)));
    assert!(matches!(s.step(SearchEvent::Window(true)), SearchAction::PressSearch));
    assert!(matches!(s.step(SearchEvent::Done), SearchAction::CheckWindow(2)));
    assert!(matches!(s.step(SearchEvent::Window(true)), SearchAction::UncheckStartOption));
    assert!(matches!(s.step(SearchEvent::Done), SearchAction::TypeInWindow2(t) if t == "ob_6"));
    assert!(matches!(s.step(SearchEvent::Found(true)), SearchAction::ConfirmWindow2));
    assert!(matches!(s.step(SearchEvent::Done), SearchAction::CheckWindow(3)));
    assert!(matches!(s.step(SearchEvent::Window(true)), SearchAction::CheckResult));
    assert!(matches!(s.step(SearchEvent::Found(true)), SearchAction::PickResult));
    assert!(matches!(s.step(SearchEvent::Done), SearchAction::ReadStatus));
    let end = s.step(SearchEvent::Status("Layout ob_6 applied".to_string()));
    assert!(matches!(end, SearchAction::Finish(m) if m == "Layout ob_6 applied"));
    assert_eq!(s.stage, SearchStage::Ended);
}

#[test]
fn search_asks_again_when_not_found_then_cancels() {
    let (mut s, _) = LayoutSearch::start("nope");
    s.step(SearchEvent::Window(true));
    s.step(SearchEvent::Done);
    assert!(matches!(s.step(SearchEvent::Window(false)), SearchAction::TypeInWindow1(t) if t == "nope"));
    s.step(SearchEvent::Found(true));
    s.step(SearchEvent::Window(true));
    assert!(matches!(s.step(SearchEvent::Found(false)), SearchAction::CloseErrorPopups));
    assert!(matches!(s.step(SearchEvent::Done), SearchAction::AskUser));
    assert!(matches!(s.step(SearchEvent::Answer(Some("other".to_string()))), SearchAction::ClosePopups));
    assert_eq!(s.layout, "other");
    assert!(matches!(s.step(SearchEvent::Done), SearchAction::OpenPopup));
    assert!(matches!(s.step(SearchEvent::Done), SearchAction::CheckWindow(1)));
    assert_eq!(s.stage, SearchStage::FirstCheck);
    s.step(SearchEvent::Window(true));
    s.step(SearchEvent::Done);
    s.step(SearchEvent::Window(false));
    s.step(SearchEvent::Found(true));
    s.step(SearchEvent::Window(true));
    s.step(SearchEvent::Found(false));
    s.step(SearchEvent::Done);
    s.step(SearchEvent::Answer(None));
    let end = s.step(SearchEvent::Done);
    assert!(matches!(end, SearchAction::Finish(m) if m == "Layout selection cancelled"));
}

#[test]
fn search_fails_when_dialog_never_opens() {
    let (mut s, _) = LayoutSearch::start("x");
    s.step(SearchEvent::Window(false));
    s.step(SearchEvent::Done);
    let end = s.step(SearchEvent::Window(false));
    assert!(matches!(end, SearchAction::Finish(m) if m == "Failed to open layout selection window"));
}

#[test]
fn search_fails_without_search_field() {
    let (mut s, _) = LayoutSearch::start("x");
    s.step(SearchEvent::Window(true));
    s.step(SearchEvent::Done);
    s.step(SearchEvent::Window(false));
    let end = s.step(SearchEvent::Found(false));
    assert!(matches!(end, SearchAction::Finish(m) if m == "Failed to find search field"));
}
