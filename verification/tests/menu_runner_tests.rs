use sap_automation::cli_overrides::CliOverrides;
use sap_automation::config_types::SapConfig;
use sap_automation::menu::{default_menu_choice, menu_options, menu_step, MenuAction, MenuStep};
use sap_automation::runner::{
    check_logged_in, check_loop_target, check_sequence_options, is_149_tcode, is_logged_in, iteration_label,
    loop_step_for, next_iteration, overrides_banner, single_shot_flow, waits_after_step, AutoFlow, LoopStep,
};

#[test]
fn menu_rows_by_connection_state() {
    let full = menu_options(true, true);
    assert_eq!(full.len(), 28);
    assert_eq!(full[0], "Log in to SAP");
    assert_eq!(full[27], "Exit");
    let out = menu_options(true, false);
    assert_eq!(out.len(), 27);
    assert_eq!(out[1], "VT11 - Shipment List Planning (Not available - Login required)");
    let offline = menu_options(false, false);
    assert_eq!(offline[0], "Log in to SAP (Not available - SAP connection required)");
}

#[test]
fn logged_in_runs_every_row() {
    for choice in 0..28 {
        assert!(matches!(menu_step(choice, true, true), MenuStep::Run(_)), "row {choice}");
    }
    assert!(matches!(menu_step(28, true, true), MenuStep::Nothing));
    assert!(matches!(menu_step(1, true, true), MenuStep::Run(MenuAction::Vt11Module)));
    assert!(matches!(menu_step(27, false, false), MenuStep::Run(MenuAction::Exit)));
}

#[test]
fn offline_refuses_reports_with_their_message() {
    assert!(matches!(
        menu_step(1, false, false),
        MenuStep::Refuse(m) if m == "SAP connection not available. Cannot run VT11 module."
    ));
    assert!(matches!(
        menu_step(0, false, false),
        MenuStep::Refuse(m) if m == "SAP connection not available. Cannot log in."
    ));
    assert!(matches!(menu_step(21, false, false), MenuStep::Run(MenuAction::ConfigureReportsDir)));
    assert!(matches!(menu_step(25, false, false), MenuStep::Run(MenuAction::ReadExcelFile)));
}

#[test]
fn logged_out_needs_login() {
    assert!(matches!(menu_step(8, true, false), MenuStep::Refuse(m) if m == "You need to log in first."));
    assert!(matches!(menu_step(26, true, false), MenuStep::Refuse(m) if m == "You are not logged in."));
    assert!(matches!(menu_step(0, true, false), MenuStep::Run(MenuAction::Login)));
}

#[test]
fn default_menu_row() {
    assert_eq!(default_menu_choice(None), Some(0));
    let cfg = SapConfig::load_from_path(
        "config.toml",
        Some("[global]\ndefault_menu_option = 7\n"),
        "C:\\Reports",
        &CliOverrides::default(),
    )
    .unwrap();
    assert_eq!(default_menu_choice(Some(&cfg)), Some(7));
}

#[test]
fn login_state_from_transaction() {
    assert!(is_logged_in("SESSION_MANAGER"));
    assert!(!is_logged_in("S000"));
    assert_eq!(check_logged_in("S000", true), Ok(()));
    assert_eq!(check_logged_in("S000", false), Err("Not logged into SAP. Please log in first.".to_string()));
    assert_eq!(check_logged_in("VT11", false), Ok(()));
}

#[test]
fn tcode_149_any_case() {
    assert!(is_149_tcode("Y_DN3_47000149"));
    assert!(is_149_tcode("y_dn3_47000149"));
    assert!(!is_149_tcode("VT11"));
}

#[test]
fn loop_target_needs_tcode_and_149_run_type() {
    assert!(check_loop_target("", None).unwrap_err().starts_with("Missing flag for tcode,"));
    assert!(check_loop_target("y_dn3_47000149", Some("")).unwrap_err().contains("tcode-run-type"));
    assert_eq!(check_loop_target("y_dn3_47000149", Some("rcv")), Ok(()));
    assert_eq!(check_loop_target("VT11", None), Ok(()));
}

#[test]
fn loop_steps() {
    assert_eq!(loop_step_for("VL06O", None), LoopStep::Run(AutoFlow::Vl06o));
    assert_eq!(loop_step_for("VT11", None), LoopStep::Run(AutoFlow::Vt11));
    assert_eq!(loop_step_for("ZMDESNR", None), LoopStep::Run(AutoFlow::Zmdesnr));
    assert_eq!(loop_step_for("y_dn3_47000149", Some("rcv")), LoopStep::Run(AutoFlow::Rcv149));
    assert_eq!(loop_step_for("Y_DN3_47000149", Some("tsp")), LoopStep::Run(AutoFlow::Material149));
    assert_eq!(loop_step_for("y_dn3_47000149", None), LoopStep::Run(AutoFlow::Regular149));
    assert_eq!(loop_step_for("y_dn3_47000149", Some("xyz")), LoopStep::UnknownRunType);
    assert_eq!(loop_step_for("ZVT11", None), LoopStep::UnknownTcode);
}

#[test]
fn single_shot_flows() {
    assert_eq!(single_shot_flow("ZVT11", None), Ok(AutoFlow::Zvt11));
    assert_eq!(single_shot_flow("Y_DN3_47000149", Some("mat")), Ok(AutoFlow::Material149));
    assert_eq!(
        single_shot_flow("Y_DN3_47000149", Some("abc")),
        Err("Unknown --tcode-run-type='abc'. Use rcv | mat | tsp.".to_string())
    );
    assert!(single_shot_flow("Y_DN3_47000149", None).unwrap_err().contains("required for 149 reports"));
    assert_eq!(
        single_shot_flow("MB51", None),
        Err("Single-shot mode does not support TCode 'MB51'. Supported: VT11, ZVT11, VL06O, ZMDESNR, Y_DN3_47000149.".to_string())
    );
}

#[test]
fn iterations_count_and_end() {
    let mut i = 1;
    let mut runs = 1;
    while let Some(j) = next_iteration(i, 3) {
        if j > 3 {
            break;
        }
        i = j;
        runs += 1;
    }
    assert_eq!(runs, 3);
    assert_eq!(next_iteration(3, 3), None);
    assert_eq!(next_iteration(1000, 0), Some(1001));
}

#[test]
fn sequence_waits_between_steps() {
    assert!(waits_after_step(0, 3));
    assert!(waits_after_step(1, 3));
    assert!(!waits_after_step(2, 3));
    assert!(!waits_after_step(0, 0));
    assert_eq!(check_sequence_options(2), Ok(()));
    assert!(check_sequence_options(0).unwrap_err().starts_with("No sequence options configured."));
}

#[test]
fn iteration_labels() {
    assert_eq!(iteration_label(2, 5), "Iteration 2/5");
    assert_eq!(iteration_label(7, 0), "Iteration 7 (infinite loop, press Ctrl+C to stop)");
}

#[test]
fn banner_only_with_overrides() {
    assert_eq!(overrides_banner(&CliOverrides::default()), None);
    let o = CliOverrides { tcode: Some("VT11".to_string()), ..Default::default() };
    let b = overrides_banner(&o).unwrap();
    assert!(b.starts_with("CLI overrides applied (these win over config.toml): "));
    assert!(b.contains("--tcode=VT11"));
}
