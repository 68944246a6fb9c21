//! The main menu: the rows it shows for the state of the SAP connection,
//! and what a chosen row does.
use crate::config_types::{default_menu_option_value, get_default_menu_option, SapConfig};
use vstd::prelude::*;

verus! {

/// The rows of the menu with a session that is logged in.
pub open spec fn logged_in_rows() -> Seq<&'static str> {
    seq![
        "Log in to SAP",
        "VT11 - Shipment List Planning",
        "VT11 - Auto Run (from config)",
        "VT11 - ListCheck",
        "VT11 - ListCheck Auto (from config)",
        "ZVT11 - Shipment Report",
        "ZVT11 - Auto Run (from config)",
        "VL06O - List of Outbound Deliveries",
        "VL06O - Auto Run (from config)",
        "VL06O - Change Delivery Date",
        "VL06O - List of Delivery Packages",
        "VL06O - Auto Run Delivery Packages",
        "ZMDESNR - Serial Number History",
        "ZMDESNR - Auto Run (from config)",
        "149 Report - y_dn3_47000149",
        "149 Report - Material Not TSP",
        "149 Report - RCV",
        "149 Report - RCV Auto Run (from config)",
        "149 Report - Auto Run (from config)",
        "Run Loop (using config)",
        "Run Sequence (using config)",
        "Configure Reports Directory",
        "Configure Global and SAP Parameters",
        "Configure Loop",
        "Configure Sequence",
        "Read Excel File",
        "Log out of SAP",
        "Exit",
    ]
}

/// The rows of the menu with a session at the login screen.
pub open spec fn logged_out_rows() -> Seq<&'static str> {
    seq![
        "Log in to SAP",
        "VT11 - Shipment List Planning (Not available - Login required)",
        "VT11 - Auto Run (Not available - Login required)",
        "VT11 - ListCheck (Not available - Login required)",
        "VT11 - ListCheck Auto (Not available - Login required)",
        "ZVT11 - Shipment Report (Not available - Login required)",
        "ZVT11 - Auto Run (Not available - Login required)",
        "VL06O - List of Outbound Deliveries (Not available - Login required)",
        "VL06O - Auto Run (Not available - Login required)",
        "VL06O - Change Delivery Date (Not available - Login required)",
        "VL06O - List of Delivery Packages (Not available - Login required)",
        "VL06O - Auto Run Delivery Packages (Not available - Login required)",
        "ZMDESNR - Serial Number History (Not available - Login required)",
        "ZMDESNR - Auto Run (Not available - Login required)",
        "149 Report - y_dn3_47000149 (Not available - Login required)",
        "149 Report - Material Not TSP (Not available - Login required)",
        "149 Report - RCV (Not available - Login required)",
        "149 Report - Auto Run (Not available - Login required)",
        "Run Loop (Not available - Login required)",
        "Run Sequence (Not available - Login required)",
        "Configure Reports Directory",
        "Configure Global and SAP Parameters",
        "Configure Loop",
        "Configure Sequence",
        "Read Excel File",
        "Log out of SAP (Not available - Login required)",
        "Exit",
    ]
}

/// The rows of the menu without a connection to SAP.
pub open spec fn offline_rows() -> Seq<&'static str> {
    seq![
        "Log in to SAP (Not available - SAP connection required)",
        "VT11 - Shipment List Planning (Not available - SAP connection required)",
        "VT11 - Auto Run (Not available - SAP connection required)",
        "VT11 - ListCheck (Not available - SAP connection required)",
        "VT11 - ListCheck Auto (Not available - SAP connection required)",
        "ZVT11 - Shipment Report (Not available - SAP connection required)",
        "ZVT11 - Auto Run (Not available - SAP connection required)",
        "VL06O - List of Outbound Deliveries (Not available - SAP connection required)",
        "VL06O - Auto Run (Not available - SAP connection required)",
        "VL06O - Change Delivery Date (Not available - SAP connection required)",
        "VL06O - List of Delivery Packages (Not available - SAP connection required)",
        "VL06O - Auto Run Delivery Packages (Not available - SAP connection required)",
        "ZMDESNR - Serial Number History (Not available - SAP connection required)",
        "ZMDESNR - Auto Run (Not available - SAP connection required)",
        "149 Report - y_dn3_47000149 (Not available - SAP connection required)",
        "149 Report - Material Not TSP (Not available - SAP connection required)",
        "149 Report - RCV (Not available - SAP connection required)",
        "149 Report - RCV Auto Run (Not available - SAP connection required)",
        "149 Report - Auto Run (Not available - SAP connection required)",
        "Run Loop (Not available - SAP connection required)",
        "Run Sequence (Not available - SAP connection required)",
        "Configure Reports Directory",
        "Configure Global and SAP Parameters",
        "Configure Loop",
        "Configure Sequence",
        "Read Excel File",
        "Log out of SAP (Not available - SAP connection required)",
        "Exit",
    ]
}

pub open spec fn rows_for(connected: bool, logged_in: bool) -> Seq<&'static str> {
    if connected {
        if logged_in {
            logged_in_rows()
        } else {
            logged_out_rows()
        }
    } else {
        offline_rows()
    }
}

/// The rows of the main menu for the state of the connection.
pub fn menu_options(connected: bool, logged_in: bool) -> (r: Vec<&'static str>)
    ensures
        r@ == rows_for(connected, logged_in),
{
    if connected {
        if logged_in {
            let r = vec![
                "Log in to SAP",
                "VT11 - Shipment List Planning",
                "VT11 - Auto Run (from config)",
                "VT11 - ListCheck",
                "VT11 - ListCheck Auto (from config)",
                "ZVT11 - Shipment Report",
                "ZVT11 - Auto Run (from config)",
                "VL06O - List of Outbound Deliveries",
                "VL06O - Auto Run (from config)",
                "VL06O - Change Delivery Date",
                "VL06O - List of Delivery Packages",
                "VL06O - Auto Run Delivery Packages",
                "ZMDESNR - Serial Number History",
                "ZMDESNR - Auto Run (from config)",
                "149 Report - y_dn3_47000149",
                "149 Report - Material Not TSP",
                "149 Report - RCV",
                "149 Report - RCV Auto Run (from config)",
                "149 Report - Auto Run (from config)",
                "Run Loop (using config)",
                "Run Sequence (using config)",
                "Configure Reports Directory",
                "Configure Global and SAP Parameters",
                "Configure Loop",
                "Configure Sequence",
                "Read Excel File",
                "Log out of SAP",
                "Exit",
            ];
            assert(r@ =~= logged_in_rows());
            r
        } else {
            let r = vec![
                "Log in to SAP",
                "VT11 - Shipment List Planning (Not available - Login required)",
                "VT11 - Auto Run (Not available - Login required)",
                "VT11 - ListCheck (Not available - Login required)",
                "VT11 - ListCheck Auto (Not available - Login required)",
                "ZVT11 - Shipment Report (Not available - Login required)",
                "ZVT11 - Auto Run (Not available - Login required)",
                "VL06O - List of Outbound Deliveries (Not available - Login required)",
                "VL06O - Auto Run (Not available - Login required)",
                "VL06O - Change Delivery Date (Not available - Login required)",
                "VL06O - List of Delivery Packages (Not available - Login required)",
                "VL06O - Auto Run Delivery Packages (Not available - Login required)",
                "ZMDESNR - Serial Number History (Not available - Login required)",
                "ZMDESNR - Auto Run (Not available - Login required)",
                "149 Report - y_dn3_47000149 (Not available - Login required)",
                "149 Report - Material Not TSP (Not available - Login required)",
                "149 Report - RCV (Not available - Login required)",
                "149 Report - Auto Run (Not available - Login required)",
                "Run Loop (Not available - Login required)",
                "Run Sequence (Not available - Login required)",
                "Configure Reports Directory",
                "Configure Global and SAP Parameters",
                "Configure Loop",
                "Configure Sequence",
                "Read Excel File",
                "Log out of SAP (Not available - Login required)",
                "Exit",
            ];
            assert(r@ =~= logged_out_rows());
            r
        }
    } else {
        let r = vec![
            "Log in to SAP (Not available - SAP connection required)",
            "VT11 - Shipment List Planning (Not available - SAP connection required)",
            "VT11 - Auto Run (Not available - SAP connection required)",
            "VT11 - ListCheck (Not available - SAP connection required)",
            "VT11 - ListCheck Auto (Not available - SAP connection required)",
            "ZVT11 - Shipment Report (Not available - SAP connection required)",
            "ZVT11 - Auto Run (Not available - SAP connection required)",
            "VL06O - List of Outbound Deliveries (Not available - SAP connection required)",
            "VL06O - Auto Run (Not available - SAP connection required)",
            "VL06O - Change Delivery Date (Not available - SAP connection required)",
            "VL06O - List of Delivery Packages (Not available - SAP connection required)",
            "VL06O - Auto Run Delivery Packages (Not available - SAP connection required)",
            "ZMDESNR - Serial Number History (Not available - SAP connection required)",
            "ZMDESNR - Auto Run (Not available - SAP connection required)",
            "149 Report - y_dn3_47000149 (Not available - SAP connection required)",
            "149 Report - Material Not TSP (Not available - SAP connection required)",
            "149 Report - RCV (Not available - SAP connection required)",
            "149 Report - RCV Auto Run (Not available - SAP connection required)",
            "149 Report - Auto Run (Not available - SAP connection required)",
            "Run Loop (Not available - SAP connection required)",
            "Run Sequence (Not available - SAP connection required)",
            "Configure Reports Directory",
            "Configure Global and SAP Parameters",
            "Configure Loop",
            "Configure Sequence",
            "Read Excel File",
            "Log out of SAP (Not available - SAP connection required)",
            "Exit",
        ];
        assert(r@ =~= offline_rows());
        r
    }
}

/// What a row of the menu starts.
#[derive(Debug, Clone, Copy, PartialEq, Eq, Structural)]
pub enum MenuAction {
    Login,
    Vt11Module,
    Vt11Auto,
    Vt11ListCheck,
    Vt11ListCheckAuto,
    Zvt11Module,
    Zvt11Auto,
    Vl06oModule,
    Vl06oAuto,
    Vl06oDateUpdate,
    Vl06oDeliveryPackages,
    Vl06oDeliveryPackagesAuto,
    ZmdesnrModule,
    ZmdesnrAuto,
    Report149,
    Report149Material,
    Report149Rcv,
    Report149RcvAuto,
    Report149Auto,
    RunLoop,
    RunSequence,
    ConfigureReportsDir,
    ConfigureSapParams,
    ConfigureLoop,
    ConfigureSequence,
    ReadExcelFile,
    Logout,
    Exit,
}

/// The result of choosing a row.
#[derive(Debug, Clone, Copy)]
pub enum MenuStep {
    /// Run this.
    Run(MenuAction),
    /// Show this message instead.
    Refuse(&'static str),
    /// Nothing: a row number past the menu.
    Nothing,
}

/// The action of each row number; the numbers are those of the full menu
/// whatever rows are shown.
pub open spec fn action_of(choice: usize) -> Option<MenuAction> {
    if choice == 0 { Some(MenuAction::Login) }
    else if choice == 1 { Some(MenuAction::Vt11Module) }
    else if choice == 2 { Some(MenuAction::Vt11Auto) }
    else if choice == 3 { Some(MenuAction::Vt11ListCheck) }
    else if choice == 4 { Some(MenuAction::Vt11ListCheckAuto) }
    else if choice == 5 { Some(MenuAction::Zvt11Module) }
    else if choice == 6 { Some(MenuAction::Zvt11Auto) }
    else if choice == 7 { Some(MenuAction::Vl06oModule) }
    else if choice == 8 { Some(MenuAction::Vl06oAuto) }
    else if choice == 9 { Some(MenuAction::Vl06oDateUpdate) }
    else if choice == 10 { Some(MenuAction::Vl06oDeliveryPackages) }
    else if choice == 11 { Some(MenuAction::Vl06oDeliveryPackagesAuto) }
    else if choice == 12 { Some(MenuAction::ZmdesnrModule) }
    else if choice == 13 { Some(MenuAction::ZmdesnrAuto) }
    else if choice == 14 { Some(MenuAction::Report149) }
    else if choice == 15 { Some(MenuAction::Report149Material) }
    else if choice == 16 { Some(MenuAction::Report149Rcv) }
    else if choice == 17 { Some(MenuAction::Report149RcvAuto) }
    else if choice == 18 { Some(MenuAction::Report149Auto) }
    else if choice == 19 { Some(MenuAction::RunLoop) }
    else if choice == 20 { Some(MenuAction::RunSequence) }
    else if choice == 21 { Some(MenuAction::ConfigureReportsDir) }
    else if choice == 22 { Some(MenuAction::ConfigureSapParams) }
    else if choice == 23 { Some(MenuAction::ConfigureLoop) }
    else if choice == 24 { Some(MenuAction::ConfigureSequence) }
    else if choice == 25 { Some(MenuAction::ReadExcelFile) }
    else if choice == 26 { Some(MenuAction::Logout) }
    else if choice == 27 { Some(MenuAction::Exit) }
    else { None }
}

/// The actions that need a logged-in session, with the message shown when
/// there is no connection.
pub open spec fn offline_message(a: MenuAction) -> Option<Seq<char>> {
    match a {
        MenuAction::Vt11Module => Some("SAP connection not available. Cannot run VT11 module."@),
        MenuAction::Vt11Auto => Some("SAP connection not available. Cannot run VT11 auto module."@),
        MenuAction::Vt11ListCheck => Some("SAP connection not available. Cannot run VT11 ListCheck."@),
        MenuAction::Vt11ListCheckAuto => Some(
            "SAP connection not available. Cannot run VT11 ListCheck Auto."@,
        ),
        MenuAction::Zvt11Module => Some("SAP connection not available. Cannot run ZVT11 module."@),
        MenuAction::Zvt11Auto => Some("SAP connection not available. Cannot run ZVT11 auto module."@),
        MenuAction::Vl06oModule => Some("SAP connection not available. Cannot run VL06O module."@),
        MenuAction::Vl06oAuto => Some("SAP connection not available. Cannot run VL06O auto module."@),
        MenuAction::Vl06oDateUpdate => Some(
            "SAP connection not available. Cannot run VL06O date update module."@,
        ),
        MenuAction::Vl06oDeliveryPackages => Some(
            "SAP connection not available. Cannot run VL06O delivery packages module."@,
        ),
        MenuAction::Vl06oDeliveryPackagesAuto => Some(
            "SAP connection not available. Cannot run VL06O delivery packages auto module."@,
        ),
        MenuAction::ZmdesnrModule => Some("SAP connection not available. Cannot run ZMDESNR module."@),
        MenuAction::ZmdesnrAuto => Some(
            "SAP connection not available. Cannot run ZMDESNR auto module."@,
        ),
        MenuAction::Report149 => Some("SAP connection not available. Cannot run 149 report module."@),
        MenuAction::Report149Material => Some(
            "SAP connection not available. Cannot run 149 material not TSP module."@,
        ),
        MenuAction::Report149Rcv => Some("SAP connection not available. Cannot run 149 RCV module."@),
        MenuAction::Report149RcvAuto => Some(
            "SAP connection not available. Cannot run 149 RCV auto module."@,
        ),
        MenuAction::Report149Auto => Some(
            "SAP connection not available. Cannot run 149 report auto module."@,
        ),
        MenuAction::RunLoop => Some("SAP connection not available. Cannot run loop."@),
        MenuAction::RunSequence => Some("SAP connection not available. Cannot run sequence."@),
        _ => None,
    }
}

/// What choosing row `choice` does: logging in needs a connection; logging
/// out and the reports need a logged-in session ("You need to log in first."
/// / "You are not logged in." when connected but not logged in); configuring,
/// reading Excel and leaving always run.
pub open spec fn step_of(choice: usize, connected: bool, logged_in: bool) -> (MenuStep, Option<Seq<char>>) {
    match action_of(choice) {
        None => (MenuStep::Nothing, None),
        Some(a) => match a {
            MenuAction::Login => if connected {
                (MenuStep::Run(a), None)
            } else {
                (MenuStep::Nothing, Some("SAP connection not available. Cannot log in."@))
            },
            MenuAction::Logout => if connected && logged_in {
                (MenuStep::Run(a), None)
            } else if connected {
                (MenuStep::Nothing, Some("You are not logged in."@))
            } else {
                (MenuStep::Nothing, Some("SAP connection not available. Cannot log out."@))
            },
            _ => match offline_message(a) {
                Some(m) => if connected && logged_in {
                    (MenuStep::Run(a), None)
                } else if connected {
                    (MenuStep::Nothing, Some("You need to log in first."@))
                } else {
                    (MenuStep::Nothing, Some(m))
                },
                None => (MenuStep::Run(a), None),
            },
        },
    }
}

fn gated(a: MenuAction, connected: bool, logged_in: bool, offline: &'static str) -> (r: MenuStep)
    ensures
        r == if connected && logged_in {
            MenuStep::Run(a)
        } else if connected {
            MenuStep::Refuse("You need to log in first.")
        } else {
            MenuStep::Refuse(offline)
        },
{
    if connected && logged_in {
        MenuStep::Run(a)
    } else if connected {
        MenuStep::Refuse("You need to log in first.")
    } else {
        MenuStep::Refuse(offline)
    }
}

/// The refusal message of a step, if it is one.
pub open spec fn refusal(s: MenuStep) -> Option<Seq<char>> {
    match s {
        MenuStep::Refuse(m) => Some(m@),
        _ => None,
    }
}

/// What choosing row `choice` of the main menu does.
pub fn menu_step(choice: usize, connected: bool, logged_in: bool) -> (r: MenuStep)
    ensures
        (match r {
            MenuStep::Refuse(_) => MenuStep::Nothing,
            _ => r,
        }, refusal(r)) == step_of(choice, connected, logged_in),
{
    match choice {
        0 => if connected {
            MenuStep::Run(MenuAction::Login)
        } else {
            MenuStep::Refuse("SAP connection not available. Cannot log in.")
        },
        1 => gated(MenuAction::Vt11Module, connected, logged_in, "SAP connection not available. Cannot run VT11 module."),
        2 => gated(MenuAction::Vt11Auto, connected, logged_in, "SAP connection not available. Cannot run VT11 auto module."),
        3 => gated(MenuAction::Vt11ListCheck, connected, logged_in, "SAP connection not available. Cannot run VT11 ListCheck."),
        4 => gated(MenuAction::Vt11ListCheckAuto, connected, logged_in, "SAP connection not available. Cannot run VT11 ListCheck Auto."),
        5 => gated(MenuAction::Zvt11Module, connected, logged_in, "SAP connection not available. Cannot run ZVT11 module."),
        6 => gated(MenuAction::Zvt11Auto, connected, logged_in, "SAP connection not available. Cannot run ZVT11 auto module."),
        7 => gated(MenuAction::Vl06oModule, connected, logged_in, "SAP connection not available. Cannot run VL06O module."),
        8 => gated(MenuAction::Vl06oAuto, connected, logged_in, "SAP connection not available. Cannot run VL06O auto module."),
        9 => gated(MenuAction::Vl06oDateUpdate, connected, logged_in, "SAP connection not available. Cannot run VL06O date update module."),
        10 => gated(MenuAction::Vl06oDeliveryPackages, connected, logged_in, "SAP connection not available. Cannot run VL06O delivery packages module."),
        11 => gated(MenuAction::Vl06oDeliveryPackagesAuto, connected, logged_in, "SAP connection not available. Cannot run VL06O delivery packages auto module."),
        12 => gated(MenuAction::ZmdesnrModule, connected, logged_in, "SAP connection not available. Cannot run ZMDESNR module."),
        13 => gated(MenuAction::ZmdesnrAuto, connected, logged_in, "SAP connection not available. Cannot run ZMDESNR auto module."),
        14 => gated(MenuAction::Report149, connected, logged_in, "SAP connection not available. Cannot run 149 report module."),
        15 => gated(MenuAction::Report149Material, connected, logged_in, "SAP connection not available. Cannot run 149 material not TSP module."),
        16 => gated(MenuAction::Report149Rcv, connected, logged_in, "SAP connection not available. Cannot run 149 RCV module."),
        17 => gated(MenuAction::Report149RcvAuto, connected, logged_in, "SAP connection not available. Cannot run 149 RCV auto module."),
        18 => gated(MenuAction::Report149Auto, connected, logged_in, "SAP connection not available. Cannot run 149 report auto module."),
        19 => gated(MenuAction::RunLoop, connected, logged_in, "SAP connection not available. Cannot run loop."),
        20 => gated(MenuAction::RunSequence, connected, logged_in, "SAP connection not available. Cannot run sequence."),
        21 => MenuStep::Run(MenuAction::ConfigureReportsDir),
        22 => MenuStep::Run(MenuAction::ConfigureSapParams),
        23 => MenuStep::Run(MenuAction::ConfigureLoop),
        24 => MenuStep::Run(MenuAction::ConfigureSequence),
        25 => MenuStep::Run(MenuAction::ReadExcelFile),
        26 => if connected && logged_in {
            MenuStep::Run(MenuAction::Logout)
        } else if connected {
            MenuStep::Refuse("You are not logged in.")
        } else {
            MenuStep::Refuse("SAP connection not available. Cannot log out.")
        },
        27 => MenuStep::Run(MenuAction::Exit),
        _ => MenuStep::Nothing,
    }
}

/// The row the menu opens on: the configured `[global].default_menu_option`
/// when the configuration loads (none without it), else the default row.
pub fn default_menu_choice(config: Option<&SapConfig>) -> (r: Option<usize>)
    ensures
        r == match config {
            Some(c) => match c@.global {
                Some(g) => g.default_menu_option,
                None => None,
            },
            None => Some(default_menu_option_value()),
        },
{
    match config {
        Some(c) => match &c.global {
            Some(g) => g.default_menu_option,
            None => None,
        },
        None => Some(get_default_menu_option()),
    }
}

// ---------------------------------------------------------------------------
// Laws
// ---------------------------------------------------------------------------

/// Without a connection, nothing but configuring, reading Excel and leaving
/// runs.
pub proof fn lemma_offline_runs_only_local(choice: usize)
    ensures
        step_of(choice, false, false).0 matches MenuStep::Run(a) ==> (a == MenuAction::ConfigureReportsDir
            || a == MenuAction::ConfigureSapParams || a == MenuAction::ConfigureLoop || a
            == MenuAction::ConfigureSequence || a == MenuAction::ReadExcelFile || a
            == MenuAction::Exit),
{
}

/// With a logged-in session, every row of the menu runs its action.
pub proof fn lemma_logged_in_runs_all(choice: usize)
    requires
        choice < 28,
    ensures
        step_of(choice, true, true) == (MenuStep::Run(action_of(choice)->Some_0), None::<Seq<char>>),
{
}

} // verus!
