//! The command line: its flags, how they become [`CliOverrides`], the rules
//! that refuse bad combinations before any SAP connection, and the choice of
//! run mode.
use crate::cli_overrides::{opt_view, per_tcode_flags, CliOverrides, OverridesView};
use crate::date::{parse_date_as, parsed_date, Date, DateStyle};
use crate::text::{append_str, chars_of, string_of, str_eq, to_uppercase, uppercase};
use vstd::prelude::*;

verus! {

/// The version of the program, as `--version` prints it.
pub const VERSION: &'static str = "0.6.0";

/// The subcommands.
#[derive(Debug, Clone, Copy, PartialEq, Eq, Structural)]
pub enum Commands {
    /// Run the loop configuration unattended.
    RunLoop { skip_sap_check: bool, keep_awake: bool },
    /// Run the sequence configuration unattended.
    RunSequence { skip_sap_check: bool, keep_awake: bool },
}

/// The parsed command line.
#[derive(Debug)]
pub struct Cli {
    pub command: Option<Commands>,
    /// `--run-loop`: alias of the `run-loop` subcommand.
    pub run_loop: bool,
    /// `--run-sequence`: alias of the `run-sequence` subcommand.
    pub run_sequence: bool,
    /// Skip the "logged into SAP" check.
    pub skip_sap_check: bool,
    /// Keep the system awake during execution.
    pub keep_awake: bool,
    /// Target TCode, any case.
    pub tcode: Option<String>,
    pub layout: Option<String>,
    pub variant: Option<String>,
    /// 0=unconverted, 1=text-tabs, 2=rich-text, 3=HTML, 4=clipboard.
    pub export_type: Option<u8>,
    /// rcv | mat | tsp; required for 149 reports.
    pub tcode_run_type: Option<String>,
    /// 0 = infinite.
    pub iterations: Option<usize>,
    pub interval_seconds: Option<u64>,
    pub delay_seconds: Option<u64>,
    pub reports_dir: Option<String>,
    pub date_format: Option<String>,
    pub timezone: Option<String>,
    pub by_date: Option<bool>,
    pub by_delivery: Option<bool>,
    pub by_shipment: Option<bool>,
    pub limiter: Option<String>,
    /// ISO `YYYY-MM-DD`, checked by [`Cli::to_overrides`].
    pub date_start: Option<String>,
    /// ISO `YYYY-MM-DD`, checked by [`Cli::to_overrides`].
    pub date_end: Option<String>,
    pub delivery_file: Option<String>,
    pub delivery_col: Option<String>,
    pub shipment_file: Option<String>,
    pub shipment_col: Option<String>,
    pub pre_export_back: Option<bool>,
    pub tab_number: Option<u32>,
}

// ---------------------------------------------------------------------------
// Specification
// ---------------------------------------------------------------------------

/// `Invalid <flag> value '<v>': expected ISO YYYY-MM-DD`.
pub open spec fn date_error(flag: Seq<char>, v: Seq<char>) -> Seq<char> {
    "Invalid "@ + flag + " value '"@ + v + "': expected ISO YYYY-MM-DD"@
}

/// An ISO date flag that was given and does not parse.
pub open spec fn bad_date(v: Option<String>) -> bool {
    match v {
        Some(s) => parsed_date(s@, DateStyle::Iso) is None,
        None => false,
    }
}

/// The date of an ISO date flag, where it parses.
pub open spec fn date_of(v: Option<String>) -> Option<Date> {
    match v {
        Some(s) => parsed_date(s@, DateStyle::Iso),
        None => None,
    }
}

pub open spec fn upper_opt(v: Option<String>) -> Option<Seq<char>> {
    match v {
        Some(s) => Some(uppercase(s@)),
        None => None,
    }
}

/// The overrides that a command line with valid dates stands for.
pub open spec fn overrides_of(c: Cli) -> OverridesView {
    OverridesView {
        tcode: upper_opt(c.tcode),
        layout: opt_view(c.layout),
        variant: opt_view(c.variant),
        export_type: c.export_type,
        iterations: c.iterations,
        interval_seconds: c.interval_seconds,
        delay_seconds: c.delay_seconds,
        tcode_run_type: opt_view(c.tcode_run_type),
        date_format: opt_view(c.date_format),
        timezone: opt_view(c.timezone),
        reports_dir: opt_view(c.reports_dir),
        by_date: c.by_date,
        by_delivery: c.by_delivery,
        by_shipment: c.by_shipment,
        limiter: opt_view(c.limiter),
        date_start: date_of(c.date_start),
        date_end: date_of(c.date_end),
        delivery_file: opt_view(c.delivery_file),
        delivery_col: opt_view(c.delivery_col),
        shipment_file: opt_view(c.shipment_file),
        shipment_col: opt_view(c.shipment_col),
        pre_export_back: c.pre_export_back,
        tab_number: c.tab_number,
        plants: None,
    }
}

/// A TCode flag that names some other TCode than `name`.
pub open spec fn tcode_other_than(o: OverridesView, name: Seq<char>) -> bool {
    match o.tcode {
        Some(t) => t != name,
        None => false,
    }
}

/// The first rule, in the documented order, that the flags break, with its
/// message; `None` when they break none.
pub open spec fn flag_violation(o: OverridesView, run_sequence: bool) -> Option<Seq<char>> {
    if o.by_delivery == Some(true) && o.by_shipment == Some(true) {
        Some(both_filters_message())
    } else if o.by_shipment == Some(true) && tcode_other_than(o, "VL06O"@) {
        Some(shipment_tcode_message())
    } else if o.pre_export_back is Some && tcode_other_than(o, "ZMDESNR"@) {
        Some(zmdesnr_only_message("--pre-export-back"@))
    } else if o.tab_number is Some && tcode_other_than(o, "ZMDESNR"@) {
        Some(zmdesnr_only_message("--tab-number"@))
    } else if run_sequence && per_tcode_flags(o).len() > 0 {
        Some(sequence_flag_message(per_tcode_flags(o)[0]))
    } else {
        None
    }
}

pub open spec fn both_filters_message() -> Seq<char> {
    "--by-delivery=true and --by-shipment=true cannot both be set; pick one filter"@
}

pub open spec fn shipment_tcode_message() -> Seq<char> {
    "--by-shipment is only supported for VL06O (pass --tcode=VL06O)"@
}

pub open spec fn zmdesnr_only_message(flag: Seq<char>) -> Seq<char> {
    flag + " is only supported for ZMDESNR (pass --tcode=ZMDESNR)"@
}

pub open spec fn sequence_flag_message(flag: Seq<char>) -> Seq<char> {
    flag + " can't be used with --run-sequence; sequence uses config.toml"@
}

/// How the program runs.
#[derive(Debug, Clone, Copy, PartialEq, Eq, Structural)]
pub enum RunMode {
    /// The loop configuration, unattended.
    Loop { skip_sap_check: bool, keep_awake: bool },
    /// The sequence configuration, unattended.
    Sequence { skip_sap_check: bool, keep_awake: bool },
    /// The auto-flow of the TCode under `--tcode`, once.
    SingleShot { skip_sap_check: bool, keep_awake: bool },
    /// The menu.
    Interactive,
}

/// The flags `--run-loop` / `--run-sequence` come first, then a subcommand,
/// then `--tcode` alone for a single run; with none of them, the menu.
pub open spec fn mode_of(c: Cli) -> RunMode {
    if c.run_loop {
        RunMode::Loop { skip_sap_check: c.skip_sap_check, keep_awake: c.keep_awake }
    } else if c.run_sequence {
        RunMode::Sequence { skip_sap_check: c.skip_sap_check, keep_awake: c.keep_awake }
    } else {
        match c.command {
            Some(Commands::RunLoop { skip_sap_check, keep_awake }) => RunMode::Loop {
                skip_sap_check,
                keep_awake,
            },
            Some(Commands::RunSequence { skip_sap_check, keep_awake }) => RunMode::Sequence {
                skip_sap_check,
                keep_awake,
            },
            None => if c.tcode is Some {
                RunMode::SingleShot { skip_sap_check: c.skip_sap_check, keep_awake: c.keep_awake }
            } else {
                RunMode::Interactive
            },
        }
    }
}

// ---------------------------------------------------------------------------
// Implementation
// ---------------------------------------------------------------------------

fn copy_opt(v: &Option<String>) -> (r: Option<String>)
    ensures
        opt_view(r) == opt_view(*v),
{
    match v {
        Some(s) => Some(crate::text::copy_string(s)),
        None => None,
    }
}

fn date_message(flag: &str, v: &str) -> (r: String)
    ensures
        r@ == date_error(flag@, v@),
{
    let mut out: Vec<char> = Vec::new();
    append_str(&mut out, "Invalid ");
    append_str(&mut out, flag);
    append_str(&mut out, " value '");
    append_str(&mut out, v);
    append_str(&mut out, "': expected ISO YYYY-MM-DD");
    assert(out@ =~= date_error(flag@, v@));
    string_of(out.as_slice())
}

/// Parses an ISO date flag: `Ok(None)` when absent, the error message when
/// the text is not an ISO date.
fn iso_flag(flag: &str, v: &Option<String>) -> (r: Result<Option<Date>, String>)
    ensures
        match r {
            Ok(d) => !bad_date(*v) && d == date_of(*v),
            Err(e) => bad_date(*v) && e@ == date_error(flag@, v->Some_0@),
        },
{
    match v {
        Some(s) => match parse_date_as(s.as_str(), DateStyle::Iso) {
            Some(d) => Ok(Some(d)),
            None => Err(date_message(flag, s.as_str())),
        },
        None => Ok(None),
    }
}

impl Cli {
    /// The overrides this command line stands for: the TCode upper-cased, the
    /// dates parsed as ISO `YYYY-MM-DD`. A date that does not parse is an
    /// error naming its flag, `--date-start` checked first.
    pub fn to_overrides(&self) -> (r: Result<CliOverrides, String>)
        ensures
            match r {
                Ok(o) => !bad_date(self.date_start) && !bad_date(self.date_end) && o@
                    == overrides_of(*self),
                Err(e) => if bad_date(self.date_start) {
                    e@ == date_error("--date-start"@, self.date_start->Some_0@)
                } else {
                    bad_date(self.date_end) && e@ == date_error(
                        "--date-end"@,
                        self.date_end->Some_0@,
                    )
                },
            },
    {
        let date_start = match iso_flag("--date-start", &self.date_start) {
            Ok(d) => d,
            Err(e) => {
                return Err(e);
            },
        };
        let date_end = match iso_flag("--date-end", &self.date_end) {
            Ok(d) => d,
            Err(e) => {
                return Err(e);
            },
        };
        let tcode = match &self.tcode {
            Some(t) => Some(to_uppercase(t.as_str())),
            None => None,
        };
        let o = CliOverrides {
            tcode,
            layout: copy_opt(&self.layout),
            variant: copy_opt(&self.variant),
            export_type: self.export_type,
            iterations: self.iterations,
            interval_seconds: self.interval_seconds,
            delay_seconds: self.delay_seconds,
            tcode_run_type: copy_opt(&self.tcode_run_type),
            date_format: copy_opt(&self.date_format),
            timezone: copy_opt(&self.timezone),
            reports_dir: copy_opt(&self.reports_dir),
            by_date: self.by_date,
            by_delivery: self.by_delivery,
            by_shipment: self.by_shipment,
            limiter: copy_opt(&self.limiter),
            date_start,
            date_end,
            delivery_file: copy_opt(&self.delivery_file),
            delivery_col: copy_opt(&self.delivery_col),
            shipment_file: copy_opt(&self.shipment_file),
            shipment_col: copy_opt(&self.shipment_col),
            pre_export_back: self.pre_export_back,
            tab_number: self.tab_number,
            plants: None,
        };
        Ok(o)
    }

    /// Which mode the command line asks for.
    pub fn run_mode(&self) -> (r: RunMode)
        ensures
            r == mode_of(*self),
    {
        if self.run_loop {
            RunMode::Loop { skip_sap_check: self.skip_sap_check, keep_awake: self.keep_awake }
        } else if self.run_sequence {
            RunMode::Sequence { skip_sap_check: self.skip_sap_check, keep_awake: self.keep_awake }
        } else {
            match self.command {
                Some(Commands::RunLoop { skip_sap_check, keep_awake }) => RunMode::Loop {
                    skip_sap_check,
                    keep_awake,
                },
                Some(Commands::RunSequence { skip_sap_check, keep_awake }) => RunMode::Sequence {
                    skip_sap_check,
                    keep_awake,
                },
                None => if self.tcode.is_some() {
                    RunMode::SingleShot {
                        skip_sap_check: self.skip_sap_check,
                        keep_awake: self.keep_awake,
                    }
                } else {
                    RunMode::Interactive
                },
            }
        }
    }
}

fn other_tcode(o: &CliOverrides, name: &str) -> (r: bool)
    ensures
        r == tcode_other_than(o@, name@),
{
    match &o.tcode {
        Some(t) => !str_eq(t.as_str(), name),
        None => false,
    }
}

fn message_after(flag: &str, tail: &str) -> (r: String)
    ensures
        r@ == flag@ + tail@,
{
    let mut out = chars_of(flag);
    append_str(&mut out, tail);
    string_of(out.as_slice())
}

/// The rules checked before any SAP connection, in this order:
/// `--by-delivery=true` with `--by-shipment=true`; `--by-shipment=true` with a
/// TCode other than VL06O; `--pre-export-back` or `--tab-number` with a TCode
/// other than ZMDESNR; and, for a sequence run, any per-tcode flag (the first
/// one set is named).
pub fn validate_overrides(o: &CliOverrides, run_sequence: bool) -> (r: Result<(), String>)
    ensures
        match r {
            Ok(()) => flag_violation(o@, run_sequence) is None,
            Err(e) => flag_violation(o@, run_sequence) == Some(e@),
        },
{
    proof {
        reveal_strlit("VL06O");
        reveal_strlit("ZMDESNR");
    }
    if o.by_delivery == Some(true) && o.by_shipment == Some(true) {
        return Err(
            crate::text::owned(
                "--by-delivery=true and --by-shipment=true cannot both be set; pick one filter",
            ),
        );
    }
    if o.by_shipment == Some(true) && other_tcode(o, "VL06O") {
        return Err(crate::text::owned("--by-shipment is only supported for VL06O (pass --tcode=VL06O)"));
    }
    if o.pre_export_back.is_some() && other_tcode(o, "ZMDESNR") {
        return Err(
            message_after("--pre-export-back", " is only supported for ZMDESNR (pass --tcode=ZMDESNR)"),
        );
    }
    if o.tab_number.is_some() && other_tcode(o, "ZMDESNR") {
        return Err(message_after("--tab-number", " is only supported for ZMDESNR (pass --tcode=ZMDESNR)"));
    }
    if run_sequence {
        let names = o.per_tcode_flag_names();
        if names.len() > 0 {
            return Err(
                message_after(names[0], " can't be used with --run-sequence; sequence uses config.toml"),
            );
        }
    }
    Ok(())
}

/// The mode the command line asks for. `--run-loop` wins, then
/// `--run-sequence`, both with the top-level `--skip-sap-check` and
/// `--keep-awake`; without them, the `run-loop` subcommand runs the loop and
/// the `run-sequence` subcommand the sequence, each with its own options;
/// without a subcommand, `--tcode` runs once and nothing runs the menu. The
/// sequence runs exactly when `--run-sequence` or `run-sequence` asks for it
/// and `--run-loop` does not.
pub proof fn lemma_run_mode_choice(c: Cli)
    ensures
        c.run_loop ==> mode_of(c) == (RunMode::Loop { skip_sap_check: c.skip_sap_check, keep_awake: c.keep_awake }),
        !c.run_loop && c.run_sequence ==> mode_of(c) == (RunMode::Sequence {
            skip_sap_check: c.skip_sap_check,
            keep_awake: c.keep_awake,
        }),
        !c.run_loop && !c.run_sequence ==> match c.command {
            Some(Commands::RunLoop { skip_sap_check, keep_awake }) => mode_of(c) == (RunMode::Loop {
                skip_sap_check,
                keep_awake,
            }),
            Some(Commands::RunSequence { skip_sap_check, keep_awake }) => mode_of(c) == (RunMode::Sequence {
                skip_sap_check,
                keep_awake,
            }),
            None => mode_of(c) == if c.tcode is Some {
                RunMode::SingleShot { skip_sap_check: c.skip_sap_check, keep_awake: c.keep_awake }
            } else {
                RunMode::Interactive
            },
        },
        (mode_of(c) is Sequence) <==> (!c.run_loop && (c.run_sequence || c.command matches Some(
            Commands::RunSequence { .. },
        ))),
        (mode_of(c) is Loop) <==> (c.run_loop || (!c.run_sequence && c.command matches Some(
            Commands::RunLoop { .. },
        ))),
{
}

/// The flags are refused exactly when they break one of the documented
/// rules: both filters set to true; `--by-shipment=true` with a TCode other
/// than VL06O; `--pre-export-back` or `--tab-number` with a TCode other than
/// ZMDESNR; a per-tcode flag in a sequence run. Both filters together are
/// always reported as such, whatever else is wrong.
pub proof fn lemma_flags_refused_exactly_on_broken_rules(o: OverridesView, run_sequence: bool)
    ensures
        (flag_violation(o, run_sequence) is Some) <==> (
        (o.by_delivery == Some(true) && o.by_shipment == Some(true))
            || (o.by_shipment == Some(true) && tcode_other_than(o, "VL06O"@))
            || (o.pre_export_back is Some && tcode_other_than(o, "ZMDESNR"@))
            || (o.tab_number is Some && tcode_other_than(o, "ZMDESNR"@))
            || (run_sequence && per_tcode_flags(o).len() > 0)),
        o.by_delivery == Some(true) && o.by_shipment == Some(true) ==> flag_violation(o, run_sequence)
            == Some(both_filters_message()),
        o.tcode is None && !run_sequence ==> (flag_violation(o, run_sequence) is Some <==> (o.by_delivery
            == Some(true) && o.by_shipment == Some(true))),
{
}

} // verus!
