//! The decisions of the unattended runs: whether a session is logged in,
//! which auto-flow a TCode runs, whether a loop goes on, and the messages
//! for what is missing. The program performs the flows and the waits.
use crate::text::{
    append_str, contains, decimal, decimal_chars, eq_ignore_ascii_case,
    eq_ignore_ascii_case_exec, owned, str_contains, str_eq, string_of,
};
use vstd::prelude::*;

verus! {

/// The auto-flows that an unattended run can start.
#[derive(Debug, Clone, Copy, PartialEq, Eq, Structural)]
pub enum AutoFlow {
    Vl06o,
    Vt11,
    Zvt11,
    Zmdesnr,
    /// The 149 report, RCV run type.
    Rcv149,
    /// The 149 report, material-not-TSP run type (`mat` or `tsp`).
    Material149,
    /// The 149 report without a run type.
    Regular149,
}

/// What one iteration of a loop run does with its TCode.
#[derive(Debug, Clone, Copy, PartialEq, Eq, Structural)]
pub enum LoopStep {
    /// Run this flow.
    Run(AutoFlow),
    /// A 149 run type that is not known: the regular 149 flow runs.
    UnknownRunType,
    /// A TCode the loop does not know: nothing runs.
    UnknownTcode,
}

// ---------------------------------------------------------------------------
// Specification
// ---------------------------------------------------------------------------

/// The name of the 149 report's TCode.
pub open spec fn tcode_149() -> Seq<char> {
    "y_dn3_47000149"@
}

pub open spec fn is_149(tcode: Seq<char>) -> bool {
    eq_ignore_ascii_case(tcode, tcode_149())
}

/// A session whose transaction is `S000` is at the login screen.
pub open spec fn logged_in(transaction: Seq<char>) -> bool {
    !contains(transaction, "S000"@)
}

pub open spec fn not_logged_in_message() -> Seq<char> {
    "Not logged into SAP. Please log in first."@
}

pub open spec fn missing_tcode_message() -> Seq<char> {
    "Missing flag for tcode, enter with --tcode (or set [loop].tcode in config.toml)"@
}

pub open spec fn missing_loop_run_type_message() -> Seq<char> {
    "Missing flag for tcode-run-type, enter with --tcode-run-type=rcv|mat|tsp (or set [loop].tcode_run_type in config.toml; required for 149 reports)"@
}

pub open spec fn missing_run_type_message() -> Seq<char> {
    "Missing flag for tcode-run-type, enter with --tcode-run-type=rcv|mat|tsp (required for 149 reports)"@
}

pub open spec fn no_sequence_options_message() -> Seq<char> {
    "No sequence options configured. Sequence uses config.toml — create and set up [sequence].options (run interactively and pick `Configure Sequence`, or hand-edit config.toml)."@
}

pub open spec fn unknown_run_type_message(t: Seq<char>) -> Seq<char> {
    "Unknown --tcode-run-type='"@ + t + "'. Use rcv | mat | tsp."@
}

pub open spec fn unsupported_tcode_message(t: Seq<char>) -> Seq<char> {
    "Single-shot mode does not support TCode '"@ + t
        + "'. Supported: VT11, ZVT11, VL06O, ZMDESNR, Y_DN3_47000149."@
}

/// A run type that is absent or empty.
pub open spec fn blank_run_type(run_type: Option<Seq<char>>) -> bool {
    match run_type {
        Some(t) => t.len() == 0,
        None => true,
    }
}

/// The loop's required fields: a TCode, and a run type for the 149 report.
pub open spec fn loop_target_error(tcode: Seq<char>, run_type: Option<Seq<char>>) -> Option<
    Seq<char>,
> {
    if tcode.len() == 0 {
        Some(missing_tcode_message())
    } else if is_149(tcode) && blank_run_type(run_type) {
        Some(missing_loop_run_type_message())
    } else {
        None
    }
}

/// The 149 flow of a loop for a run type.
pub open spec fn loop_149_step(run_type: Option<Seq<char>>) -> LoopStep {
    match run_type {
        Some(t) => if t == "rcv"@ {
            LoopStep::Run(AutoFlow::Rcv149)
        } else if t == "mat"@ || t == "tsp"@ {
            LoopStep::Run(AutoFlow::Material149)
        } else if t.len() == 0 {
            LoopStep::Run(AutoFlow::Regular149)
        } else {
            LoopStep::UnknownRunType
        },
        None => LoopStep::Run(AutoFlow::Regular149),
    }
}

/// What a loop iteration runs for its TCode, matched exactly as written.
pub open spec fn loop_step(tcode: Seq<char>, run_type: Option<Seq<char>>) -> LoopStep {
    if tcode == "VL06O"@ {
        LoopStep::Run(AutoFlow::Vl06o)
    } else if tcode == "VT11"@ {
        LoopStep::Run(AutoFlow::Vt11)
    } else if tcode == "ZMDESNR"@ {
        LoopStep::Run(AutoFlow::Zmdesnr)
    } else if tcode == "y_dn3_47000149"@ || tcode == "Y_DN3_47000149"@ {
        loop_149_step(run_type)
    } else {
        LoopStep::UnknownTcode
    }
}

/// The flow of a single run, or why there is none.
pub open spec fn single_shot(tcode: Seq<char>, run_type: Option<Seq<char>>) -> Result<
    AutoFlow,
    Seq<char>,
> {
    if is_149(tcode) && blank_run_type(run_type) {
        Err(missing_run_type_message())
    } else if tcode == "VL06O"@ {
        Ok(AutoFlow::Vl06o)
    } else if tcode == "VT11"@ {
        Ok(AutoFlow::Vt11)
    } else if tcode == "ZVT11"@ {
        Ok(AutoFlow::Zvt11)
    } else if tcode == "ZMDESNR"@ {
        Ok(AutoFlow::Zmdesnr)
    } else if tcode == "Y_DN3_47000149"@ {
        let t = run_type->Some_0;
        if t == "rcv"@ {
            Ok(AutoFlow::Rcv149)
        } else if t == "mat"@ || t == "tsp"@ {
            Ok(AutoFlow::Material149)
        } else {
            Err(unknown_run_type_message(t))
        }
    } else {
        Err(unsupported_tcode_message(tcode))
    }
}

/// After iteration `i` of a run of `n` iterations (`0` = without end), the
/// next iteration, if any.
pub open spec fn next_iteration_of(i: nat, n: nat) -> Option<nat> {
    if n > 0 && i >= n {
        None
    } else {
        Some(i + 1)
    }
}

/// How many iterations a run of `n > 0` iterations performs from iteration `i` on.
pub open spec fn iterations_from(i: nat, n: nat) -> nat
    decreases n - i,
{
    match next_iteration_of(i, n) {
        Some(j) => if n > 0 && i < n {
            1 + iterations_from(j, n)
        } else {
            1
        },
        None => 1,
    }
}

/// `Iteration i/n`, or for a run without end `Iteration i (infinite loop, press Ctrl+C to stop)`.
pub open spec fn iteration_label_text(i: nat, n: nat) -> Seq<char> {
    if n == 0 {
        "Iteration "@ + decimal(i) + " (infinite loop, press Ctrl+C to stop)"@
    } else {
        "Iteration "@ + decimal(i) + "/"@ + decimal(n)
    }
}

// ---------------------------------------------------------------------------
// Implementation
// ---------------------------------------------------------------------------

/// Whether `tcode` names the 149 report, in any ASCII case.
pub fn is_149_tcode(tcode: &str) -> (r: bool)
    ensures
        r == is_149(tcode@),
{
    eq_ignore_ascii_case_exec(tcode, "y_dn3_47000149")
}

/// Whether the session with this transaction is logged in.
pub fn is_logged_in(transaction: &str) -> (r: bool)
    ensures
        r == logged_in(transaction@),
{
    !str_contains(transaction, "S000")
}

/// The login check of an unattended run, skipped on request.
pub fn check_logged_in(transaction: &str, skip_sap_check: bool) -> (r: Result<(), String>)
    ensures
        r is Ok <==> (skip_sap_check || logged_in(transaction@)),
        r matches Err(e) ==> e@ == not_logged_in_message(),
{
    if !skip_sap_check && !is_logged_in(transaction) {
        Err(owned("Not logged into SAP. Please log in first."))
    } else {
        Ok(())
    }
}

fn blank_opt(run_type: Option<&str>) -> (r: bool)
    ensures
        r == blank_run_type(crate::config_load::opt_str_view(run_type)),
{
    match run_type {
        Some(t) => t.unicode_len() == 0,
        None => true,
    }
}

/// The required fields of a loop run: a TCode, and for the 149 report a run type.
pub fn check_loop_target(tcode: &str, run_type: Option<&str>) -> (r: Result<(), String>)
    ensures
        match r {
            Ok(()) => loop_target_error(tcode@, crate::config_load::opt_str_view(run_type)) is None,
            Err(e) => loop_target_error(tcode@, crate::config_load::opt_str_view(run_type))
                == Some(e@),
        },
{
    if tcode.unicode_len() == 0 {
        return Err(owned("Missing flag for tcode, enter with --tcode (or set [loop].tcode in config.toml)"));
    }
    if is_149_tcode(tcode) && blank_opt(run_type) {
        return Err(
            owned(
                "Missing flag for tcode-run-type, enter with --tcode-run-type=rcv|mat|tsp (or set [loop].tcode_run_type in config.toml; required for 149 reports)",
            ),
        );
    }
    Ok(())
}

/// What one loop iteration runs for `tcode`.
pub fn loop_step_for(tcode: &str, run_type: Option<&str>) -> (r: LoopStep)
    ensures
        r == loop_step(tcode@, crate::config_load::opt_str_view(run_type)),
{
    if str_eq(tcode, "VL06O") {
        LoopStep::Run(AutoFlow::Vl06o)
    } else if str_eq(tcode, "VT11") {
        LoopStep::Run(AutoFlow::Vt11)
    } else if str_eq(tcode, "ZMDESNR") {
        LoopStep::Run(AutoFlow::Zmdesnr)
    } else if str_eq(tcode, "y_dn3_47000149") || str_eq(tcode, "Y_DN3_47000149") {
        match run_type {
            Some(t) => if str_eq(t, "rcv") {
                LoopStep::Run(AutoFlow::Rcv149)
            } else if str_eq(t, "mat") || str_eq(t, "tsp") {
                LoopStep::Run(AutoFlow::Material149)
            } else if t.unicode_len() == 0 {
                LoopStep::Run(AutoFlow::Regular149)
            } else {
                LoopStep::UnknownRunType
            },
            None => LoopStep::Run(AutoFlow::Regular149),
        }
    } else {
        LoopStep::UnknownTcode
    }
}

fn quoted_message(head: &str, t: &str, tail: &str) -> (r: String)
    ensures
        r@ == head@ + t@ + tail@,
{
    let mut out: Vec<char> = Vec::new();
    append_str(&mut out, head);
    append_str(&mut out, t);
    append_str(&mut out, tail);
    string_of(out.as_slice())
}

/// The flow of a single run of `tcode` (already upper-cased), or why none runs.
pub fn single_shot_flow(tcode: &str, run_type: Option<&str>) -> (r: Result<AutoFlow, String>)
    ensures
        match r {
            Ok(f) => single_shot(tcode@, crate::config_load::opt_str_view(run_type)) == Ok::<
                AutoFlow,
                Seq<char>,
            >(f),
            Err(e) => single_shot(tcode@, crate::config_load::opt_str_view(run_type)) == Err::<
                AutoFlow,
                Seq<char>,
            >(e@),
        },
{
    if is_149_tcode(tcode) && blank_opt(run_type) {
        return Err(
            owned(
                "Missing flag for tcode-run-type, enter with --tcode-run-type=rcv|mat|tsp (required for 149 reports)",
            ),
        );
    }
    if str_eq(tcode, "VL06O") {
        Ok(AutoFlow::Vl06o)
    } else if str_eq(tcode, "VT11") {
        Ok(AutoFlow::Vt11)
    } else if str_eq(tcode, "ZVT11") {
        Ok(AutoFlow::Zvt11)
    } else if str_eq(tcode, "ZMDESNR") {
        Ok(AutoFlow::Zmdesnr)
    } else if str_eq(tcode, "Y_DN3_47000149") {
        proof {
            reveal_strlit("Y_DN3_47000149");
            reveal_strlit("y_dn3_47000149");
            assert(is_149(tcode@));
        }
        let t = match run_type {
            Some(t) => t,
            None => "",
        };
        if str_eq(t, "rcv") {
            Ok(AutoFlow::Rcv149)
        } else if str_eq(t, "mat") || str_eq(t, "tsp") {
            Ok(AutoFlow::Material149)
        } else {
            Err(quoted_message("Unknown --tcode-run-type='", t, "'. Use rcv | mat | tsp."))
        }
    } else {
        Err(
            quoted_message(
                "Single-shot mode does not support TCode '",
                tcode,
                "'. Supported: VT11, ZVT11, VL06O, ZMDESNR, Y_DN3_47000149.",
            ),
        )
    }
}

/// After iteration `iteration` of a run of `iterations` (`0` = without end):
/// the next iteration, or `None` when the run is over.
pub fn next_iteration(iteration: usize, iterations: usize) -> (r: Option<usize>)
    requires
        iterations == 0 ==> iteration < usize::MAX,
    ensures
        match r {
            Some(j) => next_iteration_of(iteration as nat, iterations as nat) == Some(j as nat),
            None => next_iteration_of(iteration as nat, iterations as nat) is None,
        },
{
    if iterations > 0 && iteration >= iterations {
        None
    } else {
        Some(iteration + 1)
    }
}

/// Whether a sequence waits its interval after step `step_index` of `len`:
/// after every step but the last.
pub fn waits_after_step(step_index: usize, len: usize) -> (r: bool)
    ensures
        r == (step_index + 1 < len),
{
    len > 0 && step_index < len - 1
}

/// A sequence run needs at least one option.
pub fn check_sequence_options(count: usize) -> (r: Result<(), String>)
    ensures
        r is Ok <==> count > 0,
        r matches Err(e) ==> e@ == no_sequence_options_message(),
{
    if count == 0 {
        Err(
            owned(
                "No sequence options configured. Sequence uses config.toml — create and set up [sequence].options (run interactively and pick `Configure Sequence`, or hand-edit config.toml).",
            ),
        )
    } else {
        Ok(())
    }
}

/// The heading printed before each iteration.
pub fn iteration_label(iteration: u64, iterations: u64) -> (r: String)
    ensures
        r@ == iteration_label_text(iteration as nat, iterations as nat),
{
    let mut out: Vec<char> = Vec::new();
    append_str(&mut out, "Iteration ");
    let d = decimal_chars(iteration);
    crate::text::append_chars(&mut out, d.as_slice());
    if iterations == 0 {
        append_str(&mut out, " (infinite loop, press Ctrl+C to stop)");
    } else {
        append_str(&mut out, "/");
        let n = decimal_chars(iterations);
        crate::text::append_chars(&mut out, n.as_slice());
    }
    string_of(out.as_slice())
}

/// The line that shows which command-line overrides are in play, if any.
pub fn overrides_banner(o: &crate::cli_overrides::CliOverrides) -> (r: Option<String>)
    ensures
        match r {
            Some(s) => crate::cli_overrides::summary(o@) matches Some(line) && s@
                == "CLI overrides applied (these win over config.toml): "@ + line,
            None => crate::cli_overrides::summary(o@) is None,
        },
{
    match o.summary_line() {
        Some(line) => {
            proof {
                reveal_strlit("");
                assert(""@ =~= Seq::<char>::empty());
            }
            let s = quoted_message(
                "CLI overrides applied (these win over config.toml): ",
                line.as_str(),
                "",
            );
            assert(s@ =~= "CLI overrides applied (these win over config.toml): "@ + line@);
            Some(s)
        },
        None => None,
    }
}

// ---------------------------------------------------------------------------
// Laws
// ---------------------------------------------------------------------------

/// A run of `n > 0` iterations, counted from iteration `i` (`1 <= i <= n`),
/// performs exactly `n - i + 1` iterations: from the first one, exactly `n`.
pub proof fn lemma_run_length(i: nat, n: nat)
    requires
        n > 0,
        1 <= i <= n,
    ensures
        iterations_from(i, n) == n - i + 1,
    decreases n - i,
{
    if i < n {
        lemma_run_length(i + 1, n);
    }
}

/// A run without end (`0` iterations) always goes on to the next iteration.
pub proof fn lemma_endless_run(i: nat)
    ensures
        next_iteration_of(i, 0) == Some(i + 1),
{
}

/// A number of the loop or sequence settings: the command line's, else the
/// setting's text, trimmed, when it reads as a number, else `default`.
pub fn setting_number(given: Option<u64>, text: Option<&str>, default: u64) -> (r: u64)
    ensures
        r == match given {
            Some(n) => n,
            None => match text {
                Some(t) => match crate::text::parse_u64_spec(crate::text::trim(t@)) {
                    Some(n) => n,
                    None => default,
                },
                None => default,
            },
        },
{
    match given {
        Some(n) => n,
        None => match text {
            Some(t) => {
                let trimmed = crate::text::trim_str(t);
                match crate::text::parse_u64(trimmed.as_str()) {
                    Some(n) => n,
                    None => default,
                }
            },
            None => default,
        },
    }
}

} // verus!
