//! Choosing a report layout: which dialog a TCode opens, which grid row
//! names the layout, and what to do when it is not found.
use crate::inbond::{default_layout_columns, inbond_default_layout_columns};
use crate::text::{
    copy_string, eq_ignore_ascii_case, eq_ignore_ascii_case_exec, lowercase, owned, str_eq,
    string_views, to_lowercase, trim, trim_str,
};
use vstd::prelude::*;

verus! {

/// How a TCode's layout is chosen.
#[derive(Debug, Clone, Copy, PartialEq, Eq, Structural)]
pub enum LayoutMethod {
    /// The layout grid of the 149 report.
    Grid149,
    /// The layout grid of ZVT11.
    GridZvt11,
    /// The search dialog of the other reports.
    Search,
}

/// What opens a TCode's layout dialog.
#[derive(Debug, Clone, Copy, PartialEq, Eq, Structural)]
pub enum LayoutPopup {
    /// Press the layout button `wnd[0]/tbar[1]/btn[33]`.
    LayoutButton,
    /// Press that button where the screen has it.
    LayoutButtonIfPresent,
    /// Select the VT11 menu entry `wnd[0]/mbar/menu[3]/menu[0]/menu[1]`.
    Vt11Menu,
    /// Select the VL06O menu entry `wnd[0]/mbar/menu[3]/menu[2]/menu[1]`.
    Vl06oMenu,
    /// Nothing known for the TCode.
    Nothing,
}

pub open spec fn method_of(tcode: Seq<char>) -> LayoutMethod {
    let l = lowercase(tcode);
    if l == "y_dn3_47000149"@ {
        LayoutMethod::Grid149
    } else if l == "zvt11"@ {
        LayoutMethod::GridZvt11
    } else {
        LayoutMethod::Search
    }
}

pub open spec fn popup_of(tcode: Seq<char>) -> LayoutPopup {
    let l = lowercase(tcode);
    if l == "lx03"@ || l == "lx02"@ || l == "y_dn3_47000149"@ {
        LayoutPopup::LayoutButton
    } else if l == "vt11"@ {
        LayoutPopup::Vt11Menu
    } else if l == "vl06o"@ {
        LayoutPopup::Vl06oMenu
    } else if l == "zmdesnr"@ {
        LayoutPopup::LayoutButtonIfPresent
    } else {
        LayoutPopup::Nothing
    }
}

/// How the layout of `tcode` (any case) is chosen.
pub fn layout_method(tcode: &str) -> (r: LayoutMethod)
    ensures
        r == method_of(tcode@),
{
    let l = to_lowercase(tcode);
    if str_eq(l.as_str(), "y_dn3_47000149") {
        LayoutMethod::Grid149
    } else if str_eq(l.as_str(), "zvt11") {
        LayoutMethod::GridZvt11
    } else {
        LayoutMethod::Search
    }
}

/// What opens the layout dialog of `tcode` (any case).
pub fn layout_popup_action(tcode: &str) -> (r: LayoutPopup)
    ensures
        r == popup_of(tcode@),
{
    let l = to_lowercase(tcode);
    let s = l.as_str();
    if str_eq(s, "lx03") || str_eq(s, "lx02") || str_eq(s, "y_dn3_47000149") {
        LayoutPopup::LayoutButton
    } else if str_eq(s, "vt11") {
        LayoutPopup::Vt11Menu
    } else if str_eq(s, "vl06o") {
        LayoutPopup::Vl06oMenu
    } else if str_eq(s, "zmdesnr") {
        LayoutPopup::LayoutButtonIfPresent
    } else {
        LayoutPopup::Nothing
    }
}

/// A grid cell names the layout: equal once both are trimmed and lower-cased.
pub open spec fn names_layout(cell: Seq<char>, name: Seq<char>) -> bool {
    lowercase(trim(cell)) == lowercase(trim(name))
}

/// A cell that could be read and names the layout.
pub open spec fn cell_names(cell: Option<Seq<char>>, name: Seq<char>) -> bool {
    cell matches Some(c) && names_layout(c, name)
}

/// `i` is the first row whose cell (where it could be read) names the layout.
pub open spec fn is_first_row(cells: Seq<Option<Seq<char>>>, name: Seq<char>, i: int) -> bool {
    &&& 0 <= i < cells.len()
    &&& cell_names(cells[i], name)
    &&& forall|j: int| 0 <= j < i ==> !cell_names(cells[j], name)
}

pub open spec fn cell_views(cells: Seq<Option<String>>) -> Seq<Option<Seq<char>>> {
    Seq::new(cells.len(), |i: int| crate::cli_overrides::opt_view(cells[i]))
}

/// The first row of the layout grid that names `name`; unreadable cells are
/// skipped.
pub fn find_layout_row(cells: &Vec<Option<String>>, name: &str) -> (r: Option<usize>)
    ensures
        match r {
            Some(i) => is_first_row(cell_views(cells@), name@, i as int),
            None => forall|j: int|
                0 <= j < cells@.len() ==> !cell_names(cell_views(cells@)[j], name@),
        },
{
    let target = to_lowercase(trim_str(name).as_str());
    let mut i: usize = 0;
    while i < cells.len()
        invariant
            target@ == lowercase(trim(name@)),
            i <= cells@.len(),
            forall|j: int|
                0 <= j < i ==> !cell_names(cell_views(cells@)[j], name@),
        decreases cells@.len() - i,
    {
        match &cells[i] {
            Some(t) => {
                let l = to_lowercase(trim_str(t.as_str()).as_str());
                if str_eq(l.as_str(), target.as_str()) {
                    return Some(i);
                }
            },
            None => {},
        }
        i = i + 1;
    }
    None
}

/// A grid cell names the layout up to ASCII case, once both are trimmed.
pub open spec fn names_layout_ascii(cell: Seq<char>, name: Seq<char>) -> bool {
    eq_ignore_ascii_case(trim(cell), trim(name))
}

/// A cell that could be read and names the layout up to ASCII case.
pub open spec fn cell_names_ascii(cell: Option<Seq<char>>, name: Seq<char>) -> bool {
    cell matches Some(c) && names_layout_ascii(c, name)
}

/// The first row naming `name` up to ASCII case, for selecting an existing
/// layout without asking the user; `None` as well for a blank name.
pub fn find_layout_row_ascii(cells: &Vec<Option<String>>, name: &str) -> (r: Option<usize>)
    ensures
        trim(name@).len() == 0 ==> r is None,
        match r {
            Some(i) => 0 <= i < cells@.len() && cell_names_ascii(cell_views(cells@)[i as int], name@) && forall|j: int|
                0 <= j < i ==> !cell_names_ascii(cell_views(cells@)[j], name@),
            None => trim(name@).len() == 0 || forall|j: int|
                0 <= j < cells@.len() ==> !cell_names_ascii(cell_views(cells@)[j], name@),
        },
{
    let target = trim_str(name);
    if target.unicode_len() == 0 {
        return None;
    }
    let mut i: usize = 0;
    while i < cells.len()
        invariant
            target@ == trim(name@),
            trim(name@).len() > 0,
            i <= cells@.len(),
            forall|j: int|
                0 <= j < i ==> !cell_names_ascii(cell_views(cells@)[j], name@),
        decreases cells@.len() - i,
    {
        match &cells[i] {
            Some(t) => {
                let c = trim_str(t.as_str());
                if eq_ignore_ascii_case_exec(c.as_str(), target.as_str()) {
                    return Some(i);
                }
            },
            None => {},
        }
        i = i + 1;
    }
    None
}

/// A row of the ZVT11 grid names the layout in any of the columns read.
pub open spec fn row_names_layout(row: Seq<Option<Seq<char>>>, name: Seq<char>) -> bool {
    exists|k: int| 0 <= k < row.len() && cell_names(row[k], name)
}

/// The first row of the ZVT11 grid where one of the columns read names the layout.
pub fn find_layout_row_any(rows: &Vec<Vec<Option<String>>>, name: &str) -> (r: Option<usize>)
    ensures
        match r {
            Some(i) => 0 <= i < rows@.len() && row_names_layout(cell_views(rows@[i as int]@), name@)
                && forall|j: int|
                0 <= j < i ==> !row_names_layout(cell_views(rows@[j]@), name@),
            None => forall|j: int|
                0 <= j < rows@.len() ==> !row_names_layout(cell_views(rows@[j]@), name@),
        },
{
    let mut i: usize = 0;
    while i < rows.len()
        invariant
            i <= rows@.len(),
            forall|j: int| 0 <= j < i ==> !row_names_layout(cell_views(rows@[j]@), name@),
        decreases rows@.len() - i,
    {
        match find_layout_row(&rows[i], name) {
            Some(k) => {
                assert(cell_names(cell_views(rows@[i as int]@)[k as int], name@));
                return Some(i);
            },
            None => {},
        }
        i = i + 1;
    }
    None
}

/// The name to save the inbond layout under: the given one trimmed, or
/// `inb_ship` when it is blank.
pub fn inbond_save_name(layout_name: &str) -> (r: String)
    ensures
        r@ == if trim(layout_name@).len() == 0 {
            "inb_ship"@
        } else {
            trim(layout_name@)
        },
{
    let t = trim_str(layout_name);
    if t.unicode_len() == 0 {
        owned("inb_ship")
    } else {
        t
    }
}

/// The columns to set up: those given, or the default inbond columns.
pub fn inbond_columns(columns: &Vec<String>) -> (r: Vec<String>)
    ensures
        string_views(r@) == if columns@.len() == 0 {
            default_layout_columns()
        } else {
            string_views(columns@)
        },
{
    if columns.len() == 0 {
        inbond_default_layout_columns()
    } else {
        let mut out: Vec<String> = Vec::new();
        let mut i: usize = 0;
        while i < columns.len()
            invariant
                i <= columns@.len(),
                out@.len() == i,
                forall|k: int| 0 <= k < i ==> #[trigger] out@[k]@ == columns@[k]@,
            decreases columns@.len() - i,
        {
            out.push(copy_string(&columns[i]));
            i = i + 1;
        }
        assert(string_views(out@) =~= string_views(columns@));
        out
    }
}

/// The name the user settles on: the one typed, trimmed, unless blank.
pub fn chosen_layout_name(save_name: &str, typed: &str) -> (r: String)
    ensures
        r@ == if trim(typed@).len() == 0 {
            save_name@
        } else {
            trim(typed@)
        },
{
    let t = trim_str(typed);
    if t.unicode_len() == 0 {
        owned(save_name)
    } else {
        t
    }
}

/// After "layout not found": retry with the name typed when the user picked
/// the first option (enter another name) and typed one, else cancel.
pub fn retry_layout(selection: usize, typed: &str) -> (r: Option<String>)
    ensures
        match r {
            Some(n) => selection == 0 && typed@.len() > 0 && n@ == typed@,
            None => selection != 0 || typed@.len() == 0,
        },
{
    if selection == 0 && typed.unicode_len() > 0 {
        Some(owned(typed))
    } else {
        None
    }
}

/// The message of a cancelled layout choice.
pub fn layout_cancelled_message() -> (r: &'static str)
    ensures
        r@ == "Layout selection cancelled"@,
{
    "Layout selection cancelled"
}


// ---------------------------------------------------------------------------
// The search dialog
// ---------------------------------------------------------------------------

/// Where a layout search stands.
#[derive(Debug, Clone, Copy, PartialEq, Eq, Structural)]
pub enum SearchStage {
    /// Looking whether the layout dialog (window 1) is open.
    FirstCheck,
    /// The dialog was opened; looking again.
    SecondCheck,
    /// The search button was pressed; looking for the search window (2).
    Window2Check,
    /// The name was typed into window 1.
    TypedFirst,
    /// The start option of window 2 was cleared.
    Unchecked,
    /// The name was typed into window 2.
    TypedSecond,
    /// Window 2 was confirmed.
    Confirmed,
    /// Looking for the result window (3).
    Window3Check,
    /// Looking for a result in it.
    ResultCheck,
    /// The result was picked.
    Picked,
    /// The dialogs are being closed before reading the status bar.
    Closing,
    /// No result: the error dialogs are being closed.
    NotFound,
    /// The user was asked for another name.
    Asked,
    /// Another name: closing the dialogs before opening them again.
    Reopen,
    /// Opening the dialog again.
    Restart,
    /// The user gave up: closing the dialogs.
    Cancelling,
    /// Reading the status bar.
    Reading,
    /// Over.
    Ended,
    /// The layout dialog was just opened.
    PopupOpened,
    /// The search button was just pressed.
    Searched,
}

/// What the program is asked to do next.
pub enum SearchAction {
    /// Say whether window `n` is open.
    CheckWindow(u8),
    /// Open the TCode's layout dialog (see [`layout_popup_action`]).
    OpenPopup,
    /// Press the search button of window 1 (`btn[71]`, else `btn[16]`) and wait.
    PressSearch,
    /// Type the name into window 1's search field and press Enter; say
    /// whether the field was there.
    TypeInWindow1(String),
    /// Clear window 2's "start of string" option where it has one.
    UncheckStartOption,
    /// Type the name into window 2's search field (`txtRSYSF-STRING`, else
    /// `txtGS_SEARCH-VALUE`); say whether one was there.
    TypeInWindow2(String),
    /// Press Enter on window 2 and wait.
    ConfirmWindow2,
    /// Say whether window 3 shows a result.
    CheckResult,
    /// Pick the result, close windows 3 and 2 where open, confirm window 1.
    PickResult,
    /// Close every popup.
    ClosePopups,
    /// Close the error popups.
    CloseErrorPopups,
    /// Ask the user for another name, or to give up.
    AskUser,
    /// Wait, then give the status bar's text.
    ReadStatus,
    /// The search is over, with this message.
    Finish(String),
}

/// What the program saw after an action.
pub enum SearchEvent {
    /// The window asked about is open or not.
    Window(bool),
    /// The field or result asked about was there or not.
    Found(bool),
    /// The user's answer: a name to try, or none.
    Answer(Option<String>),
    /// The status bar's text.
    Status(String),
    /// The action is done.
    Done,
}

/// Whether `e` answers what was asked at `stage`.
pub open spec fn expects(stage: SearchStage, e: SearchEvent) -> bool {
    match stage {
        SearchStage::FirstCheck | SearchStage::SecondCheck | SearchStage::Window2Check
        | SearchStage::Window3Check => e is Window,
        SearchStage::TypedFirst | SearchStage::TypedSecond | SearchStage::ResultCheck => e is Found,
        SearchStage::Asked => e is Answer,
        SearchStage::Reading => e is Status,
        SearchStage::Ended => false,
        _ => e is Done,
    }
}

/// The next stage and action after `e` at `stage`, searching for `layout`;
/// the name to search for afterwards is the third part.
pub open spec fn search_step(stage: SearchStage, layout: Seq<char>, e: SearchEvent) -> (
    SearchStage,
    Seq<char>,
) {
    match (stage, e) {
        (SearchStage::FirstCheck, SearchEvent::Window(true)) => (SearchStage::Searched, layout),
        (SearchStage::FirstCheck, SearchEvent::Window(false)) => (SearchStage::PopupOpened, layout),
        (SearchStage::PopupOpened, _) => (SearchStage::SecondCheck, layout),
        (SearchStage::SecondCheck, SearchEvent::Window(true)) => (SearchStage::Searched, layout),
        (SearchStage::SecondCheck, SearchEvent::Window(false)) => (SearchStage::Ended, layout),
        (SearchStage::Searched, _) => (SearchStage::Window2Check, layout),
        (SearchStage::Window2Check, SearchEvent::Window(false)) => (SearchStage::TypedFirst, layout),
        (SearchStage::Window2Check, SearchEvent::Window(true)) => (SearchStage::Unchecked, layout),
        (SearchStage::TypedFirst, SearchEvent::Found(true)) => (SearchStage::Window3Check, layout),
        (SearchStage::TypedFirst, SearchEvent::Found(false)) => (SearchStage::Ended, layout),
        (SearchStage::Unchecked, _) => (SearchStage::TypedSecond, layout),
        (SearchStage::TypedSecond, SearchEvent::Found(true)) => (SearchStage::Confirmed, layout),
        (SearchStage::TypedSecond, SearchEvent::Found(false)) => (SearchStage::Ended, layout),
        (SearchStage::Confirmed, _) => (SearchStage::Window3Check, layout),
        (SearchStage::Window3Check, SearchEvent::Window(false)) => (SearchStage::Closing, layout),
        (SearchStage::Window3Check, SearchEvent::Window(true)) => (SearchStage::ResultCheck, layout),
        (SearchStage::ResultCheck, SearchEvent::Found(true)) => (SearchStage::Picked, layout),
        (SearchStage::ResultCheck, SearchEvent::Found(false)) => (SearchStage::NotFound, layout),
        (SearchStage::Picked, _) => (SearchStage::Reading, layout),
        (SearchStage::Closing, _) => (SearchStage::Reading, layout),
        (SearchStage::NotFound, _) => (SearchStage::Asked, layout),
        (SearchStage::Asked, SearchEvent::Answer(Some(n))) => if n@.len() > 0 {
            (SearchStage::Reopen, n@)
        } else {
            (SearchStage::Cancelling, layout)
        },
        (SearchStage::Asked, SearchEvent::Answer(None)) => (SearchStage::Cancelling, layout),
        (SearchStage::Reopen, _) => (SearchStage::Restart, layout),
        (SearchStage::Restart, _) => (SearchStage::FirstCheck, layout),
        (SearchStage::Cancelling, _) => (SearchStage::Ended, layout),
        (SearchStage::Reading, _) => (SearchStage::Ended, layout),
        _ => (stage, layout),
    }
}

/// The action that goes with entering `next` from `stage`.
pub open spec fn search_action(
    stage: SearchStage,
    next: SearchStage,
    layout: Seq<char>,
    e: SearchEvent,
    a: SearchAction,
) -> bool {
    match next {
        SearchStage::Searched => a is PressSearch,
        SearchStage::PopupOpened | SearchStage::Restart => a is OpenPopup,
        SearchStage::SecondCheck | SearchStage::FirstCheck => a matches SearchAction::CheckWindow(n)
            && n == 1,
        SearchStage::Window2Check => a matches SearchAction::CheckWindow(n) && n == 2,
        SearchStage::Window3Check => a matches SearchAction::CheckWindow(n) && n == 3,
        SearchStage::TypedFirst => a matches SearchAction::TypeInWindow1(t) && t@ == layout,
        SearchStage::Unchecked => a is UncheckStartOption,
        SearchStage::TypedSecond => a matches SearchAction::TypeInWindow2(t) && t@ == layout,
        SearchStage::Confirmed => a is ConfirmWindow2,
        SearchStage::ResultCheck => a is CheckResult,
        SearchStage::Picked => a is PickResult,
        SearchStage::Closing | SearchStage::Reopen | SearchStage::Cancelling => a is ClosePopups,
        SearchStage::NotFound => a is CloseErrorPopups,
        SearchStage::Asked => a is AskUser,
        SearchStage::Reading => a is ReadStatus,
        SearchStage::Ended => a matches SearchAction::Finish(m) && m@ == match stage {
            SearchStage::SecondCheck => "Failed to open layout selection window"@,
            SearchStage::TypedFirst | SearchStage::TypedSecond => "Failed to find search field"@,
            SearchStage::Cancelling => "Layout selection cancelled"@,
            _ => match e {
                SearchEvent::Status(s) => s@,
                _ => Seq::empty(),
            },
        },
    }
}

/// A layout search in progress.
pub struct LayoutSearch {
    pub stage: SearchStage,
    /// The name searched for.
    pub layout: String,
}

impl LayoutSearch {
    /// A search for `layout`; the first action is to look for window 1.
    pub fn start(layout: &str) -> (r: (LayoutSearch, SearchAction))
        ensures
            r.0.stage == SearchStage::FirstCheck,
            r.0.layout@ == layout@,
            r.1 matches SearchAction::CheckWindow(n) && n == 1,
    {
        (LayoutSearch { stage: SearchStage::FirstCheck, layout: owned(layout) }, SearchAction::CheckWindow(1))
    }

    /// Takes what the program saw and gives the next action.
    pub fn step(&mut self, e: SearchEvent) -> (a: SearchAction)
        requires
            expects(old(self).stage, e),
        ensures
            (final(self).stage, final(self).layout@) == search_step(
                old(self).stage,
                old(self).layout@,
                e,
            ),
            search_action(old(self).stage, final(self).stage, final(self).layout@, e, a),
    {
        let stage = self.stage;
        match (stage, e) {
            (SearchStage::FirstCheck, SearchEvent::Window(true)) => {
                self.stage = SearchStage::Searched;
                SearchAction::PressSearch
            },
            (SearchStage::FirstCheck, SearchEvent::Window(false)) => {
                self.stage = SearchStage::PopupOpened;
                SearchAction::OpenPopup
            },
            (SearchStage::PopupOpened, _) => {
                self.stage = SearchStage::SecondCheck;
                SearchAction::CheckWindow(1)
            },
            (SearchStage::SecondCheck, SearchEvent::Window(true)) => {
                self.stage = SearchStage::Searched;
                SearchAction::PressSearch
            },
            (SearchStage::SecondCheck, _) => {
                self.stage = SearchStage::Ended;
                SearchAction::Finish(owned("Failed to open layout selection window"))
            },
            (SearchStage::Searched, _) => {
                self.stage = SearchStage::Window2Check;
                SearchAction::CheckWindow(2)
            },
            (SearchStage::Window2Check, SearchEvent::Window(false)) => {
                self.stage = SearchStage::TypedFirst;
                SearchAction::TypeInWindow1(copy_string(&self.layout))
            },
            (SearchStage::Window2Check, _) => {
                self.stage = SearchStage::Unchecked;
                SearchAction::UncheckStartOption
            },
            (SearchStage::TypedFirst, SearchEvent::Found(true)) => {
                self.stage = SearchStage::Window3Check;
                SearchAction::CheckWindow(3)
            },
            (SearchStage::TypedFirst, _) => {
                self.stage = SearchStage::Ended;
                SearchAction::Finish(owned("Failed to find search field"))
            },
            (SearchStage::Unchecked, _) => {
                self.stage = SearchStage::TypedSecond;
                SearchAction::TypeInWindow2(copy_string(&self.layout))
            },
            (SearchStage::TypedSecond, SearchEvent::Found(true)) => {
                self.stage = SearchStage::Confirmed;
                SearchAction::ConfirmWindow2
            },
            (SearchStage::TypedSecond, _) => {
                self.stage = SearchStage::Ended;
                SearchAction::Finish(owned("Failed to find search field"))
            },
            (SearchStage::Confirmed, _) => {
                self.stage = SearchStage::Window3Check;
                SearchAction::CheckWindow(3)
            },
            (SearchStage::Window3Check, SearchEvent::Window(false)) => {
                self.stage = SearchStage::Closing;
                SearchAction::ClosePopups
            },
            (SearchStage::Window3Check, _) => {
                self.stage = SearchStage::ResultCheck;
                SearchAction::CheckResult
            },
            (SearchStage::ResultCheck, SearchEvent::Found(true)) => {
                self.stage = SearchStage::Picked;
                SearchAction::PickResult
            },
            (SearchStage::ResultCheck, _) => {
                self.stage = SearchStage::NotFound;
                SearchAction::CloseErrorPopups
            },
            (SearchStage::Picked, _) => {
                self.stage = SearchStage::Reading;
                SearchAction::ReadStatus
            },
            (SearchStage::Closing, _) => {
                self.stage = SearchStage::Reading;
                SearchAction::ReadStatus
            },
            (SearchStage::NotFound, _) => {
                self.stage = SearchStage::Asked;
                SearchAction::AskUser
            },
            (SearchStage::Asked, SearchEvent::Answer(Some(n))) => {
                if n.unicode_len() > 0 {
                    self.stage = SearchStage::Reopen;
                    self.layout = n;
                } else {
                    self.stage = SearchStage::Cancelling;
                }
                SearchAction::ClosePopups
            },
            (SearchStage::Asked, _) => {
                self.stage = SearchStage::Cancelling;
                SearchAction::ClosePopups
            },
            (SearchStage::Reopen, _) => {
                self.stage = SearchStage::Restart;
                SearchAction::OpenPopup
            },
            (SearchStage::Restart, _) => {
                self.stage = SearchStage::FirstCheck;
                SearchAction::CheckWindow(1)
            },
            (SearchStage::Cancelling, _) => {
                self.stage = SearchStage::Ended;
                SearchAction::Finish(owned("Layout selection cancelled"))
            },
            (SearchStage::Reading, SearchEvent::Status(s)) => {
                self.stage = SearchStage::Ended;
                SearchAction::Finish(s)
            },
            (_, _) => {
                SearchAction::Finish(String::new())
            },
        }
    }
}

/// How many steps at most a search still takes before it ends or asks the
/// user again.
pub open spec fn stage_rank(s: SearchStage) -> nat {
    match s {
        SearchStage::FirstCheck => 14,
        SearchStage::PopupOpened => 13,
        SearchStage::SecondCheck => 12,
        SearchStage::Searched => 11,
        SearchStage::Window2Check => 10,
        SearchStage::Unchecked => 9,
        SearchStage::TypedSecond => 8,
        SearchStage::TypedFirst => 7,
        SearchStage::Confirmed => 7,
        SearchStage::Window3Check => 6,
        SearchStage::ResultCheck => 5,
        SearchStage::NotFound => 4,
        SearchStage::Picked => 2,
        SearchStage::Closing => 2,
        SearchStage::Asked => 3,
        SearchStage::Cancelling => 1,
        SearchStage::Reading => 1,
        SearchStage::Reopen => 16,
        SearchStage::Restart => 15,
        SearchStage::Ended => 0,
    }
}

/// Every step brings the search closer to its end, except the user's
/// answer with another name, which starts a new attempt.
pub proof fn lemma_search_progress(stage: SearchStage, layout: Seq<char>, e: SearchEvent)
    requires
        expects(stage, e),
        !(stage == SearchStage::Asked && search_step(stage, layout, e).0 == SearchStage::Reopen),
    ensures
        stage_rank(search_step(stage, layout, e).0) < stage_rank(stage),
{
}

/// A new attempt searches for the name the user just gave.
pub proof fn lemma_retry_uses_answer(layout: Seq<char>, n: String)
    requires
        n@.len() > 0,
    ensures
        search_step(SearchStage::Asked, layout, SearchEvent::Answer(Some(n)))
            == (SearchStage::Reopen, n@),
{
}

} // verus!
