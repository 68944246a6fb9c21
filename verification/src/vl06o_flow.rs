//! The VL06O runs as state machines: the dialog that asks for the
//! parameters of an export or of a date update, and the automatic run from
//! the settings. Each step takes the answer and decides what to ask or do
//! next; the program asks or does it and hands back the answer.
use crate::cli_overrides::opt_view;
use crate::date::{format_date_as, formatted_date, Date, DateStyle};
use crate::params::{date_in_format, parse_date};
use crate::prompts::{
    comma_items, comma_separated, date_entry_style, entry_style_of, excel_directory, pasted_items,
    pasted_numbers, paste_line, typed_items, typed_numbers, PasteLine,
};
use crate::text::{append_str, chars_of, copy_string, owned, string_of, string_views, trim};
use vstd::prelude::*;

verus! {

// ---------------------------------------------------------------------------
// The parameter dialogs
// ---------------------------------------------------------------------------

/// Which parameters the dialog asks for.
#[derive(Debug, Clone, Copy, PartialEq, Eq, Structural)]
pub enum DialogKind {
    /// Those of an export: dates, variant, layout, by date, the shipment
    /// column and the shipment numbers.
    Export,
    /// Those of a date update: the target date, the variant, and shipment or
    /// delivery numbers.
    DateUpdate,
}

/// The question the dialog waits an answer to.
#[derive(Debug, Clone, Copy, PartialEq, Eq, Structural)]
pub enum DialogStep {
    Begin,
    StartDate,
    EndDate,
    Variant,
    Layout,
    ByDate,
    Column,
    InputMode,
    Pasting,
    Manual,
    Subdir,
    PickingFile,
    ColumnName,
    ColumnEmpty,
    ReadingColumn,
    ColumnFailed,
    Target,
    UpdateVariant,
    ItemType,
    UpdateMode,
    UpdateManual,
    Finished,
}

/// An answer to the dialog's last prompt.
pub enum DialogAnswer {
    /// Starts the dialog.
    Begin,
    /// A typed line.
    Text(String),
    /// The index of the item chosen.
    Choice(usize),
    /// The Excel file picked; `None` when none could be.
    File(Option<String>),
    /// The values of the column read; `None` when it could not be read.
    Column(Option<Vec<String>>),
}

/// What to ask or do next.
pub enum Prompt {
    /// Ask for a line of text, offering `initial` (as the default answer
    /// when `as_default`, else as text to edit).
    Input { prompt: String, initial: String, as_default: bool, allow_empty: bool },
    /// Ask to choose one of `items`, `default` preselected.
    Select { prompt: String, items: Vec<String>, default: usize },
    /// Read one pasted line.
    ReadLine,
    /// Let the user pick an Excel file in this directory.
    PickFile(String),
    /// Read the values of a column of an Excel file.
    ReadColumn { path: String, column: String },
    /// The dialog is over; its parameters are in the dialog's state.
    Finished,
}

/// The dialog's state and the parameters gathered so far.
pub struct ParamsDialog {
    pub kind: DialogKind,
    pub step: DialogStep,
    pub date_format: String,
    pub date_hint: String,
    pub today: Date,
    pub today_text: String,
    pub tomorrow: Date,
    pub tomorrow_text: String,
    pub reports_dir: String,
    pub start: Date,
    pub end: Date,
    pub target: Date,
    pub variant: Option<String>,
    pub layout: Option<String>,
    pub by_date: bool,
    pub column: String,
    pub numbers: Vec<String>,
    pub is_shipment: bool,
    pub asked_shipment: bool,
    pub buffer: String,
    pub excel_path: String,
}

pub struct DialogView {
    pub kind: DialogKind,
    pub step: DialogStep,
    pub date_format: Seq<char>,
    pub date_hint: Seq<char>,
    pub today: Date,
    pub today_text: Seq<char>,
    pub tomorrow: Date,
    pub tomorrow_text: Seq<char>,
    pub reports_dir: Seq<char>,
    pub start: Date,
    pub end: Date,
    pub target: Date,
    pub variant: Option<Seq<char>>,
    pub layout: Option<Seq<char>>,
    pub by_date: bool,
    pub column: Seq<char>,
    pub numbers: Seq<Seq<char>>,
    pub is_shipment: bool,
    pub asked_shipment: bool,
    pub buffer: Seq<char>,
    pub excel_path: Seq<char>,
}

pub enum AnswerView {
    Begin,
    Text(Seq<char>),
    Choice(nat),
    File(Option<Seq<char>>),
    Column(Option<Seq<Seq<char>>>),
}

pub enum PromptView {
    Input { prompt: Seq<char>, initial: Seq<char>, as_default: bool, allow_empty: bool },
    Select { prompt: Seq<char>, items: Seq<Seq<char>>, default: nat },
    ReadLine,
    PickFile(Seq<char>),
    ReadColumn { path: Seq<char>, column: Seq<char> },
    Finished,
}

impl View for ParamsDialog {
    type V = DialogView;

    open spec fn view(&self) -> DialogView {
        DialogView {
            kind: self.kind,
            step: self.step,
            date_format: self.date_format@,
            date_hint: self.date_hint@,
            today: self.today,
            today_text: self.today_text@,
            tomorrow: self.tomorrow,
            tomorrow_text: self.tomorrow_text@,
            reports_dir: self.reports_dir@,
            start: self.start,
            end: self.end,
            target: self.target,
            variant: opt_view(self.variant),
            layout: opt_view(self.layout),
            by_date: self.by_date,
            column: self.column@,
            numbers: string_views(self.numbers@),
            is_shipment: self.is_shipment,
            asked_shipment: self.asked_shipment,
            buffer: self.buffer@,
            excel_path: self.excel_path@,
        }
    }
}

pub open spec fn opt_strings(v: Option<Vec<String>>) -> Option<Seq<Seq<char>>> {
    match v {
        Some(x) => Some(string_views(x@)),
        None => None,
    }
}

impl View for DialogAnswer {
    type V = AnswerView;

    open spec fn view(&self) -> AnswerView {
        match self {
            DialogAnswer::Begin => AnswerView::Begin,
            DialogAnswer::Text(t) => AnswerView::Text(t@),
            DialogAnswer::Choice(c) => AnswerView::Choice(*c as nat),
            DialogAnswer::File(f) => AnswerView::File(opt_view(*f)),
            DialogAnswer::Column(c) => AnswerView::Column(opt_strings(*c)),
        }
    }
}

impl View for Prompt {
    type V = PromptView;

    open spec fn view(&self) -> PromptView {
        match self {
            Prompt::Input { prompt, initial, as_default, allow_empty } => PromptView::Input {
                prompt: prompt@,
                initial: initial@,
                as_default: *as_default,
                allow_empty: *allow_empty,
            },
            Prompt::Select { prompt, items, default } => PromptView::Select {
                prompt: prompt@,
                items: string_views(items@),
                default: *default as nat,
            },
            Prompt::ReadLine => PromptView::ReadLine,
            Prompt::PickFile(d) => PromptView::PickFile(d@),
            Prompt::ReadColumn { path, column } => PromptView::ReadColumn { path: path@, column: column@ },
            Prompt::Finished => PromptView::Finished,
        }
    }
}

pub open spec fn input(p: Seq<char>, initial: Seq<char>, as_default: bool, allow_empty: bool) -> PromptView {
    PromptView::Input { prompt: p, initial, as_default, allow_empty }
}

/// What the numbers are called: shipment or delivery.
pub open spec fn item_name(is_shipment: bool) -> Seq<char> {
    if is_shipment { "shipment"@ } else { "delivery"@ }
}

pub open spec fn dl_go(d: DialogView, step: DialogStep, p: PromptView) -> (DialogView, PromptView) {
    (DialogView { step, ..d }, p)
}

pub open spec fn dl_done(d: DialogView) -> (DialogView, PromptView) {
    (DialogView { step: DialogStep::Finished, ..d }, PromptView::Finished)
}

/// The question for the column holding the numbers of an Excel file.
pub open spec fn column_question(d: DialogView) -> (DialogView, PromptView) {
    match d.kind {
        DialogKind::Export => dl_go(
            d,
            DialogStep::ColumnName,
            input("Enter column name containing shipment numbers"@, d.column, true, false),
        ),
        DialogKind::DateUpdate => dl_go(
            d,
            DialogStep::ColumnName,
            input(
                "Enter column name containing "@ + item_name(d.asked_shipment) + " numbers"@,
                Seq::empty(),
                false,
                false,
            ),
        ),
    }
}

/// The numbers found; for a date update, with the kind of number asked for.
pub open spec fn with_numbers(d: DialogView, nums: Seq<Seq<char>>) -> DialogView {
    match d.kind {
        DialogKind::Export => DialogView { numbers: nums, ..d },
        DialogKind::DateUpdate => DialogView { numbers: nums, is_shipment: d.asked_shipment, ..d },
    }
}

/// Typed numbers end the dialog; for a date update only non-empty ones are
/// kept.
pub open spec fn typed_done(d: DialogView, nums: Seq<Seq<char>>) -> (DialogView, PromptView) {
    if d.kind == DialogKind::DateUpdate && nums.len() == 0 {
        dl_done(d)
    } else {
        dl_done(with_numbers(d, nums))
    }
}

pub open spec fn subdir_question() -> PromptView {
    input("Enter subdirectory (optional)"@, Seq::empty(), false, true)
}

pub open spec fn retry_choice(first: Seq<char>) -> PromptView {
    PromptView::Select {
        prompt: "What would you like to do?"@,
        items: seq![first, "Return to main menu"@],
        default: 0,
    }
}

/// One step of a parameter dialog. An export asks for the start and end
/// dates (today by default; an unreadable date is today), the variant and
/// the layout (empty for none), whether to filter by date (no by default),
/// the shipment column (`Shipment Number` when left empty), and how to give
/// the shipment numbers: from an Excel file, typed comma-separated, or
/// pasted line by line until a blank line. A date update asks for the target
/// date (tomorrow by default and when unreadable), the variant (`blank_`
/// when left empty), shipments or deliveries (deliveries by default), and
/// the numbers from an Excel file or typed (commas, else white space).
/// Reading an Excel file asks for a sub-directory of the reports directory,
/// lets the user pick the file, then asks for the column until it gives
/// numbers or the user returns. An answer of the wrong sort ends the dialog.
pub open spec fn vl06o_params_next(d: DialogView, a: AnswerView) -> (DialogView, PromptView) {
    match d.step {
        DialogStep::Begin => match d.kind {
            DialogKind::Export => dl_go(
                d,
                DialogStep::StartDate,
                input("Start date ("@ + d.date_hint + ")"@, d.today_text, true, false),
            ),
            DialogKind::DateUpdate => dl_go(
                d,
                DialogStep::Target,
                input("Target date ("@ + d.date_hint + ")"@, d.tomorrow_text, true, false),
            ),
        },
        DialogStep::StartDate => match a {
            AnswerView::Text(t) => {
                let start = match date_in_format(t, d.date_format) { Some(x) => x, None => d.today };
                dl_go(
                    DialogView { start, ..d },
                    DialogStep::EndDate,
                    input("End date ("@ + d.date_hint + ")"@, d.today_text, true, false),
                )
            },
            _ => dl_done(d),
        },
        DialogStep::EndDate => match a {
            AnswerView::Text(t) => {
                let end = match date_in_format(t, d.date_format) { Some(x) => x, None => d.today };
                dl_go(
                    DialogView { end, ..d },
                    DialogStep::Variant,
                    input("SAP variant name (leave empty for none)"@, Seq::empty(), false, true),
                )
            },
            _ => dl_done(d),
        },
        DialogStep::Variant => match a {
            AnswerView::Text(t) => dl_go(
                DialogView { variant: if t.len() == 0 { None } else { Some(t) }, ..d },
                DialogStep::Layout,
                input("Layout row (leave empty for default)"@, Seq::empty(), false, true),
            ),
            _ => dl_done(d),
        },
        DialogStep::Layout => match a {
            AnswerView::Text(t) => dl_go(
                DialogView { layout: if t.len() == 0 { None } else { Some(t) }, ..d },
                DialogStep::ByDate,
                PromptView::Select { prompt: "Filter by date?"@, items: seq!["Yes"@, "No"@], default: 1 },
            ),
            _ => dl_done(d),
        },
        DialogStep::ByDate => match a {
            AnswerView::Choice(c) => dl_go(
                DialogView { by_date: c == 0, ..d },
                DialogStep::Column,
                input("Column name (leave empty for default)"@, "Shipment Number"@, false, false),
            ),
            _ => dl_done(d),
        },
        DialogStep::Column => match a {
            AnswerView::Text(t) => dl_go(
                DialogView { column: if t.len() == 0 { "Shipment Number"@ } else { t }, ..d },
                DialogStep::InputMode,
                PromptView::Select {
                    prompt: "How would you like to input shipment numbers?"@,
                    items: seq!["Read from Excel file"@, "Enter manually"@, "Paste from clipboard"@],
                    default: 0,
                },
            ),
            _ => dl_done(d),
        },
        DialogStep::InputMode => match a {
            AnswerView::Choice(c) => if c == 0 {
                dl_go(d, DialogStep::Subdir, subdir_question())
            } else if c == 1 {
                dl_go(
                    d,
                    DialogStep::Manual,
                    input("Enter shipment numbers (comma-separated)"@, Seq::empty(), false, false),
                )
            } else if c == 2 {
                dl_go(DialogView { buffer: Seq::empty(), ..d }, DialogStep::Pasting, PromptView::ReadLine)
            } else {
                dl_done(d)
            },
            _ => dl_done(d),
        },
        DialogStep::Pasting => match a {
            AnswerView::Text(line) => if trim(line).len() == 0 && trim(d.buffer).len() == 0 {
                dl_done(d)
            } else if trim(line).len() == 0 {
                dl_done(DialogView { numbers: pasted_items(d.buffer), ..d })
            } else {
                dl_go(DialogView { buffer: d.buffer + line, ..d }, DialogStep::Pasting, PromptView::ReadLine)
            },
            _ => dl_done(d),
        },
        DialogStep::Manual => match a {
            AnswerView::Text(t) => typed_done(d, comma_items(t)),
            _ => dl_done(d),
        },
        DialogStep::Subdir => match a {
            AnswerView::Text(t) => dl_go(
                d,
                DialogStep::PickingFile,
                PromptView::PickFile(
                    if t.len() == 0 { d.reports_dir } else { d.reports_dir + "\\"@ + t },
                ),
            ),
            _ => dl_done(d),
        },
        DialogStep::PickingFile => match a {
            AnswerView::File(Some(p)) => column_question(DialogView { excel_path: p, ..d }),
            _ => dl_done(d),
        },
        DialogStep::ColumnName => match a {
            AnswerView::Text(t) => if t.len() == 0 {
                dl_go(d, DialogStep::ColumnEmpty, retry_choice("Try again"@))
            } else {
                dl_go(
                    d,
                    DialogStep::ReadingColumn,
                    PromptView::ReadColumn { path: d.excel_path, column: t },
                )
            },
            _ => dl_done(d),
        },
        DialogStep::ColumnEmpty => match a {
            AnswerView::Choice(c) => if c == 1 { dl_done(d) } else { column_question(d) },
            _ => dl_done(d),
        },
        DialogStep::ReadingColumn => match a {
            AnswerView::Column(Some(nums)) => if nums.len() > 0 {
                dl_done(with_numbers(d, nums))
            } else {
                dl_go(d, DialogStep::ColumnFailed, retry_choice("Try another column"@))
            },
            AnswerView::Column(None) => dl_go(d, DialogStep::ColumnFailed, retry_choice("Try another column"@)),
            _ => dl_done(d),
        },
        DialogStep::ColumnFailed => match a {
            AnswerView::Choice(c) => if c == 1 { dl_done(d) } else { column_question(d) },
            _ => dl_done(d),
        },
        DialogStep::Target => match a {
            AnswerView::Text(t) => {
                let target = match date_in_format(t, d.date_format) { Some(x) => x, None => d.tomorrow };
                dl_go(
                    DialogView { target, ..d },
                    DialogStep::UpdateVariant,
                    input("SAP variant name (default: blank_)"@, "blank_"@, false, true),
                )
            },
            _ => dl_done(d),
        },
        DialogStep::UpdateVariant => match a {
            AnswerView::Text(t) => dl_go(
                DialogView { variant: Some(if t.len() == 0 { "blank_"@ } else { t }), ..d },
                DialogStep::ItemType,
                PromptView::Select {
                    prompt: "Do you want to provide shipment(s) or deliveries?"@,
                    items: seq!["Shipment(s)"@, "Deliveries"@],
                    default: 1,
                },
            ),
            _ => dl_done(d),
        },
        DialogStep::ItemType => match a {
            AnswerView::Choice(c) => dl_go(
                DialogView { asked_shipment: c == 0, ..d },
                DialogStep::UpdateMode,
                PromptView::Select {
                    prompt: "How would you like to input "@ + item_name(c == 0) + " numbers?"@,
                    items: seq!["Read from Excel file"@, "Enter manually"@],
                    default: 1,
                },
            ),
            _ => dl_done(d),
        },
        DialogStep::UpdateMode => match a {
            AnswerView::Choice(c) => if c == 0 {
                dl_go(d, DialogStep::Subdir, subdir_question())
            } else if c == 1 {
                dl_go(
                    d,
                    DialogStep::UpdateManual,
                    input(
                        "Enter "@ + item_name(d.asked_shipment) + " numbers (space or comma-separated)"@,
                        Seq::empty(),
                        false,
                        false,
                    ),
                )
            } else {
                dl_done(d)
            },
            _ => dl_done(d),
        },
        DialogStep::UpdateManual => match a {
            AnswerView::Text(t) => typed_done(d, typed_items(t)),
            _ => dl_done(d),
        },
        DialogStep::Finished => dl_done(d),
    }
}

fn join3(a: &str, b: &str, c: &str) -> (r: String)
    ensures
        r@ == a@ + b@ + c@,
{
    let mut out = chars_of(a);
    append_str(&mut out, b);
    append_str(&mut out, c);
    string_of(out.as_slice())
}

fn items2(a: &str, b: &str) -> (r: Vec<String>)
    ensures
        string_views(r@) == seq![a@, b@],
{
    let v = vec![owned(a), owned(b)];
    assert(string_views(v@) =~= seq![a@, b@]);
    v
}

fn items3(a: &str, b: &str, c: &str) -> (r: Vec<String>)
    ensures
        string_views(r@) == seq![a@, b@, c@],
{
    let v = vec![owned(a), owned(b), owned(c)];
    assert(string_views(v@) =~= seq![a@, b@, c@]);
    v
}

fn ask(prompt: String, initial: String, as_default: bool, allow_empty: bool) -> (r: Prompt)
    ensures
        r@ == input(prompt@, initial@, as_default, allow_empty),
{
    Prompt::Input { prompt, initial, as_default, allow_empty }
}

fn name_of(is_shipment: bool) -> (r: &'static str)
    ensures
        r@ == item_name(is_shipment),
{
    if is_shipment { "shipment" } else { "delivery" }
}

fn retry(first: &str) -> (r: Prompt)
    ensures
        r@ == retry_choice(first@),
{
    Prompt::Select { prompt: owned("What would you like to do?"), items: items2(first, "Return to main menu"), default: 0 }
}

fn finish(d: ParamsDialog) -> (r: (ParamsDialog, Prompt))
    ensures
        (r.0@, r.1@) == dl_done(d@),
{
    (ParamsDialog { step: DialogStep::Finished, ..d }, Prompt::Finished)
}

fn ask_column(d: ParamsDialog) -> (r: (ParamsDialog, Prompt))
    ensures
        (r.0@, r.1@) == column_question(d@),
{
    match d.kind {
        DialogKind::Export => {
            let init = copy_string(&d.column);
            let p = ask(owned("Enter column name containing shipment numbers"), init, true, false);
            (ParamsDialog { step: DialogStep::ColumnName, ..d }, p)
        },
        DialogKind::DateUpdate => {
            let text = join3("Enter column name containing ", name_of(d.asked_shipment), " numbers");
            let p = ask(text, String::new(), false, false);
            (ParamsDialog { step: DialogStep::ColumnName, ..d }, p)
        },
    }
}

fn set_numbers(d: ParamsDialog, nums: Vec<String>) -> (r: ParamsDialog)
    ensures
        r@ == with_numbers(d@, string_views(nums@)),
{
    match d.kind {
        DialogKind::Export => ParamsDialog { numbers: nums, ..d },
        DialogKind::DateUpdate => {
            let s = d.asked_shipment;
            ParamsDialog { numbers: nums, is_shipment: s, ..d }
        },
    }
}

fn typed_finish(d: ParamsDialog, nums: Vec<String>) -> (r: (ParamsDialog, Prompt))
    ensures
        (r.0@, r.1@) == typed_done(d@, string_views(nums@)),
{
    if d.kind == DialogKind::DateUpdate && nums.len() == 0 {
        finish(d)
    } else {
        finish(set_numbers(d, nums))
    }
}

impl ParamsDialog {
    /// A dialog about to start: dates typed as `date_format` says, today's
    /// and tomorrow's dates as defaults, Excel files picked under
    /// `reports_dir`.
    pub fn new(kind: DialogKind, date_format: String, today: Date, tomorrow: Date, reports_dir: String) -> (r: ParamsDialog)
        ensures
            r@.kind == kind,
            r@.step == DialogStep::Begin,
            r@.date_format == date_format@,
            r@.date_hint == entry_style_of(date_format@).1,
            r@.today == today,
            r@.today_text == formatted_date(today, entry_style_of(date_format@).0),
            r@.tomorrow == tomorrow,
            r@.tomorrow_text == formatted_date(tomorrow, entry_style_of(date_format@).0),
            r@.reports_dir == reports_dir@,
            r@.start == today,
            r@.end == today,
            r@.target == tomorrow,
            r@.variant is None,
            r@.layout is None,
            !r@.by_date,
            r@.column.len() == 0,
            r@.numbers.len() == 0,
            !r@.is_shipment,
            !r@.asked_shipment,
            r@.buffer.len() == 0,
            r@.excel_path.len() == 0,
    {
        let (style, hint) = date_entry_style(date_format.as_str());
        let today_text = format_date_as(today, style);
        let tomorrow_text = format_date_as(tomorrow, style);
        let r = ParamsDialog {
            kind,
            step: DialogStep::Begin,
            date_format,
            date_hint: owned(hint),
            today,
            today_text,
            tomorrow,
            tomorrow_text,
            reports_dir,
            start: today,
            end: today,
            target: tomorrow,
            variant: None,
            layout: None,
            by_date: false,
            column: String::new(),
            numbers: Vec::new(),
            is_shipment: false,
            asked_shipment: false,
            buffer: String::new(),
            excel_path: String::new(),
        };
        assert(r@.numbers =~= Seq::<Seq<char>>::empty());
        r
    }
}

/// One step of a parameter dialog (see [`vl06o_params_next`]).
pub fn vl06o_params_step(dialog: ParamsDialog, answer: DialogAnswer) -> (r: (ParamsDialog, Prompt))
    ensures
        (r.0@, r.1@) == vl06o_params_next(dialog@, answer@),
{
    let d = dialog;
    match d.step {
        DialogStep::Begin => match d.kind {
            DialogKind::Export => {
                let p = ask(join3("Start date (", d.date_hint.as_str(), ")"), copy_string(&d.today_text), true, false);
                (ParamsDialog { step: DialogStep::StartDate, ..d }, p)
            },
            DialogKind::DateUpdate => {
                let p = ask(join3("Target date (", d.date_hint.as_str(), ")"), copy_string(&d.tomorrow_text), true, false);
                (ParamsDialog { step: DialogStep::Target, ..d }, p)
            },
        },
        DialogStep::StartDate => match answer {
            DialogAnswer::Text(t) => {
                let start = match parse_date(t.as_str(), d.date_format.as_str()) {
                    Some(x) => x,
                    None => d.today,
                };
                let p = ask(join3("End date (", d.date_hint.as_str(), ")"), copy_string(&d.today_text), true, false);
                (ParamsDialog { step: DialogStep::EndDate, start, ..d }, p)
            },
            _ => finish(d),
        },
        DialogStep::EndDate => match answer {
            DialogAnswer::Text(t) => {
                let end = match parse_date(t.as_str(), d.date_format.as_str()) {
                    Some(x) => x,
                    None => d.today,
                };
                let p = ask(owned("SAP variant name (leave empty for none)"), String::new(), false, true);
                (ParamsDialog { step: DialogStep::Variant, end, ..d }, p)
            },
            _ => finish(d),
        },
        DialogStep::Variant => match answer {
            DialogAnswer::Text(t) => {
                let variant = if t.unicode_len() == 0 { None } else { Some(t) };
                let p = ask(owned("Layout row (leave empty for default)"), String::new(), false, true);
                (ParamsDialog { step: DialogStep::Layout, variant, ..d }, p)
            },
            _ => finish(d),
        },
        DialogStep::Layout => match answer {
            DialogAnswer::Text(t) => {
                let layout = if t.unicode_len() == 0 { None } else { Some(t) };
                let p = Prompt::Select { prompt: owned("Filter by date?"), items: items2("Yes", "No"), default: 1 };
                (ParamsDialog { step: DialogStep::ByDate, layout, ..d }, p)
            },
            _ => finish(d),
        },
        DialogStep::ByDate => match answer {
            DialogAnswer::Choice(c) => {
                let p = ask(owned("Column name (leave empty for default)"), owned("Shipment Number"), false, false);
                (ParamsDialog { step: DialogStep::Column, by_date: c == 0, ..d }, p)
            },
            _ => finish(d),
        },
        DialogStep::Column => match answer {
            DialogAnswer::Text(t) => {
                let column = if t.unicode_len() == 0 { owned("Shipment Number") } else { t };
                let p = Prompt::Select {
                    prompt: owned("How would you like to input shipment numbers?"),
                    items: items3("Read from Excel file", "Enter manually", "Paste from clipboard"),
                    default: 0,
                };
                (ParamsDialog { step: DialogStep::InputMode, column, ..d }, p)
            },
            _ => finish(d),
        },
        DialogStep::InputMode => match answer {
            DialogAnswer::Choice(c) => if c == 0 {
                let p = ask(owned("Enter subdirectory (optional)"), String::new(), false, true);
                (ParamsDialog { step: DialogStep::Subdir, ..d }, p)
            } else if c == 1 {
                let p = ask(owned("Enter shipment numbers (comma-separated)"), String::new(), false, false);
                (ParamsDialog { step: DialogStep::Manual, ..d }, p)
            } else if c == 2 {
                (ParamsDialog { step: DialogStep::Pasting, buffer: String::new(), ..d }, Prompt::ReadLine)
            } else {
                finish(d)
            },
            _ => finish(d),
        },
        DialogStep::Pasting => match answer {
            DialogAnswer::Text(line) => match paste_line(line.as_str(), d.buffer.as_str()) {
                PasteLine::Nothing => finish(d),
                PasteLine::Finish => {
                    let nums = pasted_numbers(d.buffer.as_str());
                    finish(ParamsDialog { numbers: nums, ..d })
                },
                PasteLine::More => {
                    let mut b = chars_of(d.buffer.as_str());
                    append_str(&mut b, line.as_str());
                    let buffer = string_of(b.as_slice());
                    (ParamsDialog { step: DialogStep::Pasting, buffer, ..d }, Prompt::ReadLine)
                },
            },
            _ => finish(d),
        },
        DialogStep::Manual => match answer {
            DialogAnswer::Text(t) => {
                let nums = comma_separated(t.as_str());
                typed_finish(d, nums)
            },
            _ => finish(d),
        },
        DialogStep::Subdir => match answer {
            DialogAnswer::Text(t) => {
                let dir = excel_directory(d.reports_dir.as_str(), t.as_str());
                (ParamsDialog { step: DialogStep::PickingFile, ..d }, Prompt::PickFile(dir))
            },
            _ => finish(d),
        },
        DialogStep::PickingFile => match answer {
            DialogAnswer::File(Some(p)) => ask_column(ParamsDialog { excel_path: p, ..d }),
            _ => finish(d),
        },
        DialogStep::ColumnName => match answer {
            DialogAnswer::Text(t) => if t.unicode_len() == 0 {
                (ParamsDialog { step: DialogStep::ColumnEmpty, ..d }, retry("Try again"))
            } else {
                let path = copy_string(&d.excel_path);
                (ParamsDialog { step: DialogStep::ReadingColumn, ..d }, Prompt::ReadColumn { path, column: t })
            },
            _ => finish(d),
        },
        DialogStep::ColumnEmpty => match answer {
            DialogAnswer::Choice(c) => if c == 1 { finish(d) } else { ask_column(d) },
            _ => finish(d),
        },
        DialogStep::ReadingColumn => match answer {
            DialogAnswer::Column(Some(nums)) => if nums.len() > 0 {
                finish(set_numbers(d, nums))
            } else {
                (ParamsDialog { step: DialogStep::ColumnFailed, ..d }, retry("Try another column"))
            },
            DialogAnswer::Column(None) => (ParamsDialog { step: DialogStep::ColumnFailed, ..d }, retry("Try another column")),
            _ => finish(d),
        },
        DialogStep::ColumnFailed => match answer {
            DialogAnswer::Choice(c) => if c == 1 { finish(d) } else { ask_column(d) },
            _ => finish(d),
        },
        DialogStep::Target => match answer {
            DialogAnswer::Text(t) => {
                let target = match parse_date(t.as_str(), d.date_format.as_str()) {
                    Some(x) => x,
                    None => d.tomorrow,
                };
                let p = ask(owned("SAP variant name (default: blank_)"), owned("blank_"), false, true);
                (ParamsDialog { step: DialogStep::UpdateVariant, target, ..d }, p)
            },
            _ => finish(d),
        },
        DialogStep::UpdateVariant => match answer {
            DialogAnswer::Text(t) => {
                let v = if t.unicode_len() == 0 { owned("blank_") } else { t };
                let p = Prompt::Select {
                    prompt: owned("Do you want to provide shipment(s) or deliveries?"),
                    items: items2("Shipment(s)", "Deliveries"),
                    default: 1,
                };
                (ParamsDialog { step: DialogStep::ItemType, variant: Some(v), ..d }, p)
            },
            _ => finish(d),
        },
        DialogStep::ItemType => match answer {
            DialogAnswer::Choice(c) => {
                let p = Prompt::Select {
                    prompt: join3("How would you like to input ", name_of(c == 0), " numbers?"),
                    items: items2("Read from Excel file", "Enter manually"),
                    default: 1,
                };
                (ParamsDialog { step: DialogStep::UpdateMode, asked_shipment: c == 0, ..d }, p)
            },
            _ => finish(d),
        },
        DialogStep::UpdateMode => match answer {
            DialogAnswer::Choice(c) => if c == 0 {
                let p = ask(owned("Enter subdirectory (optional)"), String::new(), false, true);
                (ParamsDialog { step: DialogStep::Subdir, ..d }, p)
            } else if c == 1 {
                let text = join3("Enter ", name_of(d.asked_shipment), " numbers (space or comma-separated)");
                let p = ask(text, String::new(), false, false);
                (ParamsDialog { step: DialogStep::UpdateManual, ..d }, p)
            } else {
                finish(d)
            },
            _ => finish(d),
        },
        DialogStep::UpdateManual => match answer {
            DialogAnswer::Text(t) => {
                let nums = typed_numbers(t.as_str());
                typed_finish(d, nums)
            },
            _ => finish(d),
        },
        DialogStep::Finished => finish(d),
    }
}

// ---------------------------------------------------------------------------
// The automatic run
// ---------------------------------------------------------------------------

/// Where an automatic VL06O run stands.
#[derive(Debug, Clone, Copy, PartialEq, Eq, Structural)]
pub enum AutoPhase {
    Start,
    ReadingSources,
    DeliveryExport,
    Marking,
    ReadingShipments,
    Exporting,
    Finished,
}

/// What the program answered.
pub enum Vl06oEvent {
    /// The last action was done.
    Done,
    /// The delivery numbers of the newest ZMDESNR export and of the newest
    /// unused ListCheck file, with that file's path when there is one.
    Sources { zmdesnr: Vec<String>, listcheck: Vec<String>, listcheck_path: Option<String> },
    /// The shipment numbers of the newest VT11 Excel export's column;
    /// `None` when there is no such file or it could not be read.
    Shipments(Option<Vec<String>>),
    /// Whether the export succeeded.
    Exported(bool),
}

/// What to do next.
pub enum Vl06oAction {
    /// Read the delivery numbers of the ZMDESNR and ListCheck files.
    ReadDeliverySources,
    /// Export by delivery: the run's variant, layout and delivery numbers.
    RunDeliveryExport,
    /// Rename the ListCheck file used, marking it as used.
    MarkListcheckUsed { from: String, to: String },
    /// Read the shipment numbers of this column of the newest VT11 export.
    ReadShipmentColumn(String),
    /// Export with the run's parameters and shipment numbers.
    RunExport,
    /// The run is over, with this message.
    Finish(String),
}

/// The state of an automatic VL06O run.
pub struct Vl06oAutoState {
    pub phase: AutoPhase,
    pub configured: bool,
    pub by_delivery: bool,
    pub params: crate::params::VL06OParams,
    pub deliveries: Vec<String>,
    pub listcheck_path: Option<String>,
    pub shipments: Vec<String>,
    pub message: String,
}

pub struct AutoView {
    pub phase: AutoPhase,
    pub configured: bool,
    pub by_delivery: bool,
    pub start: Date,
    pub end: Date,
    pub variant: Option<Seq<char>>,
    pub layout: Option<Seq<char>>,
    pub column: Option<Seq<char>>,
    pub by_date: bool,
    pub deliveries: Seq<Seq<char>>,
    pub listcheck_path: Option<Seq<char>>,
    pub shipments: Seq<Seq<char>>,
    pub message: Seq<char>,
}

pub enum Vl06oEventView {
    Done,
    Sources { zmdesnr: Seq<Seq<char>>, listcheck: Seq<Seq<char>>, listcheck_path: Option<Seq<char>> },
    Shipments(Option<Seq<Seq<char>>>),
    Exported(bool),
}

pub enum Vl06oActionView {
    ReadDeliverySources,
    RunDeliveryExport,
    MarkListcheckUsed { from: Seq<char>, to: Seq<char> },
    ReadShipmentColumn(Seq<char>),
    RunExport,
    Finish(Seq<char>),
}

impl View for Vl06oAutoState {
    type V = AutoView;

    open spec fn view(&self) -> AutoView {
        AutoView {
            phase: self.phase,
            configured: self.configured,
            by_delivery: self.by_delivery,
            start: self.params.start_date,
            end: self.params.end_date,
            variant: opt_view(self.params.sap_variant_name),
            layout: opt_view(self.params.layout_row),
            column: opt_view(self.params.column_name),
            by_date: self.params.by_date,
            deliveries: string_views(self.deliveries@),
            listcheck_path: opt_view(self.listcheck_path),
            shipments: string_views(self.shipments@),
            message: self.message@,
        }
    }
}

impl View for Vl06oEvent {
    type V = Vl06oEventView;

    open spec fn view(&self) -> Vl06oEventView {
        match self {
            Vl06oEvent::Done => Vl06oEventView::Done,
            Vl06oEvent::Sources { zmdesnr, listcheck, listcheck_path } => Vl06oEventView::Sources {
                zmdesnr: string_views(zmdesnr@),
                listcheck: string_views(listcheck@),
                listcheck_path: opt_view(*listcheck_path),
            },
            Vl06oEvent::Shipments(v) => Vl06oEventView::Shipments(opt_strings(*v)),
            Vl06oEvent::Exported(b) => Vl06oEventView::Exported(*b),
        }
    }
}

impl View for Vl06oAction {
    type V = Vl06oActionView;

    open spec fn view(&self) -> Vl06oActionView {
        match self {
            Vl06oAction::ReadDeliverySources => Vl06oActionView::ReadDeliverySources,
            Vl06oAction::RunDeliveryExport => Vl06oActionView::RunDeliveryExport,
            Vl06oAction::MarkListcheckUsed { from, to } => Vl06oActionView::MarkListcheckUsed {
                from: from@,
                to: to@,
            },
            Vl06oAction::ReadShipmentColumn(c) => Vl06oActionView::ReadShipmentColumn(c@),
            Vl06oAction::RunExport => Vl06oActionView::RunExport,
            Vl06oAction::Finish(m) => Vl06oActionView::Finish(m@),
        }
    }
}

pub open spec fn au_end(s: AutoView, m: Seq<char>) -> (AutoView, Vl06oActionView) {
    (AutoView { phase: AutoPhase::Finished, message: m, ..s }, Vl06oActionView::Finish(m))
}

pub open spec fn au_go(s: AutoView, p: AutoPhase, a: Vl06oActionView) -> (AutoView, Vl06oActionView) {
    (AutoView { phase: p, ..s }, a)
}

pub open spec fn stopped_message() -> Seq<char> {
    "VL06O run stopped: an unexpected answer"@
}

/// One step of an automatic VL06O run. Without a `[tcode.VL06O]` section
/// it stops. By delivery, it reads the ZMDESNR and ListCheck numbers and
/// exports with them cleaned of blanks and repeats and sorted (none at all
/// stops the run), then marks the ListCheck file used (`x.csv` becomes
/// `x_.csv`) after a successful export. Otherwise it reads the shipment
/// numbers of the configured column of the newest VT11 export, when a
/// column is set, and exports with the parameters of the settings.
pub open spec fn vl06o_auto_next(s: AutoView, e: Vl06oEventView) -> (AutoView, Vl06oActionView) {
    match s.phase {
        AutoPhase::Start => if !s.configured {
            au_end(s, "No configuration found for VL06O."@)
        } else if s.by_delivery {
            au_go(s, AutoPhase::ReadingSources, Vl06oActionView::ReadDeliverySources)
        } else {
            match s.column {
                Some(c) => au_go(s, AutoPhase::ReadingShipments, Vl06oActionView::ReadShipmentColumn(c)),
                None => au_go(s, AutoPhase::Exporting, Vl06oActionView::RunExport),
            }
        },
        AutoPhase::ReadingSources => match e {
            Vl06oEventView::Sources { zmdesnr, listcheck, listcheck_path } => {
                let nums = crate::sources::sanitized(zmdesnr + listcheck);
                let s1 = AutoView { deliveries: nums, listcheck_path, ..s };
                if nums.len() == 0 {
                    au_end(s1, "No delivery numbers available for VL06O by_delivery mode."@)
                } else {
                    au_go(s1, AutoPhase::DeliveryExport, Vl06oActionView::RunDeliveryExport)
                }
            },
            _ => au_end(s, stopped_message()),
        },
        AutoPhase::DeliveryExport => match e {
            Vl06oEventView::Exported(true) => match s.listcheck_path {
                Some(p) => match crate::export::consumed_name_of(p) {
                    Some(n) => au_go(
                        s,
                        AutoPhase::Marking,
                        Vl06oActionView::MarkListcheckUsed { from: p, to: n },
                    ),
                    None => au_end(s, "VL06O (by_delivery) export completed successfully!"@),
                },
                None => au_end(s, "VL06O (by_delivery) export completed successfully!"@),
            },
            Vl06oEventView::Exported(false) => au_end(
                s,
                "VL06O (by_delivery) export failed or was cancelled."@,
            ),
            _ => au_end(s, stopped_message()),
        },
        AutoPhase::Marking => if e is Done {
            au_end(s, "VL06O (by_delivery) export completed successfully!"@)
        } else {
            au_end(s, stopped_message())
        },
        AutoPhase::ReadingShipments => match e {
            Vl06oEventView::Shipments(Some(list)) => au_go(
                AutoView { shipments: list, ..s },
                AutoPhase::Exporting,
                Vl06oActionView::RunExport,
            ),
            Vl06oEventView::Shipments(None) => au_go(s, AutoPhase::Exporting, Vl06oActionView::RunExport),
            _ => au_end(s, stopped_message()),
        },
        AutoPhase::Exporting => match e {
            Vl06oEventView::Exported(b) => au_end(
                s,
                if b {
                    "VL06O export completed successfully!"@
                } else {
                    "VL06O export failed or was cancelled."@
                },
            ),
            _ => au_end(s, stopped_message()),
        },
        AutoPhase::Finished => au_end(s, s.message),
    }
}

impl Vl06oAutoState {
    /// A run about to start from the `[tcode.VL06O]` settings (`None` when
    /// there is no such section): by delivery when `by_delivery` reads
    /// `true` in any case; the parameters as the settings give them.
    pub fn new(settings: Option<crate::assoc::StrMap>, date_format: &str, today: Date) -> (r: Vl06oAutoState)
        ensures
            r@.phase == AutoPhase::Start,
            r@.configured == settings is Some,
            settings matches Some(m) ==> {
                &&& r@.by_delivery == (crate::params::lower_true(crate::params::setting(m@, "by_delivery"@)) == Some(true))
                &&& r@.variant == crate::params::setting(m@, "variant"@)
                &&& r@.layout == crate::params::setting(m@, "layout"@)
                &&& r@.column == crate::params::setting(m@, "column_name"@)
            },
            r@.deliveries.len() == 0,
            r@.listcheck_path is None,
            r@.shipments.len() == 0,
            r@.message.len() == 0,
    {
        let (configured, by_delivery, params) = match &settings {
            Some(m) => {
                let bd = match m.get("by_delivery") {
                    Some(v) => {
                        let l = crate::text::to_lowercase(v.as_str());
                        proof {
                            reveal_strlit("true");
                        }
                        crate::text::str_eq(l.as_str(), "true")
                    },
                    None => false,
                };
                (true, bd, crate::params::create_vl06o_params_from_config(m, date_format, today))
            },
            None => (false, false, crate::params::VL06OParams::new(today)),
        };
        let r = Vl06oAutoState {
            phase: AutoPhase::Start,
            configured,
            by_delivery,
            params,
            deliveries: Vec::new(),
            listcheck_path: None,
            shipments: Vec::new(),
            message: String::new(),
        };
        assert(r@.deliveries =~= Seq::<Seq<char>>::empty());
        assert(r@.shipments =~= Seq::<Seq<char>>::empty());
        r
    }
}

fn au_finish(s: Vl06oAutoState, m: &str) -> (r: (Vl06oAutoState, Vl06oAction))
    ensures
        (r.0@, r.1@) == au_end(s@, m@),
{
    (Vl06oAutoState { phase: AutoPhase::Finished, message: owned(m), ..s }, Vl06oAction::Finish(owned(m)))
}

/// One step of an automatic VL06O run (see [`vl06o_auto_next`]).
pub fn vl06o_auto_step(state: Vl06oAutoState, event: Vl06oEvent) -> (r: (Vl06oAutoState, Vl06oAction))
    ensures
        (r.0@, r.1@) == vl06o_auto_next(state@, event@),
{
    let s = state;
    match s.phase {
        AutoPhase::Start => if !s.configured {
            au_finish(s, "No configuration found for VL06O.")
        } else if s.by_delivery {
            (Vl06oAutoState { phase: AutoPhase::ReadingSources, ..s }, Vl06oAction::ReadDeliverySources)
        } else {
            let column = match &s.params.column_name {
                Some(c) => Some(copy_string(c)),
                None => None,
            };
            match column {
                Some(c) => (Vl06oAutoState { phase: AutoPhase::ReadingShipments, ..s }, Vl06oAction::ReadShipmentColumn(c)),
                None => (Vl06oAutoState { phase: AutoPhase::Exporting, ..s }, Vl06oAction::RunExport),
            }
        },
        AutoPhase::ReadingSources => match event {
            Vl06oEvent::Sources { zmdesnr, listcheck, listcheck_path } => {
                let nums = crate::export::merge_deliveries(&zmdesnr, &listcheck);
                proof {
                    crate::sources::lemma_sanitized_is(string_views(zmdesnr@) + string_views(listcheck@), string_views(nums@));
                }
                let empty = nums.len() == 0;
                let s1 = Vl06oAutoState { deliveries: nums, listcheck_path, ..s };
                if empty {
                    au_finish(s1, "No delivery numbers available for VL06O by_delivery mode.")
                } else {
                    (Vl06oAutoState { phase: AutoPhase::DeliveryExport, ..s1 }, Vl06oAction::RunDeliveryExport)
                }
            },
            _ => au_finish(s, "VL06O run stopped: an unexpected answer"),
        },
        AutoPhase::DeliveryExport => match event {
            Vl06oEvent::Exported(b) => if b {
                let path = match &s.listcheck_path {
                    Some(p) => Some(copy_string(p)),
                    None => None,
                };
                match path {
                    Some(p) => match crate::export::consumed_name(p.as_str()) {
                        Some(n) => (Vl06oAutoState { phase: AutoPhase::Marking, ..s }, Vl06oAction::MarkListcheckUsed { from: p, to: n }),
                        None => au_finish(s, "VL06O (by_delivery) export completed successfully!"),
                    },
                    None => au_finish(s, "VL06O (by_delivery) export completed successfully!"),
                }
            } else {
                au_finish(s, "VL06O (by_delivery) export failed or was cancelled.")
            },
            _ => au_finish(s, "VL06O run stopped: an unexpected answer"),
        },
        AutoPhase::Marking => match event {
            Vl06oEvent::Done => au_finish(s, "VL06O (by_delivery) export completed successfully!"),
            _ => au_finish(s, "VL06O run stopped: an unexpected answer"),
        },
        AutoPhase::ReadingShipments => match event {
            Vl06oEvent::Shipments(v) => match v {
                Some(list) => (Vl06oAutoState { phase: AutoPhase::Exporting, shipments: list, ..s }, Vl06oAction::RunExport),
                None => (Vl06oAutoState { phase: AutoPhase::Exporting, ..s }, Vl06oAction::RunExport),
            },
            _ => au_finish(s, "VL06O run stopped: an unexpected answer"),
        },
        AutoPhase::Exporting => match event {
            Vl06oEvent::Exported(b) => if b {
                au_finish(s, "VL06O export completed successfully!")
            } else {
                au_finish(s, "VL06O export failed or was cancelled.")
            },
            _ => au_finish(s, "VL06O run stopped: an unexpected answer"),
        },
        AutoPhase::Finished => {
            let m = copy_string(&s.message);
            (Vl06oAutoState { phase: AutoPhase::Finished, ..s }, Vl06oAction::Finish(m))
        },
    }
}

// ---------------------------------------------------------------------------
// What every step keeps
// ---------------------------------------------------------------------------

/// A finished dialog stays finished and keeps its parameters.
pub proof fn lemma_dialog_finished_stays(d: DialogView, a: AnswerView)
    requires
        d.step == DialogStep::Finished,
    ensures
        vl06o_params_next(d, a) == (d, PromptView::Finished),
{
}

/// A finished automatic run stays finished and repeats its message.
pub proof fn lemma_auto_finished_stays(s: AutoView, e: Vl06oEventView)
    requires
        s.phase == AutoPhase::Finished,
    ensures
        vl06o_auto_next(s, e) == (s, Vl06oActionView::Finish(s.message)),
{
}

/// By delivery, the run exports exactly the cleaned union of the ZMDESNR
/// and ListCheck numbers (see [`crate::sources::sanitized`]), and only when
/// it is not empty.
pub proof fn lemma_auto_exports_cleaned_union(
    s: AutoView,
    zm: Seq<Seq<char>>,
    lc: Seq<Seq<char>>,
    p: Option<Seq<char>>,
)
    requires
        s.phase == AutoPhase::ReadingSources,
    ensures
        ({
            let r = vl06o_auto_next(s, Vl06oEventView::Sources { zmdesnr: zm, listcheck: lc, listcheck_path: p });
            &&& r.0.deliveries == crate::sources::sanitized(zm + lc)
            &&& (r.1 is RunDeliveryExport <==> r.0.deliveries.len() > 0)
        }),
{
}

} // verus!
