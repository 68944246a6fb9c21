//! The VT11 runs as state machines: the ListCheck scan of the shipment list
//! and the export. Each step takes what the screen answered and decides the
//! next thing to do on it; the program performs that and hands back the
//! answer.
use crate::cli_overrides::opt_view;
use crate::listcheck::{
    group, logged, number_pattern, or_empty, read_status, reading_of, regex_captures,
    went_deeper, ListcheckLog, LogView,
};
use crate::text::{contains, copy_string, lowercase, string_views};
use vstd::prelude::*;

verus! {

// ---------------------------------------------------------------------------
// ListCheck
// ---------------------------------------------------------------------------

/// Where a ListCheck run stands: which answer it waits for.
#[derive(Debug, Clone, Copy, PartialEq, Eq, Structural)]
pub enum ListcheckPhase {
    /// Nothing done yet.
    Start,
    /// The variant is being selected.
    VariantSet,
    /// The date range is being typed.
    DatesSet,
    /// The selection is being executed.
    Executed,
    /// The layout is being chosen.
    LayoutChosen,
    /// The first row of a page is being read.
    FirstRow,
    /// A row of the page is being read.
    RowRead,
    /// A shipment is being opened.
    Opened,
    /// The program looks for a popup.
    PopupChecked,
    /// A popup is being dismissed.
    PopupDismissed,
    /// The status bar and the transaction are being read.
    OutcomeRead,
    /// The shipment is being left.
    Left,
    /// The list is being scrolled a page down.
    PagedDown,
    /// The run is over.
    Finished,
}

/// What the screen answered.
pub enum ListcheckEvent {
    /// The last action was done.
    Done,
    /// The text of the label asked for; `None` when there is no such label.
    Text(Option<String>),
    /// Whether a popup window is open.
    Popup(bool),
    /// After opening a shipment: the status bar, the transaction shown and
    /// the time.
    Outcome { status: String, transaction: String, timestamp: String },
}

/// What to do next on the screen.
pub enum ListcheckAction {
    /// Select this variant of VT11.
    SelectVariant(String),
    /// Type the planning dates, low and high.
    SetDates(String, String),
    /// Execute the selection (F8).
    Execute,
    /// Open the layout menu and choose this layout.
    ChooseLayout(String),
    /// Read the shipment label of the first row (`lbl[8,4]`).
    ReadFirstRow,
    /// Read the shipment label of this row (`lbl[8,row]`).
    ReadRow(u64),
    /// Focus the label of this row and open it (F2).
    OpenRow(u64),
    /// Tell whether a popup window is open.
    CheckPopup,
    /// Confirm the popup (Enter on `wnd[1]`).
    DismissPopup,
    /// Read the status bar, the transaction and the time.
    ReadOutcome,
    /// Go back from the shipment's detail screen (F3).
    LeaveDetail,
    /// Close the message window (F3 on `wnd[1]`).
    CloseMessage,
    /// Scroll the list a page down.
    PageDown,
    /// The run is over: write out the log.
    Finish,
}

/// The state of a ListCheck run.
pub struct ListcheckState {
    pub phase: ListcheckPhase,
    pub variant: Option<String>,
    pub layout: Option<String>,
    pub dates: Option<(String, String)>,
    pub log: ListcheckLog,
    pub row: u64,
    pub row_text: String,
    pub popups: u8,
}

pub struct ListcheckView {
    pub phase: ListcheckPhase,
    pub variant: Option<Seq<char>>,
    pub layout: Option<Seq<char>>,
    pub dates: Option<(Seq<char>, Seq<char>)>,
    pub log: LogView,
    pub row: nat,
    pub row_text: Seq<char>,
    pub popups: nat,
}

pub enum ListcheckEventView {
    Done,
    Text(Option<Seq<char>>),
    Popup(bool),
    Outcome { status: Seq<char>, transaction: Seq<char>, timestamp: Seq<char> },
}

pub enum ListcheckActionView {
    SelectVariant(Seq<char>),
    SetDates(Seq<char>, Seq<char>),
    Execute,
    ChooseLayout(Seq<char>),
    ReadFirstRow,
    ReadRow(nat),
    OpenRow(nat),
    CheckPopup,
    DismissPopup,
    ReadOutcome,
    LeaveDetail,
    CloseMessage,
    PageDown,
    Finish,
}

pub open spec fn pair_view(p: Option<(String, String)>) -> Option<(Seq<char>, Seq<char>)> {
    match p {
        Some((a, b)) => Some((a@, b@)),
        None => None,
    }
}

impl View for ListcheckState {
    type V = ListcheckView;

    open spec fn view(&self) -> ListcheckView {
        ListcheckView {
            phase: self.phase,
            variant: opt_view(self.variant),
            layout: opt_view(self.layout),
            dates: pair_view(self.dates),
            log: self.log@,
            row: self.row as nat,
            row_text: self.row_text@,
            popups: self.popups as nat,
        }
    }
}

impl View for ListcheckEvent {
    type V = ListcheckEventView;

    open spec fn view(&self) -> ListcheckEventView {
        match self {
            ListcheckEvent::Done => ListcheckEventView::Done,
            ListcheckEvent::Text(t) => ListcheckEventView::Text(opt_view(*t)),
            ListcheckEvent::Popup(b) => ListcheckEventView::Popup(*b),
            ListcheckEvent::Outcome { status, transaction, timestamp } => ListcheckEventView::Outcome {
                status: status@,
                transaction: transaction@,
                timestamp: timestamp@,
            },
        }
    }
}

impl View for ListcheckAction {
    type V = ListcheckActionView;

    open spec fn view(&self) -> ListcheckActionView {
        match self {
            ListcheckAction::SelectVariant(v) => ListcheckActionView::SelectVariant(v@),
            ListcheckAction::SetDates(a, b) => ListcheckActionView::SetDates(a@, b@),
            ListcheckAction::Execute => ListcheckActionView::Execute,
            ListcheckAction::ChooseLayout(l) => ListcheckActionView::ChooseLayout(l@),
            ListcheckAction::ReadFirstRow => ListcheckActionView::ReadFirstRow,
            ListcheckAction::ReadRow(r) => ListcheckActionView::ReadRow(*r as nat),
            ListcheckAction::OpenRow(r) => ListcheckActionView::OpenRow(*r as nat),
            ListcheckAction::CheckPopup => ListcheckActionView::CheckPopup,
            ListcheckAction::DismissPopup => ListcheckActionView::DismissPopup,
            ListcheckAction::ReadOutcome => ListcheckActionView::ReadOutcome,
            ListcheckAction::LeaveDetail => ListcheckActionView::LeaveDetail,
            ListcheckAction::CloseMessage => ListcheckActionView::CloseMessage,
            ListcheckAction::PageDown => ListcheckActionView::PageDown,
            ListcheckAction::Finish => ListcheckActionView::Finish,
        }
    }
}

/// A text that is set and not empty.
pub open spec fn filled(o: Option<Seq<char>>) -> Option<Seq<char>> {
    match o {
        Some(v) => if v.len() > 0 { Some(v) } else { None },
        None => None,
    }
}

pub open spec fn lc_finished(s: ListcheckView) -> (ListcheckView, ListcheckActionView) {
    (ListcheckView { phase: ListcheckPhase::Finished, ..s }, ListcheckActionView::Finish)
}

/// After the variant: the dates when the run is by date, else the execution.
pub open spec fn lc_after_variant(s: ListcheckView) -> (ListcheckView, ListcheckActionView) {
    match s.dates {
        Some((a, b)) => (
            ListcheckView { phase: ListcheckPhase::DatesSet, ..s },
            ListcheckActionView::SetDates(a, b),
        ),
        None => (ListcheckView { phase: ListcheckPhase::Executed, ..s }, ListcheckActionView::Execute),
    }
}

pub open spec fn lc_first_row(s: ListcheckView) -> (ListcheckView, ListcheckActionView) {
    (ListcheckView { phase: ListcheckPhase::FirstRow, ..s }, ListcheckActionView::ReadFirstRow)
}

/// One step of a ListCheck run: select the variant (when one is given),
/// type the dates (when by date), execute, choose the layout (when one is
/// given); then, page by page while the first row is a new one, open each
/// row's shipment, confirm up to three popups, log what the status bar and
/// the transaction say, and leave the shipment (back from its detail screen,
/// or closing the message); a missing row scrolls to the next page. An
/// answer that the phase does not wait for, a full count, or an empty or
/// repeated first page ends the run.
pub open spec fn listcheck_next(s: ListcheckView, e: ListcheckEventView) -> (
    ListcheckView,
    ListcheckActionView,
) {
    match s.phase {
        ListcheckPhase::Start => match filled(s.variant) {
            Some(v) => (
                ListcheckView { phase: ListcheckPhase::VariantSet, ..s },
                ListcheckActionView::SelectVariant(v),
            ),
            None => lc_after_variant(s),
        },
        ListcheckPhase::VariantSet => if e is Done {
            lc_after_variant(s)
        } else {
            lc_finished(s)
        },
        ListcheckPhase::DatesSet => if e is Done {
            (ListcheckView { phase: ListcheckPhase::Executed, ..s }, ListcheckActionView::Execute)
        } else {
            lc_finished(s)
        },
        ListcheckPhase::Executed => if e is Done {
            match filled(s.layout) {
                Some(l) => (
                    ListcheckView { phase: ListcheckPhase::LayoutChosen, ..s },
                    ListcheckActionView::ChooseLayout(l),
                ),
                None => lc_first_row(s),
            }
        } else {
            lc_finished(s)
        },
        ListcheckPhase::LayoutChosen => if e is Done {
            lc_first_row(s)
        } else {
            lc_finished(s)
        },
        ListcheckPhase::FirstRow => match e {
            ListcheckEventView::Text(t) => {
                let first = or_empty(t);
                if first.len() > 0 && !s.log.seen_pages.contains(first) {
                    (
                        ListcheckView {
                            phase: ListcheckPhase::RowRead,
                            row: 4,
                            log: LogView { seen_pages: s.log.seen_pages.push(first), ..s.log },
                            ..s
                        },
                        ListcheckActionView::ReadRow(4),
                    )
                } else {
                    lc_finished(s)
                }
            },
            _ => lc_finished(s),
        },
        ListcheckPhase::RowRead => match e {
            ListcheckEventView::Text(Some(t)) => (
                ListcheckView { phase: ListcheckPhase::Opened, row_text: t, ..s },
                ListcheckActionView::OpenRow(s.row),
            ),
            ListcheckEventView::Text(None) => (
                ListcheckView { phase: ListcheckPhase::PagedDown, ..s },
                ListcheckActionView::PageDown,
            ),
            _ => lc_finished(s),
        },
        ListcheckPhase::Opened => if e is Done {
            (
                ListcheckView { phase: ListcheckPhase::PopupChecked, popups: 0, ..s },
                ListcheckActionView::CheckPopup,
            )
        } else {
            lc_finished(s)
        },
        ListcheckPhase::PopupChecked => match e {
            ListcheckEventView::Popup(true) => (
                ListcheckView { phase: ListcheckPhase::PopupDismissed, ..s },
                ListcheckActionView::DismissPopup,
            ),
            ListcheckEventView::Popup(false) => (
                ListcheckView { phase: ListcheckPhase::OutcomeRead, ..s },
                ListcheckActionView::ReadOutcome,
            ),
            _ => lc_finished(s),
        },
        ListcheckPhase::PopupDismissed => if e is Done {
            if s.popups + 1 < 3 {
                (
                    ListcheckView { phase: ListcheckPhase::PopupChecked, popups: s.popups + 1, ..s },
                    ListcheckActionView::CheckPopup,
                )
            } else {
                (ListcheckView { phase: ListcheckPhase::OutcomeRead, ..s }, ListcheckActionView::ReadOutcome)
            }
        } else {
            lc_finished(s)
        },
        ListcheckPhase::OutcomeRead => match e {
            ListcheckEventView::Outcome { status, transaction, timestamp } => {
                if s.log.total_attempted >= u32::MAX || s.log.blocked_count >= u32::MAX {
                    lc_finished(s)
                } else {
                    let deeper = !contains(transaction, "VT11"@);
                    let l = logged(
                        s.log,
                        or_empty(group(regex_captures(number_pattern(), s.row_text), 0)),
                        reading_of(status),
                        deeper,
                        timestamp,
                    );
                    (
                        ListcheckView { phase: ListcheckPhase::Left, log: l, ..s },
                        if deeper {
                            ListcheckActionView::LeaveDetail
                        } else {
                            ListcheckActionView::CloseMessage
                        },
                    )
                }
            },
            _ => lc_finished(s),
        },
        ListcheckPhase::Left => if e is Done {
            if s.row < u64::MAX {
                (
                    ListcheckView { phase: ListcheckPhase::RowRead, row: s.row + 1, ..s },
                    ListcheckActionView::ReadRow(s.row + 1),
                )
            } else {
                (ListcheckView { phase: ListcheckPhase::PagedDown, ..s }, ListcheckActionView::PageDown)
            }
        } else {
            lc_finished(s)
        },
        ListcheckPhase::PagedDown => if e is Done {
            lc_first_row(s)
        } else {
            lc_finished(s)
        },
        ListcheckPhase::Finished => lc_finished(s),
    }
}

impl ListcheckState {
    /// A run about to start, with the variant and layout to use and the
    /// dates to type (when by date).
    pub fn new(variant: Option<String>, layout: Option<String>, dates: Option<(String, String)>) -> (r: ListcheckState)
        ensures
            r@.phase == ListcheckPhase::Start,
            r@.variant == opt_view(variant),
            r@.layout == opt_view(layout),
            r@.dates == pair_view(dates),
            r@.log.shipments.len() == 0,
            r@.log.deliveries.len() == 0,
            r@.log.rows.len() == 0,
            r@.log.total_attempted == 0,
            r@.log.blocked_count == 0,
            r@.log.seen_pages.len() == 0,
            r@.row == 4,
            r@.row_text.len() == 0,
            r@.popups == 0,
    {
        ListcheckState {
            phase: ListcheckPhase::Start,
            variant,
            layout,
            dates,
            log: ListcheckLog::new(),
            row: 4,
            row_text: String::new(),
            popups: 0,
        }
    }
}

fn filled_copy(o: &Option<String>) -> (r: Option<String>)
    ensures
        opt_view(r) == filled(opt_view(*o)),
{
    match o {
        Some(v) => if v.unicode_len() > 0 {
            Some(copy_string(v))
        } else {
            None
        },
        None => None,
    }
}

fn lc_finish(s: ListcheckState) -> (r: (ListcheckState, ListcheckAction))
    ensures
        (r.0@, r.1@) == lc_finished(s@),
{
    (ListcheckState { phase: ListcheckPhase::Finished, ..s }, ListcheckAction::Finish)
}

fn lc_variant_done(s: ListcheckState) -> (r: (ListcheckState, ListcheckAction))
    ensures
        (r.0@, r.1@) == lc_after_variant(s@),
{
    let dates = match &s.dates {
        Some((a, b)) => Some((copy_string(a), copy_string(b))),
        None => None,
    };
    match dates {
        Some((a, b)) => (ListcheckState { phase: ListcheckPhase::DatesSet, ..s }, ListcheckAction::SetDates(a, b)),
        None => (ListcheckState { phase: ListcheckPhase::Executed, ..s }, ListcheckAction::Execute),
    }
}

/// One step of a ListCheck run (see [`listcheck_next`]).
pub fn listcheck_step(state: ListcheckState, event: ListcheckEvent) -> (r: (ListcheckState, ListcheckAction))
    ensures
        (r.0@, r.1@) == listcheck_next(state@, event@),
{
    let mut s = state;
    match s.phase {
        ListcheckPhase::Start => match filled_copy(&s.variant) {
            Some(v) => (ListcheckState { phase: ListcheckPhase::VariantSet, ..s }, ListcheckAction::SelectVariant(v)),
            None => lc_variant_done(s),
        },
        ListcheckPhase::VariantSet => match event {
            ListcheckEvent::Done => lc_variant_done(s),
            _ => lc_finish(s),
        },
        ListcheckPhase::DatesSet => match event {
            ListcheckEvent::Done => (ListcheckState { phase: ListcheckPhase::Executed, ..s }, ListcheckAction::Execute),
            _ => lc_finish(s),
        },
        ListcheckPhase::Executed => match event {
            ListcheckEvent::Done => match filled_copy(&s.layout) {
                Some(l) => (ListcheckState { phase: ListcheckPhase::LayoutChosen, ..s }, ListcheckAction::ChooseLayout(l)),
                None => (ListcheckState { phase: ListcheckPhase::FirstRow, ..s }, ListcheckAction::ReadFirstRow),
            },
            _ => lc_finish(s),
        },
        ListcheckPhase::LayoutChosen => match event {
            ListcheckEvent::Done => (ListcheckState { phase: ListcheckPhase::FirstRow, ..s }, ListcheckAction::ReadFirstRow),
            _ => lc_finish(s),
        },
        ListcheckPhase::FirstRow => match event {
            ListcheckEvent::Text(t) => {
                let first = match t {
                    Some(x) => x,
                    None => String::new(),
                };
                if s.log.enter_page(first.as_str()) {
                    s.phase = ListcheckPhase::RowRead;
                    s.row = 4;
                    (s, ListcheckAction::ReadRow(4))
                } else {
                    lc_finish(s)
                }
            },
            _ => lc_finish(s),
        },
        ListcheckPhase::RowRead => match event {
            ListcheckEvent::Text(Some(t)) => {
                let row = s.row;
                (ListcheckState { phase: ListcheckPhase::Opened, row_text: t, ..s }, ListcheckAction::OpenRow(row))
            },
            ListcheckEvent::Text(None) => (ListcheckState { phase: ListcheckPhase::PagedDown, ..s }, ListcheckAction::PageDown),
            _ => lc_finish(s),
        },
        ListcheckPhase::Opened => match event {
            ListcheckEvent::Done => (
                ListcheckState { phase: ListcheckPhase::PopupChecked, popups: 0, ..s },
                ListcheckAction::CheckPopup,
            ),
            _ => lc_finish(s),
        },
        ListcheckPhase::PopupChecked => match event {
            ListcheckEvent::Popup(b) => if b {
                (ListcheckState { phase: ListcheckPhase::PopupDismissed, ..s }, ListcheckAction::DismissPopup)
            } else {
                (ListcheckState { phase: ListcheckPhase::OutcomeRead, ..s }, ListcheckAction::ReadOutcome)
            },
            _ => lc_finish(s),
        },
        ListcheckPhase::PopupDismissed => match event {
            ListcheckEvent::Done => {
                if s.popups < 2 {
                    let n = s.popups + 1;
                    (ListcheckState { phase: ListcheckPhase::PopupChecked, popups: n, ..s }, ListcheckAction::CheckPopup)
                } else {
                    (ListcheckState { phase: ListcheckPhase::OutcomeRead, ..s }, ListcheckAction::ReadOutcome)
                }
            },
            _ => lc_finish(s),
        },
        ListcheckPhase::OutcomeRead => match event {
            ListcheckEvent::Outcome { status, transaction, timestamp } => {
                if s.log.total_attempted == u32::MAX || s.log.blocked_count == u32::MAX {
                    lc_finish(s)
                } else {
                    let deeper = went_deeper(transaction.as_str());
                    let reading = read_status(status.as_str());
                    s.log.log_shipment(s.row_text.as_str(), reading, deeper, timestamp.as_str());
                    s.phase = ListcheckPhase::Left;
                    if deeper {
                        (s, ListcheckAction::LeaveDetail)
                    } else {
                        (s, ListcheckAction::CloseMessage)
                    }
                }
            },
            _ => lc_finish(s),
        },
        ListcheckPhase::Left => match event {
            ListcheckEvent::Done => {
                if s.row < u64::MAX {
                    let n = s.row + 1;
                    (ListcheckState { phase: ListcheckPhase::RowRead, row: n, ..s }, ListcheckAction::ReadRow(n))
                } else {
                    (ListcheckState { phase: ListcheckPhase::PagedDown, ..s }, ListcheckAction::PageDown)
                }
            },
            _ => lc_finish(s),
        },
        ListcheckPhase::PagedDown => match event {
            ListcheckEvent::Done => (ListcheckState { phase: ListcheckPhase::FirstRow, ..s }, ListcheckAction::ReadFirstRow),
            _ => lc_finish(s),
        },
        ListcheckPhase::Finished => lc_finish(s),
    }
}

// ---------------------------------------------------------------------------
// Export
// ---------------------------------------------------------------------------

/// Where a VT11 export stands: which answer it waits for.
#[derive(Debug, Clone, Copy, PartialEq, Eq, Structural)]
pub enum ExportPhase {
    Start,
    VariantSet,
    DatesSet,
    DeliveryListOpened,
    Pasting,
    DeliveriesConfirmed,
    LimiterSet,
    Executed,
    MessageRead,
    LayoutDone,
    LocalExport,
    ExcelExport,
    Finished,
}

/// What the screen answered.
pub enum ExportEvent {
    /// The last action was done.
    Done,
    /// Whether a popup window is open.
    Popup(bool),
    /// Whether all delivery numbers were pasted.
    Pasted(bool),
    /// The message of the popup after executing; `None` when there is none.
    Message(Option<String>),
    /// Whether the export was saved.
    Exported(bool),
}

/// What to do next on the screen.
pub enum ExportAction {
    SelectVariant(String),
    /// Type the planning dates, low and high (an empty high for one day).
    SetDates(String, String),
    /// Press the multiple-selection button of the delivery field.
    OpenDeliveryList,
    /// Paste the run's delivery numbers into the popup's table.
    PasteDeliveries,
    /// Confirm the popup (F8).
    ConfirmDeliveries,
    /// Blank the high description field (`txtK_TPBEZ-HIGH`).
    ClearDescriptionHigh,
    /// Execute the selection (F8).
    Execute,
    /// Read the message of the popup, if there is one.
    ReadMessage,
    /// No shipment was found: close the popup; the export failed.
    CloseNoShipments,
    /// Open the layout menu and choose this layout.
    ChooseLayout(String),
    /// An empty layout: close the layout popup and export as it is.
    CloseLayoutPopup,
    /// Export to a local file of this export type.
    ExportLocal(u8),
    /// Export to Excel.
    ExportExcel,
    /// The export is over, saved or not.
    Finish(bool),
}

/// The state of a VT11 export.
pub struct Vt11ExportState {
    pub phase: ExportPhase,
    pub variant: Option<String>,
    pub by_date: bool,
    pub low: String,
    pub high: String,
    pub by_delivery: bool,
    pub deliveries: Vec<String>,
    pub clear_high_description: bool,
    pub layout: Option<String>,
    pub export_type: Option<u8>,
    pub succeeded: bool,
}

pub struct ExportView {
    pub phase: ExportPhase,
    pub variant: Option<Seq<char>>,
    pub by_date: bool,
    pub low: Seq<char>,
    pub high: Seq<char>,
    pub by_delivery: bool,
    pub deliveries: Seq<Seq<char>>,
    pub clear_high_description: bool,
    pub layout: Option<Seq<char>>,
    pub export_type: Option<u8>,
    pub succeeded: bool,
}

pub enum ExportEventView {
    Done,
    Popup(bool),
    Pasted(bool),
    Message(Option<Seq<char>>),
    Exported(bool),
}

pub enum ExportActionView {
    SelectVariant(Seq<char>),
    SetDates(Seq<char>, Seq<char>),
    OpenDeliveryList,
    PasteDeliveries,
    ConfirmDeliveries,
    ClearDescriptionHigh,
    Execute,
    ReadMessage,
    CloseNoShipments,
    ChooseLayout(Seq<char>),
    CloseLayoutPopup,
    ExportLocal(u8),
    ExportExcel,
    Finish(bool),
}

impl View for Vt11ExportState {
    type V = ExportView;

    open spec fn view(&self) -> ExportView {
        ExportView {
            phase: self.phase,
            variant: opt_view(self.variant),
            by_date: self.by_date,
            low: self.low@,
            high: self.high@,
            by_delivery: self.by_delivery,
            deliveries: string_views(self.deliveries@),
            clear_high_description: self.clear_high_description,
            layout: opt_view(self.layout),
            export_type: self.export_type,
            succeeded: self.succeeded,
        }
    }
}

impl View for ExportEvent {
    type V = ExportEventView;

    open spec fn view(&self) -> ExportEventView {
        match self {
            ExportEvent::Done => ExportEventView::Done,
            ExportEvent::Popup(b) => ExportEventView::Popup(*b),
            ExportEvent::Pasted(b) => ExportEventView::Pasted(*b),
            ExportEvent::Message(m) => ExportEventView::Message(opt_view(*m)),
            ExportEvent::Exported(b) => ExportEventView::Exported(*b),
        }
    }
}

impl View for ExportAction {
    type V = ExportActionView;

    open spec fn view(&self) -> ExportActionView {
        match self {
            ExportAction::SelectVariant(v) => ExportActionView::SelectVariant(v@),
            ExportAction::SetDates(a, b) => ExportActionView::SetDates(a@, b@),
            ExportAction::OpenDeliveryList => ExportActionView::OpenDeliveryList,
            ExportAction::PasteDeliveries => ExportActionView::PasteDeliveries,
            ExportAction::ConfirmDeliveries => ExportActionView::ConfirmDeliveries,
            ExportAction::ClearDescriptionHigh => ExportActionView::ClearDescriptionHigh,
            ExportAction::Execute => ExportActionView::Execute,
            ExportAction::ReadMessage => ExportActionView::ReadMessage,
            ExportAction::CloseNoShipments => ExportActionView::CloseNoShipments,
            ExportAction::ChooseLayout(l) => ExportActionView::ChooseLayout(l@),
            ExportAction::CloseLayoutPopup => ExportActionView::CloseLayoutPopup,
            ExportAction::ExportLocal(t) => ExportActionView::ExportLocal(*t),
            ExportAction::ExportExcel => ExportActionView::ExportExcel,
            ExportAction::Finish(b) => ExportActionView::Finish(*b),
        }
    }
}

pub open spec fn ex_end(s: ExportView, ok: bool) -> (ExportView, ExportActionView) {
    (ExportView { phase: ExportPhase::Finished, succeeded: ok, ..s }, ExportActionView::Finish(ok))
}

pub open spec fn ex_go(s: ExportView, p: ExportPhase, a: ExportActionView) -> (ExportView, ExportActionView) {
    (ExportView { phase: p, ..s }, a)
}

/// After the layout: a local file when an export type is configured, else
/// Excel.
pub open spec fn ex_after_layout(s: ExportView) -> (ExportView, ExportActionView) {
    match s.export_type {
        Some(t) => ex_go(s, ExportPhase::LocalExport, ExportActionView::ExportLocal(t)),
        None => ex_go(s, ExportPhase::ExcelExport, ExportActionView::ExportExcel),
    }
}

/// After the execution's message: the layout when one is given (closing its
/// popup when it is empty), else the export.
pub open spec fn ex_after_message(s: ExportView) -> (ExportView, ExportActionView) {
    match s.layout {
        Some(l) => if l.len() > 0 {
            ex_go(s, ExportPhase::LayoutDone, ExportActionView::ChooseLayout(l))
        } else {
            ex_go(s, ExportPhase::LayoutDone, ExportActionView::CloseLayoutPopup)
        },
        None => ex_after_layout(s),
    }
}

pub open spec fn ex_after_deliveries(s: ExportView) -> (ExportView, ExportActionView) {
    if s.clear_high_description {
        ex_go(s, ExportPhase::LimiterSet, ExportActionView::ClearDescriptionHigh)
    } else {
        ex_go(s, ExportPhase::Executed, ExportActionView::Execute)
    }
}

/// After the dates: by delivery, the delivery list (a run by delivery with
/// no delivery number fails), else what follows it.
pub open spec fn ex_after_dates(s: ExportView) -> (ExportView, ExportActionView) {
    if s.by_delivery {
        if s.deliveries.len() == 0 {
            ex_end(s, false)
        } else {
            ex_go(s, ExportPhase::DeliveryListOpened, ExportActionView::OpenDeliveryList)
        }
    } else {
        ex_after_deliveries(s)
    }
}

pub open spec fn ex_after_variant(s: ExportView) -> (ExportView, ExportActionView) {
    if s.by_date {
        ex_go(s, ExportPhase::DatesSet, ExportActionView::SetDates(s.low, s.high))
    } else {
        ex_after_dates(s)
    }
}

/// One step of a VT11 export: the variant (when given), the dates (when by
/// date), the delivery numbers (when by delivery: pasted into the popup and
/// confirmed; none at all fails the export, a failed paste too), the high
/// description blanked (for the `date_range` limiter), the execution; a
/// popup saying that no shipment was found fails the export; then the
/// layout, and the export to a local file of the configured type, falling
/// back to Excel. An answer that the phase does not wait for fails it.
pub open spec fn vt11_export_next(s: ExportView, e: ExportEventView) -> (ExportView, ExportActionView) {
    match s.phase {
        ExportPhase::Start => match filled(s.variant) {
            Some(v) => ex_go(s, ExportPhase::VariantSet, ExportActionView::SelectVariant(v)),
            None => ex_after_variant(s),
        },
        ExportPhase::VariantSet => if e is Done { ex_after_variant(s) } else { ex_end(s, false) },
        ExportPhase::DatesSet => if e is Done { ex_after_dates(s) } else { ex_end(s, false) },
        ExportPhase::DeliveryListOpened => match e {
            ExportEventView::Popup(true) => ex_go(s, ExportPhase::Pasting, ExportActionView::PasteDeliveries),
            ExportEventView::Popup(false) => ex_after_deliveries(s),
            _ => ex_end(s, false),
        },
        ExportPhase::Pasting => match e {
            ExportEventView::Pasted(true) => ex_go(s, ExportPhase::DeliveriesConfirmed, ExportActionView::ConfirmDeliveries),
            _ => ex_end(s, false),
        },
        ExportPhase::DeliveriesConfirmed => if e is Done { ex_after_deliveries(s) } else { ex_end(s, false) },
        ExportPhase::LimiterSet => if e is Done {
            ex_go(s, ExportPhase::Executed, ExportActionView::Execute)
        } else {
            ex_end(s, false)
        },
        ExportPhase::Executed => if e is Done {
            ex_go(s, ExportPhase::MessageRead, ExportActionView::ReadMessage)
        } else {
            ex_end(s, false)
        },
        ExportPhase::MessageRead => match e {
            ExportEventView::Message(m) => match m {
                Some(t) => if contains(t, "No shipments were found for the selection criteria"@) {
                    (ExportView { phase: ExportPhase::Finished, succeeded: false, ..s }, ExportActionView::CloseNoShipments)
                } else {
                    ex_after_message(s)
                },
                None => ex_after_message(s),
            },
            _ => ex_end(s, false),
        },
        ExportPhase::LayoutDone => if e is Done { ex_after_layout(s) } else { ex_end(s, false) },
        ExportPhase::LocalExport => match e {
            ExportEventView::Exported(true) => ex_end(s, true),
            ExportEventView::Exported(false) => ex_go(s, ExportPhase::ExcelExport, ExportActionView::ExportExcel),
            _ => ex_end(s, false),
        },
        ExportPhase::ExcelExport => match e {
            ExportEventView::Exported(b) => ex_end(s, b),
            _ => ex_end(s, false),
        },
        ExportPhase::Finished => ex_end(s, s.succeeded),
    }
}

impl Vt11ExportState {
    /// An export about to start. The dates are typed as given, the high one
    /// left empty for a single day; the delivery numbers are cleaned of
    /// blanks and repeats and sorted; the high description is blanked for
    /// the `date_range` limiter.
    pub fn new(
        variant: Option<String>,
        by_date: bool,
        start: crate::date::Date,
        end: crate::date::Date,
        start_text: String,
        end_text: &str,
        by_delivery: bool,
        deliveries: Vec<String>,
        limiter: &Option<String>,
        layout: Option<String>,
        export_type: Option<u8>,
    ) -> (r: Vt11ExportState)
        ensures
            r@.phase == ExportPhase::Start,
            r@.variant == opt_view(variant),
            r@.by_date == by_date,
            r@.low == start_text@,
            r@.high == (if start == end { Seq::<char>::empty() } else { end_text@ }),
            r@.by_delivery == by_delivery,
            crate::sources::is_sanitized(string_views(deliveries@), r@.deliveries),
            r@.clear_high_description == (limiter matches Some(l) && l@.len() > 0 && lowercase(l@) == "date_range"@),
            r@.layout == opt_view(layout),
            r@.export_type == export_type,
            !r@.succeeded,
    {
        Vt11ExportState {
            phase: ExportPhase::Start,
            variant,
            by_date,
            low: start_text,
            high: crate::flows::high_date_text(start, end, end_text),
            by_delivery,
            deliveries: crate::sources::dedup_and_sanitize(deliveries),
            clear_high_description: crate::flows::clears_period_high(limiter),
            layout,
            export_type,
            succeeded: false,
        }
    }
}

fn ex_finish(s: Vt11ExportState, ok: bool) -> (r: (Vt11ExportState, ExportAction))
    ensures
        (r.0@, r.1@) == ex_end(s@, ok),
{
    (Vt11ExportState { phase: ExportPhase::Finished, succeeded: ok, ..s }, ExportAction::Finish(ok))
}

fn ex_layout_done(s: Vt11ExportState) -> (r: (Vt11ExportState, ExportAction))
    ensures
        (r.0@, r.1@) == ex_after_layout(s@),
{
    match s.export_type {
        Some(t) => (Vt11ExportState { phase: ExportPhase::LocalExport, ..s }, ExportAction::ExportLocal(t)),
        None => (Vt11ExportState { phase: ExportPhase::ExcelExport, ..s }, ExportAction::ExportExcel),
    }
}

fn ex_message_done(s: Vt11ExportState) -> (r: (Vt11ExportState, ExportAction))
    ensures
        (r.0@, r.1@) == ex_after_message(s@),
{
    let layout = match &s.layout {
        Some(l) => Some(copy_string(l)),
        None => None,
    };
    match layout {
        Some(l) => if l.unicode_len() > 0 {
            (Vt11ExportState { phase: ExportPhase::LayoutDone, ..s }, ExportAction::ChooseLayout(l))
        } else {
            (Vt11ExportState { phase: ExportPhase::LayoutDone, ..s }, ExportAction::CloseLayoutPopup)
        },
        None => ex_layout_done(s),
    }
}

fn ex_deliveries_done(s: Vt11ExportState) -> (r: (Vt11ExportState, ExportAction))
    ensures
        (r.0@, r.1@) == ex_after_deliveries(s@),
{
    if s.clear_high_description {
        (Vt11ExportState { phase: ExportPhase::LimiterSet, ..s }, ExportAction::ClearDescriptionHigh)
    } else {
        (Vt11ExportState { phase: ExportPhase::Executed, ..s }, ExportAction::Execute)
    }
}

fn ex_dates_done(s: Vt11ExportState) -> (r: (Vt11ExportState, ExportAction))
    ensures
        (r.0@, r.1@) == ex_after_dates(s@),
{
    if s.by_delivery {
        if s.deliveries.len() == 0 {
            ex_finish(s, false)
        } else {
            (Vt11ExportState { phase: ExportPhase::DeliveryListOpened, ..s }, ExportAction::OpenDeliveryList)
        }
    } else {
        ex_deliveries_done(s)
    }
}

fn ex_variant_done(s: Vt11ExportState) -> (r: (Vt11ExportState, ExportAction))
    ensures
        (r.0@, r.1@) == ex_after_variant(s@),
{
    if s.by_date {
        let a = copy_string(&s.low);
        let b = copy_string(&s.high);
        (Vt11ExportState { phase: ExportPhase::DatesSet, ..s }, ExportAction::SetDates(a, b))
    } else {
        ex_dates_done(s)
    }
}

/// One step of a VT11 export (see [`vt11_export_next`]).
pub fn vt11_export_step(state: Vt11ExportState, event: ExportEvent) -> (r: (Vt11ExportState, ExportAction))
    ensures
        (r.0@, r.1@) == vt11_export_next(state@, event@),
{
    let s = state;
    match s.phase {
        ExportPhase::Start => match filled_copy(&s.variant) {
            Some(v) => (Vt11ExportState { phase: ExportPhase::VariantSet, ..s }, ExportAction::SelectVariant(v)),
            None => ex_variant_done(s),
        },
        ExportPhase::VariantSet => match event {
            ExportEvent::Done => ex_variant_done(s),
            _ => ex_finish(s, false),
        },
        ExportPhase::DatesSet => match event {
            ExportEvent::Done => ex_dates_done(s),
            _ => ex_finish(s, false),
        },
        ExportPhase::DeliveryListOpened => match event {
            ExportEvent::Popup(b) => if b {
                (Vt11ExportState { phase: ExportPhase::Pasting, ..s }, ExportAction::PasteDeliveries)
            } else {
                ex_deliveries_done(s)
            },
            _ => ex_finish(s, false),
        },
        ExportPhase::Pasting => match event {
            ExportEvent::Pasted(b) => if b {
                (Vt11ExportState { phase: ExportPhase::DeliveriesConfirmed, ..s }, ExportAction::ConfirmDeliveries)
            } else {
                ex_finish(s, false)
            },
            _ => ex_finish(s, false),
        },
        ExportPhase::DeliveriesConfirmed => match event {
            ExportEvent::Done => ex_deliveries_done(s),
            _ => ex_finish(s, false),
        },
        ExportPhase::LimiterSet => match event {
            ExportEvent::Done => (Vt11ExportState { phase: ExportPhase::Executed, ..s }, ExportAction::Execute),
            _ => ex_finish(s, false),
        },
        ExportPhase::Executed => match event {
            ExportEvent::Done => (Vt11ExportState { phase: ExportPhase::MessageRead, ..s }, ExportAction::ReadMessage),
            _ => ex_finish(s, false),
        },
        ExportPhase::MessageRead => match event {
            ExportEvent::Message(m) => match m {
                Some(t) => if crate::flows::no_shipments_found(t.as_str()) {
                    (Vt11ExportState { phase: ExportPhase::Finished, succeeded: false, ..s }, ExportAction::CloseNoShipments)
                } else {
                    ex_message_done(s)
                },
                None => ex_message_done(s),
            },
            _ => ex_finish(s, false),
        },
        ExportPhase::LayoutDone => match event {
            ExportEvent::Done => ex_layout_done(s),
            _ => ex_finish(s, false),
        },
        ExportPhase::LocalExport => match event {
            ExportEvent::Exported(b) => if b {
                ex_finish(s, true)
            } else {
                (Vt11ExportState { phase: ExportPhase::ExcelExport, ..s }, ExportAction::ExportExcel)
            },
            _ => ex_finish(s, false),
        },
        ExportPhase::ExcelExport => match event {
            ExportEvent::Exported(b) => ex_finish(s, b),
            _ => ex_finish(s, false),
        },
        ExportPhase::Finished => {
            let ok = s.succeeded;
            ex_finish(s, ok)
        },
    }
}

// ---------------------------------------------------------------------------
// What every step keeps
// ---------------------------------------------------------------------------

/// A finished ListCheck run stays finished, and its log is left alone.
pub proof fn lemma_listcheck_finished_stays(s: ListcheckView, e: ListcheckEventView)
    requires
        s.phase == ListcheckPhase::Finished,
    ensures
        listcheck_next(s, e).0.phase == ListcheckPhase::Finished,
        listcheck_next(s, e).0.log == s.log,
        listcheck_next(s, e).1 is Finish,
{
}

/// Every step of a ListCheck run counts at most one more opened shipment,
/// never forgets one, and only adds pages to those seen.
pub proof fn lemma_listcheck_step_counts(s: ListcheckView, e: ListcheckEventView)
    ensures
        s.log.total_attempted <= listcheck_next(s, e).0.log.total_attempted <= s.log.total_attempted + 1,
        s.log.blocked_count <= listcheck_next(s, e).0.log.blocked_count <= s.log.blocked_count + 1,
        s.log.seen_pages.is_prefix_of(listcheck_next(s, e).0.log.seen_pages),
{
    let r = listcheck_next(s, e).0;
    if r.log.seen_pages != s.log.seen_pages {
        assert(s.log.seen_pages.is_prefix_of(r.log.seen_pages));
    } else {
        assert(s.log.seen_pages.is_prefix_of(r.log.seen_pages)) by {
            assert(s.log.seen_pages.len() <= r.log.seen_pages.len());
        }
    }
}

/// A finished export stays finished with the same outcome.
pub proof fn lemma_export_finished_stays(s: ExportView, e: ExportEventView)
    requires
        s.phase == ExportPhase::Finished,
    ensures
        vt11_export_next(s, e).0.phase == ExportPhase::Finished,
        vt11_export_next(s, e).1 == ExportActionView::Finish(s.succeeded),
{
}

/// An export by delivery with no delivery number fails at its first step
/// that needs them, without opening the delivery list.
pub proof fn lemma_export_needs_deliveries(s: ExportView)
    requires
        s.by_delivery,
        s.deliveries.len() == 0,
        s.phase == ExportPhase::DatesSet || (s.phase == ExportPhase::Start && filled(s.variant) is None
            && !s.by_date),
    ensures
        vt11_export_next(s, ExportEventView::Done).1 == ExportActionView::Finish(false),
{
}

} // verus!
