//! VT11 ListCheck: every shipment of the list is opened in turn, and the
//! status bar tells whether one of its deliveries is locked by a user. This
//! module reads those messages, keeps the log of the run, and writes its
//! CSV and statistics; the program drives the SAP screens.

use crate::config_types::SapConfig;
use crate::date::{days_in_month, format_date_as, formatted_date, Date, DateStyle};
use crate::layout::cell_views;
use crate::sources::{dedup_and_sanitize, is_sanitized};
use crate::text::{
    append_str, chars_of, contains, copy_string, lowercase, owned, str_contains, str_eq,
    string_of, string_views, to_lowercase, trim, trim_str,
};
use vstd::prelude::*;

verus! {

// ---------------------------------------------------------------------------
// Regular expressions
// ---------------------------------------------------------------------------

/// What `regex::Regex::new(pattern)` and then `captures(text)` give: the
/// groups of the first match, group 0 being the whole match, each present
/// where it took part in the match; `None` when the pattern does not compile
/// or does not match.
pub uninterp spec fn regex_captures(pattern: Seq<char>, text: Seq<char>) -> Option<
    Seq<Option<Seq<char>>>,
>;

/// Calls `regex::Regex::new` and `Regex::captures`, turning each group into
/// an owned string. The groups are named `regex_captures`; besides, as the
/// crate documents, group 0 (the whole match) is always present.
#[verifier::external_body]
fn captures(pattern: &str, text: &str) -> (r: Option<Vec<Option<String>>>)
    ensures
        match r {
            Some(g) => regex_captures(pattern@, text@) == Some(cell_views(g@)) && g@.len() > 0
                && g@[0] is Some,
            None => regex_captures(pattern@, text@) is None,
        },
{
    regex::Regex::new(pattern).ok().and_then(|re| re.captures(text)).map(
        |c| c.iter().map(|m| m.map(|m| m.as_str().to_string())).collect(),
    )
}

/// A message naming the locked delivery and the user holding it.
pub open spec fn locked_pattern() -> Seq<char> {
    "(?s)This delivery \\((\\d+)\\) is currently being processed[^\\(]*\\(([A-Za-z][A-Za-z0-9_]+)\\)"@
}

/// A number of seven digits or more.
pub open spec fn number_pattern() -> Seq<char> {
    "\\b\\d{7,}\\b"@
}

/// A user name in parentheses.
pub open spec fn user_pattern() -> Seq<char> {
    "\\(([A-Za-z][A-Za-z0-9_]+)\\)"@
}

/// Group `k` of a match, if the text matched and the group took part.
pub open spec fn group(m: Option<Seq<Option<Seq<char>>>>, k: int) -> Option<Seq<char>> {
    match m {
        Some(g) => if 0 <= k < g.len() { g[k] } else { None },
        None => None,
    }
}

pub open spec fn or_empty(v: Option<Seq<char>>) -> Seq<char> {
    match v {
        Some(s) => s,
        None => Seq::empty(),
    }
}

fn group_of(m: &Option<Vec<Option<String>>>, k: usize) -> (r: Option<String>)
    ensures
        crate::cli_overrides::opt_view(r) == group(
            match m {
                Some(g) => Some(cell_views(g@)),
                None => None,
            },
            k as int,
        ),
{
    match m {
        Some(g) => if k < g.len() {
            match &g[k] {
                Some(s) => Some(copy_string(s)),
                None => None,
            }
        } else {
            None
        },
        None => None,
    }
}

fn text_or_empty(v: Option<String>) -> (r: String)
    ensures
        r@ == or_empty(crate::cli_overrides::opt_view(v)),
{
    match v {
        Some(s) => s,
        None => String::new(),
    }
}

// ---------------------------------------------------------------------------
// Reading the status bar
// ---------------------------------------------------------------------------

/// What a shipment's status bar says.
pub struct StatusReading {
    pub delivery: String,
    pub user: String,
    pub blocked: bool,
}

/// A user name found in `msg`, unless it is the delivery itself.
pub open spec fn user_other_than(msg: Seq<char>, delivery: Seq<char>) -> Seq<char> {
    match group(regex_captures(user_pattern(), msg), 1) {
        Some(u) => if u != delivery { u } else { Seq::empty() },
        None => Seq::empty(),
    }
}

/// The delivery, the user and whether the delivery is locked: the explicit
/// "currently being processed" message first; else any message about a
/// process or a lock counts as locked, with the first long number and a
/// user in parentheses; else unlocked, with what the message names.
pub open spec fn reading_of(msg: Seq<char>) -> (Seq<char>, Seq<char>, bool) {
    let specific = regex_captures(locked_pattern(), msg);
    if specific is Some {
        (or_empty(group(specific, 1)), or_empty(group(specific, 2)), true)
    } else {
        let number = or_empty(group(regex_captures(number_pattern(), msg), 0));
        let lower = lowercase(msg);
        if contains(lower, "process"@) || contains(lower, "lock"@) {
            (number, user_other_than(msg, number), true)
        } else {
            let d = if number.len() >= 7 { number } else { Seq::empty() };
            (d, user_other_than(msg, d), false)
        }
    }
}

fn user_in(msg: &str, delivery: &String) -> (r: String)
    ensures
        r@ == user_other_than(msg@, delivery@),
{
    let u = captures("\\(([A-Za-z][A-Za-z0-9_]+)\\)", msg);
    proof {
        reveal_strlit("\\(([A-Za-z][A-Za-z0-9_]+)\\)");
    }
    match group_of(&u, 1) {
        Some(c) => if !str_eq(c.as_str(), delivery.as_str()) {
            c
        } else {
            String::new()
        },
        None => String::new(),
    }
}

/// Reads a status-bar message after opening a shipment.
pub fn read_status(msg: &str) -> (r: StatusReading)
    ensures
        (r.delivery@, r.user@, r.blocked) == reading_of(msg@),
{
    let specific = captures(
        "(?s)This delivery \\((\\d+)\\) is currently being processed[^\\(]*\\(([A-Za-z][A-Za-z0-9_]+)\\)",
        msg,
    );
    if specific.is_some() {
        return StatusReading {
            delivery: text_or_empty(group_of(&specific, 1)),
            user: text_or_empty(group_of(&specific, 2)),
            blocked: true,
        };
    }
    let number = text_or_empty(group_of(&captures("\\b\\d{7,}\\b", msg), 0));
    let lower = to_lowercase(msg);
    if str_contains(lower.as_str(), "process") || str_contains(lower.as_str(), "lock") {
        let user = user_in(msg, &number);
        StatusReading { delivery: number, user, blocked: true }
    } else {
        let d = if number.unicode_len() >= 7 {
            number
        } else {
            String::new()
        };
        let user = user_in(msg, &d);
        StatusReading { delivery: d, user, blocked: false }
    }
}

/// The shipment number in a list row: its first long number, or nothing.
pub fn shipment_number(row_text: &str) -> (r: String)
    ensures
        r@ == or_empty(group(regex_captures(number_pattern(), row_text@), 0)),
{
    text_or_empty(group_of(&captures("\\b\\d{7,}\\b", row_text), 0))
}

/// Opening a shipment went to its detail screen: the transaction left VT11.
pub fn went_deeper(transaction: &str) -> (r: bool)
    ensures
        r == !contains(transaction@, "VT11"@),
{
    !str_contains(transaction, "VT11")
}

// ---------------------------------------------------------------------------
// The log of a run
// ---------------------------------------------------------------------------

/// One shipment opened during the run.
pub struct ShipmentRecord {
    pub shipment: String,
    pub delivery: String,
    pub user: String,
    pub timestamp: String,
    pub blocked: bool,
}

/// The content of a [`ShipmentRecord`].
pub struct RecordView {
    pub shipment: Seq<char>,
    pub delivery: Seq<char>,
    pub user: Seq<char>,
    pub timestamp: Seq<char>,
    pub blocked: bool,
}

impl View for ShipmentRecord {
    type V = RecordView;

    open spec fn view(&self) -> RecordView {
        RecordView {
            shipment: self.shipment@,
            delivery: self.delivery@,
            user: self.user@,
            timestamp: self.timestamp@,
            blocked: self.blocked,
        }
    }
}

pub open spec fn record_views(s: Seq<ShipmentRecord>) -> Seq<RecordView> {
    Seq::new(s.len(), |i: int| s[i]@)
}

/// A locked delivery with its shipment and user: a row of the CSV.
pub struct LockRow {
    pub shipment: String,
    pub delivery: String,
    pub user: String,
}

pub open spec fn lock_views(s: Seq<LockRow>) -> Seq<(Seq<char>, Seq<char>, Seq<char>)> {
    Seq::new(s.len(), |i: int| (s[i].shipment@, s[i].delivery@, s[i].user@))
}

/// Everything a ListCheck run has seen so far.
pub struct ListcheckLog {
    pub shipments: Vec<ShipmentRecord>,
    pub deliveries: Vec<String>,
    pub rows: Vec<LockRow>,
    pub total_attempted: u32,
    pub blocked_count: u32,
    /// First rows of the pages seen, to notice the last page.
    pub seen_pages: Vec<String>,
}

/// The content of a [`ListcheckLog`].
pub struct LogView {
    pub shipments: Seq<RecordView>,
    pub deliveries: Seq<Seq<char>>,
    pub rows: Seq<(Seq<char>, Seq<char>, Seq<char>)>,
    pub total_attempted: nat,
    pub blocked_count: nat,
    pub seen_pages: Seq<Seq<char>>,
}

impl View for ListcheckLog {
    type V = LogView;

    open spec fn view(&self) -> LogView {
        LogView {
            shipments: record_views(self.shipments@),
            deliveries: string_views(self.deliveries@),
            rows: lock_views(self.rows@),
            total_attempted: self.total_attempted as nat,
            blocked_count: self.blocked_count as nat,
            seen_pages: string_views(self.seen_pages@),
        }
    }
}

pub open spec fn record(s: Seq<char>, d: Seq<char>, u: Seq<char>, t: Seq<char>, b: bool) -> RecordView {
    RecordView { shipment: s, delivery: d, user: u, timestamp: t, blocked: b }
}

/// The log after one shipment: counted; kept with its reading unless it has
/// no number; where it stayed on the list and is locked, counted as blocked,
/// its delivery noted, and with both a shipment and a delivery a CSV row.
/// A shipment that opened its detail screen is kept as unlocked.
pub open spec fn logged(
    l: LogView,
    ship: Seq<char>,
    reading: (Seq<char>, Seq<char>, bool),
    deeper: bool,
    t: Seq<char>,
) -> LogView {
    let (d, u, b) = reading;
    let l1 = LogView { total_attempted: l.total_attempted + 1, ..l };
    if deeper {
        LogView {
            shipments: if ship.len() > 0 {
                l1.shipments.push(record(ship, d, u, t, false))
            } else {
                l1.shipments
            },
            ..l1
        }
    } else if b {
        LogView {
            blocked_count: l1.blocked_count + 1,
            deliveries: if d.len() > 0 { l1.deliveries.push(d) } else { l1.deliveries },
            shipments: if ship.len() > 0 {
                l1.shipments.push(record(ship, d, u, t, true))
            } else {
                l1.shipments
            },
            rows: if ship.len() > 0 && d.len() > 0 { l1.rows.push((ship, d, u)) } else { l1.rows },
            ..l1
        }
    } else {
        LogView {
            shipments: if ship.len() > 0 {
                l1.shipments.push(record(ship, d, u, t, false))
            } else {
                l1.shipments
            },
            ..l1
        }
    }
}

impl ListcheckLog {
    /// A run that has seen nothing.
    pub fn new() -> (r: ListcheckLog)
        ensures
            r@.shipments.len() == 0,
            r@.deliveries.len() == 0,
            r@.rows.len() == 0,
            r@.total_attempted == 0,
            r@.blocked_count == 0,
            r@.seen_pages.len() == 0,
    {
        ListcheckLog {
            shipments: Vec::new(),
            deliveries: Vec::new(),
            rows: Vec::new(),
            total_attempted: 0,
            blocked_count: 0,
            seen_pages: Vec::new(),
        }
    }

    /// Notes a page by its first row; `false` when the row is empty or the
    /// page was seen already, which ends the run.
    pub fn enter_page(&mut self, first_row: &str) -> (r: bool)
        ensures
            r == (first_row@.len() > 0 && !old(self)@.seen_pages.contains(first_row@)),
            final(self)@ == if r {
                LogView { seen_pages: old(self)@.seen_pages.push(first_row@), ..old(self)@ }
            } else {
                old(self)@
            },
    {
        if first_row.unicode_len() == 0 {
            return false;
        }
        let mut i: usize = 0;
        while i < self.seen_pages.len()
            invariant
                i <= self.seen_pages@.len(),
                forall|k: int| 0 <= k < i ==> self.seen_pages@[k]@ != first_row@,
            decreases self.seen_pages@.len() - i,
        {
            if str_eq(self.seen_pages[i].as_str(), first_row) {
                assert(string_views(self.seen_pages@)[i as int] == first_row@);
                return false;
            }
            i = i + 1;
        }
        proof {
            if string_views(self.seen_pages@).contains(first_row@) {
                let k = choose|k: int|
                    0 <= k < string_views(self.seen_pages@).len() && string_views(
                        self.seen_pages@,
                    )[k] == first_row@;
                assert(self.seen_pages@[k]@ == first_row@);
            }
        }
        let ghost prev = self@;
        self.seen_pages.push(owned(first_row));
        assert(self@.seen_pages =~= prev.seen_pages.push(first_row@));
        assert(self@.shipments =~= prev.shipments);
        assert(self@.rows =~= prev.rows);
        assert(self@.deliveries =~= prev.deliveries);
        true
    }

    /// Logs one opened shipment: its list text, the status reading, whether
    /// it went to the detail screen, and when.
    pub fn log_shipment(
        &mut self,
        row_text: &str,
        reading: StatusReading,
        deeper: bool,
        timestamp: &str,
    )
        requires
            old(self).total_attempted < u32::MAX,
            old(self).blocked_count < u32::MAX,
        ensures
            final(self)@ == logged(
                old(self)@,
                or_empty(group(regex_captures(number_pattern(), row_text@), 0)),
                (reading.delivery@, reading.user@, reading.blocked),
                deeper,
                timestamp@,
            ),
    {
        let ship = shipment_number(row_text);
        let ghost l0 = self@;
        self.total_attempted = self.total_attempted + 1;
        let StatusReading { delivery, user, blocked } = reading;
        let keep = ship.unicode_len() > 0;
        if deeper {
            if keep {
                let ghost prev = self@;
                self.shipments.push(
                    ShipmentRecord {
                        shipment: ship,
                        delivery,
                        user,
                        timestamp: owned(timestamp),
                        blocked: false,
                    },
                );
                assert(self@.shipments =~= prev.shipments.push(self.shipments@.last()@));
            }
        } else if blocked {
            self.blocked_count = self.blocked_count + 1;
            if delivery.unicode_len() > 0 {
                let ghost prev = self@;
                self.deliveries.push(copy_string(&delivery));
                assert(self@.deliveries =~= prev.deliveries.push(delivery@));
            }
            if keep {
                let ghost prev = self@;
                let rec = ShipmentRecord {
                    shipment: copy_string(&ship),
                    delivery: copy_string(&delivery),
                    user: copy_string(&user),
                    timestamp: owned(timestamp),
                    blocked: true,
                };
                self.shipments.push(rec);
                assert(self@.shipments =~= prev.shipments.push(self.shipments@.last()@));
                if delivery.unicode_len() > 0 {
                    let ghost prev2 = self@;
                    self.rows.push(LockRow { shipment: ship, delivery, user });
                    assert(self@.rows =~= prev2.rows.push(
                        (self.rows@.last().shipment@, self.rows@.last().delivery@, self.rows@.last().user@),
                    ));
                }
            }
        } else {
            if keep {
                let ghost prev = self@;
                self.shipments.push(
                    ShipmentRecord {
                        shipment: ship,
                        delivery,
                        user,
                        timestamp: owned(timestamp),
                        blocked: false,
                    },
                );
                assert(self@.shipments =~= prev.shipments.push(self.shipments@.last()@));
            }
        }
    }

    /// The locked deliveries found, without blanks and repeats.
    pub fn blocked_deliveries(&self) -> (r: Vec<String>)
        ensures
            is_sanitized(self@.deliveries, string_views(r@)),
    {
        let mut copy: Vec<String> = Vec::new();
        let mut i: usize = 0;
        while i < self.deliveries.len()
            invariant
                i <= self.deliveries@.len(),
                copy@.len() == i,
                forall|k: int| 0 <= k < i ==> #[trigger] copy@[k]@ == self.deliveries@[k]@,
            decreases self.deliveries@.len() - i,
        {
            copy.push(copy_string(&self.deliveries[i]));
            i = i + 1;
        }
        assert(string_views(copy@) =~= self@.deliveries);
        dedup_and_sanitize(copy)
    }
}

// ---------------------------------------------------------------------------
// Output
// ---------------------------------------------------------------------------

/// The CSV lines of the locked rows with a shipment and a delivery, trimmed.
pub open spec fn csv_rows(rows: Seq<(Seq<char>, Seq<char>, Seq<char>)>) -> Seq<char>
    decreases rows.len(),
{
    if rows.len() == 0 {
        Seq::empty()
    } else {
        let (s, d, u) = rows.last();
        csv_rows(rows.drop_last()) + if trim(s).len() > 0 && trim(d).len() > 0 {
            trim(s) + ","@ + trim(d) + ","@ + trim(u) + "\n"@
        } else {
            Seq::empty()
        }
    }
}

/// The ListCheck CSV: a `Shipment,Delivery,User` header, then the rows.
pub open spec fn csv_text(rows: Seq<(Seq<char>, Seq<char>, Seq<char>)>) -> Seq<char> {
    "Shipment,Delivery,User\n"@ + csv_rows(rows)
}

impl ListcheckLog {
    /// The text of the ListCheck CSV file.
    pub fn csv(&self) -> (r: String)
        ensures
            r@ == csv_text(self@.rows),
    {
        let mut out = chars_of("Shipment,Delivery,User\n");
        let ghost head = out@;
        let mut i: usize = 0;
        while i < self.rows.len()
            invariant
                i <= self.rows@.len(),
                out@ == head + csv_rows(lock_views(self.rows@).take(i as int)),
            decreases self.rows@.len() - i,
        {
            proof {
                assert(lock_views(self.rows@).take(i + 1).drop_last() =~= lock_views(
                    self.rows@,
                ).take(i as int));
            }
            let s = trim_str(self.rows[i].shipment.as_str());
            let d = trim_str(self.rows[i].delivery.as_str());
            let u = trim_str(self.rows[i].user.as_str());
            let ghost before = out@;
            if s.unicode_len() > 0 && d.unicode_len() > 0 {
                append_str(&mut out, s.as_str());
                append_str(&mut out, ",");
                append_str(&mut out, d.as_str());
                append_str(&mut out, ",");
                append_str(&mut out, u.as_str());
                append_str(&mut out, "\n");
            }
            proof {
                let t = lock_views(self.rows@).take(i + 1);
                assert(t.last() == (self.rows@[i as int].shipment@, self.rows@[i as int].delivery@, self.rows@[i as int].user@));
                if s@.len() > 0 && d@.len() > 0 {
                    assert(out@ =~= before + (s@ + ","@ + d@ + ","@ + u@ + "\n"@));
                } else {
                    assert(out@ =~= before + Seq::<char>::empty());
                }
                assert(out@ =~= head + csv_rows(t));
            }
            i = i + 1;
        }
        assert(lock_views(self.rows@).take(self.rows@.len() as int) =~= lock_views(self.rows@));
        string_of(out.as_slice())
    }
}

/// A shipment in the statistics.
pub struct ShipmentInfo {
    pub shipment: String,
    pub delivery: String,
    pub user: String,
    pub timestamp: String,
}

/// The statistics of a run.
pub struct ListCheckStats {
    pub total_attempted: u32,
    pub blocked_count: u32,
    pub unblocked_count: u32,
    pub blocked_shipments: Vec<ShipmentInfo>,
    pub unblocked_shipments: Vec<ShipmentInfo>,
    pub timestamp: String,
}

pub open spec fn info_views(s: Seq<ShipmentInfo>) -> Seq<RecordView> {
    Seq::new(
        s.len(),
        |i: int| record(s[i].shipment@, s[i].delivery@, s[i].user@, s[i].timestamp@, false),
    )
}

/// Whether `ship` is the shipment of one of `recs`.
pub open spec fn has_shipment(recs: Seq<RecordView>, ship: Seq<char>) -> bool {
    exists|k: int| 0 <= k < recs.len() && recs[k].shipment == ship
}

/// The first record of each shipment among those whose lock state is
/// `blocked`, in order, as unlocked-marked records.
pub open spec fn first_per_shipment(recs: Seq<RecordView>, blocked: bool) -> Seq<RecordView>
    decreases recs.len(),
{
    if recs.len() == 0 {
        Seq::empty()
    } else {
        let prev = first_per_shipment(recs.drop_last(), blocked);
        let r = recs.last();
        if r.blocked == blocked && !has_shipment(prev, r.shipment) {
            prev.push(record(r.shipment, r.delivery, r.user, r.timestamp, false))
        } else {
            prev
        }
    }
}

fn info_of(r: &ShipmentRecord) -> (i: ShipmentInfo)
    ensures
        i.shipment@ == r.shipment@,
        i.delivery@ == r.delivery@,
        i.user@ == r.user@,
        i.timestamp@ == r.timestamp@,
{
    ShipmentInfo {
        shipment: copy_string(&r.shipment),
        delivery: copy_string(&r.delivery),
        user: copy_string(&r.user),
        timestamp: copy_string(&r.timestamp),
    }
}

fn listed(v: &Vec<ShipmentInfo>, ship: &String) -> (r: bool)
    ensures
        r == has_shipment(info_views(v@), ship@),
{
    let mut i: usize = 0;
    while i < v.len()
        invariant
            i <= v@.len(),
            forall|k: int| 0 <= k < i ==> v@[k].shipment@ != ship@,
        decreases v@.len() - i,
    {
        if str_eq(v[i].shipment.as_str(), ship.as_str()) {
            assert(info_views(v@)[i as int].shipment == ship@);
            return true;
        }
        i = i + 1;
    }
    proof {
        if has_shipment(info_views(v@), ship@) {
            let k = choose|k: int| 0 <= k < info_views(v@).len() && info_views(v@)[k].shipment == ship@;
            assert(v@[k].shipment@ == ship@);
        }
    }
    false
}

fn firsts(recs: &Vec<ShipmentRecord>, blocked: bool) -> (r: Vec<ShipmentInfo>)
    ensures
        info_views(r@) == first_per_shipment(record_views(recs@), blocked),
{
    let mut out: Vec<ShipmentInfo> = Vec::new();
    let mut i: usize = 0;
    while i < recs.len()
        invariant
            i <= recs@.len(),
            info_views(out@) == first_per_shipment(record_views(recs@).take(i as int), blocked),
        decreases recs@.len() - i,
    {
        proof {
            assert(record_views(recs@).take(i + 1).drop_last() =~= record_views(recs@).take(
                i as int,
            ));
            assert(record_views(recs@).take(i + 1).last() == recs@[i as int]@);
        }
        if recs[i].blocked == blocked && !listed(&out, &recs[i].shipment) {
            let ghost prev = info_views(out@);
            out.push(info_of(&recs[i]));
            assert(info_views(out@) =~= prev.push(
                record(
                    recs@[i as int].shipment@,
                    recs@[i as int].delivery@,
                    recs@[i as int].user@,
                    recs@[i as int].timestamp@,
                    false,
                ),
            ));
        }
        i = i + 1;
    }
    assert(record_views(recs@).take(recs@.len() as int) =~= record_views(recs@));
    out
}

impl ListcheckLog {
    /// The statistics of the run: the counters, and the first record of
    /// each locked and each unlocked shipment.
    pub fn stats(&self, timestamp: &str) -> (r: ListCheckStats)
        ensures
            r.total_attempted == self.total_attempted,
            r.blocked_count == self.blocked_count,
            info_views(r.blocked_shipments@) == first_per_shipment(self@.shipments, true),
            info_views(r.unblocked_shipments@) == first_per_shipment(self@.shipments, false),
            r.unblocked_count == r.unblocked_shipments@.len() as u32,
            r.timestamp@ == timestamp@,
    {
        let blocked = firsts(&self.shipments, true);
        let unblocked = firsts(&self.shipments, false);
        let n = unblocked.len();
        let count = n as u32;
        ListCheckStats {
            total_attempted: self.total_attempted,
            blocked_count: self.blocked_count,
            unblocked_count: count,
            blocked_shipments: blocked,
            unblocked_shipments: unblocked,
            timestamp: owned(timestamp),
        }
    }
}

// ---------------------------------------------------------------------------
// Dates of the list selection
// ---------------------------------------------------------------------------

/// The day after `d`; `None` past chrono's last day, 31 December 262142,
/// and for a `d` that is no calendar day.
pub open spec fn next_day(d: Date) -> Option<Date> {
    if !d.is_valid() {
        None
    } else if (d.day as int) < days_in_month(d.year as int, d.month as int) {
        Some(Date { day: (d.day + 1) as u32, ..d })
    } else if d.month < 12 {
        Some(Date { month: (d.month + 1) as u32, day: 1, ..d })
    } else if d.year < 262142 {
        Some(Date { year: (d.year + 1) as i32, month: 1, day: 1 })
    } else {
        None
    }
}

/// The day before `d`; `None` before chrono's first day, 1 January -262143,
/// and for a `d` that is no calendar day.
pub open spec fn previous_day(d: Date) -> Option<Date> {
    if !d.is_valid() {
        None
    } else if d.day > 1 {
        Some(Date { day: (d.day - 1) as u32, ..d })
    } else if d.month > 1 {
        Some(
            Date {
                month: (d.month - 1) as u32,
                day: days_in_month(d.year as int, d.month - 1) as u32,
                ..d
            },
        )
    } else if d.year > -262143 {
        Some(Date { year: (d.year - 1) as i32, month: 12, day: 31 })
    } else {
        None
    }
}

/// Calls `chrono::NaiveDate::from_ymd_opt` on `d`, then
/// `TimeDelta::try_days` and `NaiveDate::checked_add_signed` to move it one
/// day forward or back. The contract claims what chrono documents of that
/// sum: the next or previous calendar day, `None` outside the range of
/// `NaiveDate` (and for a `d` that is no calendar day).
#[verifier::external_body]
fn chrono_shift(d: Date, days: i64) -> (r: Option<Date>)
    requires
        days == 1 || days == -1,
    ensures
        r == if days == 1 { next_day(d) } else { previous_day(d) },
{
    chrono::NaiveDate::from_ymd_opt(d.year, d.month, d.day)
        .and_then(|n| chrono::TimeDelta::try_days(days).and_then(|t| n.checked_add_signed(t)))
        .map(|n| Date { year: chrono::Datelike::year(&n), month: chrono::Datelike::month(&n), day: chrono::Datelike::day(&n) })
}

/// The two dates typed into the list selection: as given, or, when they are
/// the same day, from yesterday to tomorrow; each as `MM/DD/YYYY*`.
pub open spec fn listcheck_range(start: Date, end: Date, today: Date) -> Option<(Seq<char>, Seq<char>)> {
    if start == end {
        match (previous_day(today), next_day(today)) {
            (Some(s), Some(e)) => Some(
                (
                    formatted_date(s, DateStyle::MonthDayYearSlash) + "*"@,
                    formatted_date(e, DateStyle::MonthDayYearSlash) + "*"@,
                ),
            ),
            _ => None,
        }
    } else {
        Some(
            (
                formatted_date(start, DateStyle::MonthDayYearSlash) + "*"@,
                formatted_date(end, DateStyle::MonthDayYearSlash) + "*"@,
            ),
        )
    }
}

fn starred(d: Date) -> (r: String)
    ensures
        r@ == formatted_date(d, DateStyle::MonthDayYearSlash) + "*"@,
{
    let f = format_date_as(d, DateStyle::MonthDayYearSlash);
    let mut out = chars_of(f.as_str());
    append_str(&mut out, "*");
    string_of(out.as_slice())
}

/// The date texts of a by-date ListCheck; `None` only when the day before or
/// after `today` is out of the calendar's range.
pub fn listcheck_dates(start: Date, end: Date, today: Date) -> (r: Option<(String, String)>)
    ensures
        match r {
            Some((a, b)) => listcheck_range(start, end, today) == Some((a@, b@)),
            None => listcheck_range(start, end, today) is None,
        },
{
    if start == end {
        match (chrono_shift(today, -1), chrono_shift(today, 1)) {
            (Some(s), Some(e)) => Some((starred(s), starred(e))),
            _ => None,
        }
    } else {
        Some((starred(start), starred(end)))
    }
}

/// The variant and layout of a ListCheck: those given, else those of the
/// `VT11.listcheck` settings, else those of `VT11`.
pub fn listcheck_variant_layout(
    variant: &Option<String>,
    layout: &Option<String>,
    config: &SapConfig,
) -> (r: (Option<String>, Option<String>))
    ensures
        ({
            let a = crate::config_query::tcode_settings(config@, "VT11.listcheck"@, Some(false));
            let b = crate::config_query::tcode_settings(config@, "VT11"@, Some(false));
            let pick = |given: Option<Seq<char>>, key: Seq<char>|
                match given {
                    Some(g) => Some(g),
                    None => match (match a {
                        Some(m) => crate::assoc::assoc_get(m, key),
                        None => None,
                    }) {
                        Some(x) => Some(x),
                        None => match b {
                            Some(m) => crate::assoc::assoc_get(m, key),
                            None => None,
                        },
                    },
                };
            &&& crate::cli_overrides::opt_view(r.0) == pick(
                crate::cli_overrides::opt_view(*variant),
                "variant"@,
            )
            &&& crate::cli_overrides::opt_view(r.1) == pick(
                crate::cli_overrides::opt_view(*layout),
                "layout"@,
            )
        }),
{
    let mut v = match variant {
        Some(s) => Some(copy_string(s)),
        None => None,
    };
    let mut l = match layout {
        Some(s) => Some(copy_string(s)),
        None => None,
    };
    if v.is_none() || l.is_none() {
        let a = config.get_tcode_config("VT11.listcheck", Some(false));
        if let Some(m) = &a {
            if v.is_none() {
                v = match m.get("variant") {
                    Some(s) => Some(copy_string(s)),
                    None => None,
                };
            }
            if l.is_none() {
                l = match m.get("layout") {
                    Some(s) => Some(copy_string(s)),
                    None => None,
                };
            }
        }
        if v.is_none() || l.is_none() {
            let b = config.get_tcode_config("VT11", Some(false));
            if let Some(m) = &b {
                if v.is_none() {
                    v = match m.get("variant") {
                        Some(s) => Some(copy_string(s)),
                        None => None,
                    };
                }
                if l.is_none() {
                    l = match m.get("layout") {
                        Some(s) => Some(copy_string(s)),
                        None => None,
                    };
                }
            }
        }
    }
    (v, l)
}

// ---------------------------------------------------------------------------
// Laws
// ---------------------------------------------------------------------------

/// Every opened shipment is counted once: the count of attempts grows by
/// exactly one per logged shipment, and the blocked count never passes it.
pub proof fn lemma_counts(
    l: LogView,
    ship: Seq<char>,
    reading: (Seq<char>, Seq<char>, bool),
    deeper: bool,
    t: Seq<char>,
)
    requires
        l.blocked_count <= l.total_attempted,
    ensures
        logged(l, ship, reading, deeper, t).total_attempted == l.total_attempted + 1,
        logged(l, ship, reading, deeper, t).blocked_count <= logged(
            l,
            ship,
            reading,
            deeper,
            t,
        ).total_attempted,
{
}

/// The statistics list each shipment at most once.
pub proof fn lemma_first_per_shipment_distinct(recs: Seq<RecordView>, blocked: bool)
    ensures
        forall|i: int, j: int|
            0 <= i < j < first_per_shipment(recs, blocked).len() ==> first_per_shipment(
                recs,
                blocked,
            )[i].shipment != first_per_shipment(recs, blocked)[j].shipment,
    decreases recs.len(),
{
    if recs.len() > 0 {
        lemma_first_per_shipment_distinct(recs.drop_last(), blocked);
        let prev = first_per_shipment(recs.drop_last(), blocked);
        let r = recs.last();
        if r.blocked == blocked && !has_shipment(prev, r.shipment) {
            let cur = first_per_shipment(recs, blocked);
            assert forall|i: int, j: int| 0 <= i < j < cur.len() implies cur[i].shipment
                != cur[j].shipment by {
                if j == cur.len() - 1 {
                    assert(cur[i] == prev[i]);
                    if cur[i].shipment == r.shipment {
                        assert(has_shipment(prev, r.shipment));
                    }
                } else {
                    assert(cur[i] == prev[i] && cur[j] == prev[j]);
                }
            }
        }
    }
}

} // verus!
