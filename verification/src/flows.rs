//! Decisions inside the SAP screen flows: control ids, pasting a long list
//! into a selection table page by page, reading the screens' messages, and
//! which numbers a report run filters by. The program performs the screen
//! actions and reports what it saw.
use crate::date::Date;
use crate::sources::{dedup_and_sanitize, is_sanitized};
use crate::text::{
    append_chars, append_str, chars_of, contains, copy_string, decimal, decimal_chars,
    lowercase, owned, str_contains, string_of, string_views, to_lowercase, trim, trim_chars,
    trim_str,
};
use vstd::prelude::*;

verus! {

// ---------------------------------------------------------------------------
// Control ids
// ---------------------------------------------------------------------------

/// The decimal text of an integer, with `-` when negative.
pub open spec fn signed_decimal(n: int) -> Seq<char> {
    if n < 0 {
        "-"@ + decimal((-n) as nat)
    } else {
        decimal(n as nat)
    }
}

fn signed_text(n: i32) -> (r: Vec<char>)
    ensures
        r@ == signed_decimal(n as int),
{
    let wide = n as i64;
    if wide < 0 {
        let mut out = chars_of("-");
        let d = decimal_chars((-wide) as u64);
        append_chars(&mut out, d.as_slice());
        out
    } else {
        decimal_chars(wide as u64)
    }
}

/// The id of a control of window `wnd_idx`: `wnd[<idx>]<suffix>`.
pub open spec fn control_id_of(wnd_idx: int, suffix: Seq<char>) -> Seq<char> {
    "wnd["@ + signed_decimal(wnd_idx) + "]"@ + suffix
}

pub fn control_id(wnd_idx: i32, suffix: &str) -> (r: String)
    ensures
        r@ == control_id_of(wnd_idx as int, suffix@),
{
    let mut out = chars_of("wnd[");
    let d = signed_text(wnd_idx);
    append_chars(&mut out, d.as_slice());
    append_str(&mut out, "]");
    append_str(&mut out, suffix);
    string_of(out.as_slice())
}

/// The message lines of a screen, each with the prefix, joined by line
/// breaks; empty lines left out.
pub open spec fn error_lines(texts: Seq<Seq<char>>, prefix: Seq<char>) -> Seq<char>
    decreases texts.len(),
{
    if texts.len() == 0 {
        Seq::empty()
    } else {
        let prev = error_lines(texts.drop_last(), prefix);
        let t = texts.last();
        if t.len() == 0 {
            prev
        } else if prev.len() == 0 {
            prefix + t
        } else {
            prev + "\n"@ + prefix + t
        }
    }
}

/// Joins the message lines read from a screen (`get_sap_text_errors`).
pub fn join_error_lines(texts: &Vec<String>, prefix: Option<&str>) -> (r: String)
    ensures
        r@ == error_lines(
            string_views(texts@),
            match prefix {
                Some(p) => p@,
                None => Seq::empty(),
            },
        ),
{
    let p: &str = match prefix {
        Some(p) => p,
        None => "",
    };
    proof {
        reveal_strlit("");
        assert(""@ =~= Seq::<char>::empty());
    }
    let mut out: Vec<char> = Vec::new();
    let mut i: usize = 0;
    while i < texts.len()
        invariant
            i <= texts@.len(),
            out@ == error_lines(string_views(texts@.take(i as int)), p@),
            p@ == match prefix {
                Some(q) => q@,
                None => Seq::<char>::empty(),
            },
        decreases texts@.len() - i,
    {
        proof {
            assert(string_views(texts@.take(i + 1)).drop_last() =~= string_views(
                texts@.take(i as int),
            ));
            assert(string_views(texts@.take(i + 1)).last() == texts@[i as int]@);
        }
        if texts[i].unicode_len() > 0 {
            if out.len() > 0 {
                append_str(&mut out, "\n");
            }
            append_str(&mut out, p);
            append_str(&mut out, texts[i].as_str());
        }
        i = i + 1;
    }
    assert(texts@.take(texts@.len() as int) =~= texts@);
    string_of(out.as_slice())
}

// ---------------------------------------------------------------------------
// Pasting a list into a selection table
// ---------------------------------------------------------------------------

/// `s` without the `,`s at its end.
pub open spec fn without_trailing_commas(s: Seq<char>) -> Seq<char>
    decreases s.len(),
{
    if s.len() > 0 && s.last() == ',' {
        without_trailing_commas(s.drop_last())
    } else {
        s
    }
}

/// A value as it is pasted: trimmed, trailing commas removed.
pub open spec fn clean_value(s: Seq<char>) -> Seq<char> {
    without_trailing_commas(trim(s))
}

fn clean_paste_value(s: &String) -> (r: String)
    ensures
        r@ == clean_value(s@),
{
    let t = trim_chars(chars_of(s.as_str()).as_slice());
    let mut end: usize = t.len();
    assert(t@.take(t@.len() as int) =~= t@);
    while end > 0 && t[end - 1] == ','
        invariant
            end <= t@.len(),
            clean_value(s@) == without_trailing_commas(t@.take(end as int)),
        decreases end,
    {
        proof {
            assert(t@.take(end as int).drop_last() =~= t@.take(end - 1));
        }
        end = end - 1;
    }
    let out = crate::text::sub_chars(t.as_slice(), 0, end);
    assert(out@ =~= t@.take(end as int));
    string_of(out.as_slice())
}

/// The cell of a selection table's row `row`.
pub open spec fn paste_field_of(table_id: Seq<char>, row: nat) -> Seq<char> {
    table_id + "/ctxtRSCSEL_255-SLOW_I[1,"@ + decimal(row) + "]"@
}

pub fn paste_field_id(table_id: &str, row: usize) -> (r: String)
    ensures
        r@ == paste_field_of(table_id@, row as nat),
{
    let mut out = chars_of(table_id);
    append_str(&mut out, "/ctxtRSCSEL_255-SLOW_I[1,");
    let d = decimal_chars(row as u64);
    append_chars(&mut out, d.as_slice());
    append_str(&mut out, "]");
    string_of(out.as_slice())
}

/// How far a paste has come.
pub struct PasteProgress {
    /// The values, cleaned.
    pub values: Vec<String>,
    /// How many are in the table.
    pub pasted: usize,
    /// Rows visible at a time.
    pub batch_size: usize,
    /// The scroll position the table is at, moved by 7 rows per batch.
    pub scroll_position: usize,
}

impl PasteProgress {
    pub open spec fn wf(&self) -> bool {
        self.pasted <= self.values@.len()
    }

    /// A paste of `values`, cleaned, nothing pasted yet.
    pub fn new(values: &Vec<String>, batch_size: usize) -> (r: PasteProgress)
        ensures
            r.wf(),
            r.values@.len() == values@.len(),
            forall|k: int| 0 <= k < values@.len() ==> #[trigger] r.values@[k]@ == clean_value(
                values@[k]@,
            ),
            r.pasted == 0,
            r.batch_size == batch_size,
            r.scroll_position == 0,
    {
        let mut clean: Vec<String> = Vec::new();
        let mut i: usize = 0;
        while i < values.len()
            invariant
                i <= values@.len(),
                clean@.len() == i,
                forall|k: int| 0 <= k < i ==> #[trigger] clean@[k]@ == clean_value(values@[k]@),
            decreases values@.len() - i,
        {
            clean.push(clean_paste_value(&values[i]));
            i = i + 1;
        }
        PasteProgress { values: clean, pasted: 0, batch_size, scroll_position: 0 }
    }

    /// Whether every value is in the table.
    pub fn done(&self) -> (r: bool)
        ensures
            r == (self.pasted >= self.values@.len()),
    {
        self.pasted >= self.values.len()
    }

    /// Starts a batch: after the first one the table must be scrolled on,
    /// which moves the counted position by 7.
    pub fn begin_batch(&mut self) -> (scroll: bool)
        requires
            old(self).scroll_position + 7 <= usize::MAX,
        ensures
            scroll == (old(self).pasted > 0),
            final(self).values@ == old(self).values@,
            final(self).pasted == old(self).pasted,
            final(self).batch_size == old(self).batch_size,
            final(self).scroll_position == if scroll {
                old(self).scroll_position + 7
            } else {
                old(self).scroll_position as int
            },
    {
        if self.pasted > 0 {
            self.scroll_position = self.scroll_position + 7;
            true
        } else {
            false
        }
    }

    /// How many values the batch holds: a table page, or what is left.
    pub fn batch_len(&self) -> (r: usize)
        requires
            self.wf(),
        ensures
            r == if self.batch_size < self.values@.len() - self.pasted {
                self.batch_size as int
            } else {
                self.values@.len() - self.pasted
            },
    {
        let remaining = self.values.len() - self.pasted;
        if self.batch_size < remaining {
            self.batch_size
        } else {
            remaining
        }
    }

    /// The row a batch starts at: after scrolling, row 1 when row 0 still
    /// shows a value; else row 0.
    pub fn batch_start(&self, row0_text: Option<&str>) -> (r: usize)
        ensures
            r == if self.pasted > 0 && (row0_text matches Some(t) && trim(t@).len() > 0) {
                1usize
            } else {
                0usize
            },
    {
        if self.pasted > 0 {
            match row0_text {
                Some(t) => {
                    let tt = trim_str(t);
                    if tt.unicode_len() > 0 {
                        1
                    } else {
                        0
                    }
                },
                None => 0,
            }
        } else {
            0
        }
    }

    /// The `i`-th value of the batch.
    pub fn value(&self, i: usize) -> (r: &String)
        requires
            self.pasted + i < self.values@.len(),
        ensures
            *r == self.values@[self.pasted + i],
    {
        let n = self.values.len();
        let k = self.pasted + i;
        proof {
            assert(k < n);
        }
        &self.values[k]
    }

    /// Ends a batch whose cells from `start` up to `next` were filled: the
    /// paste goes on while it filled some cell and values are left.
    pub fn end_batch(&mut self, start: usize, next: usize) -> (go_on: bool)
        requires
            old(self).wf(),
            start <= next,
            next - start <= old(self).values@.len() - old(self).pasted,
        ensures
            final(self).wf(),
            final(self).values@ == old(self).values@,
            final(self).batch_size == old(self).batch_size,
            final(self).scroll_position == old(self).scroll_position,
            final(self).pasted == old(self).pasted + (next - start),
            go_on == (next > start && final(self).pasted < final(self).values@.len()),
    {
        let n = self.values.len();
        let added = next - start;
        assert(self.pasted + added <= n);
        self.pasted = self.pasted + added;
        next > start && self.pasted < n
    }

    /// A paste succeeded when some value went in.
    pub fn succeeded(&self) -> (r: bool)
        ensures
            r == (self.pasted > 0),
    {
        self.pasted > 0
    }
}

/// After one more Page Down (`presses` so far): stop once row 1 of the table
/// reads empty, or after 5 presses.
pub fn keep_paging(presses: usize, row1_text: Option<&str>) -> (r: bool)
    ensures
        r == !((row1_text matches Some(t) && t@.len() == 0) || presses >= 5),
{
    let empty = match row1_text {
        Some(t) => t.unicode_len() == 0,
        None => false,
    };
    !(empty || presses >= 5)
}

// ---------------------------------------------------------------------------
// Report runs
// ---------------------------------------------------------------------------

/// The delivery numbers a by-delivery run filters by: those of the file named
/// on the command line when one was read, else those of the last ZMDESNR
/// export and ListCheck together; blanks and repeats removed, in order.
pub fn run_delivery_numbers(
    from_command_line: Option<Vec<String>>,
    zmdesnr: &Vec<String>,
    listcheck: &Vec<String>,
) -> (r: Vec<String>)
    ensures
        match from_command_line {
            Some(v) => is_sanitized(string_views(v@), string_views(r@)),
            None => is_sanitized(string_views(zmdesnr@) + string_views(listcheck@), string_views(r@)),
        },
{
    match from_command_line {
        Some(v) => dedup_and_sanitize(v),
        None => crate::export::merge_deliveries(zmdesnr, listcheck),
    }
}

/// The high date of a VT11 / ZVT11 selection: empty for a single day.
pub fn high_date_text(start: Date, end: Date, end_text: &str) -> (r: String)
    ensures
        r@ == if start == end {
            Seq::<char>::empty()
        } else {
            end_text@
        },
{
    if start == end {
        String::new()
    } else {
        owned(end_text)
    }
}

/// Whether the limiter asks to clear the high date of the planning period
/// (only `date_range`, in any case, does).
pub fn clears_period_high(limiter: &Option<String>) -> (r: bool)
    ensures
        r == (limiter matches Some(l) && l@.len() > 0 && lowercase(l@) == "date_range"@),
{
    match limiter {
        Some(l) => {
            if l.unicode_len() == 0 {
                false
            } else {
                let low = to_lowercase(l.as_str());
                proof {
                    reveal_strlit("date_range");
                }
                crate::text::str_eq(low.as_str(), "date_range")
            }
        },
        None => false,
    }
}

/// Whether the popup after a VT11 selection says it found no shipment.
pub fn no_shipments_found(message: &str) -> (r: bool)
    ensures
        r == contains(message@, "No shipments were found for the selection criteria"@),
{
    str_contains(message, "No shipments were found for the selection criteria")
}

/// Whether a 149 status bar says the list is empty.
pub open spec fn empty_149_list(sbar: Seq<char>) -> bool {
    let l = lowercase(sbar);
    sbar.len() > 0 && (contains(l, "no data"@) || contains(l, "not found"@) || contains(
        l,
        "no items"@,
    ))
}

pub fn sbar_empty_149(sbar: &str) -> (r: bool)
    ensures
        r == empty_149_list(sbar@),
{
    if sbar.unicode_len() == 0 {
        return false;
    }
    let l = to_lowercase(sbar);
    str_contains(l.as_str(), "no data") || str_contains(l.as_str(), "not found") || str_contains(
        l.as_str(),
        "no items",
    )
}

/// The runs of a 149 export: one per plant, suffixed by the plant, or a
/// single run suffixed `ALL` when no plant is listed.
pub fn runs_149(plants: &Vec<String>) -> (r: Vec<String>)
    ensures
        string_views(r@) == if plants@.len() == 0 {
            seq!["ALL"@]
        } else {
            string_views(plants@)
        },
{
    if plants.len() == 0 {
        let r = vec![owned("ALL")];
        assert(string_views(r@) =~= seq!["ALL"@]);
        r
    } else {
        let mut out: Vec<String> = Vec::new();
        let mut i: usize = 0;
        while i < plants.len()
            invariant
                i <= plants@.len(),
                out@.len() == i,
                forall|k: int| 0 <= k < i ==> #[trigger] out@[k]@ == plants@[k]@,
            decreases plants@.len() - i,
        {
            out.push(copy_string(&plants[i]));
            i = i + 1;
        }
        assert(string_views(out@) =~= string_views(plants@));
        out
    }
}

// ---------------------------------------------------------------------------
// Keeping the machine awake
// ---------------------------------------------------------------------------

/// Seconds between two refreshes of the keep-awake state.
pub const KEEP_AWAKE_REFRESH_SECS: u64 = 60;

/// The outcome of `SetThreadExecutionState`, which returns 0 when it fails.
pub fn execution_state_outcome(previous: u32, releasing: bool) -> (r: Result<(), String>)
    ensures
        r is Ok <==> previous != 0,
        r matches Err(e) ==> e@ == if releasing {
            "Failed to reset thread execution state"@
        } else {
            "Failed to set thread execution state"@
        },
{
    if previous == 0 {
        if releasing {
            Err(owned("Failed to reset thread execution state"))
        } else {
            Err(owned("Failed to set thread execution state"))
        }
    } else {
        Ok(())
    }
}

} // verus!
