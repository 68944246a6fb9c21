//! Reading report exports as text: the delivery numbers of a VL06O list, and
//! the paste-ready rows of a 149 export.
use crate::text::{
    append_str, chars_of, contains, copy_string, has_char, has_char_exec, is_ascii_digit, join,
    lines_of, lowercase, non_empty, split_char, split_chars, split_whitespace,
    split_whitespace_chars, starts_with, str_contains, str_eq, str_starts_with, string_of,
    string_views, text_lines, to_lowercase, trim, trim_chars, trim_str, views,
};
use vstd::prelude::*;

verus! {

// ---------------------------------------------------------------------------
// Columns of a report line
// ---------------------------------------------------------------------------

/// The trimmed pieces of `s` between tabs.
pub open spec fn tab_cells(s: Seq<char>) -> Seq<Seq<char>> {
    Seq::new(split_char(s, '\t').len(), |i: int| trim(split_char(s, '\t')[i]))
}

/// The columns of a report line: trimmed tab-separated cells where the line
/// has a tab, else its white-space separated words.
pub open spec fn report_columns(line: Seq<char>) -> Seq<Seq<char>> {
    if has_char(line, '\t') {
        tab_cells(line)
    } else {
        split_whitespace(line)
    }
}

/// The trimmed tab cells of `s`, as strings.
fn tab_cell_strings(s: &[char]) -> (r: Vec<String>)
    ensures
        string_views(r@) == tab_cells(s@),
{
    let parts = split_chars(s, '\t');
    let mut out: Vec<String> = Vec::new();
    let mut i: usize = 0;
    while i < parts.len()
        invariant
            i <= parts@.len(),
            parts@.len() == split_char(s@, '\t').len(),
            forall|k: int| 0 <= k < parts@.len() ==> #[trigger] parts@[k]@ == split_char(s@, '\t')[k],
            out@.len() == i,
            forall|k: int| 0 <= k < i ==> #[trigger] out@[k]@ == trim(split_char(s@, '\t')[k]),
        decreases parts@.len() - i,
    {
        let t = trim_chars(parts[i].as_slice());
        out.push(string_of(t.as_slice()));
        i = i + 1;
    }
    assert(string_views(out@) =~= tab_cells(s@));
    out
}

/// The columns of a report line.
pub fn split_report_columns(line: &str) -> (r: Vec<String>)
    ensures
        string_views(r@) == report_columns(line@),
{
    let v = chars_of(line);
    if has_char_exec(v.as_slice(), '\t') {
        tab_cell_strings(v.as_slice())
    } else {
        let words = split_whitespace_chars(v.as_slice());
        let mut out: Vec<String> = Vec::new();
        let mut i: usize = 0;
        while i < words.len()
            invariant
                i <= words@.len(),
                views(words@) == split_whitespace(line@),
                out@.len() == i,
                forall|k: int| 0 <= k < i ==> #[trigger] out@[k]@ == words@[k]@,
            decreases words@.len() - i,
        {
            out.push(string_of(words[i].as_slice()));
            i = i + 1;
        }
        assert(string_views(out@) =~= views(words@));
        out
    }
}

/// The non-empty trimmed cells of a tab-separated row.
pub open spec fn tsv_cells(line: Seq<char>) -> Seq<Seq<char>> {
    non_empty(tab_cells(line))
}

/// A tab-separated row with its cells trimmed and its empty cells dropped
/// (which collapses the `\t\t` of blank SAP columns); `None` when no cell
/// has text.
pub open spec fn normalized_row(line: Seq<char>) -> Option<Seq<char>> {
    if tsv_cells(line).len() == 0 {
        None
    } else {
        Some(join(tsv_cells(line), "\t"@))
    }
}

/// Normalizes one tab-separated data row.
pub fn normalize_tsv_row(line: &str) -> (r: Option<String>)
    ensures
        match r {
            Some(s) => normalized_row(line@) == Some(s@),
            None => normalized_row(line@) is None,
        },
{
    let v = chars_of(line);
    let cells = tab_cell_strings(v.as_slice());
    let mut kept: Vec<String> = Vec::new();
    let mut i: usize = 0;
    while i < cells.len()
        invariant
            i <= cells@.len(),
            string_views(cells@) == tab_cells(line@),
            string_views(kept@) == non_empty(string_views(cells@.take(i as int))),
        decreases cells@.len() - i,
    {
        proof {
            assert(string_views(cells@.take(i + 1)).drop_last() =~= string_views(
                cells@.take(i as int),
            ));
            assert(string_views(cells@.take(i + 1)).last() == cells@[i as int]@);
        }
        if cells[i].unicode_len() > 0 {
            let ghost prev = kept@;
            kept.push(copy_string(&cells[i]));
            assert(string_views(kept@) =~= string_views(prev).push(cells@[i as int]@));
        }
        i = i + 1;
    }
    assert(cells@.take(cells@.len() as int) =~= cells@);
    if kept.len() == 0 {
        None
    } else {
        Some(crate::text::join_strings(&kept, "\t"))
    }
}

// ---------------------------------------------------------------------------
// Delivery numbers of a VL06O export
// ---------------------------------------------------------------------------

/// A header cell of the delivery column: it mentions "delivery" in any case.
pub open spec fn is_delivery_header(cell: Seq<char>) -> bool {
    contains(lowercase(cell), "delivery"@)
}

/// The first column, from `j` on, that is a delivery header.
pub open spec fn header_col_from(cols: Seq<Seq<char>>, j: nat) -> Option<nat>
    decreases cols.len() - j,
{
    if j >= cols.len() {
        None
    } else if is_delivery_header(cols[j as int]) {
        Some(j)
    } else {
        header_col_from(cols, j + 1)
    }
}

/// The first line, from `i` on, with a delivery header, and that column.
pub open spec fn header_from(lines: Seq<Seq<char>>, i: nat) -> Option<(nat, nat)>
    decreases lines.len() - i,
{
    if i >= lines.len() {
        None
    } else {
        match header_col_from(report_columns(lines[i as int]), 0) {
            Some(j) => Some((i, j)),
            None => header_from(lines, i + 1),
        }
    }
}

/// Whether some character of `s` is an ASCII digit.
pub open spec fn has_digit(s: Seq<char>) -> bool {
    exists|k: int| 0 <= k < s.len() && is_ascii_digit(s[k])
}

/// The delivery number a data line holds in column `col`, if it holds one:
/// a non-empty cell with a digit that is neither a repeated header, a `sum`
/// row nor a `*` total.
pub open spec fn delivery_cell(line: Seq<char>, col: nat) -> Option<Seq<char>> {
    let cols = report_columns(line);
    if col >= cols.len() {
        None
    } else {
        let raw = trim(cols[col as int]);
        let lower = lowercase(raw);
        if raw.len() == 0 || contains(lower, "delivery"@) || lower == "sum"@ || starts_with(
            lower,
            "*"@,
        ) || !has_digit(raw) {
            None
        } else {
            Some(raw)
        }
    }
}

/// `acc` with `x` at the end unless it is already there.
pub open spec fn add_unique(acc: Seq<Seq<char>>, x: Seq<char>) -> Seq<Seq<char>> {
    if acc.contains(x) {
        acc
    } else {
        acc.push(x)
    }
}

/// The distinct delivery numbers of `rows`, in the order first seen.
pub open spec fn deliveries_in(rows: Seq<Seq<char>>, col: nat) -> Seq<Seq<char>>
    decreases rows.len(),
{
    if rows.len() == 0 {
        Seq::empty()
    } else {
        let prev = deliveries_in(rows.drop_last(), col);
        match delivery_cell(rows.last(), col) {
            Some(x) => add_unique(prev, x),
            None => prev,
        }
    }
}

/// The delivery numbers of a report: under the first line with a delivery
/// header, the distinct numbers of that column, in the order first seen; none
/// when no line has such a header.
pub open spec fn delivery_numbers(content: Seq<char>) -> Seq<Seq<char>> {
    let ls = text_lines(content);
    match header_from(ls, 0) {
        Some((h, c)) => deliveries_in(ls.subrange((h + 1) as int, ls.len() as int), c),
        None => Seq::empty(),
    }
}

fn has_ascii_digit(s: &str) -> (r: bool)
    ensures
        r == has_digit(s@),
{
    let v = chars_of(s);
    let mut i: usize = 0;
    while i < v.len()
        invariant
            v@ == s@,
            i <= v@.len(),
            forall|k: int| 0 <= k < i ==> !is_ascii_digit(v@[k]),
        decreases v@.len() - i,
    {
        if '0' <= v[i] && v[i] <= '9' {
            return true;
        }
        i = i + 1;
    }
    false
}

/// The first delivery header among `cols`.
fn header_col(cols: &Vec<String>) -> (r: Option<usize>)
    ensures
        match r {
            Some(j) => header_col_from(string_views(cols@), 0) == Some(j as nat),
            None => header_col_from(string_views(cols@), 0) is None,
        },
{
    let ghost cv = string_views(cols@);
    let mut j: usize = 0;
    while j < cols.len()
        invariant
            cv == string_views(cols@),
            j <= cols@.len(),
            header_col_from(cv, 0) == header_col_from(cv, j as nat),
        decreases cols@.len() - j,
    {
        let lower = to_lowercase(cols[j].as_str());
        if str_contains(lower.as_str(), "delivery") {
            return Some(j);
        }
        j = j + 1;
    }
    None
}

/// The delivery number of one data line, if it holds one.
fn delivery_of(line: &str, col: usize) -> (r: Option<String>)
    ensures
        match r {
            Some(x) => delivery_cell(line@, col as nat) == Some(x@),
            None => delivery_cell(line@, col as nat) is None,
        },
{
    let cols = split_report_columns(line);
    if col >= cols.len() {
        return None;
    }
    let raw = trim_str(cols[col].as_str());
    let lower = to_lowercase(raw.as_str());
    proof {
        reveal_strlit("sum");
    }
    if raw.unicode_len() == 0 || str_contains(lower.as_str(), "delivery") || str_eq(
        lower.as_str(),
        "sum",
    ) || str_starts_with(lower.as_str(), "*") || !has_ascii_digit(raw.as_str()) {
        None
    } else {
        Some(raw)
    }
}

/// Whether `x` is among `v`.
fn holds(v: &Vec<String>, x: &String) -> (r: bool)
    ensures
        r == string_views(v@).contains(x@),
{
    let mut i: usize = 0;
    while i < v.len()
        invariant
            i <= v@.len(),
            forall|k: int| 0 <= k < i ==> v@[k]@ != x@,
        decreases v@.len() - i,
    {
        if str_eq(v[i].as_str(), x.as_str()) {
            assert(string_views(v@)[i as int] == x@);
            return true;
        }
        i = i + 1;
    }
    proof {
        if string_views(v@).contains(x@) {
            let k = choose|k: int| 0 <= k < string_views(v@).len() && string_views(v@)[k] == x@;
            assert(v@[k]@ == x@);
        }
    }
    false
}

/// The distinct delivery numbers of a VL06O (or similar) export, in the
/// order first seen.
pub fn delivery_numbers_in(content: &str) -> (r: Vec<String>)
    ensures
        string_views(r@) == delivery_numbers(content@),
{
    let lines = lines_of(content);
    let ghost ls = text_lines(content@);
    // The header line and column.
    let mut h: usize = 0;
    let mut found: Option<usize> = None;
    while h < lines.len()
        invariant_except_break
            found is None,
        invariant
            string_views(lines@) == ls,
            h <= lines@.len(),
            header_from(ls, 0) == header_from(ls, h as nat),
        ensures
            found matches Some(j) ==> h < lines@.len() && header_from(ls, 0) == Some(
                (h as nat, j as nat),
            ),
            found is None ==> header_from(ls, 0) is None,
        decreases lines@.len() - h,
    {
        let cols = split_report_columns(lines[h].as_str());
        proof {
            assert(ls[h as int] == lines@[h as int]@);
        }
        match header_col(&cols) {
            Some(j) => {
                found = Some(j);
                break;
            },
            None => {},
        }
        h = h + 1;
    }
    let col = match found {
        Some(j) => j,
        None => {
            return Vec::new();
        },
    };
    // The numbers below it.
    let ghost rows = ls.subrange((h + 1) as int, ls.len() as int);
    let mut out: Vec<String> = Vec::new();
    let n = lines.len();
    assert(h < n);
    let mut i: usize = h + 1;
    while i < lines.len()
        invariant
            string_views(lines@) == ls,
            h < lines@.len(),
            h + 1 <= i <= lines@.len(),
            rows == ls.subrange((h + 1) as int, ls.len() as int),
            string_views(out@) == deliveries_in(rows.take(i - h - 1), col as nat),
        decreases lines@.len() - i,
    {
        proof {
            let t = rows.take(i - h);
            assert(t.drop_last() =~= rows.take(i - h - 1));
            assert(t.last() == lines@[i as int]@);
        }
        match delivery_of(lines[i].as_str(), col) {
            Some(x) => {
                if !holds(&out, &x) {
                    let ghost prev = out@;
                    out.push(x);
                    assert(string_views(out@) =~= string_views(prev).push(x@));
                }
            },
            None => {},
        }
        i = i + 1;
    }
    assert(rows.take(lines@.len() - h - 1) =~= rows);
    out
}

// ---------------------------------------------------------------------------
// Paste-ready rows of a 149 export
// ---------------------------------------------------------------------------

/// The header line of a 149 export: it names a plant and a delivery.
pub open spec fn is_paste_header(line: Seq<char>) -> bool {
    contains(lowercase(line), "plant"@) && contains(lowercase(line), "delivery"@)
}

/// The first header line from `i` on.
pub open spec fn paste_header_from(lines: Seq<Seq<char>>, i: nat) -> Option<nat>
    decreases lines.len() - i,
{
    if i >= lines.len() {
        None
    } else if is_paste_header(lines[i as int]) {
        Some(i)
    } else {
        paste_header_from(lines, i + 1)
    }
}

/// `s` without its trailing `\r`s.
pub open spec fn without_trailing_cr(s: Seq<char>) -> Seq<char>
    decreases s.len(),
{
    if s.len() > 0 && s.last() == '\r' {
        without_trailing_cr(s.drop_last())
    } else {
        s
    }
}

/// The paste row a data line gives: trimmed, blank lines and `sum` / `*`
/// totals dropped, tab-separated rows normalized, other rows kept as they are.
pub open spec fn paste_row(line: Seq<char>) -> Option<Seq<char>> {
    let t = trim(without_trailing_cr(line));
    let lower = lowercase(t);
    if t.len() == 0 || contains(lower, "sum"@) || starts_with(lower, "*"@) {
        None
    } else if has_char(t, '\t') {
        normalized_row(t)
    } else {
        Some(t)
    }
}

/// The paste rows of `rows`, in order.
pub open spec fn paste_rows_of(rows: Seq<Seq<char>>) -> Seq<Seq<char>>
    decreases rows.len(),
{
    if rows.len() == 0 {
        Seq::empty()
    } else {
        let prev = paste_rows_of(rows.drop_last());
        match paste_row(rows.last()) {
            Some(x) => prev.push(x),
            None => prev,
        }
    }
}

/// The rows of a 149 export worth pasting: those under the header line, or
/// all of them when there is none.
pub open spec fn paste_rows(content: Seq<char>) -> Seq<Seq<char>> {
    let ls = text_lines(content);
    match paste_header_from(ls, 0) {
        Some(h) => paste_rows_of(ls.subrange((h + 1) as int, ls.len() as int)),
        None => paste_rows_of(ls),
    }
}

/// The paste file's text: the rows joined by CRLF, with a closing CRLF when
/// there is any row.
pub open spec fn paste_text(content: Seq<char>) -> Seq<char> {
    let rows = paste_rows(content);
    if rows.len() == 0 {
        Seq::empty()
    } else {
        join(rows, "\r\n"@) + "\r\n"@
    }
}

fn strip_trailing_cr(s: &str) -> (r: String)
    ensures
        r@ == without_trailing_cr(s@),
{
    let v = chars_of(s);
    let mut end: usize = v.len();
    assert(v@.take(v@.len() as int) =~= v@);
    while end > 0 && v[end - 1] == '\r'
        invariant
            v@ == s@,
            end <= v@.len(),
            without_trailing_cr(s@) == without_trailing_cr(v@.take(end as int)),
        decreases end,
    {
        proof {
            assert(v@.take(end as int).drop_last() =~= v@.take(end - 1));
        }
        end = end - 1;
    }
    proof {
        assert(v@.take(v@.len() as int) =~= v@);
    }
    let t = crate::text::sub_chars(v.as_slice(), 0, end);
    assert(t@ =~= v@.take(end as int));
    string_of(t.as_slice())
}

fn paste_row_of(line: &str) -> (r: Option<String>)
    ensures
        match r {
            Some(x) => paste_row(line@) == Some(x@),
            None => paste_row(line@) is None,
        },
{
    let stripped = strip_trailing_cr(line);
    let t = trim_str(stripped.as_str());
    let lower = to_lowercase(t.as_str());
    if t.unicode_len() == 0 || str_contains(lower.as_str(), "sum") || str_starts_with(
        lower.as_str(),
        "*",
    ) {
        None
    } else {
        let tv = chars_of(t.as_str());
        if has_char_exec(tv.as_slice(), '\t') {
            normalize_tsv_row(t.as_str())
        } else {
            Some(t)
        }
    }
}

/// The rows of a 149 export worth pasting.
pub fn paste_ready_rows(content: &str) -> (r: Vec<String>)
    ensures
        string_views(r@) == paste_rows(content@),
{
    let lines = lines_of(content);
    let ghost ls = text_lines(content@);
    let mut h: usize = 0;
    let mut header: Option<usize> = None;
    while h < lines.len()
        invariant_except_break
            header is None,
        invariant
            string_views(lines@) == ls,
            h <= lines@.len(),
            paste_header_from(ls, 0) == paste_header_from(ls, h as nat),
        ensures
            header matches Some(k) ==> k < lines@.len() && paste_header_from(ls, 0) == Some(
                k as nat,
            ),
            header is None ==> paste_header_from(ls, 0) is None,
        decreases lines@.len() - h,
    {
        let lower = to_lowercase(lines[h].as_str());
        proof {
            assert(ls[h as int] == lines@[h as int]@);
        }
        if str_contains(lower.as_str(), "plant") && str_contains(lower.as_str(), "delivery") {
            header = Some(h);
            break;
        }
        h = h + 1;
    }
    let n = lines.len();
    let start: usize = match header {
        Some(k) => {
            assert(k < n);
            k + 1
        },
        None => 0,
    };
    let ghost rows = ls.subrange(start as int, ls.len() as int);
    proof {
        if header is None {
            assert(rows =~= ls);
        }
    }
    let mut out: Vec<String> = Vec::new();
    let mut i: usize = start;
    while i < lines.len()
        invariant
            string_views(lines@) == ls,
            start <= i <= lines@.len(),
            start <= lines@.len(),
            rows == ls.subrange(start as int, ls.len() as int),
            string_views(out@) == paste_rows_of(rows.take(i - start)),
        decreases lines@.len() - i,
    {
        proof {
            let t = rows.take(i - start + 1);
            assert(t.drop_last() =~= rows.take(i - start));
            assert(t.last() == lines@[i as int]@);
        }
        match paste_row_of(lines[i].as_str()) {
            Some(x) => {
                let ghost prev = out@;
                out.push(x);
                assert(string_views(out@) =~= string_views(prev).push(x@));
            },
            None => {},
        }
        i = i + 1;
    }
    assert(rows.take(lines@.len() - start) =~= rows);
    out
}

/// The text of the paste-ready file for a 149 export.
pub fn paste_ready_text(content: &str) -> (r: String)
    ensures
        r@ == paste_text(content@),
{
    let rows = paste_ready_rows(content);
    if rows.len() == 0 {
        return String::new();
    }
    let body = crate::text::join_strings(&rows, "\r\n");
    let mut out = chars_of(body.as_str());
    append_str(&mut out, "\r\n");
    string_of(out.as_slice())
}

/// The paste-ready file's name: `<stamp>_y_149-inbond-paste-<shipment>.txt`.
pub fn paste_file_name(stamp: &str, shipment: &str) -> (r: String)
    ensures
        r@ == stamp@ + "_y_149-inbond-paste-"@ + trim(shipment@) + ".txt"@,
{
    let mut out = chars_of(stamp);
    append_str(&mut out, "_y_149-inbond-paste-");
    let s = trim_str(shipment);
    append_str(&mut out, s.as_str());
    append_str(&mut out, ".txt");
    string_of(out.as_slice())
}

/// Whether a VL06O status bar reports that the shipment has no data.
pub open spec fn reports_no_data(sbar: Seq<char>) -> bool {
    let lower = lowercase(sbar);
    contains(lower, "no shipment"@) || contains(lower, "no data"@) || contains(lower, "not found"@)
        || contains(lower, "no items"@)
}

/// Reads a VL06O status bar: does it say the list is empty?
pub fn sbar_reports_no_data(sbar: &str) -> (r: bool)
    ensures
        r == reports_no_data(sbar@),
{
    let lower = to_lowercase(sbar);
    str_contains(lower.as_str(), "no shipment") || str_contains(lower.as_str(), "no data")
        || str_contains(lower.as_str(), "not found") || str_contains(lower.as_str(), "no items")
}

/// The export-name suffix of an inbond run: `inbond-<shipment>`.
pub fn inbond_suffix(shipment: &str) -> (r: String)
    ensures
        r@ == "inbond-"@ + trim(shipment@),
{
    let mut out = chars_of("inbond-");
    let s = trim_str(shipment);
    append_str(&mut out, s.as_str());
    string_of(out.as_slice())
}

// ---------------------------------------------------------------------------
// Laws
// ---------------------------------------------------------------------------

/// Adding to a list without repeats keeps it without repeats.
proof fn lemma_add_unique_keeps(acc: Seq<Seq<char>>, x: Seq<char>)
    requires
        acc.no_duplicates(),
    ensures
        add_unique(acc, x).no_duplicates(),
        add_unique(acc, x).contains(x),
        forall|y: Seq<char>| acc.contains(y) ==> add_unique(acc, x).contains(y),
{
    if !acc.contains(x) {
        let r = acc.push(x);
        assert(r[acc.len() as int] == x);
        assert forall|i: int, j: int| 0 <= i < r.len() && 0 <= j < r.len() && i != j implies r[i]
            != r[j] by {
            if i == acc.len() as int {
                assert(r[j] == acc[j]);
                assert(acc[j] != x);
            } else if j == acc.len() as int {
                assert(r[i] == acc[i]);
                assert(acc[i] != x);
            } else {
                assert(r[i] == acc[i] && r[j] == acc[j]);
            }
        }
        assert forall|y: Seq<char>| acc.contains(y) implies r.contains(y) by {
            let k = choose|k: int| 0 <= k < acc.len() && acc[k] == y;
            assert(r[k] == y);
        }
    }
}

/// The delivery numbers of any rows hold no number twice.
pub proof fn lemma_deliveries_distinct(rows: Seq<Seq<char>>, col: nat)
    ensures
        deliveries_in(rows, col).no_duplicates(),
    decreases rows.len(),
{
    if rows.len() > 0 {
        lemma_deliveries_distinct(rows.drop_last(), col);
        match delivery_cell(rows.last(), col) {
            Some(x) => lemma_add_unique_keeps(deliveries_in(rows.drop_last(), col), x),
            None => {},
        }
    }
}

/// A report's delivery numbers hold no number twice.
pub proof fn lemma_delivery_numbers_distinct(content: Seq<char>)
    ensures
        delivery_numbers(content).no_duplicates(),
{
    let ls = text_lines(content);
    match header_from(ls, 0) {
        Some((h, c)) => lemma_deliveries_distinct(ls.subrange((h + 1) as int, ls.len() as int), c),
        None => {},
    }
}

/// Every number a row holds is among the delivery numbers of the rows.
pub proof fn lemma_deliveries_complete(rows: Seq<Seq<char>>, col: nat, k: int)
    requires
        0 <= k < rows.len(),
        delivery_cell(rows[k], col) is Some,
    ensures
        deliveries_in(rows, col).contains(delivery_cell(rows[k], col)->Some_0),
    decreases rows.len(),
{
    lemma_deliveries_distinct(rows.drop_last(), col);
    if k == rows.len() - 1 {
        lemma_add_unique_keeps(
            deliveries_in(rows.drop_last(), col),
            delivery_cell(rows[k], col)->Some_0,
        );
    } else {
        assert(rows.drop_last()[k] == rows[k]);
        lemma_deliveries_complete(rows.drop_last(), col, k);
        match delivery_cell(rows.last(), col) {
            Some(x) => lemma_add_unique_keeps(deliveries_in(rows.drop_last(), col), x),
            None => {},
        }
    }
}

} // verus!
