//! Delivery and shipment numbers taken from a file named on the command
//! line (`--delivery-file`, `--shipment-file`): where the file is, how its
//! column is read, and how the numbers are cleaned up.
use crate::cli_overrides::{is_path_like, CliOverrides};
use crate::text::{
    append_str, chars_of, contains, copy_string, ends_with, eq_ignore_ascii_case,
    eq_ignore_ascii_case_exec, has_char, lines_of, lowercase, occurs_at, owned, split_char,
    split_chars, str_ends_with, string_of, string_views, text_lines, to_lowercase, trim,
    trim_chars, trim_str,
};
use vstd::prelude::*;

verus! {

// ---------------------------------------------------------------------------
// Order of texts
// ---------------------------------------------------------------------------

/// `a` comes before `b` character by character (by code point), a proper
/// prefix first: the order of `String`s, since UTF-8 keeps code point order.
pub open spec fn text_lt(a: Seq<char>, b: Seq<char>) -> bool
    decreases a.len(),
{
    if a.len() == 0 {
        b.len() > 0
    } else if b.len() == 0 {
        false
    } else if a[0] < b[0] {
        true
    } else if a[0] == b[0] {
        text_lt(a.drop_first(), b.drop_first())
    } else {
        false
    }
}

pub proof fn lemma_text_lt_irreflexive(a: Seq<char>)
    ensures
        !text_lt(a, a),
    decreases a.len(),
{
    if a.len() > 0 {
        lemma_text_lt_irreflexive(a.drop_first());
    }
}

pub proof fn lemma_text_lt_transitive(a: Seq<char>, b: Seq<char>, c: Seq<char>)
    requires
        text_lt(a, b),
        text_lt(b, c),
    ensures
        text_lt(a, c),
    decreases a.len(),
{
    if a.len() > 0 && b.len() > 0 && c.len() > 0 && a[0] == b[0] && b[0] == c[0] {
        lemma_text_lt_transitive(a.drop_first(), b.drop_first(), c.drop_first());
    }
}

pub proof fn lemma_text_lt_total(a: Seq<char>, b: Seq<char>)
    requires
        a != b,
    ensures
        text_lt(a, b) || text_lt(b, a),
    decreases a.len(),
{
    if a.len() > 0 && b.len() > 0 && a[0] == b[0] {
        if a.drop_first() == b.drop_first() {
            assert(a =~= seq![a[0]] + a.drop_first());
            assert(b =~= seq![b[0]] + b.drop_first());
        }
        lemma_text_lt_total(a.drop_first(), b.drop_first());
    } else if a.len() == 0 && b.len() == 0 {
        assert(a =~= b);
    }
}

pub proof fn lemma_text_lt_asymmetric(a: Seq<char>, b: Seq<char>)
    requires
        text_lt(a, b),
    ensures
        !text_lt(b, a),
{
    if text_lt(b, a) {
        lemma_text_lt_transitive(a, b, a);
        lemma_text_lt_irreflexive(a);
    }
}

fn text_less(a: &[char], b: &[char]) -> (r: bool)
    ensures
        r == text_lt(a@, b@),
{
    let mut i: usize = 0;
    assert(a@.skip(0) =~= a@);
    assert(b@.skip(0) =~= b@);
    assert(a@.take(0) =~= b@.take(0));
    while i < a.len() && i < b.len() && a[i] == b[i]
        invariant
            i <= a@.len(),
            i <= b@.len(),
            a@.take(i as int) == b@.take(i as int),
            text_lt(a@, b@) == text_lt(a@.skip(i as int), b@.skip(i as int)),
        decreases a@.len() - i,
    {
        proof {
            assert(a@.skip(i as int).drop_first() =~= a@.skip(i + 1));
            assert(b@.skip(i as int).drop_first() =~= b@.skip(i + 1));
            assert(a@.take(i + 1) =~= a@.take(i as int).push(a@[i as int]));
            assert(b@.take(i + 1) =~= b@.take(i as int).push(b@[i as int]));
        }
        i = i + 1;
    }
    proof {
        assert(a@.skip(0) =~= a@);
        assert(b@.skip(0) =~= b@);
    }
    if i == a.len() {
        i < b.len()
    } else if i == b.len() {
        false
    } else {
        proof {
            assert(a@.skip(i as int)[0] == a@[i as int]);
            assert(b@.skip(i as int)[0] == b@[i as int]);
        }
        a[i] < b[i]
    }
}

// ---------------------------------------------------------------------------
// Cleaning up numbers
// ---------------------------------------------------------------------------

/// Strictly increasing in text order: sorted, without repeats.
pub open spec fn strictly_sorted(s: Seq<Seq<char>>) -> bool {
    forall|i: int, j: int| 0 <= i < j < s.len() ==> text_lt(#[trigger] s[i], #[trigger] s[j])
}

/// A value that is not blank.
pub open spec fn not_blank(s: Seq<char>) -> bool {
    trim(s).len() > 0
}

/// The numbers without blanks and repeats, in text order.
pub open spec fn is_sanitized(input: Seq<Seq<char>>, r: Seq<Seq<char>>) -> bool {
    &&& strictly_sorted(r)
    &&& forall|x: Seq<char>| #[trigger] r.contains(x) <==> (input.contains(x) && not_blank(x))
}

/// The place of `x` in a strictly sorted `s`: the first element not before it.
fn insert_place(s: &Vec<String>, x: &[char]) -> (r: usize)
    requires
        strictly_sorted(string_views(s@)),
    ensures
        r <= s@.len(),
        forall|k: int| 0 <= k < r ==> text_lt(#[trigger] s@[k]@, x@),
        r < s@.len() ==> !text_lt(s@[r as int]@, x@),
{
    let mut i: usize = 0;
    while i < s.len()
        invariant
            i <= s@.len(),
            forall|k: int| 0 <= k < i ==> text_lt(#[trigger] s@[k]@, x@),
        decreases s@.len() - i,
    {
        let c = chars_of(s[i].as_str());
        if !text_less(c.as_slice(), x) {
            return i;
        }
        i = i + 1;
    }
    i
}

/// Drops blank values and repeats, then sorts.
pub fn dedup_and_sanitize(input: Vec<String>) -> (r: Vec<String>)
    ensures
        is_sanitized(string_views(input@), string_views(r@)),
{
    let mut out: Vec<String> = Vec::new();
    let mut i: usize = 0;
    while i < input.len()
        invariant
            i <= input@.len(),
            strictly_sorted(string_views(out@)),
            forall|x: Seq<char>|
                #[trigger] string_views(out@).contains(x) <==> (string_views(input@.take(
                    i as int,
                )).contains(x) && not_blank(x)),
        decreases input@.len() - i,
    {
        let ghost seen = string_views(input@.take(i as int));
        let ghost seen2 = string_views(input@.take(i + 1));
        proof {
            assert(seen2 =~= seen.push(input@[i as int]@));
        }
        let t = trim_str(input[i].as_str());
        if t.unicode_len() > 0 {
            let x = chars_of(input[i].as_str());
            let p = insert_place(&out, x.as_slice());
            let dup = p < out.len() && crate::text::str_eq(out[p].as_str(), input[i].as_str());
            if !dup {
                let ghost before = string_views(out@);
                out.insert(p, copy_string(&input[i]));
                let ghost after = string_views(out@);
                proof {
                    let v = input@[i as int]@;
                    assert(after =~= before.insert(p as int, v));
                    if p < before.len() {
                        lemma_text_lt_total(before[p as int], v);
                    }
                    assert forall|a: int, b: int| 0 <= a < b < after.len() implies text_lt(
                        #[trigger] after[a],
                        #[trigger] after[b],
                    ) by {
                        if b < p {
                        } else if a < p && b == p {
                        } else if a < p && b > p {
                            assert(text_lt(before[a], v));
                            assert(text_lt(v, before[p as int]));
                            if b - 1 > p {
                                assert(text_lt(before[p as int], before[b - 1]));
                                lemma_text_lt_transitive(v, before[p as int], before[b - 1]);
                            }
                            lemma_text_lt_transitive(before[a], v, before[b - 1]);
                        } else if a == p {
                            if b - 1 > p {
                                assert(text_lt(before[p as int], before[b - 1]));
                                lemma_text_lt_transitive(v, before[p as int], before[b - 1]);
                            }
                        } else {
                            assert(after[a] == before[a - 1] && after[b] == before[b - 1]);
                        }
                    }
                    assert forall|y: Seq<char>| #[trigger] after.contains(y) <==> (seen2.contains(y)
                        && not_blank(y)) by {
                        if after.contains(y) {
                            let k = choose|k: int| 0 <= k < after.len() && after[k] == y;
                            if k < p {
                                assert(before[k] == y);
                            } else if k > p {
                                assert(before[k - 1] == y);
                            }
                            if y != v {
                                assert(before.contains(y));
                                let w = choose|w: int| 0 <= w < seen.len() && seen[w] == y;
                                assert(seen2[w] == y);
                            } else {
                                assert(seen2[i as int] == y);
                            }
                        }
                        if seen2.contains(y) && not_blank(y) {
                            if y == v {
                                assert(after[p as int] == y);
                            } else {
                                let w = choose|w: int| 0 <= w < seen2.len() && seen2[w] == y;
                                assert(seen[w] == y);
                                assert(before.contains(y));
                                let k = choose|k: int| 0 <= k < before.len() && before[k] == y;
                                if k < p {
                                    assert(after[k] == y);
                                } else {
                                    assert(after[k + 1] == y);
                                }
                            }
                        }
                    }
                }
            } else {
                proof {
                    let v = input@[i as int]@;
                    let o = string_views(out@);
                    assert(o[p as int] == v);
                    assert forall|y: Seq<char>| #[trigger] o.contains(y) <==> (seen2.contains(y)
                        && not_blank(y)) by {
                        if o.contains(y) {
                            let w = choose|w: int| 0 <= w < seen.len() && seen[w] == y;
                            assert(seen2[w] == y);
                        }
                        if seen2.contains(y) && not_blank(y) {
                            let w = choose|w: int| 0 <= w < seen2.len() && seen2[w] == y;
                            if w < i {
                                assert(seen[w] == y);
                            }
                        }
                    }
                }
            }
        } else {
            proof {
                let v = input@[i as int]@;
                let o = string_views(out@);
                assert(!not_blank(v));
                assert forall|y: Seq<char>| #[trigger] o.contains(y) <==> (seen2.contains(y)
                    && not_blank(y)) by {
                    if o.contains(y) {
                        let w = choose|w: int| 0 <= w < seen.len() && seen[w] == y;
                        assert(seen2[w] == y);
                    }
                    if seen2.contains(y) && not_blank(y) {
                        let w = choose|w: int| 0 <= w < seen2.len() && seen2[w] == y;
                        if w < i {
                            assert(seen[w] == y);
                        }
                    }
                }
            }
        }
        i = i + 1;
    }
    assert(input@.take(input@.len() as int) =~= input@);
    out
}

/// Two strictly sorted lists with the same elements are the same list.
pub proof fn lemma_sorted_unique(a: Seq<Seq<char>>, b: Seq<Seq<char>>)
    requires
        strictly_sorted(a),
        strictly_sorted(b),
        forall|x: Seq<char>| a.contains(x) <==> b.contains(x),
    ensures
        a == b,
    decreases a.len(),
{
    if a.len() == 0 {
        if b.len() > 0 {
            assert(b.contains(b[0]));
        }
        assert(a =~= b);
    } else if b.len() == 0 {
        assert(a.contains(a[0]));
    } else {
        // The smallest elements agree.
        assert(a.contains(a[0]));
        assert(b.contains(b[0]));
        let ka = choose|k: int| 0 <= k < b.len() && b[k] == a[0];
        let kb = choose|k: int| 0 <= k < a.len() && a[k] == b[0];
        if ka > 0 {
            assert(text_lt(b[0], b[ka]));
            if kb > 0 {
                assert(text_lt(a[0], a[kb]));
                lemma_text_lt_asymmetric(a[0], b[0]);
            } else {
                lemma_text_lt_irreflexive(a[0]);
            }
        }
        assert(a[0] == b[0]);
        let ta = a.drop_first();
        let tb = b.drop_first();
        assert forall|x: Seq<char>| ta.contains(x) <==> tb.contains(x) by {
            if ta.contains(x) {
                let k = choose|k: int| 0 <= k < ta.len() && ta[k] == x;
                assert(a[k + 1] == x);
                assert(text_lt(a[0], x));
                assert(b.contains(x));
                let m = choose|m: int| 0 <= m < b.len() && b[m] == x;
                if m == 0 {
                    lemma_text_lt_irreflexive(x);
                }
                assert(tb[m - 1] == x);
            }
            if tb.contains(x) {
                let k = choose|k: int| 0 <= k < tb.len() && tb[k] == x;
                assert(b[k + 1] == x);
                assert(text_lt(b[0], x));
                assert(a.contains(x));
                let m = choose|m: int| 0 <= m < a.len() && a[m] == x;
                if m == 0 {
                    lemma_text_lt_irreflexive(x);
                }
                assert(ta[m - 1] == x);
            }
        }
        assert(strictly_sorted(ta)) by {
            assert forall|i: int, j: int| 0 <= i < j < ta.len() implies text_lt(
                #[trigger] ta[i],
                #[trigger] ta[j],
            ) by {
                assert(ta[i] == a[i + 1] && ta[j] == a[j + 1]);
            }
        }
        assert(strictly_sorted(tb)) by {
            assert forall|i: int, j: int| 0 <= i < j < tb.len() implies text_lt(
                #[trigger] tb[i],
                #[trigger] tb[j],
            ) by {
                assert(tb[i] == b[i + 1] && tb[j] == b[j + 1]);
            }
        }
        lemma_sorted_unique(ta, tb);
        assert(a =~= seq![a[0]] + ta);
        assert(b =~= seq![b[0]] + tb);
    }
}

/// Cleaning numbers twice gives what cleaning once gives.
pub proof fn lemma_sanitize_idempotent(input: Seq<Seq<char>>, once: Seq<Seq<char>>, twice: Seq<Seq<char>>)
    requires
        is_sanitized(input, once),
        is_sanitized(once, twice),
    ensures
        twice == once,
{
    assert forall|x: Seq<char>| twice.contains(x) <==> once.contains(x) by {
        if once.contains(x) {
            assert(input.contains(x) && not_blank(x));
        }
    }
    lemma_sorted_unique(twice, once);
}

// ---------------------------------------------------------------------------
// Reading a column
// ---------------------------------------------------------------------------

/// The first column of a CSV header line whose trimmed text is `header`.
pub open spec fn csv_header_from(cols: Seq<Seq<char>>, header: Seq<char>, j: nat) -> Option<nat>
    decreases cols.len() - j,
{
    if j >= cols.len() {
        None
    } else if trim(cols[j as int]) == header {
        Some(j)
    } else {
        csv_header_from(cols, header, j + 1)
    }
}

/// The trimmed non-empty values of column `idx` in `rows`.
pub open spec fn csv_values_of(rows: Seq<Seq<char>>, idx: nat) -> Seq<Seq<char>>
    decreases rows.len(),
{
    if rows.len() == 0 {
        Seq::empty()
    } else {
        let prev = csv_values_of(rows.drop_last(), idx);
        let cols = split_char(rows.last(), ',');
        if idx < cols.len() && trim(cols[idx as int]).len() > 0 {
            prev.push(trim(cols[idx as int]))
        } else {
            prev
        }
    }
}

/// The column `header` of a comma-separated text with its header on the first
/// line; nothing when no column has that header.
pub open spec fn csv_column(content: Seq<char>, header: Seq<char>) -> Seq<Seq<char>> {
    let ls = text_lines(content);
    if ls.len() == 0 {
        Seq::empty()
    } else {
        match csv_header_from(split_char(ls[0], ','), header, 0) {
            Some(idx) => csv_values_of(ls.drop_first(), idx),
            None => Seq::empty(),
        }
    }
}

/// Reads the column `header` of a comma-separated text.
pub fn read_csv_column(content: &str, header: &str) -> (r: Vec<String>)
    ensures
        string_views(r@) == csv_column(content@, header@),
{
    let lines = lines_of(content);
    let ghost ls = text_lines(content@);
    if lines.len() == 0 {
        return Vec::new();
    }
    let hv = chars_of(lines[0].as_str());
    let cols = split_chars(hv.as_slice(), ',');
    proof {
        assert(ls[0] == lines@[0]@);
    }
    let ghost cv = split_char(ls[0], ',');
    let mut j: usize = 0;
    let mut idx: Option<usize> = None;
    while j < cols.len()
        invariant_except_break
            idx is None,
        invariant
            cols@.len() == cv.len(),
            forall|k: int| 0 <= k < cols@.len() ==> #[trigger] cols@[k]@ == cv[k],
            j <= cols@.len(),
            csv_header_from(cv, header@, 0) == csv_header_from(cv, header@, j as nat),
        ensures
            idx matches Some(k) ==> csv_header_from(cv, header@, 0) == Some(k as nat),
            idx is None ==> csv_header_from(cv, header@, 0) is None,
        decreases cols@.len() - j,
    {
        let t = trim_chars(cols[j].as_slice());
        let hc = chars_of(header);
        if crate::text::chars_eq(t.as_slice(), hc.as_slice()) {
            idx = Some(j);
            break;
        }
        j = j + 1;
    }
    let idx = match idx {
        Some(k) => k,
        None => {
            return Vec::new();
        },
    };
    let ghost rows = ls.drop_first();
    let mut out: Vec<String> = Vec::new();
    let mut i: usize = 1;
    while i < lines.len()
        invariant
            string_views(lines@) == ls,
            ls.len() > 0,
            rows == ls.drop_first(),
            1 <= i <= lines@.len(),
            string_views(out@) == csv_values_of(rows.take(i - 1), idx as nat),
        decreases lines@.len() - i,
    {
        proof {
            let t = rows.take(i as int);
            assert(t.drop_last() =~= rows.take(i - 1));
            assert(t.last() == lines@[i as int]@);
        }
        let lv = chars_of(lines[i].as_str());
        let cs = split_chars(lv.as_slice(), ',');
        if idx < cs.len() {
            let v = trim_chars(cs[idx].as_slice());
            if v.len() > 0 {
                let ghost prev = string_views(out@);
                out.push(string_of(v.as_slice()));
                assert(string_views(out@) =~= prev.push(v@));
            }
        }
        i = i + 1;
    }
    assert(rows.take(lines@.len() - 1) =~= rows);
    out
}

/// How a source file is read, by its extension.
#[derive(Debug, Clone, Copy, PartialEq, Eq, Structural)]
pub enum SourceKind {
    /// Comma-separated, header on the first row.
    Csv,
    /// Tab-delimited text (`tsv`, `txt`, `rtf`, `html`).
    Tab,
    /// An Excel workbook (`xlsx`, `xls`), first sheet.
    Excel,
    /// Any other extension: nothing is read.
    Unsupported,
}

/// The reader for an extension, compared up to ASCII case.
pub open spec fn kind_for(ext: Seq<char>) -> SourceKind {
    if eq_ignore_ascii_case(ext, "csv"@) {
        SourceKind::Csv
    } else if eq_ignore_ascii_case(ext, "tsv"@) || eq_ignore_ascii_case(ext, "txt"@)
        || eq_ignore_ascii_case(ext, "rtf"@) || eq_ignore_ascii_case(ext, "html"@) {
        SourceKind::Tab
    } else if eq_ignore_ascii_case(ext, "xlsx"@) || eq_ignore_ascii_case(ext, "xls"@) {
        SourceKind::Excel
    } else {
        SourceKind::Unsupported
    }
}

/// How a file with extension `ext` (any ASCII case) is read; `None` counts
/// as no extension.
pub fn source_kind(ext: Option<&str>) -> (r: SourceKind)
    ensures
        r == match ext {
            Some(e) => kind_for(e@),
            None => kind_for(Seq::empty()),
        },
{
    let e: &str = match ext {
        Some(e) => e,
        None => "",
    };
    proof {
        reveal_strlit("");
    }
    if eq_ignore_ascii_case_exec(e, "csv") {
        SourceKind::Csv
    } else if eq_ignore_ascii_case_exec(e, "tsv") || eq_ignore_ascii_case_exec(e, "txt")
        || eq_ignore_ascii_case_exec(e, "rtf") || eq_ignore_ascii_case_exec(e, "html") {
        SourceKind::Tab
    } else if eq_ignore_ascii_case_exec(e, "xlsx") || eq_ignore_ascii_case_exec(e, "xls") {
        SourceKind::Excel
    } else {
        SourceKind::Unsupported
    }
}

/// `k` is the position of the last `.` of `s`.
pub open spec fn is_final_dot(s: Seq<char>, k: int) -> bool {
    0 <= k < s.len() && s[k] == '.' && forall|j: int| k < j < s.len() ==> s[j] != '.'
}

/// A path of one component: no separator of any platform (`/`, `\`) and
/// no drive prefix (`:`).
pub open spec fn single_component(path: Seq<char>) -> bool {
    !has_char(path, '/') && !has_char(path, '\\') && !has_char(path, ':')
}

/// The extension of a file name as `Path::extension` documents it: what
/// follows the final `.`; none without a `.`, for `..` (no file name), or
/// when the name begins with its only `.`.
pub open spec fn name_extension(name: Seq<char>) -> Option<Seq<char>> {
    if name == seq!['.', '.'] || !has_char(name, '.') {
        None
    } else {
        let k = choose|k: int| is_final_dot(name, k);
        if k == 0 {
            None
        } else {
            Some(name.subrange(k + 1, name.len() as int))
        }
    }
}

/// Calls `std::path::Path::extension` and keeps it when it is UTF-8. As its
/// documentation says, an extension is what follows the final `.` of the
/// file name, a part of `path`: it holds no `.`, and `path` holds it behind a
/// `.`. For a path of one component the file name is the path itself, so the
/// extension is `name_extension(path)`; which part of any other path is the
/// file name depends on the platform's separators and is not stated.
#[verifier::external_body]
fn path_extension(path: &str) -> (r: Option<String>)
    ensures
        r matches Some(e) ==> !has_char(e@, '.') && contains(path@, "."@ + e@),
        single_component(path@) ==> crate::cli_overrides::opt_view(r) == name_extension(path@),
{
    std::path::Path::new(path).extension().and_then(|s| s.to_str()).map(|s| s.to_string())
}

/// The extension of `name_extension`, empty when there is none.
pub open spec fn ext_or_empty(e: Option<Seq<char>>) -> Seq<char> {
    match e {
        Some(x) => x,
        None => Seq::empty(),
    }
}

/// How the file at `path` is read, by its extension: the reader of some text
/// without a `.` that `path` holds behind a `.` (or of no extension); a path
/// without any `.` has no reader; for a path of one component, the reader of
/// what follows its final `.` (see `name_extension`).
pub fn source_kind_of(path: &str) -> (r: SourceKind)
    ensures
        exists|e: Seq<char>|
            !has_char(e, '.') && (e.len() == 0 || contains(path@, "."@ + e)) && r == kind_for(e),
        !has_char(path@, '.') ==> r == SourceKind::Unsupported,
        single_component(path@) ==> r == kind_for(ext_or_empty(name_extension(path@))),
{
    let ext = path_extension(path);
    proof {
        reveal_strlit(".");
    }
    match ext {
        Some(e) => {
            proof {
                let i = choose|i: int| occurs_at(path@, "."@ + e@, i);
                assert(("."@ + e@)[0] == '.');
                assert(path@[i] == '.');
            }
            source_kind(Some(e.as_str()))
        },
        None => {
            proof {
                assert(!has_char(Seq::<char>::empty(), '.'));
                reveal_strlit("csv");
                reveal_strlit("tsv");
                reveal_strlit("txt");
                reveal_strlit("rtf");
                reveal_strlit("html");
                reveal_strlit("xlsx");
                reveal_strlit("xls");
            }
            source_kind(None)
        },
    }
}

// ---------------------------------------------------------------------------
// Which source to read
// ---------------------------------------------------------------------------

/// A file named on the command line and the column to read from it.
pub struct SourceRequest {
    pub file: String,
    pub column: String,
}

/// The delivery source: `--delivery-file`, with `--delivery-col` or `Delivery`.
pub fn delivery_source(o: &CliOverrides) -> (r: Option<SourceRequest>)
    ensures
        match r {
            Some(q) => o@.delivery_file == Some(q.file@) && q.column@ == match o@.delivery_col {
                Some(c) => c,
                None => "Delivery"@,
            },
            None => o@.delivery_file is None,
        },
{
    match &o.delivery_file {
        Some(f) => Some(
            SourceRequest {
                file: copy_string(f),
                column: match &o.delivery_col {
                    Some(c) => copy_string(c),
                    None => owned("Delivery"),
                },
            },
        ),
        None => None,
    }
}

/// The shipment source: `--shipment-file`, with `--shipment-col` or `Shipment Number`.
pub fn shipment_source(o: &CliOverrides) -> (r: Option<SourceRequest>)
    ensures
        match r {
            Some(q) => o@.shipment_file == Some(q.file@) && q.column@ == match o@.shipment_col {
                Some(c) => c,
                None => "Shipment Number"@,
            },
            None => o@.shipment_file is None,
        },
{
    match &o.shipment_file {
        Some(f) => Some(
            SourceRequest {
                file: copy_string(f),
                column: match &o.shipment_col {
                    Some(c) => copy_string(c),
                    None => owned("Shipment Number"),
                },
            },
        ),
        None => None,
    }
}

/// Where a source value points.
pub enum SourceLocation {
    /// A path, used as it is.
    File(String),
    /// A slug: the newest usable file of this reports sub-directory.
    Directory(String),
}

/// A value with `\`, `/` or `.` is a path; any other is a slug naming
/// `<reports_dir>\<slug in lower case>`.
pub fn source_location(value: &str, reports_dir: &str) -> (r: SourceLocation)
    ensures
        match r {
            SourceLocation::File(p) => is_path_like(value@) && p@ == value@,
            SourceLocation::Directory(d) => !is_path_like(value@) && d@ == reports_dir@ + "\\"@
                + lowercase(value@),
        },
{
    if CliOverrides::looks_like_path(value) {
        SourceLocation::File(owned(value))
    } else {
        let mut out = chars_of(reports_dir);
        append_str(&mut out, "\\");
        let l = to_lowercase(value);
        append_str(&mut out, l.as_str());
        SourceLocation::Directory(string_of(out.as_slice()))
    }
}

/// A directory entry as the source lookup sees it.
pub struct SourceEntry {
    pub name: String,
    pub is_file: bool,
    /// Modification time (nanoseconds since the epoch), where known.
    pub modified: Option<u128>,
}

/// An entry that may be read: a file, not marked consumed (`_.csv`), with a
/// known modification time.
pub open spec fn usable(e: SourceEntry) -> bool {
    e.is_file && !ends_with(e.name@, "_.csv"@) && e.modified is Some
}

/// The newest usable entry; of equally new ones, the first.
pub fn newest_source(entries: &Vec<SourceEntry>) -> (r: Option<usize>)
    ensures
        match r {
            Some(i) => i < entries@.len() && usable(entries@[i as int]) && (forall|j: int|
                0 <= j < entries@.len() && usable(#[trigger] entries@[j]) ==> entries@[j].modified->Some_0
                    <= entries@[i as int].modified->Some_0) && (forall|j: int|
                0 <= j < i && usable(#[trigger] entries@[j]) ==> entries@[j].modified->Some_0
                    < entries@[i as int].modified->Some_0),
            None => forall|j: int| 0 <= j < entries@.len() ==> !usable(#[trigger] entries@[j]),
        },
{
    let mut best: Option<usize> = None;
    let mut i: usize = 0;
    while i < entries.len()
        invariant
            i <= entries@.len(),
            match best {
                Some(b) => b < i && usable(entries@[b as int]) && (forall|j: int|
                    0 <= j < i && usable(#[trigger] entries@[j]) ==> entries@[j].modified->Some_0
                        <= entries@[b as int].modified->Some_0) && (forall|j: int|
                    0 <= j < b && usable(#[trigger] entries@[j]) ==> entries@[j].modified->Some_0
                        < entries@[b as int].modified->Some_0),
                None => forall|j: int| 0 <= j < i ==> !usable(#[trigger] entries@[j]),
            },
        decreases entries@.len() - i,
    {
        let e = &entries[i];
        if e.is_file && !str_ends_with(e.name.as_str(), "_.csv") {
            match e.modified {
                Some(t) => {
                    let newer = match best {
                        Some(b) => match entries[b].modified {
                            Some(bt) => t > bt,
                            None => true,
                        },
                        None => true,
                    };
                    if newer {
                        best = Some(i);
                    }
                },
                None => {},
            }
        }
        i = i + 1;
    }
    best
}

/// The delivery numbers of a comma-separated delivery file given on the
/// command line: the values of its column `header`, without blanks and
/// repeats, sorted.
pub fn cli_delivery_numbers(content: &str, header: &str) -> (r: Vec<String>)
    ensures
        is_sanitized(csv_column(content@, header@), string_views(r@)),
{
    dedup_and_sanitize(read_csv_column(content, header))
}

/// The numbers without blanks and repeats, in text order: the one list
/// that [`is_sanitized`] describes.
pub open spec fn sanitized(input: Seq<Seq<char>>) -> Seq<Seq<char>> {
    choose|r: Seq<Seq<char>>| is_sanitized(input, r)
}

/// A cleaned list is the cleaned list.
pub proof fn lemma_sanitized_is(input: Seq<Seq<char>>, r: Seq<Seq<char>>)
    requires
        is_sanitized(input, r),
    ensures
        sanitized(input) == r,
{
    let c = sanitized(input);
    assert(is_sanitized(input, c));
    assert forall|x: Seq<char>| c.contains(x) <==> r.contains(x) by {
        assert(c.contains(x) <==> (input.contains(x) && not_blank(x)));
        assert(r.contains(x) <==> (input.contains(x) && not_blank(x)));
    }
    lemma_sorted_unique(c, r);
}

} // verus!
