//! Exported report files: their extension, the export dialog's radio button,
//! their names, and reading back the files earlier runs left.
use crate::sources::{dedup_and_sanitize, is_sanitized};
use crate::text::{
    append_str, chars_of, copy_string, decimal, eq_ignore_ascii_case, eq_ignore_ascii_case_exec,
    ends_with, lines_of, owned, split_char, split_chars, str_ends_with, string_of, string_views,
    sub_chars, text_lines, trim, trim_chars,
};
use vstd::prelude::*;

verus! {

/// The file extension of an export type: 0 and 1 `txt`, 2 `rtf`, 3 `html`,
/// 4 (clipboard) none, any other `txt`.
pub open spec fn extension_of(export_type: u8) -> Seq<char> {
    if export_type == 2 {
        "rtf"@
    } else if export_type == 3 {
        "html"@
    } else if export_type == 4 {
        Seq::empty()
    } else {
        "txt"@
    }
}

/// The file extension of an export type.
pub fn export_type_to_extension(export_type: u8) -> (r: &'static str)
    ensures
        r@ == extension_of(export_type),
{
    proof {
        reveal_strlit("");
    }
    match export_type {
        0 | 1 => "txt",
        2 => "rtf",
        3 => "html",
        4 => "",
        _ => "txt",
    }
}

/// The radio button of the "save list in file" dialog for an export type,
/// text with tabs for an unknown one.
pub open spec fn radio_id_of(export_type: u8) -> Seq<char> {
    let idx: nat = if export_type <= 4 { export_type as nat } else { 1 };
    "wnd[1]/usr/subSUBSCREEN_STEPLOOP:SAPLSPO5:0150/sub:SAPLSPO5:0150/radSPOPLI-SELFLAG["@
        + decimal(idx) + ",0]"@
}

pub fn export_radio_id(export_type: u8) -> (r: String)
    ensures
        r@ == radio_id_of(export_type),
{
    let idx: u64 = if export_type <= 4 {
        export_type as u64
    } else {
        1
    };
    let mut out = chars_of(
        "wnd[1]/usr/subSUBSCREEN_STEPLOOP:SAPLSPO5:0150/sub:SAPLSPO5:0150/radSPOPLI-SELFLAG[",
    );
    let d = crate::text::decimal_chars(idx);
    crate::text::append_chars(&mut out, d.as_slice());
    append_str(&mut out, ",0]");
    string_of(out.as_slice())
}

/// The name of an export file: the base name, with `-<suffix>` put before
/// the extension when there is a suffix.
pub open spec fn export_name(base: Seq<char>, ext: Seq<char>, suffix: Option<Seq<char>>) -> Seq<char> {
    match suffix {
        None => base,
        Some(s) => if ext.len() == 0 {
            base + "-"@ + s
        } else if ends_with(base, "."@ + ext) {
            base.subrange(0, base.len() - ext.len() - 1) + "-"@ + s + "."@ + ext
        } else {
            base + "-"@ + s + "."@ + ext
        },
    }
}

pub fn export_file_name(base: &str, ext: &str, suffix: Option<&str>) -> (r: String)
    ensures
        r@ == export_name(
            base@,
            ext@,
            match suffix {
                Some(s) => Some(s@),
                None => None,
            },
        ),
{
    match suffix {
        None => owned(base),
        Some(s) => {
            if ext.unicode_len() == 0 {
                let mut out = chars_of(base);
                append_str(&mut out, "-");
                append_str(&mut out, s);
                string_of(out.as_slice())
            } else {
                let mut dot_ext = chars_of(".");
                append_str(&mut dot_ext, ext);
                let de = string_of(dot_ext.as_slice());
                proof {
                    reveal_strlit(".");
                    assert(de@ =~= "."@ + ext@);
                }
                let b = chars_of(base);
                let mut out = if str_ends_with(base, de.as_str()) {
                    sub_chars(b.as_slice(), 0, b.len() - de.unicode_len())
                } else {
                    b
                };
                proof {
                    if ends_with(base@, "."@ + ext@) {
                        assert(de@.len() == ext@.len() + 1);
                    }
                }
                append_str(&mut out, "-");
                append_str(&mut out, s);
                append_str(&mut out, ".");
                append_str(&mut out, ext);
                string_of(out.as_slice())
            }
        },
    }
}

/// The extension of ZMDESNR exports to look for, by its effective export
/// type: `xlsx` when it exports to the clipboard, `txt` when unknown.
pub open spec fn zmdesnr_ext_of(export_type: Option<u8>) -> Seq<char> {
    match export_type {
        Some(2) => "rtf"@,
        Some(3) => "html"@,
        Some(4) => "xlsx"@,
        _ => "txt"@,
    }
}

pub fn zmdesnr_extension(export_type: Option<u8>) -> (r: &'static str)
    ensures
        r@ == zmdesnr_ext_of(export_type),
{
    match export_type {
        Some(2) => "rtf",
        Some(3) => "html",
        Some(4) => "xlsx",
        _ => "txt",
    }
}

/// The headers tried, in order, for the delivery column of a ZMDESNR export.
pub fn delivery_header_candidates() -> (r: Vec<&'static str>)
    ensures
        r@.len() == 4,
        r@[0]@ == "Delivery"@,
        r@[1]@ == "delivery"@,
        r@[2]@ == "delivery number"@,
        r@[3]@ == "delivery_number"@,
{
    vec!["Delivery", "delivery", "delivery number", "delivery_number"]
}

/// `s` without the `"`s at either end.
pub open spec fn strip_quotes(s: Seq<char>) -> Seq<char>
    decreases s.len(),
{
    if s.len() > 0 && s[0] == '"' {
        strip_quotes(s.drop_first())
    } else if s.len() > 0 && s.last() == '"' {
        strip_quotes(s.drop_last())
    } else {
        s
    }
}

/// The deliveries of a VT11 ListCheck CSV: the second column of each line
/// after the header, trimmed and unquoted, blanks left out.
pub open spec fn listcheck_values(rows: Seq<Seq<char>>) -> Seq<Seq<char>>
    decreases rows.len(),
{
    if rows.len() == 0 {
        Seq::empty()
    } else {
        let prev = listcheck_values(rows.drop_last());
        let cols = split_char(rows.last(), ',');
        if cols.len() > 1 && strip_quotes(trim(cols[1])).len() > 0 {
            prev.push(strip_quotes(trim(cols[1])))
        } else {
            prev
        }
    }
}

pub open spec fn listcheck_deliveries_of(content: Seq<char>) -> Seq<Seq<char>> {
    let ls = text_lines(content);
    if ls.len() == 0 {
        Seq::empty()
    } else {
        listcheck_values(ls.drop_first())
    }
}

fn unquote(s: &[char]) -> (r: Vec<char>)
    ensures
        r@ == strip_quotes(s@),
{
    let mut a: usize = 0;
    let mut b: usize = s.len();
    assert(s@.subrange(0, s@.len() as int) =~= s@);
    while a < b && (s[a] == '"' || s[b - 1] == '"')
        invariant
            a <= b <= s@.len(),
            strip_quotes(s@) == strip_quotes(s@.subrange(a as int, b as int)),
        decreases b - a,
    {
        proof {
            let t = s@.subrange(a as int, b as int);
            assert(t.drop_first() =~= s@.subrange(a + 1, b as int));
            assert(t.drop_last() =~= s@.subrange(a as int, b - 1));
        }
        if s[a] == '"' {
            a = a + 1;
        } else {
            b = b - 1;
        }
    }
    sub_chars(s, a, b)
}

/// Reads the deliveries of a VT11 ListCheck CSV.
pub fn listcheck_deliveries(content: &str) -> (r: Vec<String>)
    ensures
        string_views(r@) == listcheck_deliveries_of(content@),
{
    let lines = lines_of(content);
    let ghost ls = text_lines(content@);
    if lines.len() == 0 {
        return Vec::new();
    }
    let ghost rows = ls.drop_first();
    let mut out: Vec<String> = Vec::new();
    let mut i: usize = 1;
    while i < lines.len()
        invariant
            string_views(lines@) == ls,
            ls.len() > 0,
            rows == ls.drop_first(),
            1 <= i <= lines@.len(),
            string_views(out@) == listcheck_values(rows.take(i - 1)),
        decreases lines@.len() - i,
    {
        proof {
            let t = rows.take(i as int);
            assert(t.drop_last() =~= rows.take(i - 1));
            assert(t.last() == lines@[i as int]@);
        }
        let lv = chars_of(lines[i].as_str());
        let cs = split_chars(lv.as_slice(), ',');
        if cs.len() > 1 {
            let t = trim_chars(cs[1].as_slice());
            let v = unquote(t.as_slice());
            if v.len() > 0 {
                let ghost prev = string_views(out@);
                out.push(string_of(v.as_slice()));
                assert(string_views(out@) =~= prev.push(v@));
            }
        }
        i = i + 1;
    }
    assert(rows.take(lines@.len() - 1) =~= rows);
    out
}

/// The position of the last `.` in `s`.
pub open spec fn is_last_dot(s: Seq<char>, k: int) -> bool {
    0 <= k < s.len() && s[k] == '.' && forall|j: int| k < j < s.len() ==> s[j] != '.'
}

/// The name that marks a ListCheck CSV as used: `<name>_.csv` for `<name>.csv`
/// (the extension in any case); `None` for another extension.
pub open spec fn consumed_name_of(path: Seq<char>) -> Option<Seq<char>> {
    if exists|k: int| is_last_dot(path, k) {
        let k = choose|k: int| is_last_dot(path, k);
        if eq_ignore_ascii_case(path.subrange(k, path.len() as int), ".csv"@) {
            Some(path.subrange(0, k) + "_.csv"@)
        } else {
            None
        }
    } else {
        None
    }
}

pub fn consumed_name(path: &str) -> (r: Option<String>)
    ensures
        match r {
            Some(n) => consumed_name_of(path@) == Some(n@),
            None => consumed_name_of(path@) is None,
        },
{
    let v = chars_of(path);
    let mut k: usize = v.len();
    while k > 0 && v[k - 1] != '.'
        invariant
            v@ == path@,
            k <= v@.len(),
            forall|j: int| k <= j < v@.len() ==> v@[j] != '.',
        decreases k,
    {
        k = k - 1;
    }
    if k == 0 {
        proof {
            assert forall|j: int| !is_last_dot(path@, j) by {
                if 0 <= j < v@.len() {
                    assert(v@[j] != '.');
                }
            }
        }
        return None;
    }
    let dot = k - 1;
    proof {
        assert(is_last_dot(path@, dot as int));
        let c = choose|c: int| is_last_dot(path@, c);
        if c < dot {
            assert(path@[dot as int] != '.');
        }
        if c > dot {
            assert(path@[c] != '.');
        }
    }
    let suffix = sub_chars(v.as_slice(), dot, v.len());
    let ss = string_of(suffix.as_slice());
    if eq_ignore_ascii_case_exec(ss.as_str(), ".csv") {
        let mut out = sub_chars(v.as_slice(), 0, dot);
        append_str(&mut out, "_.csv");
        Some(string_of(out.as_slice()))
    } else {
        None
    }
}

fn append_copies(out: &mut Vec<String>, v: &Vec<String>)
    ensures
        string_views(final(out)@) == string_views(old(out)@) + string_views(v@),
{
    let ghost start = string_views(out@);
    let mut i: usize = 0;
    while i < v.len()
        invariant
            i <= v@.len(),
            string_views(out@) == start + string_views(v@.take(i as int)),
        decreases v@.len() - i,
    {
        let ghost prev = string_views(out@);
        out.push(copy_string(&v[i]));
        proof {
            assert(string_views(v@.take(i + 1)) =~= string_views(v@.take(i as int)).push(v@[i as int]@));
            assert(string_views(out@) =~= prev.push(v@[i as int]@));
        }
        i = i + 1;
    }
    assert(v@.take(v@.len() as int) =~= v@);
}

/// The deliveries of a ZMDESNR export and of a ListCheck CSV together,
/// without blanks and repeats, in order.
pub fn merge_deliveries(zmdesnr: &Vec<String>, listcheck: &Vec<String>) -> (r: Vec<String>)
    ensures
        is_sanitized(string_views(zmdesnr@) + string_views(listcheck@), string_views(r@)),
{
    let mut all: Vec<String> = Vec::new();
    append_copies(&mut all, zmdesnr);
    append_copies(&mut all, listcheck);
    assert(string_views(Seq::<String>::empty()) =~= Seq::<Seq<char>>::empty());
    dedup_and_sanitize(all)
}

} // verus!
