//! Reading a configuration: the merged settings of one transaction, the
//! effective export type, and date handling.
use crate::assoc::{assoc_get, assoc_insert, keys_of, StrMap};
use crate::cli_overrides::opt_view;
use crate::config_ops::{first_match, has_match, is_first_match};
use crate::config_types::{SapConfig, SapConfigView, TcodeConfig, TcodeMap, TcodeView};
use crate::date::{format_date_as, formatted_date, Date, DateStyle};
use crate::text::{
    chars_of, contains, decimal, digit_char, eq_ignore_ascii_case, eq_ignore_ascii_case_exec, join,
    join_strings, lowercase, owned, parse_u8, parse_u8_spec, starts_with, str_contains, str_eq,
    string_views, sub_chars, to_lowercase, u64_to_string,
};
use vstd::prelude::*;

verus! {

/// A lower-case hexadecimal digit.
pub open spec fn hex_digit(n: nat) -> char {
    if n < 10 {
        digit_char(n)
    } else {
        ((n - 10 + 97) as u32) as char
    }
}

/// A character as a JSON string writes it: the quote, the backslash and the
/// control characters escaped, every other character as it is.
pub open spec fn json_char(c: char) -> Seq<char> {
    if c == '"' {
        seq!['\\', '"']
    } else if c == '\\' {
        seq!['\\', '\\']
    } else if c == '\u{8}' {
        seq!['\\', 'b']
    } else if c == '\t' {
        seq!['\\', 't']
    } else if c == '\n' {
        seq!['\\', 'n']
    } else if c == '\u{c}' {
        seq!['\\', 'f']
    } else if c == '\r' {
        seq!['\\', 'r']
    } else if (c as u32) < 0x20 {
        seq!['\\', 'u', '0', '0', hex_digit((c as u32 / 16) as nat), hex_digit((c as u32 % 16) as nat)]
    } else {
        seq![c]
    }
}

/// The characters of `s` as a JSON string writes them.
pub open spec fn json_chars(s: Seq<char>) -> Seq<char>
    decreases s.len(),
{
    if s.len() == 0 {
        Seq::empty()
    } else {
        json_chars(s.drop_last()) + json_char(s.last())
    }
}

/// A list of strings as JSON: `[`, each string quoted and escaped,
/// separated by commas, `]`.
pub open spec fn json_list(items: Seq<Seq<char>>) -> Seq<char> {
    "["@ + join(items.map_values(|s: Seq<char>| "\""@ + json_chars(s) + "\""@), ","@) + "]"@
}

/// Calls `serde_json::to_string` on a list of strings. The contract claims
/// the text that serde_json's compact formatter writes for it: `[`, the
/// strings quoted, with `"`, `\` and the control characters escaped
/// (`\b`, `\t`, `\n`, `\f`, `\r`, else `\u00` and two lower-case hex
/// digits), separated by `,`, then `]`. As the crate documents, serializing
/// fails only where a `Serialize` impl decides to fail or a map has
/// non-string keys, neither of which a list of strings has.
#[verifier::external_body]
fn to_json_list(items: &Vec<String>) -> (r: String)
    ensures
        r@ == json_list(string_views(items@)),
{
    serde_json::to_string(items).unwrap_or_default()
}

// ---------------------------------------------------------------------------
// Specification of the merged settings of a transaction
// ---------------------------------------------------------------------------

pub open spec fn ins_opt(
    m: Seq<(Seq<char>, Seq<char>)>,
    k: Seq<char>,
    v: Option<Seq<char>>,
) -> Seq<(Seq<char>, Seq<char>)> {
    match v {
        Some(x) => assoc_insert(m, k, x),
        None => m,
    }
}

/// `m` with every pair of `p` inserted, in order.
pub open spec fn insert_all(
    m: Seq<(Seq<char>, Seq<char>)>,
    p: Seq<(Seq<char>, Seq<char>)>,
) -> Seq<(Seq<char>, Seq<char>)>
    decreases p.len(),
{
    if p.len() == 0 {
        m
    } else {
        assoc_insert(insert_all(m, p.drop_last()), p.last().0, p.last().1)
    }
}

/// The section a transaction name finds: the one named exactly so, else the
/// first whose name equals it up to ASCII case.
pub open spec fn lookup_section(m: Seq<(Seq<char>, TcodeView)>, tcode: Seq<char>) -> Option<TcodeView> {
    match assoc_get(m, tcode) {
        Some(t) => Some(t),
        None => if has_match(keys_of(m), tcode) {
            Some(m[first_match(keys_of(m), tcode)].1)
        } else {
            None
        },
    }
}

pub open spec fn opt_num(v: Option<u8>) -> Option<Seq<char>> {
    match v { Some(n) => Some(decimal(n as nat)), None => None }
}

pub open spec fn opt_join(v: Option<Seq<Seq<char>>>) -> Option<Seq<char>> {
    match v { Some(p) => Some(join(p, ","@)), None => None }
}

/// The fields of a section added to `m`, as the settings map lists them.
pub open spec fn section_pairs(
    m: Seq<(Seq<char>, Seq<char>)>,
    t: TcodeView,
) -> Seq<(Seq<char>, Seq<char>)> {
    let m1 = ins_opt(m, "variant"@, t.variant);
    let m2 = ins_opt(m1, "layout"@, t.layout);
    let m3 = ins_opt(m2, "column_name"@, t.column_name);
    let m4 = ins_opt(m3, "date_range_start"@, t.date_range_start);
    let m5 = ins_opt(m4, "date_range_end"@, t.date_range_end);
    let m6 = ins_opt(m5, "by_date"@, t.by_date);
    let m7 = ins_opt(m6, "serial_number"@, t.serial_number);
    let m8 = ins_opt(m7, "tab_number"@, t.tab_number);
    let m9 = ins_opt(m8, "export_type"@, opt_num(t.export_type));
    let m10 = match t.layout_columns {
        Some(c) => assoc_insert(m9, "layout_columns"@, json_list(c)),
        None => m9,
    };
    let m11 = ins_opt(m10, "by_delivery"@, t.by_delivery);
    let m12 = ins_opt(m11, "plants"@, opt_join(t.plants));
    insert_all(m12, t.additional_params)
}

/// The loop parameters added to `m`; a `<tcode>_` prefix is dropped.
pub open spec fn insert_loop_params(
    m: Seq<(Seq<char>, Seq<char>)>,
    p: Seq<(Seq<char>, Seq<char>)>,
    tcode: Seq<char>,
) -> Seq<(Seq<char>, Seq<char>)>
    decreases p.len(),
{
    if p.len() == 0 {
        m
    } else {
        let m0 = insert_loop_params(m, p.drop_last(), tcode);
        let k = p.last().0;
        let pre = tcode + "_"@;
        if starts_with(k, pre) {
            assoc_insert(m0, k.skip(pre.len() as int), p.last().1)
        } else {
            assoc_insert(m0, k, p.last().1)
        }
    }
}

/// The merged settings of `tcode`, as `get_tcode_config` returns them.
pub open spec fn tcode_settings(
    c: SapConfigView,
    tcode: Seq<char>,
    is_loop_run: Option<bool>,
) -> Option<Seq<(Seq<char>, Seq<char>)>> {
    let loop_run = is_loop_run == Some(true);
    let configured = if loop_run {
        match c.loop_config {
            Some(l) => Some(l.tcode),
            None => None,
        }
    } else {
        match c.global {
            Some(g) => g.default_tcode,
            None => None,
        }
    };
    let m0 = ins_opt(Seq::empty(), "tcode"@, configured);
    let section = match c.tcode {
        Some(m) => lookup_section(m, tcode),
        None => None,
    };
    match section {
        Some(t) => Some(section_pairs(m0, t)),
        None => {
            let m1 = if loop_run && c.loop_config is Some {
                insert_loop_params(m0, c.loop_config.unwrap().params, tcode)
            } else {
                m0
            };
            if m1.len() > 0 { Some(m1) } else { None }
        },
    }
}

/// The export type in effect for `tcode`: the section's (when it parses as a
/// byte), else `[global].default_export_type`.
pub open spec fn effective_export_type(c: SapConfigView, tcode: Seq<char>) -> Option<u8> {
    let global = match c.global {
        Some(g) => g.default_export_type,
        None => None,
    };
    match tcode_settings(c, tcode, Some(true)) {
        Some(m) => match assoc_get(m, "export_type"@) {
            Some(v) => match parse_u8_spec(v) {
                Some(n) => Some(n),
                None => global,
            },
            None => global,
        },
        None => global,
    }
}

/// The layout a `[global].date_format` value selects.
pub open spec fn style_for(fmt: Seq<char>) -> DateStyle {
    if fmt == "mm/dd/yyyy"@ {
        DateStyle::MonthDayYearSlash
    } else if fmt == "yyyy-mm-dd"@ {
        DateStyle::Iso
    } else if fmt == "dd-mm-yy"@ {
        DateStyle::DayMonthShortYear
    } else if fmt == "dd-mm-yyyy"@ {
        DateStyle::DayMonthYear
    } else {
        DateStyle::Iso
    }
}

/// A status-bar text reports a date in the wrong format.
pub open spec fn is_date_format_error_text(status: Seq<char>) -> bool {
    let l = lowercase(status);
    ||| contains(l, "enter date in the format"@)
    ||| contains(l, "date format"@)
    ||| contains(l, "invalid date"@)
    ||| contains(l, "date not valid"@)
    ||| contains(l, "incorrect date format"@)
    ||| contains(l, "wrong date format"@)
}

/// The date format a status-bar text asks for, longest pattern first.
pub open spec fn expected_date_format(status: Seq<char>) -> Option<Seq<char>> {
    let l = lowercase(status);
    if contains(l, "____-__-__"@) || contains(l, "yyyy-mm-dd"@) {
        Some("YYYY-MM-DD"@)
    } else if contains(l, "__-__-__"@) || contains(l, "dd-mm-yy"@) {
        Some("DD-MM-YY"@)
    } else if contains(l, "__/__/__"@) || contains(l, "mm/dd/yyyy"@) {
        Some("MM/DD/YYYY"@)
    } else {
        None
    }
}

// ---------------------------------------------------------------------------
// Implementation
// ---------------------------------------------------------------------------

fn ins_opt_exec(m: &mut StrMap, k: &str, v: &Option<String>)
    ensures
        final(m)@ == ins_opt(old(m)@, k@, opt_view(*v)),
{
    if let Some(x) = v {
        m.insert(owned(k), x.clone());
    }
}

fn insert_all_exec(m: &mut StrMap, p: &StrMap)
    ensures
        final(m)@ == insert_all(old(m)@, p@),
{
    let ghost m0 = m@;
    let mut i: usize = 0;
    while i < p.len()
        invariant
            i <= p@.len(),
            m@ == insert_all(m0, p@.take(i as int)),
        decreases p@.len() - i,
    {
        proof {
            assert(p@.take(i + 1).drop_last() =~= p@.take(i as int));
        }
        let (k, v) = p.entry(i);
        m.insert(k.clone(), v.clone());
        i = i + 1;
    }
    assert(p@.take(p@.len() as int) =~= p@);
}

fn insert_loop_params_exec(m: &mut StrMap, p: &StrMap, tcode: &str)
    ensures
        final(m)@ == insert_loop_params(old(m)@, p@, tcode@),
{
    let ghost m0 = m@;
    let mut pre = chars_of(tcode);
    pre.push('_');
    let i_tc = chars_of(tcode);
    assert(pre@ == tcode@ + "_"@) by {
        reveal_strlit("_");
        assert(pre@ =~= tcode@ + "_"@);
    }
    let mut i: usize = 0;
    while i < p.len()
        invariant
            i <= p@.len(),
            pre@ == tcode@ + "_"@,
            m@ == insert_loop_params(m0, p@.take(i as int), tcode@),
        decreases p@.len() - i,
    {
        proof {
            assert(p@.take(i + 1).drop_last() =~= p@.take(i as int));
            assert(p@.take(i + 1).last() == p@[i as int]);
        }
        let (k, v) = p.entry(i);
        let kc = chars_of(k.as_str());
        if crate::text::occurs_at_exec(kc.as_slice(), pre.as_slice(), 0) {
            let rest = sub_chars(kc.as_slice(), pre.len(), kc.len());
            assert(rest@ =~= k@.skip(pre@.len() as int));
            m.insert(crate::text::string_of(rest.as_slice()), v.clone());
        } else {
            m.insert(k.clone(), v.clone());
        }
        i = i + 1;
    }
    assert(p@.take(p@.len() as int) =~= p@);
}

/// The section a transaction name finds.
fn lookup_section_exec<'a>(m: &'a TcodeMap, tcode: &str) -> (r: Option<&'a TcodeConfig>)
    ensures
        match r {
            Some(t) => lookup_section(m@, tcode@) == Some(t@),
            None => lookup_section(m@, tcode@) is None,
        },
{
    match m.get(tcode) {
        Some(t) => Some(t),
        None => {
            let names = m.names();
            let mut i: usize = 0;
            while i < names.len()
                invariant
                    i <= names.len(),
                    assoc_get(m@, tcode@) is None,
                    string_views(names@) == keys_of(m@),
                    forall|j: int| 0 <= j < i ==> !eq_ignore_ascii_case(
                        #[trigger] keys_of(m@)[j],
                        tcode@,
                    ),
                decreases names.len() - i,
            {
                if eq_ignore_ascii_case_exec(names[i].as_str(), tcode) {
                    proof {
                        assert(keys_of(m@)[i as int] == names@[i as int]@);
                        assert(is_first_match(keys_of(m@), tcode@, i as int));
                        let j = first_match(keys_of(m@), tcode@);
                        assert(is_first_match(keys_of(m@), tcode@, j));
                        if j < i {
                            assert(!eq_ignore_ascii_case(keys_of(m@)[j], tcode@));
                        }
                        if i < j {
                            assert(!eq_ignore_ascii_case(keys_of(m@)[i as int], tcode@));
                        }
                        assert(j == i);
                        assert(has_match(keys_of(m@), tcode@));
                    }
                    let (_, t) = m.entry(i);
                    assert(assoc_get(m@, tcode@) is None);
                    assert(has_match(keys_of(m@), tcode@));
                    assert(first_match(keys_of(m@), tcode@) == i);
                    assert(lookup_section(m@, tcode@) == Some(m@[i as int].1));
                    return Some(t);
                }
                i = i + 1;
            }
            proof {
                assert forall|j: int| 0 <= j < keys_of(m@).len() implies !eq_ignore_ascii_case(
                    keys_of(m@)[j],
                    tcode@,
                ) by {}
            }
            None
        },
    }
}

fn section_pairs_exec(m: &mut StrMap, t: &TcodeConfig)
    ensures
        final(m)@ == section_pairs(old(m)@, t@),
{
    ins_opt_exec(m, "variant", &t.variant);
    ins_opt_exec(m, "layout", &t.layout);
    ins_opt_exec(m, "column_name", &t.column_name);
    ins_opt_exec(m, "date_range_start", &t.date_range_start);
    ins_opt_exec(m, "date_range_end", &t.date_range_end);
    ins_opt_exec(m, "by_date", &t.by_date);
    ins_opt_exec(m, "serial_number", &t.serial_number);
    ins_opt_exec(m, "tab_number", &t.tab_number);
    let et = match t.export_type {
        Some(n) => Some(u64_to_string(n as u64)),
        None => None,
    };
    ins_opt_exec(m, "export_type", &et);
    if let Some(cols) = &t.layout_columns {
        m.insert(owned("layout_columns"), to_json_list(cols));
    }
    ins_opt_exec(m, "by_delivery", &t.by_delivery);
    let pl = match &t.plants {
        Some(p) => Some(join_strings(p, ",")),
        None => None,
    };
    ins_opt_exec(m, "plants", &pl);
    insert_all_exec(m, &t.additional_params);
}

impl SapConfig {
    /// The merged settings of `tcode`: the configured transaction under
    /// `tcode` (the loop's in a loop run, else `[global].default_tcode`), the
    /// fields and parameters of its section, or, without a section, the loop
    /// parameters in a loop run. `None` when that leaves nothing.
    pub fn get_tcode_config(&self, tcode: &str, is_loop_run: Option<bool>) -> (r: Option<StrMap>)
        ensures
            match r {
                Some(m) => tcode_settings(self@, tcode@, is_loop_run) == Some(m@),
                None => tcode_settings(self@, tcode@, is_loop_run) is None,
            },
    {
        let loop_run = match is_loop_run {
            Some(b) => b,
            None => false,
        };
        let mut m = StrMap::new();
        if loop_run {
            if let Some(l) = &self.loop_config {
                m.insert(owned("tcode"), l.tcode.clone());
            }
        } else {
            if let Some(g) = &self.global {
                if let Some(t) = &g.default_tcode {
                    m.insert(owned("tcode"), t.clone());
                }
            }
        }
        let section = match &self.tcode {
            Some(tm) => lookup_section_exec(tm, tcode),
            None => None,
        };
        match section {
            Some(t) => {
                section_pairs_exec(&mut m, t);
                Some(m)
            },
            None => {
                if loop_run {
                    if let Some(l) = &self.loop_config {
                        insert_loop_params_exec(&mut m, &l.params, tcode);
                    }
                }
                if m.len() > 0 {
                    Some(m)
                } else {
                    None
                }
            },
        }
    }

    /// The export type in effect for `tcode`: the section's own when it parses,
    /// else `[global].default_export_type`.
    pub fn get_effective_export_type(&self, tcode: &str) -> (r: Option<u8>)
        ensures
            r == effective_export_type(self@, tcode@),
    {
        let global = match &self.global {
            Some(g) => g.default_export_type,
            None => None,
        };
        match self.get_tcode_config(tcode, Some(true)) {
            Some(m) => match m.get("export_type") {
                Some(v) => match parse_u8(v.as_str()) {
                    Some(n) => Some(n),
                    None => global,
                },
                None => global,
            },
            None => global,
        }
    }

    /// `date` in the configured date format (ISO for an unknown format).
    pub fn format_date(&self, date: Date) -> (r: String)
        ensures
            r@ == formatted_date(
                date,
                style_for(
                    match self@.global {
                        Some(g) => g.date_format,
                        None => crate::config_types::default_date_format_text(),
                    },
                ),
            ),
    {
        let f = self.get_date_format();
        let style = if str_eq(f.as_str(), "mm/dd/yyyy") {
            DateStyle::MonthDayYearSlash
        } else if str_eq(f.as_str(), "yyyy-mm-dd") {
            DateStyle::Iso
        } else if str_eq(f.as_str(), "dd-mm-yy") {
            DateStyle::DayMonthShortYear
        } else if str_eq(f.as_str(), "dd-mm-yyyy") {
            DateStyle::DayMonthYear
        } else {
            DateStyle::Iso
        };
        format_date_as(date, style)
    }
}

/// Whether a status-bar message reports a date in the wrong format.
pub fn is_date_format_error(status_text: &str) -> (r: bool)
    ensures
        r == is_date_format_error_text(status_text@),
{
    let l = to_lowercase(status_text);
    str_contains(l.as_str(), "enter date in the format") || str_contains(l.as_str(), "date format")
        || str_contains(l.as_str(), "invalid date") || str_contains(l.as_str(), "date not valid")
        || str_contains(l.as_str(), "incorrect date format") || str_contains(
        l.as_str(),
        "wrong date format",
    )
}

/// The date format a status-bar message asks for.
pub fn get_sap_expected_date_format(status_text: &str) -> (r: Option<String>)
    ensures
        match r {
            Some(s) => expected_date_format(status_text@) == Some(s@),
            None => expected_date_format(status_text@) is None,
        },
{
    let l = to_lowercase(status_text);
    if str_contains(l.as_str(), "____-__-__") || str_contains(l.as_str(), "yyyy-mm-dd") {
        Some(owned("YYYY-MM-DD"))
    } else if str_contains(l.as_str(), "__-__-__") || str_contains(l.as_str(), "dd-mm-yy") {
        Some(owned("DD-MM-YY"))
    } else if str_contains(l.as_str(), "__/__/__") || str_contains(l.as_str(), "mm/dd/yyyy") {
        Some(owned("MM/DD/YYYY"))
    } else {
        None
    }
}

} // verus!
