//! What the interactive parameter prompts make of the user's answers.
use crate::date::DateStyle;

use crate::text::{
    append_str, chars_of, has_char, has_char_exec, lines_of, lowercase, non_empty, owned,
    split_char, split_chars, split_whitespace, split_whitespace_chars, str_eq, string_of,
    string_views, text_lines, to_lowercase, trim, trim_chars, views,
};
use vstd::prelude::*;

verus! {

/// How dates are typed: ISO for a `yyyy-mm-dd` configuration, else
/// `MM/DD/YYYY`; with the hint shown in the prompt.
pub open spec fn entry_style_of(date_format: Seq<char>) -> (DateStyle, Seq<char>) {
    if lowercase(date_format) == "yyyy-mm-dd"@ {
        (DateStyle::Iso, "YYYY-MM-DD"@)
    } else {
        (DateStyle::MonthDayYearSlash, "MM/DD/YYYY"@)
    }
}

pub fn date_entry_style(date_format: &str) -> (r: (DateStyle, &'static str))
    ensures
        (r.0, r.1@) == entry_style_of(date_format@),
{
    let l = to_lowercase(date_format);
    proof {
        reveal_strlit("yyyy-mm-dd");
    }
    if str_eq(l.as_str(), "yyyy-mm-dd") {
        (DateStyle::Iso, "YYYY-MM-DD")
    } else {
        (DateStyle::MonthDayYearSlash, "MM/DD/YYYY")
    }
}

/// An answer, unless it was left empty.
pub fn typed_or_none(answer: String) -> (r: Option<String>)
    ensures
        match r {
            Some(s) => answer@.len() > 0 && s@ == answer@,
            None => answer@.len() == 0,
        },
{
    if answer.unicode_len() == 0 {
        None
    } else {
        Some(answer)
    }
}

/// An answer, or the default when it was left empty.
pub fn typed_or(answer: String, default: &str) -> (r: String)
    ensures
        r@ == if answer@.len() == 0 {
            default@
        } else {
            answer@
        },
{
    if answer.unicode_len() == 0 {
        owned(default)
    } else {
        answer
    }
}

/// The trimmed non-empty pieces of `s` between commas.
pub open spec fn comma_items(s: Seq<char>) -> Seq<Seq<char>> {
    non_empty(Seq::new(split_char(s, ',').len(), |i: int| trim(split_char(s, ',')[i])))
}

fn comma_pieces(s: &str) -> (r: Vec<String>)
    ensures
        string_views(r@) == comma_items(s@),
{
    let v = chars_of(s);
    let parts = split_chars(v.as_slice(), ',');
    let ghost cells = Seq::new(split_char(s@, ',').len(), |i: int| trim(split_char(s@, ',')[i]));
    let mut out: Vec<String> = Vec::new();
    let mut i: usize = 0;
    while i < parts.len()
        invariant
            v@ == s@,
            i <= parts@.len(),
            parts@.len() == split_char(s@, ',').len(),
            forall|k: int| 0 <= k < parts@.len() ==> #[trigger] parts@[k]@ == split_char(s@, ',')[k],
            cells == Seq::new(split_char(s@, ',').len(), |k: int| trim(split_char(s@, ',')[k])),
            string_views(out@) == non_empty(cells.take(i as int)),
        decreases parts@.len() - i,
    {
        proof {
            assert(cells.take(i + 1).drop_last() =~= cells.take(i as int));
            assert(cells.take(i + 1).last() == trim(parts@[i as int]@));
        }
        let t = trim_chars(parts[i].as_slice());
        if t.len() > 0 {
            let ghost prev = string_views(out@);
            out.push(string_of(t.as_slice()));
            assert(string_views(out@) =~= prev.push(t@));
        }
        i = i + 1;
    }
    assert(cells.take(parts@.len() as int) =~= cells);
    out
}

/// Numbers typed comma-separated.
pub fn comma_separated(answer: &str) -> (r: Vec<String>)
    ensures
        string_views(r@) == comma_items(answer@),
{
    comma_pieces(answer)
}

/// Numbers typed separated by commas, or else by white space.
pub open spec fn typed_items(s: Seq<char>) -> Seq<Seq<char>> {
    if has_char(s, ',') {
        comma_items(s)
    } else {
        split_whitespace(s)
    }
}

pub fn typed_numbers(answer: &str) -> (r: Vec<String>)
    ensures
        string_views(r@) == typed_items(answer@),
{
    let v = chars_of(answer);
    if has_char_exec(v.as_slice(), ',') {
        comma_pieces(answer)
    } else {
        let words = split_whitespace_chars(v.as_slice());
        let mut out: Vec<String> = Vec::new();
        let mut i: usize = 0;
        while i < words.len()
            invariant
                i <= words@.len(),
                views(words@) == split_whitespace(answer@),
                out@.len() == i,
                forall|k: int| 0 <= k < i ==> #[trigger] out@[k]@ == words@[k]@,
            decreases words@.len() - i,
        {
            out.push(string_of(words[i].as_slice()));
            i = i + 1;
        }
        assert(string_views(out@) =~= views(words@));
        out
    }
}

/// The trimmed non-empty lines of pasted text.
pub open spec fn pasted_items(s: Seq<char>) -> Seq<Seq<char>> {
    non_empty(Seq::new(text_lines(s).len(), |i: int| trim(text_lines(s)[i])))
}

pub fn pasted_numbers(buffer: &str) -> (r: Vec<String>)
    ensures
        string_views(r@) == pasted_items(buffer@),
{
    let lines = lines_of(buffer);
    let ghost cells = Seq::new(text_lines(buffer@).len(), |i: int| trim(text_lines(buffer@)[i]));
    let mut out: Vec<String> = Vec::new();
    let mut i: usize = 0;
    while i < lines.len()
        invariant
            i <= lines@.len(),
            string_views(lines@) == text_lines(buffer@),
            cells == Seq::new(text_lines(buffer@).len(), |k: int| trim(text_lines(buffer@)[k])),
            string_views(out@) == non_empty(cells.take(i as int)),
        decreases lines@.len() - i,
    {
        proof {
            assert(cells.take(i + 1).drop_last() =~= cells.take(i as int));
            assert(text_lines(buffer@)[i as int] == lines@[i as int]@);
        }
        let t = trim_chars(chars_of(lines[i].as_str()).as_slice());
        if t.len() > 0 {
            let ghost prev = string_views(out@);
            out.push(string_of(t.as_slice()));
            assert(string_views(out@) =~= prev.push(t@));
        }
        i = i + 1;
    }
    assert(cells.take(lines@.len() as int) =~= cells);
    out
}

/// What a line read while pasting does.
#[derive(Debug, Clone, Copy, PartialEq, Eq, Structural)]
pub enum PasteLine {
    /// A blank line before anything was pasted: nothing to read.
    Nothing,
    /// A blank line after pasted text: the numbers are read from it.
    Finish,
    /// More text: added to what was pasted.
    More,
}

pub fn paste_line(line: &str, buffer: &str) -> (r: PasteLine)
    ensures
        r == if trim(line@).len() == 0 && trim(buffer@).len() == 0 {
            PasteLine::Nothing
        } else if trim(line@).len() == 0 {
            PasteLine::Finish
        } else {
            PasteLine::More
        },
{
    let l = crate::text::trim_str(line);
    let b = crate::text::trim_str(buffer);
    if l.unicode_len() == 0 && b.unicode_len() == 0 {
        PasteLine::Nothing
    } else if l.unicode_len() == 0 {
        PasteLine::Finish
    } else {
        PasteLine::More
    }
}

fn with_default(head: &str, v: &str, tail: &str) -> (r: String)
    ensures
        r@ == head@ + v@ + tail@,
{
    let mut out = chars_of(head);
    append_str(&mut out, v);
    append_str(&mut out, tail);
    string_of(out.as_slice())
}

/// The prompt for the variant, showing the current one.
pub fn variant_prompt(current: &Option<String>) -> (r: String)
    ensures
        r@ == match current {
            Some(v) => "SAP variant name (default: "@ + v@ + ")"@,
            None => "SAP variant name (leave empty for none)"@,
        },
{
    match current {
        Some(v) => with_default("SAP variant name (default: ", v.as_str(), ")"),
        None => owned("SAP variant name (leave empty for none)"),
    }
}

/// The prompt for the layout, showing the current one.
pub fn layout_prompt(current: &Option<String>) -> (r: String)
    ensures
        r@ == match current {
            Some(v) => "Layout row (default: "@ + v@ + ")"@,
            None => "Layout row (leave empty for default)"@,
        },
{
    match current {
        Some(v) => with_default("Layout row (default: ", v.as_str(), ")"),
        None => owned("Layout row (leave empty for default)"),
    }
}

/// What the numbers are called in the prompts.
pub fn item_type_name(is_shipment: bool) -> (r: &'static str)
    ensures
        r@ == if is_shipment {
            "shipment"@
        } else {
            "delivery"@
        },
{
    if is_shipment {
        "shipment"
    } else {
        "delivery"
    }
}

/// The directory to pick an Excel file from: the reports directory, or the
/// sub-directory typed under it.
pub fn excel_directory(reports_dir: &str, subdir: &str) -> (r: String)
    ensures
        r@ == if subdir@.len() == 0 {
            reports_dir@
        } else {
            reports_dir@ + "\\"@ + subdir@
        },
{
    if subdir.unicode_len() == 0 {
        owned(reports_dir)
    } else {
        with_default(reports_dir, "\\", subdir)
    }
}

/// The reports directory an answer asks for, given the current one and its
/// parent: `None` for an empty answer or the current directory; `../x` or
/// `..\x` is `x` under the parent (kept as typed without a parent); an
/// answer without a path separator is a sub-directory of the current one;
/// any other answer is taken as it is.
pub open spec fn reports_dir_choice(
    answer: Seq<char>,
    current: Seq<char>,
    parent: Option<Seq<char>>,
) -> Option<Seq<char>> {
    if answer.len() == 0 || answer == current {
        None
    } else if crate::text::starts_with(answer, "../"@) || crate::text::starts_with(answer, "..\\"@) {
        match parent {
            Some(p) => Some(p + "\\"@ + answer.skip(3)),
            None => Some(answer),
        }
    } else if !has_char(answer, '\\') && !has_char(answer, '/') {
        Some(current + "\\"@ + answer)
    } else {
        Some(answer)
    }
}

pub fn reports_dir_answer(answer: &str, current: &str, parent: Option<&str>) -> (r: Option<String>)
    ensures
        crate::cli_overrides::opt_view(r) == reports_dir_choice(
            answer@,
            current@,
            match parent {
                Some(p) => Some(p@),
                None => None,
            },
        ),
{
    if answer.unicode_len() == 0 || str_eq(answer, current) {
        return None;
    }
    if crate::text::str_starts_with(answer, "../") || crate::text::str_starts_with(answer, "..\\") {
        proof {
            reveal_strlit("../");
            reveal_strlit("..\\");
        }
        match parent {
            Some(p) => {
                let v = chars_of(answer);
                let rest = crate::text::sub_chars(v.as_slice(), 3, v.len());
                let mut out = chars_of(p);
                append_str(&mut out, "\\");
                crate::text::append_chars(&mut out, rest.as_slice());
                assert(rest@ =~= answer@.skip(3));
                Some(string_of(out.as_slice()))
            },
            None => Some(owned(answer)),
        }
    } else {
        let v = chars_of(answer);
        if !has_char_exec(v.as_slice(), '\\') && !has_char_exec(v.as_slice(), '/') {
            Some(with_default(current, "\\", answer))
        } else {
            Some(owned(answer))
        }
    }
}

/// A yes to "create it?": `y` in any case, blanks around it ignored.
pub fn confirms_yes(answer: &str) -> (r: bool)
    ensures
        r == (lowercase(trim(answer@)) == "y"@),
{
    let t = crate::text::trim_str(answer);
    let l = to_lowercase(t.as_str());
    proof {
        reveal_strlit("y");
    }
    str_eq(l.as_str(), "y")
}

} // verus!
