//! Writing a configuration back as the text of `config.toml`.
use crate::assoc::StrMap;
use crate::cli_overrides::opt_view;
use crate::config_load::one_of;
use crate::config_types::{
    BuildConfig, BuildView, GlobalConfig, GlobalView, LoopConfig, LoopView, SapConfig,
    SapConfigView, SequenceConfig, SequenceView, TcodeConfig, TcodeMap, TcodeView,
};
use crate::text::{append_str, chars_of, decimal, decimal_chars, string_of, string_views};
use crate::toml_doc::{TomlEntry, TomlValue};
use vstd::prelude::*;

verus! {

// ---------------------------------------------------------------------------
// Specification
// ---------------------------------------------------------------------------

/// `key = "value"` on a line.
pub open spec fn quoted_line(k: Seq<char>, v: Seq<char>) -> Seq<char> {
    k + " = \""@ + v + "\"\n"@
}

/// `key = value` on a line, the value unquoted.
pub open spec fn bare_line(k: Seq<char>, v: Seq<char>) -> Seq<char> {
    k + " = "@ + v + "\n"@
}

pub open spec fn opt_quoted_line(k: Seq<char>, v: Option<Seq<char>>) -> Seq<char> {
    match v { Some(x) => quoted_line(k, x), None => Seq::empty() }
}

pub open spec fn opt_num_line(k: Seq<char>, v: Option<nat>) -> Seq<char> {
    match v { Some(n) => bare_line(k, decimal(n)), None => Seq::empty() }
}

/// The parameters as quoted lines, each key preceded by `prefix`.
pub open spec fn params_text(p: Seq<(Seq<char>, Seq<char>)>, prefix: Seq<char>) -> Seq<char>
    decreases p.len(),
{
    if p.len() == 0 {
        Seq::empty()
    } else {
        params_text(p.drop_last(), prefix) + quoted_line(prefix + p.last().0, p.last().1)
    }
}

/// The entries of a preserved table: strings quoted, other values as TOML.
pub open spec fn entries_text(t: Seq<TomlEntry>) -> Seq<char>
    decreases t.len(),
{
    if t.len() == 0 {
        Seq::empty()
    } else {
        let e = t.last();
        entries_text(t.drop_last()) + match e.value {
            TomlValue::Str(s) => quoted_line(e.key@, s@),
            _ => bare_line(e.key@, e.text@),
        }
    }
}

/// The top-level sections the model does not read.
pub open spec fn modelled_sections() -> Seq<&'static str> {
    seq!["build", "global", "tcode", "loop", "sequence", "sap_config"]
}

/// The document's other top-level tables, written back as they were read.
pub open spec fn preserved_text(t: Seq<TomlEntry>) -> Seq<char>
    decreases t.len(),
{
    if t.len() == 0 {
        Seq::empty()
    } else {
        let e = t.last();
        preserved_text(t.drop_last()) + if one_of(e.key@, modelled_sections()) {
            Seq::empty()
        } else {
            match e.value {
                TomlValue::Table(s) => "["@ + e.key@ + "]\n"@ + entries_text(s@) + "\n"@,
                _ => Seq::empty(),
            }
        }
    }
}

pub open spec fn raw_text(raw: Option<TomlValue>) -> Seq<char> {
    match raw {
        Some(TomlValue::Table(t)) => preserved_text(t@),
        _ => Seq::empty(),
    }
}

pub open spec fn build_text(b: Option<BuildView>) -> Seq<char> {
    match b {
        Some(b) => "[build]\n"@ + quoted_line("target"@, b.target) + params_text(
            b.additional_params,
            Seq::empty(),
        ) + "\n"@,
        None => Seq::empty(),
    }
}

pub open spec fn opt_nat_usize(v: Option<usize>) -> Option<nat> {
    match v { Some(n) => Some(n as nat), None => None }
}

pub open spec fn opt_nat_u8(v: Option<u8>) -> Option<nat> {
    match v { Some(n) => Some(n as nat), None => None }
}

pub open spec fn global_text(g: Option<GlobalView>) -> Seq<char> {
    match g {
        Some(g) => "[global]\n"@ + quoted_line("instance_id"@, g.instance_id) + quoted_line(
            "reports_dir"@,
            g.reports_dir,
        ) + quoted_line("date_format"@, g.date_format) + quoted_line("timezone"@, g.timezone)
            + opt_quoted_line("default_tcode"@, g.default_tcode) + opt_num_line(
            "default_menu_option"@,
            opt_nat_usize(g.default_menu_option),
        ) + opt_num_line("default_export_type"@, opt_nat_u8(g.default_export_type))
            + params_text(g.additional_params, Seq::empty()) + "\n"@,
        None => Seq::empty(),
    }
}

/// `"a",\n  "b"`: the layout columns, each quoted and indented.
pub open spec fn columns_items(cols: Seq<Seq<char>>) -> Seq<char>
    decreases cols.len(),
{
    if cols.len() == 0 {
        Seq::empty()
    } else {
        columns_items(cols.drop_last()) + (if cols.len() > 1 { ",\n"@ } else { Seq::empty() })
            + "  \""@ + cols.last() + "\""@
    }
}

pub open spec fn columns_text(cols: Option<Seq<Seq<char>>>) -> Seq<char> {
    match cols {
        Some(c) => "layout_columns = [\n"@ + columns_items(c) + "]\n"@,
        None => Seq::empty(),
    }
}

/// The optional settings of a `[tcode.X]` section, one line each.
pub open spec fn section_fields(t: TcodeView) -> Seq<char> {
    opt_quoted_line("variant"@, t.variant) + opt_quoted_line("layout"@, t.layout)
        + opt_quoted_line("column_name"@, t.column_name) + opt_quoted_line(
        "date_range_start"@,
        t.date_range_start,
    ) + opt_quoted_line("date_range_end"@, t.date_range_end) + opt_quoted_line(
        "by_date"@,
        t.by_date,
    ) + opt_quoted_line("serial_number"@, t.serial_number) + opt_quoted_line(
        "tab_number"@,
        t.tab_number,
    ) + opt_num_line("export_type"@, opt_nat_u8(t.export_type))
}

/// One `[tcode.X]` section.
pub open spec fn section_text(name: Seq<char>, t: TcodeView) -> Seq<char> {
    "[tcode."@ + name + "]\n"@ + section_fields(t) + columns_text(t.layout_columns)
        + params_text(t.additional_params, Seq::empty()) + "\n"@
}

pub open spec fn sections_text(m: Seq<(Seq<char>, TcodeView)>) -> Seq<char>
    decreases m.len(),
{
    if m.len() == 0 {
        Seq::empty()
    } else {
        sections_text(m.drop_last()) + section_text(m.last().0, m.last().1)
    }
}

pub open spec fn tcode_text(m: Option<Seq<(Seq<char>, TcodeView)>>) -> Seq<char> {
    match m { Some(m) => sections_text(m), None => Seq::empty() }
}

pub open spec fn loop_text(l: Option<LoopView>) -> Seq<char> {
    match l {
        Some(l) => "[loop]\n"@ + quoted_line("tcode"@, l.tcode) + quoted_line(
            "iterations"@,
            l.iterations,
        ) + quoted_line("delay_seconds"@, l.delay_seconds) + params_text(l.params, "param_"@)
            + "\n"@,
        None => Seq::empty(),
    }
}

/// `"a", "b"`: the sequence options, each quoted.
pub open spec fn options_items(o: Seq<Seq<char>>) -> Seq<char>
    decreases o.len(),
{
    if o.len() == 0 {
        Seq::empty()
    } else {
        options_items(o.drop_last()) + (if o.len() > 1 { ", "@ } else { Seq::empty() }) + "\""@
            + o.last() + "\""@
    }
}

pub open spec fn sequence_text(s: Option<SequenceView>) -> Seq<char> {
    match s {
        Some(s) => "[sequence]\n"@ + (if s.options.len() > 0 {
            "options = ["@ + options_items(s.options) + "]\n"@
        } else {
            Seq::empty()
        }) + quoted_line("iterations"@, s.iterations) + quoted_line(
            "delay_seconds"@,
            s.delay_seconds,
        ) + quoted_line("interval_seconds"@, s.interval_seconds) + params_text(
            s.params,
            "param_"@,
        ) + "\n"@,
        None => Seq::empty(),
    }
}

/// The text of `config.toml` for a configuration.
pub open spec fn config_text(c: SapConfigView) -> Seq<char> {
    raw_text(c.raw_config) + build_text(c.build) + global_text(c.global) + tcode_text(c.tcode)
        + loop_text(c.loop_config) + sequence_text(c.sequence)
}

// ---------------------------------------------------------------------------
// Implementation
// ---------------------------------------------------------------------------

fn push_quoted_line(out: &mut Vec<char>, k: &str, v: &str)
    ensures
        final(out)@ == old(out)@ + quoted_line(k@, v@),
{
    append_str(out, k);
    append_str(out, " = \"");
    append_str(out, v);
    append_str(out, "\"\n");
    assert(final(out)@ =~= old(out)@ + quoted_line(k@, v@));
}

fn push_bare_line(out: &mut Vec<char>, k: &str, v: &str)
    ensures
        final(out)@ == old(out)@ + bare_line(k@, v@),
{
    append_str(out, k);
    append_str(out, " = ");
    append_str(out, v);
    append_str(out, "\n");
    assert(final(out)@ =~= old(out)@ + bare_line(k@, v@));
}

fn push_opt_quoted_line(out: &mut Vec<char>, k: &str, v: &Option<String>)
    ensures
        final(out)@ == old(out)@ + opt_quoted_line(k@, opt_view(*v)),
{
    match v {
        Some(x) => push_quoted_line(out, k, x.as_str()),
        None => {
            assert(out@ =~= out@ + Seq::<char>::empty());
        },
    }
}

fn push_opt_num_line(out: &mut Vec<char>, k: &str, v: Option<u64>)
    ensures
        final(out)@ == old(out)@ + opt_num_line(
            k@,
            match v { Some(n) => Some(n as nat), None => None },
        ),
{
    match v {
        Some(n) => {
            let d = decimal_chars(n);
            let s = string_of(d.as_slice());
            push_bare_line(out, k, s.as_str());
        },
        None => {
            assert(out@ =~= out@ + Seq::<char>::empty());
        },
    }
}

fn push_params(out: &mut Vec<char>, p: &StrMap, prefix: &str)
    ensures
        final(out)@ == old(out)@ + params_text(p@, prefix@),
{
    let ghost start = out@;
    let mut i: usize = 0;
    while i < p.len()
        invariant
            i <= p@.len(),
            out@ == start + params_text(p@.take(i as int), prefix@),
        decreases p@.len() - i,
    {
        proof {
            assert(p@.take(i + 1).drop_last() =~= p@.take(i as int));
            assert(p@.take(i + 1).last() == p@[i as int]);
        }
        let (k, v) = p.entry(i);
        let mut key = chars_of(prefix);
        append_str(&mut key, k.as_str());
        let ks = string_of(key.as_slice());
        push_quoted_line(out, ks.as_str(), v.as_str());
        assert(out@ =~= start + params_text(p@.take(i + 1), prefix@));
        i = i + 1;
    }
    assert(p@.take(p@.len() as int) =~= p@);
}

fn push_entries(out: &mut Vec<char>, t: &Vec<TomlEntry>)
    ensures
        final(out)@ == old(out)@ + entries_text(t@),
{
    let ghost start = out@;
    let mut i: usize = 0;
    while i < t.len()
        invariant
            i <= t.len(),
            out@ == start + entries_text(t@.take(i as int)),
        decreases t.len() - i,
    {
        proof {
            assert(t@.take(i + 1).drop_last() =~= t@.take(i as int));
            assert(t@.take(i + 1).last() == t@[i as int]);
        }
        match &t[i].value {
            TomlValue::Str(s) => push_quoted_line(out, t[i].key.as_str(), s.as_str()),
            _ => push_bare_line(out, t[i].key.as_str(), t[i].text.as_str()),
        }
        assert(out@ =~= start + entries_text(t@.take(i + 1)));
        i = i + 1;
    }
    assert(t@.take(t.len() as int) =~= t@);
}

fn is_modelled(k: &str) -> (r: bool)
    ensures
        r == one_of(k@, modelled_sections()),
{
    let names: [&'static str; 6] = ["build", "global", "tcode", "loop", "sequence", "sap_config"];
    assert(names@ =~= modelled_sections());
    let mut i: usize = 0;
    while i < 6
        invariant
            i <= 6,
            names@ == modelled_sections(),
            forall|j: int| 0 <= j < i ==> names@[j]@ != k@,
        decreases 6 - i,
    {
        if crate::text::str_eq(names[i], k) {
            return true;
        }
        i = i + 1;
    }
    false
}

fn push_preserved(out: &mut Vec<char>, raw: &Option<TomlValue>)
    ensures
        final(out)@ == old(out)@ + raw_text(*raw),
{
    let ghost start = out@;
    match raw {
        Some(TomlValue::Table(t)) => {
            let mut i: usize = 0;
            while i < t.len()
                invariant
                    i <= t.len(),
                    out@ == start + preserved_text(t@.take(i as int)),
                decreases t.len() - i,
            {
                proof {
                    assert(t@.take(i + 1).drop_last() =~= t@.take(i as int));
                    assert(t@.take(i + 1).last() == t@[i as int]);
                }
                if !is_modelled(t[i].key.as_str()) {
                    match &t[i].value {
                        TomlValue::Table(s) => {
                            append_str(out, "[");
                            append_str(out, t[i].key.as_str());
                            append_str(out, "]\n");
                            push_entries(out, s);
                            append_str(out, "\n");
                        },
                        _ => {},
                    }
                }
                assert(out@ =~= start + preserved_text(t@.take(i + 1)));
                i = i + 1;
            }
            assert(t@.take(t.len() as int) =~= t@);
        },
        _ => {
            assert(out@ =~= start + Seq::<char>::empty());
        },
    }
}

fn push_build(out: &mut Vec<char>, b: &Option<BuildConfig>)
    ensures
        final(out)@ == old(out)@ + build_text(crate::config_types::build_view(*b)),
{
    let ghost start = out@;
    match b {
        Some(b) => {
            append_str(out, "[build]\n");
            push_quoted_line(out, "target", b.target.as_str());
            push_params(out, &b.additional_params, "");
            proof {
                reveal_strlit("");
                assert(""@ =~= Seq::<char>::empty());
            }
            append_str(out, "\n");
            assert(out@ =~= start + build_text(Some(b@)));
        },
        None => {
            assert(out@ =~= start + Seq::<char>::empty());
        },
    }
}

fn opt_usize_u64(v: Option<usize>) -> (r: Option<u64>)
    ensures
        match r { Some(n) => Some(n as nat), None => None } == opt_nat_usize(v),
{
    match v { Some(n) => Some(n as u64), None => None }
}

fn opt_u8_u64(v: Option<u8>) -> (r: Option<u64>)
    ensures
        match r { Some(n) => Some(n as nat), None => None } == opt_nat_u8(v),
{
    match v { Some(n) => Some(n as u64), None => None }
}

#[verifier::rlimit(40)]
fn push_global(out: &mut Vec<char>, g: &Option<GlobalConfig>)
    ensures
        final(out)@ == old(out)@ + global_text(crate::config_types::global_view(*g)),
{
    let ghost start = out@;
    match g {
        Some(g) => {
            append_str(out, "[global]\n");
            push_quoted_line(out, "instance_id", g.instance_id.as_str());
            push_quoted_line(out, "reports_dir", g.reports_dir.as_str());
            push_quoted_line(out, "date_format", g.date_format.as_str());
            push_quoted_line(out, "timezone", g.timezone.as_str());
            push_opt_quoted_line(out, "default_tcode", &g.default_tcode);
            push_opt_num_line(out, "default_menu_option", opt_usize_u64(g.default_menu_option));
            push_opt_num_line(out, "default_export_type", opt_u8_u64(g.default_export_type));
            push_params(out, &g.additional_params, "");
            proof {
                reveal_strlit("");
                assert(""@ =~= Seq::<char>::empty());
            }
            append_str(out, "\n");
            assert(out@ =~= start + global_text(Some(g@)));
        },
        None => {
            assert(out@ =~= start + Seq::<char>::empty());
        },
    }
}

fn push_columns(out: &mut Vec<char>, cols: &Option<Vec<String>>)
    ensures
        final(out)@ == old(out)@ + columns_text(crate::cli_overrides::opt_list_view(*cols)),
{
    let ghost start = out@;
    match cols {
        Some(c) => {
            append_str(out, "layout_columns = [\n");
            let ghost mid = out@;
            let mut i: usize = 0;
            while i < c.len()
                invariant
                    i <= c.len(),
                    out@ == mid + columns_items(string_views(c@.take(i as int))),
                decreases c.len() - i,
            {
                proof {
                    assert(string_views(c@.take(i + 1)).drop_last() =~= string_views(
                        c@.take(i as int),
                    ));
                    assert(string_views(c@.take(i + 1)).last() == c@[i as int]@);
                }
                if i > 0 {
                    append_str(out, ",\n");
                }
                append_str(out, "  \"");
                append_str(out, c[i].as_str());
                append_str(out, "\"");
                assert(out@ =~= mid + columns_items(string_views(c@.take(i + 1))));
                i = i + 1;
            }
            assert(c@.take(c.len() as int) =~= c@);
            append_str(out, "]\n");
            assert(out@ =~= start + columns_text(Some(string_views(c@))));
        },
        None => {
            assert(out@ =~= start + Seq::<char>::empty());
        },
    }
}

fn push_section_fields(out: &mut Vec<char>, t: &TcodeConfig)
    ensures
        final(out)@ == old(out)@ + section_fields(t@),
{
    let ghost start = out@;
    push_opt_quoted_line(out, "variant", &t.variant);
    push_opt_quoted_line(out, "layout", &t.layout);
    push_opt_quoted_line(out, "column_name", &t.column_name);
    push_opt_quoted_line(out, "date_range_start", &t.date_range_start);
    push_opt_quoted_line(out, "date_range_end", &t.date_range_end);
    push_opt_quoted_line(out, "by_date", &t.by_date);
    push_opt_quoted_line(out, "serial_number", &t.serial_number);
    push_opt_quoted_line(out, "tab_number", &t.tab_number);
    push_opt_num_line(out, "export_type", opt_u8_u64(t.export_type));
    assert(out@ =~= start + section_fields(t@));
}

fn push_section(out: &mut Vec<char>, name: &String, t: &TcodeConfig)
    ensures
        final(out)@ == old(out)@ + section_text(name@, t@),
{
    let ghost start = out@;
    append_str(out, "[tcode.");
    append_str(out, name.as_str());
    append_str(out, "]\n");
    push_section_fields(out, t);
    push_columns(out, &t.layout_columns);
    push_params(out, &t.additional_params, "");
    proof {
        reveal_strlit("");
        assert(""@ =~= Seq::<char>::empty());
    }
    append_str(out, "\n");
    assert(out@ =~= start + section_text(name@, t@));
}

fn push_sections(out: &mut Vec<char>, m: &Option<TcodeMap>)
    ensures
        final(out)@ == old(out)@ + tcode_text(crate::config_types::tcode_map_view(*m)),
{
    let ghost start = out@;
    match m {
        Some(m) => {
            let mut i: usize = 0;
            while i < m.len()
                invariant
                    i <= m@.len(),
                    out@ == start + sections_text(m@.take(i as int)),
                decreases m@.len() - i,
            {
                proof {
                    assert(m@.take(i + 1).drop_last() =~= m@.take(i as int));
                    assert(m@.take(i + 1).last() == m@[i as int]);
                }
                let (name, t) = m.entry(i);
                push_section(out, name, t);
                assert(out@ =~= start + sections_text(m@.take(i + 1)));
                i = i + 1;
            }
            assert(m@.take(m@.len() as int) =~= m@);
        },
        None => {
            assert(out@ =~= start + Seq::<char>::empty());
        },
    }
}

fn push_loop(out: &mut Vec<char>, l: &Option<LoopConfig>)
    ensures
        final(out)@ == old(out)@ + loop_text(crate::config_types::loop_view(*l)),
{
    let ghost start = out@;
    match l {
        Some(l) => {
            append_str(out, "[loop]\n");
            push_quoted_line(out, "tcode", l.tcode.as_str());
            push_quoted_line(out, "iterations", l.iterations.as_str());
            push_quoted_line(out, "delay_seconds", l.delay_seconds.as_str());
            push_params(out, &l.params, "param_");
            append_str(out, "\n");
            assert(out@ =~= start + loop_text(Some(l@)));
        },
        None => {
            assert(out@ =~= start + Seq::<char>::empty());
        },
    }
}

fn push_sequence(out: &mut Vec<char>, s: &Option<SequenceConfig>)
    ensures
        final(out)@ == old(out)@ + sequence_text(crate::config_types::sequence_view(*s)),
{
    let ghost start = out@;
    match s {
        Some(s) => {
            append_str(out, "[sequence]\n");
            let ghost head = out@;
            if s.options.len() > 0 {
                append_str(out, "options = [");
                let ghost mid = out@;
                let mut i: usize = 0;
                while i < s.options.len()
                    invariant
                        i <= s.options.len(),
                        out@ == mid + options_items(string_views(s.options@.take(i as int))),
                    decreases s.options.len() - i,
                {
                    proof {
                        assert(string_views(s.options@.take(i + 1)).drop_last() =~= string_views(
                            s.options@.take(i as int),
                        ));
                        assert(string_views(s.options@.take(i + 1)).last() == s.options@[i as int]@);
                    }
                    if i > 0 {
                        append_str(out, ", ");
                    }
                    append_str(out, "\"");
                    append_str(out, s.options[i].as_str());
                    append_str(out, "\"");
                    assert(out@ =~= mid + options_items(string_views(s.options@.take(i + 1))));
                    i = i + 1;
                }
                assert(s.options@.take(s.options.len() as int) =~= s.options@);
                append_str(out, "]\n");
            }
            push_quoted_line(out, "iterations", s.iterations.as_str());
            push_quoted_line(out, "delay_seconds", s.delay_seconds.as_str());
            push_quoted_line(out, "interval_seconds", s.interval_seconds.as_str());
            push_params(out, &s.params, "param_");
            append_str(out, "\n");
            assert(out@ =~= start + sequence_text(Some(s@)));
        },
        None => {
            assert(out@ =~= start + Seq::<char>::empty());
        },
    }
}

impl SapConfig {
    /// The text to write to `config.toml`: the document's other tables as they
    /// were read, then `[build]`, `[global]`, each `[tcode.X]`, `[loop]` and
    /// `[sequence]`.
    pub fn to_toml_string(&self) -> (r: String)
        ensures
            r@ == config_text(self@),
    {
        let mut out: Vec<char> = Vec::new();
        push_preserved(&mut out, &self.raw_config);
        push_build(&mut out, &self.build);
        push_global(&mut out, &self.global);
        push_sections(&mut out, &self.tcode);
        push_loop(&mut out, &self.loop_config);
        push_sequence(&mut out, &self.sequence);
        assert(out@ =~= config_text(self@));
        string_of(out.as_slice())
    }
}

} // verus!
