//! Reading a configuration from the text of `config.toml`.
use crate::assoc::{assoc_insert, StrMap};
use crate::cli_overrides::CliOverrides;
use crate::config_ops::applied;
use crate::config_types::{
    default_build_target_text, default_date_format, default_date_format_text,
    default_delay_seconds, default_delay_seconds_text, default_instance_id,
    default_instance_id_text, default_interval_seconds, default_interval_seconds_text,
    default_iterations, default_iterations_text, default_timezone, default_timezone_text,
    fresh_config, BuildConfig, BuildView, GlobalConfig, GlobalView, LoopConfig, LoopView,
    SapConfig, SapConfigView, SequenceConfig, SequenceView, TcodeConfig, TcodeMap, TcodeView,
};
use crate::text::{
    chars_of, double_backslashes, double_backslashes_str, owned, parse_u8, parse_u8_spec,
    str_eq, string_views,
};
use crate::toml_doc::{
    as_str, as_str_array, as_table, find_entry, get_table, parse_toml, table_get, toml_parse,
    value_get, TomlEntry, TomlValue,
};
use vstd::prelude::*;

verus! {

// ---------------------------------------------------------------------------
// Specification
// ---------------------------------------------------------------------------

/// `k` is one of `names`.
pub open spec fn one_of(k: Seq<char>, names: Seq<&'static str>) -> bool {
    exists|i: int| 0 <= i < names.len() && names[i]@ == k
}

/// The string entries of a table whose keys are not in `excluded`, in order.
pub open spec fn string_params(t: Seq<TomlEntry>, excluded: Seq<&'static str>) -> Seq<(Seq<char>, Seq<char>)>
    decreases t.len(),
{
    if t.len() == 0 {
        Seq::empty()
    } else {
        let init = string_params(t.drop_last(), excluded);
        let e = t.last();
        match e.value {
            TomlValue::Str(s) => if one_of(e.key@, excluded) {
                init
            } else {
                assoc_insert(init, e.key@, s@)
            },
            _ => init,
        }
    }
}

pub open spec fn str_or(v: Option<Seq<char>>, d: Seq<char>) -> Seq<char> {
    match v { Some(s) => s, None => d }
}

/// An export type given as an integer (truncated to a byte) or as text.
pub open spec fn export_type_of(v: Option<TomlValue>) -> Option<u8> {
    match v {
        Some(TomlValue::Int(i)) => Some(i as u8),
        Some(TomlValue::Str(s)) => parse_u8_spec(s@),
        _ => None,
    }
}

pub open spec fn build_keys() -> Seq<&'static str> {
    seq!["target"]
}

pub open spec fn global_keys() -> Seq<&'static str> {
    seq![
        "instance_id",
        "reports_dir",
        "default_tcode",
        "default_menu_option",
        "date_format",
        "timezone",
        "default_export_type",
    ]
}

pub open spec fn tcode_keys() -> Seq<&'static str> {
    seq![
        "variant",
        "layout",
        "column_name",
        "date_range_start",
        "date_range_end",
        "by_date",
        "by_delivery",
        "serial_number",
        "tab_number",
        "export_type",
        "add_layout_columns",
        "layout_columns",
    ]
}

pub open spec fn loop_keys() -> Seq<&'static str> {
    seq!["tcode", "iterations", "delay_seconds"]
}

pub open spec fn sequence_keys() -> Seq<&'static str> {
    seq!["options", "iterations", "delay_seconds", "interval_seconds"]
}


/// `[build]` read from its table.
pub open spec fn build_from(t: Seq<TomlEntry>) -> BuildView {
    BuildView {
        target: str_or(as_str(table_get(t, "target"@)), default_build_target_text()),
        additional_params: string_params(t, build_keys()),
    }
}

/// `[global]` read from its table; the reports directory gets its
/// backslashes doubled.
pub open spec fn global_from(t: Seq<TomlEntry>, default_reports_dir: Seq<char>) -> GlobalView {
    GlobalView {
        instance_id: str_or(as_str(table_get(t, "instance_id"@)), default_instance_id_text()),
        reports_dir: match as_str(table_get(t, "reports_dir"@)) {
            Some(d) => double_backslashes(d),
            None => default_reports_dir,
        },
        default_tcode: as_str(table_get(t, "default_tcode"@)),
        default_menu_option: match table_get(t, "default_menu_option"@) {
            Some(TomlValue::Int(i)) => Some(i as usize),
            _ => None,
        },
        date_format: str_or(as_str(table_get(t, "date_format"@)), default_date_format_text()),
        timezone: str_or(as_str(table_get(t, "timezone"@)), default_timezone_text()),
        default_export_type: export_type_of(table_get(t, "default_export_type"@)),
        additional_params: string_params(t, global_keys()),
    }
}

/// A `[tcode.X]` section read from its table.
pub open spec fn section_from(t: Seq<TomlEntry>) -> TcodeView {
    TcodeView {
        variant: as_str(table_get(t, "variant"@)),
        layout: as_str(table_get(t, "layout"@)),
        column_name: as_str(table_get(t, "column_name"@)),
        date_range_start: as_str(table_get(t, "date_range_start"@)),
        date_range_end: as_str(table_get(t, "date_range_end"@)),
        by_date: as_str(table_get(t, "by_date"@)),
        by_delivery: as_str(table_get(t, "by_delivery"@)),
        serial_number: as_str(table_get(t, "serial_number"@)),
        tab_number: as_str(table_get(t, "tab_number"@)),
        export_type: export_type_of(table_get(t, "export_type"@)),
        layout_columns: as_str_array(table_get(t, "layout_columns"@)),
        plants: as_str_array(table_get(t, "plants"@)),
        additional_params: string_params(t, tcode_keys()),
    }
}

/// The `[tcode]` table's sub-tables, in the order the parsed table lists
/// them, as sections.
pub open spec fn sections_from(t: Seq<TomlEntry>) -> Seq<(Seq<char>, TcodeView)>
    decreases t.len(),
{
    if t.len() == 0 {
        Seq::empty()
    } else {
        let init = sections_from(t.drop_last());
        let e = t.last();
        match e.value {
            TomlValue::Table(s) => assoc_insert(init, e.key@, section_from(s@)),
            _ => init,
        }
    }
}

/// `[loop]` read from its table.
pub open spec fn loop_from(t: Seq<TomlEntry>) -> LoopView {
    LoopView {
        tcode: str_or(as_str(table_get(t, "tcode"@)), Seq::empty()),
        tcode_run_type: as_str(table_get(t, "tcode_run_type"@)),
        iterations: str_or(as_str(table_get(t, "iterations"@)), default_iterations_text()),
        delay_seconds: str_or(as_str(table_get(t, "delay_seconds"@)), default_delay_seconds_text()),
        params: string_params(t, loop_keys()),
    }
}

/// `[sequence]` read from its table.
pub open spec fn sequence_from(t: Seq<TomlEntry>) -> SequenceView {
    SequenceView {
        options: match as_str_array(table_get(t, "options"@)) {
            Some(o) => o,
            None => Seq::empty(),
        },
        iterations: str_or(as_str(table_get(t, "iterations"@)), default_iterations_text()),
        delay_seconds: str_or(as_str(table_get(t, "delay_seconds"@)), default_delay_seconds_text()),
        interval_seconds: str_or(
            as_str(table_get(t, "interval_seconds"@)),
            default_interval_seconds_text(),
        ),
        params: string_params(t, sequence_keys()),
    }
}

/// The configuration read from a parsed document: `[build]` always; the
/// other sections only when the document has `[global]` or `[tcode]` (the
/// current format).
pub open spec fn from_document(base: SapConfigView, doc: TomlValue) -> SapConfigView {
    let c0 = SapConfigView { raw_config: Some(doc), ..base };
    let c1 = match as_table(value_get(doc, "build"@)) {
        Some(b) => SapConfigView { build: Some(build_from(b)), ..c0 },
        None => c0,
    };
    if value_get(doc, "global"@) is Some || value_get(doc, "tcode"@) is Some {
        let c2 = match as_table(value_get(doc, "global"@)) {
            Some(g) => SapConfigView { global: Some(global_from(g, base.default_reports_dir)), ..c1 },
            None => c1,
        };
        let c3 = match as_table(value_get(doc, "tcode"@)) {
            Some(t) => SapConfigView { tcode: Some(sections_from(t)), ..c2 },
            None => c2,
        };
        let c4 = match as_table(value_get(doc, "loop"@)) {
            Some(l) => SapConfigView { loop_config: Some(loop_from(l)), ..c3 },
            None => c3,
        };
        match as_table(value_get(doc, "sequence"@)) {
            Some(s) => SapConfigView { sequence: Some(sequence_from(s)), ..c4 },
            None => c4,
        }
    } else {
        c1
    }
}

/// The text of a load error.
pub open spec fn parse_error_message(e: Seq<char>) -> Seq<char> {
    "Failed to parse config: "@ + e
}

/// What loading yields: the file's configuration (or the defaults when the
/// file could not be read) with the overrides merged in, or the parse error.
pub open spec fn loaded(
    path: Seq<char>,
    content: Option<Seq<char>>,
    default_reports_dir: Seq<char>,
    o: crate::cli_overrides::OverridesView,
) -> Result<SapConfigView, Seq<char>> {
    let base = SapConfigView { config_path: path, ..fresh_config(default_reports_dir) };
    match content {
        None => Ok(applied(base, o)),
        Some(text) => match toml_parse(text) {
            Ok(doc) => Ok(applied(from_document(base, doc), o)),
            Err(e) => Err(parse_error_message(e)),
        },
    }
}

// ---------------------------------------------------------------------------
// Implementation
// ---------------------------------------------------------------------------

fn is_one_of(k: &str, names: &[&'static str]) -> (r: bool)
    ensures
        r == one_of(k@, names@),
{
    let mut i: usize = 0;
    while i < names.len()
        invariant
            i <= names.len(),
            forall|j: int| 0 <= j < i ==> names@[j]@ != k@,
        decreases names.len() - i,
    {
        if str_eq(names[i], k) {
            return true;
        }
        i = i + 1;
    }
    false
}

fn string_params_exec(t: &Vec<TomlEntry>, excluded: &[&'static str]) -> (r: StrMap)
    ensures
        r@ == string_params(t@, excluded@),
{
    let mut m = StrMap::new();
    let mut i: usize = 0;
    while i < t.len()
        invariant
            i <= t.len(),
            m@ == string_params(t@.take(i as int), excluded@),
        decreases t.len() - i,
    {
        proof {
            assert(t@.take(i + 1).drop_last() =~= t@.take(i as int));
            assert(t@.take(i + 1).last() == t@[i as int]);
        }
        match &t[i].value {
            TomlValue::Str(s) => {
                if !is_one_of(t[i].key.as_str(), excluded) {
                    m.insert(t[i].key.clone(), s.clone());
                }
            },
            _ => {},
        }
        i = i + 1;
    }
    assert(t@.take(t.len() as int) =~= t@);
    m
}

fn entry_value<'a>(t: &'a Vec<TomlEntry>, key: &str) -> (r: Option<&'a TomlValue>)
    ensures
        match r {
            Some(x) => table_get(t@, key@) == Some(*x),
            None => table_get(t@, key@) is None,
        },
{
    match find_entry(t, key) {
        Some(i) => {
            proof {
                crate::assoc::lemma_first_unique(crate::toml_doc::table_keys(t@), key@, i as int);
            }
            Some(&t[i].value)
        },
        None => None,
    }
}

fn entry_str(t: &Vec<TomlEntry>, key: &str) -> (r: Option<String>)
    ensures
        crate::cli_overrides::opt_view(r) == as_str(table_get(t@, key@)),
{
    match entry_value(t, key) {
        Some(TomlValue::Str(s)) => Some(s.clone()),
        _ => None,
    }
}

fn entry_str_or(t: &Vec<TomlEntry>, key: &str, d: String) -> (r: String)
    ensures
        r@ == str_or(as_str(table_get(t@, key@)), d@),
{
    match entry_value(t, key) {
        Some(TomlValue::Str(s)) => s.clone(),
        _ => d,
    }
}

fn entry_str_array(t: &Vec<TomlEntry>, key: &str) -> (r: Option<Vec<String>>)
    ensures
        crate::cli_overrides::opt_list_view(r) == as_str_array(table_get(t@, key@)),
{
    match entry_value(t, key) {
        Some(TomlValue::Array(a)) => Some(crate::toml_doc::str_elements(a)),
        _ => None,
    }
}

fn entry_export_type(t: &Vec<TomlEntry>, key: &str) -> (r: Option<u8>)
    ensures
        r == export_type_of(table_get(t@, key@)),
{
    match entry_value(t, key) {
        Some(TomlValue::Int(i)) => Some(*i as u8),
        Some(TomlValue::Str(s)) => parse_u8(s.as_str()),
        _ => None,
    }
}

fn build_exec(t: &Vec<TomlEntry>) -> (r: BuildConfig)
    ensures
        r@ == build_from(t@),
{
    let keys: [&'static str; 1] = ["target"];
    assert(keys@ =~= build_keys());
    BuildConfig {
        target: entry_str_or(t, "target", owned("i686-pc-windows-msvc")),
        additional_params: string_params_exec(t, &keys),
    }
}

fn global_exec(t: &Vec<TomlEntry>, default_reports_dir: &String) -> (r: GlobalConfig)
    ensures
        r@ == global_from(t@, default_reports_dir@),
{
    let keys: [&'static str; 7] = [
        "instance_id",
        "reports_dir",
        "default_tcode",
        "default_menu_option",
        "date_format",
        "timezone",
        "default_export_type",
    ];
    assert(keys@ =~= global_keys());
    let reports_dir = match entry_value(t, "reports_dir") {
        Some(TomlValue::Str(d)) => double_backslashes_str(d.as_str()),
        _ => default_reports_dir.clone(),
    };
    let menu = match entry_value(t, "default_menu_option") {
        Some(TomlValue::Int(i)) => Some(*i as usize),
        _ => None,
    };
    GlobalConfig {
        instance_id: entry_str_or(t, "instance_id", default_instance_id()),
        reports_dir,
        default_tcode: entry_str(t, "default_tcode"),
        default_menu_option: menu,
        date_format: entry_str_or(t, "date_format", default_date_format()),
        timezone: entry_str_or(t, "timezone", default_timezone()),
        default_export_type: entry_export_type(t, "default_export_type"),
        additional_params: string_params_exec(t, &keys),
    }
}

fn section_exec(t: &Vec<TomlEntry>) -> (r: TcodeConfig)
    ensures
        r@ == section_from(t@),
{
    let keys: [&'static str; 12] = [
        "variant",
        "layout",
        "column_name",
        "date_range_start",
        "date_range_end",
        "by_date",
        "by_delivery",
        "serial_number",
        "tab_number",
        "export_type",
        "add_layout_columns",
        "layout_columns",
    ];
    assert(keys@ =~= tcode_keys());
    TcodeConfig {
        variant: entry_str(t, "variant"),
        layout: entry_str(t, "layout"),
        column_name: entry_str(t, "column_name"),
        date_range_start: entry_str(t, "date_range_start"),
        date_range_end: entry_str(t, "date_range_end"),
        by_date: entry_str(t, "by_date"),
        by_delivery: entry_str(t, "by_delivery"),
        serial_number: entry_str(t, "serial_number"),
        tab_number: entry_str(t, "tab_number"),
        export_type: entry_export_type(t, "export_type"),
        layout_columns: entry_str_array(t, "layout_columns"),
        plants: entry_str_array(t, "plants"),
        additional_params: string_params_exec(t, &keys),
    }
}

fn sections_exec(t: &Vec<TomlEntry>) -> (r: TcodeMap)
    ensures
        r@ == sections_from(t@),
{
    let mut m = TcodeMap::new();
    let mut i: usize = 0;
    while i < t.len()
        invariant
            i <= t.len(),
            m@ == sections_from(t@.take(i as int)),
        decreases t.len() - i,
    {
        proof {
            assert(t@.take(i + 1).drop_last() =~= t@.take(i as int));
            assert(t@.take(i + 1).last() == t@[i as int]);
        }
        match &t[i].value {
            TomlValue::Table(s) => {
                m.insert(t[i].key.clone(), section_exec(s));
            },
            _ => {},
        }
        i = i + 1;
    }
    assert(t@.take(t.len() as int) =~= t@);
    m
}

fn loop_exec(t: &Vec<TomlEntry>) -> (r: LoopConfig)
    ensures
        r@ == loop_from(t@),
{
    let keys: [&'static str; 3] = ["tcode", "iterations", "delay_seconds"];
    assert(keys@ =~= loop_keys());
    LoopConfig {
        tcode: entry_str_or(t, "tcode", String::new()),
        tcode_run_type: entry_str(t, "tcode_run_type"),
        iterations: entry_str_or(t, "iterations", default_iterations()),
        delay_seconds: entry_str_or(t, "delay_seconds", default_delay_seconds()),
        params: string_params_exec(t, &keys),
    }
}

fn sequence_exec(t: &Vec<TomlEntry>) -> (r: SequenceConfig)
    ensures
        r@ == sequence_from(t@),
{
    let keys: [&'static str; 4] = ["options", "iterations", "delay_seconds", "interval_seconds"];
    assert(keys@ =~= sequence_keys());
    let options = match entry_str_array(t, "options") {
        Some(o) => o,
        None => {
            let v: Vec<String> = Vec::new();
            assert(string_views(v@) =~= Seq::<Seq<char>>::empty());
            v
        },
    };
    SequenceConfig {
        options,
        iterations: entry_str_or(t, "iterations", default_iterations()),
        delay_seconds: entry_str_or(t, "delay_seconds", default_delay_seconds()),
        interval_seconds: entry_str_or(t, "interval_seconds", default_interval_seconds()),
        params: string_params_exec(t, &keys),
    }
}

impl SapConfig {
    /// Fills this configuration from a parsed document (see `from_document`).
    pub fn read_document(&mut self, doc: TomlValue)
        ensures
            final(self)@ == from_document(old(self)@, doc),
    {
        if let Some(b) = get_table(&doc, "build") {
            self.build = Some(build_exec(b));
        }
        let is_new_format = crate::toml_doc::get(&doc, "global").is_some()
            || crate::toml_doc::get(&doc, "tcode").is_some();
        if is_new_format {
            if let Some(g) = get_table(&doc, "global") {
                self.global = Some(global_exec(g, &self.default_reports_dir));
            }
            if let Some(t) = get_table(&doc, "tcode") {
                self.tcode = Some(sections_exec(t));
            }
            if let Some(l) = get_table(&doc, "loop") {
                self.loop_config = Some(loop_exec(l));
            }
            if let Some(s) = get_table(&doc, "sequence") {
                self.sequence = Some(sequence_exec(s));
            }
        }
        self.raw_config = Some(doc);
    }

    /// The configuration of the file at `path`, whose text is `content`
    /// (`None` when the file could not be read: the defaults are used), with
    /// the command-line overrides merged in last so that they always win.
    pub fn load_from_path(
        path: &str,
        content: Option<&str>,
        default_reports_dir: &str,
        overrides: &CliOverrides,
    ) -> (r: Result<SapConfig, String>)
        ensures
            match r {
                Ok(c) => loaded(path@, opt_str_view(content), default_reports_dir@, overrides@)
                    == Ok::<SapConfigView, Seq<char>>(c@),
                Err(e) => loaded(path@, opt_str_view(content), default_reports_dir@, overrides@)
                    == Err::<SapConfigView, Seq<char>>(e@),
            },
    {
        let mut config = SapConfig::new(default_reports_dir);
        config.config_path = owned(path);
        if let Some(text) = content {
            match parse_toml(text) {
                Ok(doc) => {
                    config.read_document(doc);
                },
                Err(e) => {
                    let mut msg = chars_of("Failed to parse config: ");
                    crate::text::append_str(&mut msg, e.as_str());
                    return Err(crate::text::string_of(msg.as_slice()));
                },
            }
        }
        config.apply_overrides_with(overrides);
        Ok(config)
    }
}

/// The view of an optional string slice.
pub open spec fn opt_str_view(o: Option<&str>) -> Option<Seq<char>> {
    match o { Some(s) => Some(s@), None => None }
}

} // verus!
