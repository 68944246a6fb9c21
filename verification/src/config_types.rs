//! The configuration model: `[global]`, `[build]`, `[tcode.X]`, `[loop]` and
//! `[sequence]` sections of `config.toml`, with their mathematical views.
use crate::assoc::{
    assoc_get, assoc_insert, entry_keys, find_key, keys_of, lemma_first_unique, StrMap,
};
use crate::cli_overrides::{opt_list_view, opt_view};
use crate::text::{owned, string_views};
use crate::toml_doc::TomlValue;
use vstd::prelude::*;

verus! {

// ---------------------------------------------------------------------------
// Defaults
// ---------------------------------------------------------------------------

pub open spec fn default_instance_id_text() -> Seq<char> {
    "default"@
}

pub open spec fn default_date_format_text() -> Seq<char> {
    "mm/dd/yyyy"@
}

pub open spec fn default_timezone_text() -> Seq<char> {
    "UTC"@
}

pub open spec fn default_iterations_text() -> Seq<char> {
    "1"@
}

pub open spec fn default_delay_seconds_text() -> Seq<char> {
    "60"@
}

pub open spec fn default_interval_seconds_text() -> Seq<char> {
    "10"@
}

pub open spec fn default_build_target_text() -> Seq<char> {
    "i686-pc-windows-msvc"@
}

/// Menu entry preselected when the configuration names none.
pub open spec fn default_menu_option_value() -> usize {
    0
}

pub fn default_instance_id() -> (r: String)
    ensures
        r@ == default_instance_id_text(),
{
    owned("default")
}

pub fn default_date_format() -> (r: String)
    ensures
        r@ == default_date_format_text(),
{
    owned("mm/dd/yyyy")
}

pub fn default_timezone() -> (r: String)
    ensures
        r@ == default_timezone_text(),
{
    owned("UTC")
}

pub fn default_iterations() -> (r: String)
    ensures
        r@ == default_iterations_text(),
{
    owned("1")
}

pub fn default_delay_seconds() -> (r: String)
    ensures
        r@ == default_delay_seconds_text(),
{
    owned("60")
}

pub fn default_interval_seconds() -> (r: String)
    ensures
        r@ == default_interval_seconds_text(),
{
    owned("10")
}

pub fn get_default_menu_option() -> (r: usize)
    ensures
        r == default_menu_option_value(),
{
    0
}

// ---------------------------------------------------------------------------
// Sections
// ---------------------------------------------------------------------------

/// `[global]`.
#[derive(Debug)]
pub struct GlobalConfig {
    pub instance_id: String,
    pub reports_dir: String,
    pub default_tcode: Option<String>,
    pub default_menu_option: Option<usize>,
    pub date_format: String,
    pub timezone: String,
    pub default_export_type: Option<u8>,
    pub additional_params: StrMap,
}

pub struct GlobalView {
    pub instance_id: Seq<char>,
    pub reports_dir: Seq<char>,
    pub default_tcode: Option<Seq<char>>,
    pub default_menu_option: Option<usize>,
    pub date_format: Seq<char>,
    pub timezone: Seq<char>,
    pub default_export_type: Option<u8>,
    pub additional_params: Seq<(Seq<char>, Seq<char>)>,
}

impl View for GlobalConfig {
    type V = GlobalView;

    open spec fn view(&self) -> GlobalView {
        GlobalView {
            instance_id: self.instance_id@,
            reports_dir: self.reports_dir@,
            default_tcode: opt_view(self.default_tcode),
            default_menu_option: self.default_menu_option,
            date_format: self.date_format@,
            timezone: self.timezone@,
            default_export_type: self.default_export_type,
            additional_params: self.additional_params@,
        }
    }
}

/// The `[global]` section that a configuration gets when it has none.
pub open spec fn default_global(reports_dir: Seq<char>) -> GlobalView {
    GlobalView {
        instance_id: default_instance_id_text(),
        reports_dir: reports_dir,
        default_tcode: None,
        default_menu_option: Some(default_menu_option_value()),
        date_format: default_date_format_text(),
        timezone: default_timezone_text(),
        default_export_type: None,
        additional_params: Seq::empty(),
    }
}

impl GlobalConfig {
    /// The default `[global]` section, with the given reports directory.
    pub fn with_reports_dir(reports_dir: String) -> (r: GlobalConfig)
        ensures
            r@ == default_global(reports_dir@),
    {
        GlobalConfig {
            instance_id: default_instance_id(),
            reports_dir: reports_dir,
            default_tcode: None,
            default_menu_option: Some(get_default_menu_option()),
            date_format: default_date_format(),
            timezone: default_timezone(),
            default_export_type: None,
            additional_params: StrMap::new(),
        }
    }
}

/// `[build]`.
#[derive(Debug)]
pub struct BuildConfig {
    pub target: String,
    pub additional_params: StrMap,
}

pub struct BuildView {
    pub target: Seq<char>,
    pub additional_params: Seq<(Seq<char>, Seq<char>)>,
}

impl View for BuildConfig {
    type V = BuildView;

    open spec fn view(&self) -> BuildView {
        BuildView { target: self.target@, additional_params: self.additional_params@ }
    }
}

/// `[tcode.X]`: settings of one transaction.
#[derive(Debug)]
pub struct TcodeConfig {
    pub variant: Option<String>,
    pub layout: Option<String>,
    pub column_name: Option<String>,
    pub date_range_start: Option<String>,
    pub date_range_end: Option<String>,
    pub by_date: Option<String>,
    pub by_delivery: Option<String>,
    pub serial_number: Option<String>,
    pub tab_number: Option<String>,
    pub export_type: Option<u8>,
    pub layout_columns: Option<Vec<String>>,
    pub plants: Option<Vec<String>>,
    pub additional_params: StrMap,
}

pub struct TcodeView {
    pub variant: Option<Seq<char>>,
    pub layout: Option<Seq<char>>,
    pub column_name: Option<Seq<char>>,
    pub date_range_start: Option<Seq<char>>,
    pub date_range_end: Option<Seq<char>>,
    pub by_date: Option<Seq<char>>,
    pub by_delivery: Option<Seq<char>>,
    pub serial_number: Option<Seq<char>>,
    pub tab_number: Option<Seq<char>>,
    pub export_type: Option<u8>,
    pub layout_columns: Option<Seq<Seq<char>>>,
    pub plants: Option<Seq<Seq<char>>>,
    pub additional_params: Seq<(Seq<char>, Seq<char>)>,
}

impl View for TcodeConfig {
    type V = TcodeView;

    open spec fn view(&self) -> TcodeView {
        TcodeView {
            variant: opt_view(self.variant),
            layout: opt_view(self.layout),
            column_name: opt_view(self.column_name),
            date_range_start: opt_view(self.date_range_start),
            date_range_end: opt_view(self.date_range_end),
            by_date: opt_view(self.by_date),
            by_delivery: opt_view(self.by_delivery),
            serial_number: opt_view(self.serial_number),
            tab_number: opt_view(self.tab_number),
            export_type: self.export_type,
            layout_columns: opt_list_view(self.layout_columns),
            plants: opt_list_view(self.plants),
            additional_params: self.additional_params@,
        }
    }
}

/// A `[tcode.X]` section with nothing set.
pub open spec fn empty_tcode() -> TcodeView {
    TcodeView {
        variant: None,
        layout: None,
        column_name: None,
        date_range_start: None,
        date_range_end: None,
        by_date: None,
        by_delivery: None,
        serial_number: None,
        tab_number: None,
        export_type: None,
        layout_columns: None,
        plants: None,
        additional_params: Seq::empty(),
    }
}

impl Default for TcodeConfig {
    fn default() -> (r: TcodeConfig)
        ensures
            r@ == empty_tcode(),
    {
        TcodeConfig {
            variant: None,
            layout: None,
            column_name: None,
            date_range_start: None,
            date_range_end: None,
            by_date: None,
            by_delivery: None,
            serial_number: None,
            tab_number: None,
            export_type: None,
            layout_columns: None,
            plants: None,
            additional_params: StrMap::new(),
        }
    }
}

fn copy_opt(o: &Option<String>) -> (r: Option<String>)
    ensures
        opt_view(r) == opt_view(*o),
{
    match o {
        Some(s) => Some(s.clone()),
        None => None,
    }
}

/// A copy of a list of strings.
pub fn copy_list(v: &Vec<String>) -> (r: Vec<String>)
    ensures
        string_views(r@) == string_views(v@),
{
    let mut out: Vec<String> = Vec::new();
    let mut i: usize = 0;
    while i < v.len()
        invariant
            i <= v.len(),
            out@.len() == i,
            forall|j: int| 0 <= j < i ==> out@[j]@ == v@[j]@,
        decreases v.len() - i,
    {
        out.push(v[i].clone());
        i = i + 1;
    }
    assert(string_views(out@) =~= string_views(v@));
    out
}

fn copy_opt_list(o: &Option<Vec<String>>) -> (r: Option<Vec<String>>)
    ensures
        opt_list_view(r) == opt_list_view(*o),
{
    match o {
        Some(v) => Some(copy_list(v)),
        None => None,
    }
}

impl TcodeConfig {
    /// A copy of the section.
    pub fn duplicate(&self) -> (r: TcodeConfig)
        ensures
            r@ == self@,
    {
        TcodeConfig {
            variant: copy_opt(&self.variant),
            layout: copy_opt(&self.layout),
            column_name: copy_opt(&self.column_name),
            date_range_start: copy_opt(&self.date_range_start),
            date_range_end: copy_opt(&self.date_range_end),
            by_date: copy_opt(&self.by_date),
            by_delivery: copy_opt(&self.by_delivery),
            serial_number: copy_opt(&self.serial_number),
            tab_number: copy_opt(&self.tab_number),
            export_type: self.export_type,
            layout_columns: copy_opt_list(&self.layout_columns),
            plants: copy_opt_list(&self.plants),
            additional_params: self.additional_params.duplicate(),
        }
    }
}

/// `[loop]`: one transaction run repeatedly.
#[derive(Debug)]
pub struct LoopConfig {
    pub tcode: String,
    pub tcode_run_type: Option<String>,
    pub iterations: String,
    pub delay_seconds: String,
    pub params: StrMap,
}

pub struct LoopView {
    pub tcode: Seq<char>,
    pub tcode_run_type: Option<Seq<char>>,
    pub iterations: Seq<char>,
    pub delay_seconds: Seq<char>,
    pub params: Seq<(Seq<char>, Seq<char>)>,
}

impl View for LoopConfig {
    type V = LoopView;

    open spec fn view(&self) -> LoopView {
        LoopView {
            tcode: self.tcode@,
            tcode_run_type: opt_view(self.tcode_run_type),
            iterations: self.iterations@,
            delay_seconds: self.delay_seconds@,
            params: self.params@,
        }
    }
}

/// `[sequence]`: menu options run one after another.
#[derive(Debug)]
pub struct SequenceConfig {
    pub options: Vec<String>,
    pub iterations: String,
    pub delay_seconds: String,
    pub interval_seconds: String,
    pub params: StrMap,
}

pub struct SequenceView {
    pub options: Seq<Seq<char>>,
    pub iterations: Seq<char>,
    pub delay_seconds: Seq<char>,
    pub interval_seconds: Seq<char>,
    pub params: Seq<(Seq<char>, Seq<char>)>,
}

impl View for SequenceConfig {
    type V = SequenceView;

    open spec fn view(&self) -> SequenceView {
        SequenceView {
            options: string_views(self.options@),
            iterations: self.iterations@,
            delay_seconds: self.delay_seconds@,
            interval_seconds: self.interval_seconds@,
            params: self.params@,
        }
    }
}

// ---------------------------------------------------------------------------
// The `[tcode.X]` sections, by name
// ---------------------------------------------------------------------------

/// The `[tcode.X]` sections, in the order they were read or added (the
/// parsed document lists a table's keys sorted), keyed by section name.
#[derive(Debug)]
pub struct TcodeMap {
    entries: Vec<(String, TcodeConfig)>,
}

impl View for TcodeMap {
    type V = Seq<(Seq<char>, TcodeView)>;

    closed spec fn view(&self) -> Seq<(Seq<char>, TcodeView)> {
        Seq::new(self.entries@.len(), |i: int| (self.entries@[i].0@, self.entries@[i].1@))
    }
}

impl TcodeMap {
    proof fn lemma_keys(&self)
        ensures
            keys_of(self@) == entry_keys(self.entries@),
            self@.len() == self.entries@.len(),
    {
        assert(keys_of(self@) =~= entry_keys(self.entries@));
    }

    pub fn new() -> (r: TcodeMap)
        ensures
            r@ == Seq::<(Seq<char>, TcodeView)>::empty(),
    {
        let r = TcodeMap { entries: Vec::new() };
        assert(r@ =~= Seq::<(Seq<char>, TcodeView)>::empty());
        r
    }

    pub fn len(&self) -> (r: usize)
        ensures
            r == self@.len(),
    {
        self.entries.len()
    }

    /// The section named exactly `name`.
    pub fn get(&self, name: &str) -> (r: Option<&TcodeConfig>)
        ensures
            match r {
                Some(t) => assoc_get(self@, name@) == Some(t@),
                None => assoc_get(self@, name@) is None,
            },
    {
        proof {
            self.lemma_keys();
        }
        match find_key(&self.entries, name) {
            Some(i) => {
                proof {
                    lemma_first_unique(keys_of(self@), name@, i as int);
                }
                Some(&self.entries[i].1)
            },
            None => None,
        }
    }

    /// Sets the section `name`, replacing an existing one in place.
    pub fn insert(&mut self, name: String, t: TcodeConfig)
        ensures
            final(self)@ == assoc_insert(old(self)@, name@, t@),
    {
        proof {
            self.lemma_keys();
        }
        match find_key(&self.entries, name.as_str()) {
            Some(i) => {
                proof {
                    lemma_first_unique(keys_of(self@), name@, i as int);
                }
                let ghost prev = self@;
                let ghost tv = t@;
                self.entries.set(i, (name, t));
                assert(self@ =~= prev.update(i as int, (name@, tv)));
            },
            None => {
                let ghost prev = self@;
                let ghost tv = t@;
                self.entries.push((name, t));
                assert(self@ =~= prev.push((name@, tv)));
            },
        }
    }

    /// The `i`-th section and its name.
    pub fn entry(&self, i: usize) -> (r: (&String, &TcodeConfig))
        requires
            i < self@.len(),
        ensures
            r.0@ == self@[i as int].0,
            r.1@ == self@[i as int].1,
    {
        (&self.entries[i].0, &self.entries[i].1)
    }

    /// The section names, in order.
    pub fn names(&self) -> (r: Vec<String>)
        ensures
            string_views(r@) == keys_of(self@),
    {
        let mut out: Vec<String> = Vec::new();
        let mut i: usize = 0;
        while i < self.entries.len()
            invariant
                i <= self.entries.len(),
                out@.len() == i,
                forall|j: int| 0 <= j < i ==> out@[j]@ == self.entries@[j].0@,
            decreases self.entries.len() - i,
        {
            out.push(self.entries[i].0.clone());
            i = i + 1;
        }
        assert(string_views(out@) =~= keys_of(self@));
        out
    }
}

// ---------------------------------------------------------------------------
// The whole configuration
// ---------------------------------------------------------------------------

/// The program configuration: the sections of `config.toml`, the parsed
/// document they were read from, and the reports directory used when
/// `[global]` names none.
#[derive(Debug)]
pub struct SapConfig {
    pub config_path: String,
    pub default_reports_dir: String,
    pub global: Option<GlobalConfig>,
    pub build: Option<BuildConfig>,
    pub tcode: Option<TcodeMap>,
    pub loop_config: Option<LoopConfig>,
    pub sequence: Option<SequenceConfig>,
    pub raw_config: Option<TomlValue>,
}

pub open spec fn global_view(g: Option<GlobalConfig>) -> Option<GlobalView> {
    match g { Some(x) => Some(x@), None => None }
}

pub open spec fn build_view(b: Option<BuildConfig>) -> Option<BuildView> {
    match b { Some(x) => Some(x@), None => None }
}

pub open spec fn tcode_map_view(t: Option<TcodeMap>) -> Option<Seq<(Seq<char>, TcodeView)>> {
    match t { Some(x) => Some(x@), None => None }
}

pub open spec fn loop_view(l: Option<LoopConfig>) -> Option<LoopView> {
    match l { Some(x) => Some(x@), None => None }
}

pub open spec fn sequence_view(s: Option<SequenceConfig>) -> Option<SequenceView> {
    match s { Some(x) => Some(x@), None => None }
}

pub struct SapConfigView {
    pub config_path: Seq<char>,
    pub default_reports_dir: Seq<char>,
    pub global: Option<GlobalView>,
    pub build: Option<BuildView>,
    pub tcode: Option<Seq<(Seq<char>, TcodeView)>>,
    pub loop_config: Option<LoopView>,
    pub sequence: Option<SequenceView>,
    pub raw_config: Option<TomlValue>,
}

impl View for SapConfig {
    type V = SapConfigView;

    open spec fn view(&self) -> SapConfigView {
        SapConfigView {
            config_path: self.config_path@,
            default_reports_dir: self.default_reports_dir@,
            global: global_view(self.global),
            build: build_view(self.build),
            tcode: tcode_map_view(self.tcode),
            loop_config: loop_view(self.loop_config),
            sequence: sequence_view(self.sequence),
            raw_config: self.raw_config,
        }
    }
}

/// A fresh configuration: path `config.toml`, the default `[global]`, no
/// `[tcode.X]` section yet.
pub open spec fn fresh_config(default_reports_dir: Seq<char>) -> SapConfigView {
    SapConfigView {
        config_path: "config.toml"@,
        default_reports_dir: default_reports_dir,
        global: Some(default_global(default_reports_dir)),
        build: None,
        tcode: Some(Seq::empty()),
        loop_config: None,
        sequence: None,
        raw_config: None,
    }
}

} // verus!
