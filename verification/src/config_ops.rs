//! Building a configuration, reading and setting its global values, and
//! merging command-line overrides into it.
use crate::assoc::{assoc_get, assoc_insert, keys_of};
use crate::cli_overrides::{CliOverrides, OverridesView};
use crate::config_types::{
    copy_list, default_date_format, default_date_format_text, default_global,
    default_instance_id, default_instance_id_text, empty_tcode, fresh_config, GlobalConfig,
    GlobalView, SapConfig, SapConfigView, TcodeConfig, TcodeMap, TcodeView,
};
use crate::date::{format_date_as, formatted_date, DateStyle};
use crate::text::{
    bool_text, bool_to_string, decimal, double_backslashes, double_backslashes_str,
    eq_ignore_ascii_case, eq_ignore_ascii_case_exec, owned, str_eq, to_uppercase, u64_to_string,
    uppercase,
};
use vstd::prelude::*;

verus! {

// ---------------------------------------------------------------------------
// Specification of the override merge
// ---------------------------------------------------------------------------

/// The `[global]` section after the global overrides: a missing section is
/// created with defaults when any of `--reports-dir`, `--date-format`,
/// `--timezone` is set; the reports directory is stored with its backslashes
/// doubled, as the file loader stores it.
pub open spec fn apply_global(c: SapConfigView, o: OverridesView) -> Option<GlobalView> {
    if o.reports_dir is Some || o.date_format is Some || o.timezone is Some {
        let g = match c.global {
            Some(g) => g,
            None => default_global(c.default_reports_dir),
        };
        let g1 = match o.reports_dir {
            Some(d) => GlobalView { reports_dir: double_backslashes(d), ..g },
            None => g,
        };
        let g2 = match o.date_format {
            Some(f) => GlobalView { date_format: f, ..g1 },
            None => g1,
        };
        let g3 = match o.timezone {
            Some(z) => GlobalView { timezone: z, ..g2 },
            None => g2,
        };
        Some(g3)
    } else {
        c.global
    }
}

/// `i` is the first key equal to `tc` up to ASCII case.
pub open spec fn is_first_match(keys: Seq<Seq<char>>, tc: Seq<char>, i: int) -> bool {
    &&& 0 <= i < keys.len()
    &&& eq_ignore_ascii_case(keys[i], tc)
    &&& forall|j: int| 0 <= j < i ==> !eq_ignore_ascii_case(keys[j], tc)
}

pub open spec fn has_match(keys: Seq<Seq<char>>, tc: Seq<char>) -> bool {
    exists|i: int| 0 <= i < keys.len() && eq_ignore_ascii_case(keys[i], tc)
}

pub open spec fn first_match(keys: Seq<Seq<char>>, tc: Seq<char>) -> int {
    choose|i: int| is_first_match(keys, tc, i)
}

/// The section a `--tcode` value addresses: the first existing section whose
/// name equals it up to ASCII case, else its upper-cased form.
pub open spec fn section_key(keys: Seq<Seq<char>>, tc: Seq<char>) -> Seq<char> {
    if has_match(keys, tc) {
        keys[first_match(keys, tc)]
    } else {
        uppercase(tc)
    }
}

pub open spec fn set_param(t: TcodeView, k: Seq<char>, v: Seq<char>) -> TcodeView {
    TcodeView { additional_params: assoc_insert(t.additional_params, k, v), ..t }
}

/// Layout, variant and export type.
pub open spec fn step_plain(t: TcodeView, o: OverridesView) -> TcodeView {
    let t1 = match o.layout { Some(v) => TcodeView { layout: Some(v), ..t }, None => t };
    let t2 = match o.variant { Some(v) => TcodeView { variant: Some(v), ..t1 }, None => t1 };
    match o.export_type { Some(v) => TcodeView { export_type: Some(v), ..t2 }, None => t2 }
}

/// The date and delivery filters, stored as `"true"` / `"false"`.
pub open spec fn step_filters(t: TcodeView, o: OverridesView) -> TcodeView {
    let t1 = match o.by_date {
        Some(b) => TcodeView { by_date: Some(bool_text(b)), ..t },
        None => t,
    };
    match o.by_delivery {
        Some(b) => TcodeView { by_delivery: Some(bool_text(b)), ..t1 },
        None => t1,
    }
}

/// `--by-shipment`: a parameter; for VL06O with the filter on and no column
/// name yet, the column name defaults to `--shipment-col` or `Shipment Number`.
pub open spec fn step_shipment(t: TcodeView, o: OverridesView, name: Seq<char>) -> TcodeView {
    match o.by_shipment {
        Some(b) => {
            let t1 = set_param(t, "by_shipment"@, bool_text(b));
            if b && name == "VL06O"@ && t1.column_name is None {
                let col = match o.shipment_col {
                    Some(c) => c,
                    None => "Shipment Number"@,
                };
                TcodeView { column_name: Some(col), ..t1 }
            } else {
                t1
            }
        },
        None => t,
    }
}

/// `--limiter` and the ISO date range.
pub open spec fn step_range(t: TcodeView, o: OverridesView) -> TcodeView {
    let t1 = match o.limiter { Some(l) => set_param(t, "limiter"@, l), None => t };
    let t2 = match o.date_start {
        Some(d) => TcodeView { date_range_start: Some(formatted_date(d, DateStyle::Iso)), ..t1 },
        None => t1,
    };
    match o.date_end {
        Some(d) => TcodeView { date_range_end: Some(formatted_date(d, DateStyle::Iso)), ..t2 },
        None => t2,
    }
}

/// Delivery / shipment sources; `--shipment-col` also becomes the column name.
pub open spec fn step_sources(t: TcodeView, o: OverridesView) -> TcodeView {
    let t1 = match o.delivery_file { Some(v) => set_param(t, "cli_delivery_file"@, v), None => t };
    let t2 = match o.delivery_col { Some(v) => set_param(t1, "cli_delivery_col"@, v), None => t1 };
    let t3 = match o.shipment_file {
        Some(v) => set_param(t2, "cli_shipment_file"@, v),
        None => t2,
    };
    match o.shipment_col {
        Some(v) => set_param(TcodeView { column_name: Some(v), ..t3 }, "cli_shipment_col"@, v),
        None => t3,
    }
}

/// ZMDESNR only: `--pre-export-back` and `--tab-number`.
pub open spec fn step_zmdesnr(t: TcodeView, o: OverridesView, name: Seq<char>) -> TcodeView {
    if name == "ZMDESNR"@ {
        let t1 = match o.pre_export_back {
            Some(b) => set_param(t, "pre_export_back"@, bool_text(b)),
            None => t,
        };
        match o.tab_number {
            Some(n) => TcodeView { tab_number: Some(decimal(n as nat)), ..t1 },
            None => t1,
        }
    } else {
        t
    }
}

pub open spec fn step_plants(t: TcodeView, o: OverridesView) -> TcodeView {
    match o.plants { Some(p) => TcodeView { plants: Some(p), ..t }, None => t }
}

/// A `[tcode.X]` section after the per-tcode overrides; `name` is the
/// upper-cased `--tcode` value.
pub open spec fn apply_tcode(t: TcodeView, o: OverridesView, name: Seq<char>) -> TcodeView {
    step_plants(
        step_zmdesnr(
            step_sources(step_range(step_shipment(step_filters(step_plain(t, o), o), o, name), o), o),
            o,
            name,
        ),
        o,
    )
}

/// The `[tcode.X]` sections after the overrides for `--tcode tc`: the
/// addressed section (created empty when missing) is updated in place.
pub open spec fn apply_tcode_map(
    m: Seq<(Seq<char>, TcodeView)>,
    tc: Seq<char>,
    o: OverridesView,
) -> Seq<(Seq<char>, TcodeView)> {
    let key = section_key(keys_of(m), tc);
    let t = match assoc_get(m, key) {
        Some(t) => t,
        None => empty_tcode(),
    };
    assoc_insert(m, key, apply_tcode(t, o, uppercase(tc)))
}

/// The instance id of `[global]`, or the default.
pub open spec fn instance_id_of(c: SapConfigView) -> Seq<char> {
    match c.global {
        Some(g) => g.instance_id,
        None => default_instance_id_text(),
    }
}

/// The reports directory of `[global]`, or the default one.
pub open spec fn reports_dir_of(c: SapConfigView) -> Seq<char> {
    match c.global {
        Some(g) => g.reports_dir,
        None => c.default_reports_dir,
    }
}

/// `c` with the instance id set, `[global]` created with defaults when missing.
pub open spec fn instance_id_set(c: SapConfigView, id: Seq<char>) -> SapConfigView {
    SapConfigView {
        global: Some(
            match c.global {
                Some(g) => GlobalView { instance_id: id, ..g },
                None => GlobalView { instance_id: id, ..default_global(c.default_reports_dir) },
            },
        ),
        ..c
    }
}

/// `c` with the reports directory set, `[global]` created with defaults when missing.
pub open spec fn reports_dir_set(c: SapConfigView, d: Seq<char>) -> SapConfigView {
    SapConfigView {
        global: Some(
            match c.global {
                Some(g) => GlobalView { reports_dir: d, ..g },
                None => default_global(d),
            },
        ),
        ..c
    }
}

/// The configuration after merging the overrides `o`.
pub open spec fn applied(c: SapConfigView, o: OverridesView) -> SapConfigView {
    let c1 = SapConfigView { global: apply_global(c, o), ..c };
    match o.tcode {
        Some(tc) => {
            let m = match c1.tcode {
                Some(m) => m,
                None => Seq::empty(),
            };
            SapConfigView { tcode: Some(apply_tcode_map(m, tc, o)), ..c1 }
        },
        None => c1,
    }
}

// ---------------------------------------------------------------------------
// The merge, step by step
// ---------------------------------------------------------------------------

fn set_param_exec(t: &mut TcodeConfig, k: &str, v: String)
    ensures
        final(t)@ == set_param(old(t)@, k@, v@),
{
    t.additional_params.insert(owned(k), v);
}

fn apply_plain(t: &mut TcodeConfig, o: &CliOverrides)
    ensures
        final(t)@ == step_plain(old(t)@, o@),
{
    if let Some(v) = &o.layout {
        t.layout = Some(v.clone());
    }
    if let Some(v) = &o.variant {
        t.variant = Some(v.clone());
    }
    if let Some(v) = o.export_type {
        t.export_type = Some(v);
    }
}

fn apply_filters(t: &mut TcodeConfig, o: &CliOverrides)
    ensures
        final(t)@ == step_filters(old(t)@, o@),
{
    if let Some(b) = o.by_date {
        t.by_date = Some(bool_to_string(b));
    }
    if let Some(b) = o.by_delivery {
        t.by_delivery = Some(bool_to_string(b));
    }
}

fn apply_shipment(t: &mut TcodeConfig, o: &CliOverrides, name: &String)
    ensures
        final(t)@ == step_shipment(old(t)@, o@, name@),
{
    if let Some(b) = o.by_shipment {
        set_param_exec(t, "by_shipment", bool_to_string(b));
        if b && str_eq(name.as_str(), "VL06O") && t.column_name.is_none() {
            let col = match &o.shipment_col {
                Some(c) => c.clone(),
                None => owned("Shipment Number"),
            };
            t.column_name = Some(col);
        }
    }
}

fn apply_range(t: &mut TcodeConfig, o: &CliOverrides)
    ensures
        final(t)@ == step_range(old(t)@, o@),
{
    if let Some(l) = &o.limiter {
        set_param_exec(t, "limiter", l.clone());
    }
    if let Some(d) = o.date_start {
        t.date_range_start = Some(format_date_as(d, DateStyle::Iso));
    }
    if let Some(d) = o.date_end {
        t.date_range_end = Some(format_date_as(d, DateStyle::Iso));
    }
}

fn apply_sources(t: &mut TcodeConfig, o: &CliOverrides)
    ensures
        final(t)@ == step_sources(old(t)@, o@),
{
    if let Some(v) = &o.delivery_file {
        set_param_exec(t, "cli_delivery_file", v.clone());
    }
    if let Some(v) = &o.delivery_col {
        set_param_exec(t, "cli_delivery_col", v.clone());
    }
    if let Some(v) = &o.shipment_file {
        set_param_exec(t, "cli_shipment_file", v.clone());
    }
    if let Some(v) = &o.shipment_col {
        t.column_name = Some(v.clone());
        set_param_exec(t, "cli_shipment_col", v.clone());
    }
}

fn apply_zmdesnr(t: &mut TcodeConfig, o: &CliOverrides, name: &String)
    ensures
        final(t)@ == step_zmdesnr(old(t)@, o@, name@),
{
    if str_eq(name.as_str(), "ZMDESNR") {
        if let Some(b) = o.pre_export_back {
            set_param_exec(t, "pre_export_back", bool_to_string(b));
        }
        if let Some(n) = o.tab_number {
            t.tab_number = Some(u64_to_string(n as u64));
        }
    }
}

fn apply_plants(t: &mut TcodeConfig, o: &CliOverrides)
    ensures
        final(t)@ == step_plants(old(t)@, o@),
{
    if let Some(p) = &o.plants {
        t.plants = Some(copy_list(p));
    }
}

/// The first section name equal to `tc` up to ASCII case.
fn find_match(names: &Vec<String>, tc: &str) -> (r: Option<usize>)
    ensures
        match r {
            Some(i) => is_first_match(crate::text::string_views(names@), tc@, i as int),
            None => !has_match(crate::text::string_views(names@), tc@),
        },
{
    let mut i: usize = 0;
    while i < names.len()
        invariant
            i <= names.len(),
            forall|j: int| 0 <= j < i ==> !eq_ignore_ascii_case(
                #[trigger] crate::text::string_views(names@)[j],
                tc@,
            ),
        decreases names.len() - i,
    {
        if eq_ignore_ascii_case_exec(names[i].as_str(), tc) {
            return Some(i);
        }
        i = i + 1;
    }
    None
}

proof fn lemma_first_match_unique(keys: Seq<Seq<char>>, tc: Seq<char>, i: int)
    requires
        is_first_match(keys, tc, i),
    ensures
        has_match(keys, tc),
        first_match(keys, tc) == i,
{
    let j = first_match(keys, tc);
    assert(is_first_match(keys, tc, j));
    if j < i {
        assert(!eq_ignore_ascii_case(keys[j], tc));
    }
    if i < j {
        assert(!eq_ignore_ascii_case(keys[i], tc));
    }
}

impl TcodeMap {
    /// Merges the per-tcode overrides into the section that `tc` addresses.
    pub fn apply_overrides_for(&mut self, tc: &String, o: &CliOverrides)
        ensures
            final(self)@ == apply_tcode_map(old(self)@, tc@, o@),
    {
        let name = to_uppercase(tc.as_str());
        let names = self.names();
        let key = match find_match(&names, tc.as_str()) {
            Some(i) => {
                proof {
                    lemma_first_match_unique(keys_of(self@), tc@, i as int);
                }
                names[i].clone()
            },
            None => name.clone(),
        };
        let mut t = match self.get(key.as_str()) {
            Some(t) => t.duplicate(),
            None => TcodeConfig::default(),
        };
        apply_plain(&mut t, o);
        apply_filters(&mut t, o);
        apply_shipment(&mut t, o, &name);
        apply_range(&mut t, o);
        apply_sources(&mut t, o);
        apply_zmdesnr(&mut t, o, &name);
        apply_plants(&mut t, o);
        self.insert(key, t);
    }
}

// ---------------------------------------------------------------------------
// SapConfig
// ---------------------------------------------------------------------------

impl SapConfig {
    /// A fresh configuration; `default_reports_dir` is the directory used
    /// wherever `[global]` names none.
    pub fn new(default_reports_dir: &str) -> (r: SapConfig)
        ensures
            r@ == fresh_config(default_reports_dir@),
    {
        SapConfig {
            config_path: owned("config.toml"),
            default_reports_dir: owned(default_reports_dir),
            global: Some(GlobalConfig::with_reports_dir(owned(default_reports_dir))),
            build: None,
            tcode: Some(TcodeMap::new()),
            loop_config: None,
            sequence: None,
            raw_config: None,
        }
    }

    /// Merges the command-line overrides `o` into this configuration; a flag
    /// that is set always wins over the value read from the file.
    pub fn apply_overrides_with(&mut self, o: &CliOverrides)
        ensures
            final(self)@ == applied(old(self)@, o@),
    {
        if o.reports_dir.is_some() || o.date_format.is_some() || o.timezone.is_some() {
            let mut g = match self.global.take() {
                Some(g) => g,
                None => GlobalConfig::with_reports_dir(self.default_reports_dir.clone()),
            };
            if let Some(dir) = &o.reports_dir {
                g.reports_dir = double_backslashes_str(dir.as_str());
            }
            if let Some(f) = &o.date_format {
                g.date_format = f.clone();
            }
            if let Some(z) = &o.timezone {
                g.timezone = z.clone();
            }
            self.global = Some(g);
        }
        if let Some(tc) = &o.tcode {
            let mut m = match self.tcode.take() {
                Some(m) => m,
                None => TcodeMap::new(),
            };
            m.apply_overrides_for(tc, o);
            self.tcode = Some(m);
        }
    }

    /// The instance id of `[global]`, or the default.
    pub fn get_instance_id(&self) -> (r: String)
        ensures
            r@ == instance_id_of(self@),
    {
        match &self.global {
            Some(g) => g.instance_id.clone(),
            None => default_instance_id(),
        }
    }

    /// The reports directory of `[global]`, or the default one.
    pub fn get_reports_dir(&self) -> (r: String)
        ensures
            r@ == reports_dir_of(self@),
    {
        match &self.global {
            Some(g) => g.reports_dir.clone(),
            None => self.default_reports_dir.clone(),
        }
    }

    /// The date format of `[global]`, or the default.
    pub fn get_date_format(&self) -> (r: String)
        ensures
            r@ == match self@.global {
                Some(g) => g.date_format,
                None => default_date_format_text(),
            },
    {
        match &self.global {
            Some(g) => g.date_format.clone(),
            None => default_date_format(),
        }
    }

    /// Sets the instance id, creating a default `[global]` when missing.
    pub fn set_instance_id(&mut self, instance_id: &str)
        ensures
            final(self)@ == instance_id_set(old(self)@, instance_id@),
    {
        let mut g = match self.global.take() {
            Some(g) => g,
            None => GlobalConfig::with_reports_dir(self.default_reports_dir.clone()),
        };
        g.instance_id = owned(instance_id);
        self.global = Some(g);
    }

    /// Sets the reports directory, creating a default `[global]` when missing.
    pub fn set_reports_dir(&mut self, reports_dir: &str)
        ensures
            final(self)@ == reports_dir_set(old(self)@, reports_dir@),
    {
        match self.global.take() {
            Some(mut g) => {
                g.reports_dir = owned(reports_dir);
                self.global = Some(g);
            },
            None => {
                self.global = Some(GlobalConfig::with_reports_dir(owned(reports_dir)));
            },
        }
    }
}

} // verus!
