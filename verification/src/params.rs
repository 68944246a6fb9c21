//! The parameters of each report run, and how the auto-runs read them from
//! the merged `[tcode.X]` settings.
use crate::assoc::{assoc_get, StrMap};
use crate::config_query::{effective_export_type, tcode_settings};
use crate::config_types::SapConfig;
use crate::date::{parse_date_as, parsed_date, Date, DateStyle};
use crate::text::{
    copy_string, lowercase, owned, parse_u8, parse_u8_spec, str_eq, string_views, to_lowercase,
};
use crate::toml_doc::{as_str_array, get, get_str_array, value_get, TomlValue};
use vstd::prelude::*;

verus! {

/// The optional text under `key` in the settings.
pub open spec fn setting(m: Seq<(Seq<char>, Seq<char>)>, key: Seq<char>) -> Option<Seq<char>> {
    assoc_get(m, key)
}

fn copied(v: Option<&String>) -> (r: Option<String>)
    ensures
        crate::cli_overrides::opt_view(r) == match v {
            Some(s) => Some(s@),
            None => None::<Seq<char>>,
        },
{
    match v {
        Some(s) => Some(copy_string(s)),
        None => None,
    }
}

// ---------------------------------------------------------------------------
// Dates typed by the user or read from the settings
// ---------------------------------------------------------------------------

/// A date in the configured format, then in the other two known layouts:
/// ISO first for `yyyy-mm-dd`, else `MM/DD/YYYY` first; `None` when no
/// layout reads it.
pub open spec fn date_in_format(s: Seq<char>, date_format: Seq<char>) -> Option<Date> {
    let order = if lowercase(date_format) == "yyyy-mm-dd"@ {
        seq![DateStyle::Iso, DateStyle::MonthDayYearSlash, DateStyle::MonthDayYearDash]
    } else {
        seq![DateStyle::MonthDayYearSlash, DateStyle::MonthDayYearDash, DateStyle::Iso]
    };
    if parsed_date(s, order[0]) is Some {
        parsed_date(s, order[0])
    } else if parsed_date(s, order[1]) is Some {
        parsed_date(s, order[1])
    } else {
        parsed_date(s, order[2])
    }
}

/// Reads a date typed in the configured `date_format` (or a fallback layout).
pub fn parse_date(date_str: &str, date_format: &str) -> (r: Option<Date>)
    ensures
        r == date_in_format(date_str@, date_format@),
{
    let f = to_lowercase(date_format);
    proof {
        reveal_strlit("yyyy-mm-dd");
    }
    let iso_first = str_eq(f.as_str(), "yyyy-mm-dd");
    let first = if iso_first {
        DateStyle::Iso
    } else {
        DateStyle::MonthDayYearSlash
    };
    let second = if iso_first {
        DateStyle::MonthDayYearSlash
    } else {
        DateStyle::MonthDayYearDash
    };
    let third = if iso_first {
        DateStyle::MonthDayYearDash
    } else {
        DateStyle::Iso
    };
    match parse_date_as(date_str, first) {
        Some(d) => Some(d),
        None => match parse_date_as(date_str, second) {
            Some(d) => Some(d),
            None => parse_date_as(date_str, third),
        },
    }
}

/// A setting that reads `true` in any case.
pub open spec fn lower_true(v: Option<Seq<char>>) -> Option<bool> {
    match v {
        Some(s) => Some(lowercase(s) == "true"@),
        None => None,
    }
}

/// A setting read as `bool::from_str` reads it, `false` when it does not parse.
pub open spec fn strict_true(v: Option<Seq<char>>) -> Option<bool> {
    match v {
        Some(s) => Some(s == "true"@),
        None => None,
    }
}

pub open spec fn or_else<T>(v: Option<T>, d: T) -> T {
    match v {
        Some(x) => x,
        None => d,
    }
}

// ---------------------------------------------------------------------------
// VL06O
// ---------------------------------------------------------------------------

/// VL06O list parameters.
pub struct VL06OParams {
    pub start_date: Date,
    pub end_date: Date,
    pub sap_variant_name: Option<String>,
    pub layout_row: Option<String>,
    pub column_name: Option<String>,
    pub by_date: bool,
}

impl VL06OParams {
    /// Both dates today, nothing else set.
    pub fn new(today: Date) -> (r: VL06OParams)
        ensures
            r.start_date == today,
            r.end_date == today,
            r.sap_variant_name is None,
            r.layout_row is None,
            r.column_name is None,
            !r.by_date,
    {
        VL06OParams {
            start_date: today,
            end_date: today,
            sap_variant_name: None,
            layout_row: None,
            column_name: None,
            by_date: false,
        }
    }
}

/// VL06O parameters from the `[tcode.VL06O]` settings: variant, layout and
/// column name where set, the dates where they read in the configured format,
/// and `by_date` where it reads `true` in any case.
pub fn create_vl06o_params_from_config(config: &StrMap, date_format: &str, today: Date) -> (r:
    VL06OParams)
    ensures
        crate::cli_overrides::opt_view(r.sap_variant_name) == setting(config@, "variant"@),
        crate::cli_overrides::opt_view(r.layout_row) == setting(config@, "layout"@),
        crate::cli_overrides::opt_view(r.column_name) == setting(config@, "column_name"@),
        r.start_date == match setting(config@, "date_range_start"@) {
            Some(s) => or_else(date_in_format(s, date_format@), today),
            None => today,
        },
        r.end_date == match setting(config@, "date_range_end"@) {
            Some(s) => or_else(date_in_format(s, date_format@), today),
            None => today,
        },
        r.by_date == or_else(lower_true(setting(config@, "by_date"@)), false),
{
    let mut params = VL06OParams::new(today);
    params.sap_variant_name = copied(config.get("variant"));
    params.layout_row = copied(config.get("layout"));
    if let Some(s) = config.get("date_range_start") {
        if let Some(d) = parse_date(s.as_str(), date_format) {
            params.start_date = d;
        }
    }
    if let Some(s) = config.get("date_range_end") {
        if let Some(d) = parse_date(s.as_str(), date_format) {
            params.end_date = d;
        }
    }
    if let Some(b) = config.get("by_date") {
        let l = to_lowercase(b.as_str());
        proof {
            reveal_strlit("true");
        }
        params.by_date = str_eq(l.as_str(), "true");
    }
    params.column_name = copied(config.get("column_name"));
    params
}

// ---------------------------------------------------------------------------
// VT11 and ZVT11
// ---------------------------------------------------------------------------

/// VT11 list parameters.
pub struct VT11Params {
    pub start_date: Date,
    pub end_date: Date,
    pub sap_variant_name: Option<String>,
    pub layout_row: Option<String>,
    pub by_date: bool,
    pub by_delivery: bool,
    pub limiter: Option<String>,
    pub t_code: String,
}

impl VT11Params {
    /// Both dates today, no filter, TCode `VT11`.
    pub fn new(today: Date) -> (r: VT11Params)
        ensures
            r.start_date == today,
            r.end_date == today,
            r.sap_variant_name is None,
            r.layout_row is None,
            !r.by_date,
            !r.by_delivery,
            r.limiter is None,
            r.t_code@ == "VT11"@,
    {
        VT11Params {
            start_date: today,
            end_date: today,
            sap_variant_name: None,
            layout_row: None,
            by_date: false,
            by_delivery: false,
            limiter: None,
            t_code: owned("VT11"),
        }
    }
}

/// ZVT11 report parameters.
pub struct ZVT11Params {
    pub start_date: Date,
    pub end_date: Date,
    pub sap_variant_name: Option<String>,
    pub layout_row: Option<String>,
    pub by_date: bool,
    pub by_delivery: bool,
    pub limiter: Option<String>,
    pub t_code: String,
}

impl ZVT11Params {
    /// Both dates today, no filter, TCode `ZVT11`.
    pub fn new(today: Date) -> (r: ZVT11Params)
        ensures
            r.start_date == today,
            r.end_date == today,
            r.sap_variant_name is None,
            r.layout_row is None,
            !r.by_date,
            !r.by_delivery,
            r.limiter is None,
            r.t_code@ == "ZVT11"@,
    {
        ZVT11Params {
            start_date: today,
            end_date: today,
            sap_variant_name: None,
            layout_row: None,
            by_date: false,
            by_delivery: false,
            limiter: None,
            t_code: owned("ZVT11"),
        }
    }
}

fn strict_bool(v: &String) -> (r: bool)
    ensures
        r == (v@ == "true"@),
{
    proof {
        reveal_strlit("true");
    }
    str_eq(v.as_str(), "true")
}

/// ZVT11 parameters from the `[tcode.ZVT11]` settings: ISO dates where they
/// parse, variant, layout and limiter where set, and the flags where they
/// read exactly `true`.
pub fn create_zvt11_params_from_config(config: &StrMap, today: Date) -> (r: ZVT11Params)
    ensures
        r.start_date == match setting(config@, "date_range_start"@) {
            Some(s) => or_else(parsed_date(s, DateStyle::Iso), today),
            None => today,
        },
        r.end_date == match setting(config@, "date_range_end"@) {
            Some(s) => or_else(parsed_date(s, DateStyle::Iso), today),
            None => today,
        },
        crate::cli_overrides::opt_view(r.sap_variant_name) == setting(config@, "variant"@),
        crate::cli_overrides::opt_view(r.layout_row) == setting(config@, "layout"@),
        r.by_date == or_else(strict_true(setting(config@, "by_date"@)), false),
        r.by_delivery == or_else(strict_true(setting(config@, "by_delivery"@)), false),
        crate::cli_overrides::opt_view(r.limiter) == setting(config@, "limiter"@),
        r.t_code@ == "ZVT11"@,
{
    let mut params = ZVT11Params::new(today);
    if let Some(s) = config.get("date_range_start") {
        if let Some(d) = parse_date_as(s.as_str(), DateStyle::Iso) {
            params.start_date = d;
        }
    }
    if let Some(s) = config.get("date_range_end") {
        if let Some(d) = parse_date_as(s.as_str(), DateStyle::Iso) {
            params.end_date = d;
        }
    }
    params.sap_variant_name = copied(config.get("variant"));
    params.layout_row = copied(config.get("layout"));
    if let Some(b) = config.get("by_date") {
        params.by_date = strict_bool(b);
    }
    if let Some(b) = config.get("by_delivery") {
        params.by_delivery = strict_bool(b);
    }
    params.limiter = copied(config.get("limiter"));
    params
}

// ---------------------------------------------------------------------------
// LX03
// ---------------------------------------------------------------------------

/// LX03 export parameters.
pub struct LX03Params {
    pub sap_variant_name: Option<String>,
    pub layout_row: Option<String>,
    pub export_type: Option<u8>,
    pub t_code: String,
}

impl LX03Params {
    /// Nothing set, TCode `LX03`.
    pub fn new() -> (r: LX03Params)
        ensures
            r.sap_variant_name is None,
            r.layout_row is None,
            r.export_type is None,
            r.t_code@ == "LX03"@,
    {
        LX03Params {
            sap_variant_name: None,
            layout_row: None,
            export_type: None,
            t_code: owned("LX03"),
        }
    }
}

/// The byte a setting parses to.
pub open spec fn parsed_byte(v: Option<Seq<char>>) -> Option<u8> {
    match v {
        Some(s) => parse_u8_spec(s),
        None => None,
    }
}

/// LX03 parameters from the `[tcode.LX03]` settings.
pub fn create_lx03_params_from_config(config: &StrMap) -> (r: LX03Params)
    ensures
        crate::cli_overrides::opt_view(r.sap_variant_name) == setting(config@, "variant"@),
        crate::cli_overrides::opt_view(r.layout_row) == setting(config@, "layout"@),
        r.export_type == parsed_byte(setting(config@, "export_type"@)),
        r.t_code@ == "LX03"@,
{
    let mut params = LX03Params::new();
    params.sap_variant_name = copied(config.get("variant"));
    params.layout_row = copied(config.get("layout"));
    if let Some(e) = config.get("export_type") {
        params.export_type = parse_u8(e.as_str());
    }
    params
}

/// The export type of an LX03 run: the one given, else the configured one,
/// else 1 (text with tabs).
pub fn resolve_export_type(given: Option<u8>, configured: Option<u8>) -> (r: u8)
    ensures
        r == match given {
            Some(e) => e,
            None => match configured {
                Some(e) => e,
                None => 1u8,
            },
        },
{
    match given {
        Some(e) => e,
        None => match configured {
            Some(e) => e,
            None => 1,
        },
    }
}

// ---------------------------------------------------------------------------
// The 149 report
// ---------------------------------------------------------------------------

/// 149 report parameters.
pub struct Report149Params {
    pub variant: String,
    pub plants: Vec<String>,
    pub export_type: u8,
}

impl Default for Report149Params {
    /// Variant `149_unload`, no plants, text with tabs.
    fn default() -> (r: Report149Params)
        ensures
            r.variant@ == "149_unload"@,
            r.plants@.len() == 0,
            r.export_type == 1,
    {
        Report149Params { variant: owned("149_unload"), plants: Vec::new(), export_type: 1 }
    }
}

/// The plants listed under `[tcode.y_dn3_47000149].plants` in the document.
pub open spec fn raw_149_plants(raw: Option<TomlValue>) -> Option<Seq<Seq<char>>> {
    match raw {
        Some(doc) => match value_get(doc, "tcode"@) {
            Some(t) => match value_get(t, "y_dn3_47000149"@) {
                Some(s) => as_str_array(value_get(s, "plants"@)),
                None => None,
            },
            None => None,
        },
        None => None,
    }
}

fn plants_149(raw: &Option<TomlValue>) -> (r: Option<Vec<String>>)
    ensures
        match r {
            Some(p) => raw_149_plants(*raw) == Some(string_views(p@)),
            None => raw_149_plants(*raw) is None,
        },
{
    match raw {
        Some(doc) => match get(doc, "tcode") {
            Some(t) => match get(t, "y_dn3_47000149") {
                Some(s) => get_str_array(s, "plants"),
                None => None,
            },
            None => None,
        },
        None => None,
    }
}

/// 149 parameters from the configuration: the variant of the merged
/// settings where set, their export type where it parses, the effective
/// export type where that left the default 1, and the plants of the section.
pub fn create_149_params_from_config(config: &SapConfig) -> (r: Report149Params)
    ensures
        ({
            let m = tcode_settings(config@, "y_dn3_47000149"@, Some(true));
            let v = match m {
                Some(m) => setting(m, "variant"@),
                None => None,
            };
            let e0: u8 = match m {
                Some(m) => or_else(parsed_byte(setting(m, "export_type"@)), 1u8),
                None => 1u8,
            };
            &&& r.variant@ == or_else(v, "149_unload"@)
            &&& r.export_type == if e0 == 1 {
                or_else(effective_export_type(config@, "y_dn3_47000149"@), e0)
            } else {
                e0
            }
            &&& string_views(r.plants@) == or_else(raw_149_plants(config@.raw_config), Seq::empty())
        }),
{
    let mut params = Report149Params::default();
    if let Some(m) = config.get_tcode_config("y_dn3_47000149", Some(true)) {
        if let Some(v) = m.get("variant") {
            params.variant = copy_string(v);
        }
        if let Some(e) = m.get("export_type") {
            if let Some(n) = parse_u8(e.as_str()) {
                params.export_type = n;
            }
        }
    }
    if params.export_type == 1 {
        if let Some(n) = config.get_effective_export_type("y_dn3_47000149") {
            params.export_type = n;
        }
    }
    if let Some(p) = plants_149(&config.raw_config) {
        params.plants = p;
    }
    proof {
        assert(string_views(Seq::<String>::empty()) =~= Seq::<Seq<char>>::empty());
    }
    params
}

/// 149 "material not TSP" parameters.
pub struct Report149MaterialParams {
    pub variant: Option<String>,
    pub layout: Option<String>,
    pub material: String,
    pub plant: String,
    pub signi: String,
    pub date_low: String,
    pub date_high: String,
    pub export_type: u8,
}

impl Default for Report149MaterialParams {
    /// Nothing set, text with tabs.
    fn default() -> (r: Report149MaterialParams)
        ensures
            r.variant is None,
            r.layout is None,
            r.material@.len() == 0,
            r.plant@.len() == 0,
            r.signi@.len() == 0,
            r.date_low@.len() == 0,
            r.date_high@.len() == 0,
            r.export_type == 1,
    {
        Report149MaterialParams {
            variant: None,
            layout: None,
            material: String::new(),
            plant: String::new(),
            signi: String::new(),
            date_low: String::new(),
            date_high: String::new(),
            export_type: 1,
        }
    }
}

/// Material parameters from the 149 settings: `mat_variant`, `mat_layout`,
/// `export_type` and `material`; without a variant the `plant` (default
/// `BRUH`) and `signi` settings, with one both left empty.
pub fn create_149_material_params_from_config(config: &StrMap) -> (r: Report149MaterialParams)
    ensures
        crate::cli_overrides::opt_view(r.variant) == setting(config@, "mat_variant"@),
        crate::cli_overrides::opt_view(r.layout) == setting(config@, "mat_layout"@),
        r.export_type == or_else(parsed_byte(setting(config@, "export_type"@)), 1u8),
        r.material@ == or_else(setting(config@, "material"@), Seq::empty()),
        r.plant@ == if setting(config@, "mat_variant"@) is None {
            or_else(setting(config@, "plant"@), "BRUH"@)
        } else {
            Seq::empty()
        },
        r.signi@ == if setting(config@, "mat_variant"@) is None {
            or_else(setting(config@, "signi"@), Seq::empty())
        } else {
            Seq::empty()
        },
        r.date_low@.len() == 0,
        r.date_high@.len() == 0,
{
    let mut params = Report149MaterialParams::default();
    params.variant = copied(config.get("mat_variant"));
    params.layout = copied(config.get("mat_layout"));
    if let Some(e) = config.get("export_type") {
        if let Some(n) = parse_u8(e.as_str()) {
            params.export_type = n;
        }
    }
    match config.get("material") {
        Some(m) => params.material = copy_string(m),
        None => params.material = String::new(),
    }
    if params.variant.is_none() {
        match config.get("plant") {
            Some(p) => params.plant = copy_string(p),
            None => params.plant = owned("BRUH"),
        }
        match config.get("signi") {
            Some(s) => params.signi = copy_string(s),
            None => params.signi = String::new(),
        }
    } else {
        params.plant = String::new();
        params.signi = String::new();
    }
    params
}

/// Parameters of a 149 run filtered by delivery numbers.
pub struct Report149ByDeliveryParams {
    pub variant: String,
    pub layout: String,
    /// Columns to set up when the layout is missing.
    pub layout_columns: Vec<String>,
    pub delivery_numbers: Vec<String>,
    pub export_type: u8,
    pub filename_suffix: Option<String>,
}

/// The name of an export type.
pub open spec fn export_type_name(export_type: u8) -> Seq<char> {
    if export_type == 0 {
        "unconverted"@
    } else if export_type == 1 {
        "text with tabs"@
    } else if export_type == 2 {
        "rich text format"@
    } else if export_type == 3 {
        "HTML format"@
    } else if export_type == 4 {
        "clipboard"@
    } else {
        "unknown"@
    }
}

/// How an export type is shown to the user.
pub fn get_export_type_description(export_type: u8) -> (r: &'static str)
    ensures
        r@ == export_type_name(export_type),
{
    match export_type {
        0 => "unconverted",
        1 => "text with tabs",
        2 => "rich text format",
        3 => "HTML format",
        4 => "clipboard",
        _ => "unknown",
    }
}

/// Reading a typed date: whatever the configured format, a text that reads
/// as a date in any of the three known layouts (`YYYY-MM-DD`, `MM/DD/YYYY`,
/// `MM-DD-YYYY`) is read, and only such a text; the configured layout goes
/// first (ISO for `yyyy-mm-dd`, else `MM/DD/YYYY`), and `MM-DD-YYYY` is taken
/// only when neither of the other two reads the text.
pub proof fn lemma_dates_read_in_any_layout(s: Seq<char>, f: Seq<char>)
    ensures
        parsed_date(s, DateStyle::Iso) is Some ==> date_in_format(s, f) is Some,
        parsed_date(s, DateStyle::MonthDayYearSlash) is Some ==> date_in_format(s, f) is Some,
        parsed_date(s, DateStyle::MonthDayYearDash) is Some ==> date_in_format(s, f) is Some,
        date_in_format(s, f) is Some ==> date_in_format(s, f) == parsed_date(s, DateStyle::Iso)
            || date_in_format(s, f) == parsed_date(s, DateStyle::MonthDayYearSlash) || date_in_format(
            s,
            f,
        ) == parsed_date(s, DateStyle::MonthDayYearDash),
        date_in_format(s, f) is None ==> parsed_date(s, DateStyle::Iso) is None && parsed_date(
            s,
            DateStyle::MonthDayYearSlash,
        ) is None && parsed_date(s, DateStyle::MonthDayYearDash) is None,
        lowercase(f) == "yyyy-mm-dd"@ && parsed_date(s, DateStyle::Iso) is Some ==> date_in_format(s, f)
            == parsed_date(s, DateStyle::Iso),
        lowercase(f) != "yyyy-mm-dd"@ && parsed_date(s, DateStyle::MonthDayYearSlash) is Some
            ==> date_in_format(s, f) == parsed_date(s, DateStyle::MonthDayYearSlash),
        parsed_date(s, DateStyle::Iso) is None && parsed_date(s, DateStyle::MonthDayYearSlash) is None
            ==> date_in_format(s, f) == parsed_date(s, DateStyle::MonthDayYearDash),
{
}

} // verus!
