//! Values given on the command line that take precedence over `config.toml`.
//!
//! The program builds a [`CliOverrides`] from its parsed command line and
//! merges it into every configuration it loads (see
//! `SapConfig::apply_overrides_with`): a flag that is set always wins over the
//! file.
use crate::date::{formatted_date, format_date_as, Date, DateStyle};
use crate::text::{
    append_chars, append_str, bool_text, bool_to_string, chars_of, decimal, decimal_chars,
    has_char, has_char_exec, join, join_chars, string_of, views,
};
use vstd::prelude::*;

verus! {

/// Flags that override `config.toml`. A field left `None` keeps the file value.
#[derive(Debug)]
pub struct CliOverrides {
    /// Target TCode (stored upper-cased by `Cli::to_overrides`).
    pub tcode: Option<String>,
    /// Per-tcode layout name.
    pub layout: Option<String>,
    /// Per-tcode variant name.
    pub variant: Option<String>,
    /// Per-tcode export type (0..=4).
    pub export_type: Option<u8>,
    /// Loop / sequence iteration count (0 = infinite).
    pub iterations: Option<usize>,
    /// Sequence only: seconds between sequence steps.
    pub interval_seconds: Option<u64>,
    /// Loop / sequence: seconds between iterations.
    pub delay_seconds: Option<u64>,
    /// 149-report run type (rcv | mat | tsp).
    pub tcode_run_type: Option<String>,
    /// Global date format string.
    pub date_format: Option<String>,
    /// Global timezone string.
    pub timezone: Option<String>,
    /// Global reports directory.
    pub reports_dir: Option<String>,
    /// Filter the report by date range.
    pub by_date: Option<bool>,
    /// Filter the report by delivery numbers.
    pub by_delivery: Option<bool>,
    /// Filter the report by shipment numbers (VL06O).
    pub by_shipment: Option<bool>,
    /// VT11 / ZVT11 limiter.
    pub limiter: Option<String>,
    /// Start of the date range.
    pub date_start: Option<Date>,
    /// End of the date range.
    pub date_end: Option<Date>,
    /// Source of delivery numbers: a slug or a path.
    pub delivery_file: Option<String>,
    /// Header of the delivery column in that source.
    pub delivery_col: Option<String>,
    /// Source of shipment numbers (VL06O): a slug or a path.
    pub shipment_file: Option<String>,
    /// Header of the shipment column in that source.
    pub shipment_col: Option<String>,
    /// ZMDESNR: send "back" after export, before layout selection.
    pub pre_export_back: Option<bool>,
    /// ZMDESNR: results tab to select.
    pub tab_number: Option<u32>,
    /// 149 report: plants to run.
    pub plants: Option<Vec<String>>,
}

/// The view of an optional string.
pub open spec fn opt_view(o: Option<String>) -> Option<Seq<char>> {
    match o {
        Some(s) => Some(s@),
        None => None,
    }
}

/// The view of an optional list of strings.
pub open spec fn opt_list_view(o: Option<Vec<String>>) -> Option<Seq<Seq<char>>> {
    match o {
        Some(v) => Some(crate::text::string_views(v@)),
        None => None,
    }
}

/// The mathematical content of a [`CliOverrides`].
pub struct OverridesView {
    pub tcode: Option<Seq<char>>,
    pub layout: Option<Seq<char>>,
    pub variant: Option<Seq<char>>,
    pub export_type: Option<u8>,
    pub iterations: Option<usize>,
    pub interval_seconds: Option<u64>,
    pub delay_seconds: Option<u64>,
    pub tcode_run_type: Option<Seq<char>>,
    pub date_format: Option<Seq<char>>,
    pub timezone: Option<Seq<char>>,
    pub reports_dir: Option<Seq<char>>,
    pub by_date: Option<bool>,
    pub by_delivery: Option<bool>,
    pub by_shipment: Option<bool>,
    pub limiter: Option<Seq<char>>,
    pub date_start: Option<Date>,
    pub date_end: Option<Date>,
    pub delivery_file: Option<Seq<char>>,
    pub delivery_col: Option<Seq<char>>,
    pub shipment_file: Option<Seq<char>>,
    pub shipment_col: Option<Seq<char>>,
    pub pre_export_back: Option<bool>,
    pub tab_number: Option<u32>,
    pub plants: Option<Seq<Seq<char>>>,
}

impl View for CliOverrides {
    type V = OverridesView;

    open spec fn view(&self) -> OverridesView {
        OverridesView {
            tcode: opt_view(self.tcode),
            layout: opt_view(self.layout),
            variant: opt_view(self.variant),
            export_type: self.export_type,
            iterations: self.iterations,
            interval_seconds: self.interval_seconds,
            delay_seconds: self.delay_seconds,
            tcode_run_type: opt_view(self.tcode_run_type),
            date_format: opt_view(self.date_format),
            timezone: opt_view(self.timezone),
            reports_dir: opt_view(self.reports_dir),
            by_date: self.by_date,
            by_delivery: self.by_delivery,
            by_shipment: self.by_shipment,
            limiter: opt_view(self.limiter),
            date_start: self.date_start,
            date_end: self.date_end,
            delivery_file: opt_view(self.delivery_file),
            delivery_col: opt_view(self.delivery_col),
            shipment_file: opt_view(self.shipment_file),
            shipment_col: opt_view(self.shipment_col),
            pre_export_back: self.pre_export_back,
            tab_number: self.tab_number,
            plants: opt_list_view(self.plants),
        }
    }
}

/// No flag set.
pub open spec fn no_overrides() -> OverridesView {
    OverridesView {
        tcode: None,
        layout: None,
        variant: None,
        export_type: None,
        iterations: None,
        interval_seconds: None,
        delay_seconds: None,
        tcode_run_type: None,
        date_format: None,
        timezone: None,
        reports_dir: None,
        by_date: None,
        by_delivery: None,
        by_shipment: None,
        limiter: None,
        date_start: None,
        date_end: None,
        delivery_file: None,
        delivery_col: None,
        shipment_file: None,
        shipment_col: None,
        pre_export_back: None,
        tab_number: None,
        plants: None,
    }
}

impl Default for CliOverrides {
    fn default() -> (r: Self)
        ensures
            r@ == no_overrides(),
    {
        CliOverrides {
            tcode: None,
            layout: None,
            variant: None,
            export_type: None,
            iterations: None,
            interval_seconds: None,
            delay_seconds: None,
            tcode_run_type: None,
            date_format: None,
            timezone: None,
            reports_dir: None,
            by_date: None,
            by_delivery: None,
            by_shipment: None,
            limiter: None,
            date_start: None,
            date_end: None,
            delivery_file: None,
            delivery_col: None,
            shipment_file: None,
            shipment_col: None,
            pre_export_back: None,
            tab_number: None,
            plants: None,
        }
    }
}

/// `seq![name]` when `set`, else nothing.
pub open spec fn flag_if(set: bool, name: Seq<char>) -> Seq<Seq<char>> {
    if set { seq![name] } else { Seq::empty() }
}

/// Names of the per-tcode flags that are set, in flag order. These are the
/// flags `--run-sequence` refuses.
pub open spec fn per_tcode_flags(v: OverridesView) -> Seq<Seq<char>> {
    flag_if(v.tcode is Some, "--tcode"@)
        + flag_if(v.layout is Some, "--layout"@)
        + flag_if(v.variant is Some, "--variant"@)
        + flag_if(v.export_type is Some, "--export-type"@)
        + flag_if(v.tcode_run_type is Some, "--tcode-run-type"@)
        + flag_if(v.by_date is Some, "--by-date"@)
        + flag_if(v.by_delivery is Some, "--by-delivery"@)
        + flag_if(v.by_shipment is Some, "--by-shipment"@)
        + flag_if(v.limiter is Some, "--limiter"@)
        + flag_if(v.date_start is Some, "--date-start"@)
        + flag_if(v.date_end is Some, "--date-end"@)
        + flag_if(v.delivery_file is Some, "--delivery-file"@)
        + flag_if(v.delivery_col is Some, "--delivery-col"@)
        + flag_if(v.shipment_file is Some, "--shipment-file"@)
        + flag_if(v.shipment_col is Some, "--shipment-col"@)
        + flag_if(v.pre_export_back is Some, "--pre-export-back"@)
        + flag_if(v.tab_number is Some, "--tab-number"@)
}

/// `seq!["--name=" + value]` when the value is present.
pub open spec fn text_part(name: Seq<char>, value: Option<Seq<char>>) -> Seq<Seq<char>> {
    match value {
        Some(t) => seq![name + t],
        None => Seq::empty(),
    }
}

pub open spec fn num_part(name: Seq<char>, value: Option<nat>) -> Seq<Seq<char>> {
    match value {
        Some(n) => seq![name + decimal(n)],
        None => Seq::empty(),
    }
}

pub open spec fn bool_part(name: Seq<char>, value: Option<bool>) -> Seq<Seq<char>> {
    match value {
        Some(b) => seq![name + bool_text(b)],
        None => Seq::empty(),
    }
}

pub open spec fn date_part(name: Seq<char>, value: Option<Date>) -> Seq<Seq<char>> {
    match value {
        Some(d) => seq![name + formatted_date(d, DateStyle::Iso)],
        None => Seq::empty(),
    }
}

pub open spec fn nat_opt_u8(o: Option<u8>) -> Option<nat> {
    match o { Some(n) => Some(n as nat), None => None }
}

pub open spec fn nat_opt_u32(o: Option<u32>) -> Option<nat> {
    match o { Some(n) => Some(n as nat), None => None }
}

pub open spec fn nat_opt_u64(o: Option<u64>) -> Option<nat> {
    match o { Some(n) => Some(n as nat), None => None }
}

pub open spec fn nat_opt_usize(o: Option<usize>) -> Option<nat> {
    match o { Some(n) => Some(n as nat), None => None }
}

/// The `--flag=value` pieces of the summary line, in order.
pub open spec fn summary_parts(v: OverridesView) -> Seq<Seq<char>> {
    text_part("--tcode="@, v.tcode)
        + text_part("--layout="@, v.layout)
        + text_part("--variant="@, v.variant)
        + num_part("--export-type="@, nat_opt_u8(v.export_type))
        + text_part("--tcode-run-type="@, v.tcode_run_type)
        + bool_part("--by-date="@, v.by_date)
        + bool_part("--by-delivery="@, v.by_delivery)
        + bool_part("--by-shipment="@, v.by_shipment)
        + text_part("--limiter="@, v.limiter)
        + date_part("--date-start="@, v.date_start)
        + date_part("--date-end="@, v.date_end)
        + text_part("--delivery-file="@, v.delivery_file)
        + text_part("--delivery-col="@, v.delivery_col)
        + text_part("--shipment-file="@, v.shipment_file)
        + text_part("--shipment-col="@, v.shipment_col)
        + bool_part("--pre-export-back="@, v.pre_export_back)
        + num_part("--tab-number="@, nat_opt_u32(v.tab_number))
        + num_part("--iterations="@, nat_opt_usize(v.iterations))
        + num_part("--interval-seconds="@, nat_opt_u64(v.interval_seconds))
        + num_part("--delay-seconds="@, nat_opt_u64(v.delay_seconds))
        + text_part("--reports-dir="@, v.reports_dir)
        + text_part("--date-format="@, v.date_format)
        + text_part("--timezone="@, v.timezone)
}

/// The one-line summary: the pieces joined by single spaces, or nothing when
/// no flag is set.
pub open spec fn summary(v: OverridesView) -> Option<Seq<char>> {
    let parts = summary_parts(v);
    if parts.len() == 0 {
        None
    } else {
        Some(join(parts, " "@))
    }
}

/// A flag value names a file path (rather than a slug): it holds `\`, `/` or `.`.
pub open spec fn is_path_like(s: Seq<char>) -> bool {
    has_char(s, '\\') || has_char(s, '/') || has_char(s, '.')
}

fn push_flag(
    names: &mut Vec<&'static str>,
    set: bool,
    name: &'static str,
)
    ensures
        crate::cli_overrides::str_views(final(names)@) == crate::cli_overrides::str_views(
            old(names)@,
        ) + flag_if(set, name@),
{
    let ghost prev = names@;
    if set {
        names.push(name);
        assert(str_views(names@) =~= str_views(prev) + seq![name@]);
    } else {
        assert(str_views(names@) =~= str_views(prev) + Seq::<Seq<char>>::empty());
    }
}

/// The views of a sequence of string slices.
pub open spec fn str_views(v: Seq<&'static str>) -> Seq<Seq<char>> {
    Seq::new(v.len(), |i: int| v[i]@)
}

fn push_part(parts: &mut Vec<Vec<char>>, name: &str, value: Option<&String>)
    ensures
        views(final(parts)@) == views(old(parts)@) + text_part(
            name@,
            match value {
                Some(s) => Some(s@),
                None => None,
            },
        ),
{
    let ghost prev = parts@;
    match value {
        Some(s) => {
            let mut p = chars_of(name);
            append_str(&mut p, s.as_str());
            parts.push(p);
            assert(views(parts@) =~= views(prev) + seq![name@ + s@]);
        },
        None => {
            assert(views(parts@) =~= views(prev) + Seq::<Seq<char>>::empty());
        },
    }
}

fn push_num_part(parts: &mut Vec<Vec<char>>, name: &str, value: Option<u64>)
    ensures
        views(final(parts)@) == views(old(parts)@) + num_part(name@, nat_opt_u64(value)),
{
    let ghost prev = parts@;
    match value {
        Some(n) => {
            let mut p = chars_of(name);
            let d = decimal_chars(n);
            append_chars(&mut p, d.as_slice());
            parts.push(p);
            assert(views(parts@) =~= views(prev) + seq![name@ + decimal(n as nat)]);
        },
        None => {
            assert(views(parts@) =~= views(prev) + Seq::<Seq<char>>::empty());
        },
    }
}

fn push_bool_part(parts: &mut Vec<Vec<char>>, name: &str, value: Option<bool>)
    ensures
        views(final(parts)@) == views(old(parts)@) + bool_part(name@, value),
{
    let ghost prev = parts@;
    match value {
        Some(b) => {
            let mut p = chars_of(name);
            let t = bool_to_string(b);
            append_str(&mut p, t.as_str());
            parts.push(p);
            assert(views(parts@) =~= views(prev) + seq![name@ + bool_text(b)]);
        },
        None => {
            assert(views(parts@) =~= views(prev) + Seq::<Seq<char>>::empty());
        },
    }
}

fn push_date_part(parts: &mut Vec<Vec<char>>, name: &str, value: Option<Date>)
    ensures
        views(final(parts)@) == views(old(parts)@) + date_part(name@, value),
{
    let ghost prev = parts@;
    match value {
        Some(d) => {
            let mut p = chars_of(name);
            let t = format_date_as(d, DateStyle::Iso);
            append_str(&mut p, t.as_str());
            parts.push(p);
            assert(views(parts@) =~= views(prev) + seq![name@ + formatted_date(d, DateStyle::Iso)]);
        },
        None => {
            assert(views(parts@) =~= views(prev) + Seq::<Seq<char>>::empty());
        },
    }
}

fn opt_u8_as_u64(o: Option<u8>) -> (r: Option<u64>)
    ensures
        nat_opt_u64(r) == nat_opt_u8(o),
{
    match o { Some(n) => Some(n as u64), None => None }
}

fn opt_u32_as_u64(o: Option<u32>) -> (r: Option<u64>)
    ensures
        nat_opt_u64(r) == nat_opt_u32(o),
{
    match o { Some(n) => Some(n as u64), None => None }
}

fn opt_usize_as_u64(o: Option<usize>) -> (r: Option<u64>)
    ensures
        nat_opt_u64(r) == nat_opt_usize(o),
{
    match o { Some(n) => Some(n as u64), None => None }
}

impl CliOverrides {
    /// Names of per-tcode flags currently set. Used to produce a precise error
    /// when these are mixed with `--run-sequence`.
    pub fn per_tcode_flag_names(&self) -> (r: Vec<&'static str>)
        ensures
            str_views(r@) == per_tcode_flags(self@),
    {
        let mut v: Vec<&'static str> = Vec::new();
        assert(str_views(v@) =~= Seq::<Seq<char>>::empty());
        push_flag(&mut v, self.tcode.is_some(), "--tcode");
        push_flag(&mut v, self.layout.is_some(), "--layout");
        push_flag(&mut v, self.variant.is_some(), "--variant");
        push_flag(&mut v, self.export_type.is_some(), "--export-type");
        push_flag(&mut v, self.tcode_run_type.is_some(), "--tcode-run-type");
        push_flag(&mut v, self.by_date.is_some(), "--by-date");
        push_flag(&mut v, self.by_delivery.is_some(), "--by-delivery");
        push_flag(&mut v, self.by_shipment.is_some(), "--by-shipment");
        push_flag(&mut v, self.limiter.is_some(), "--limiter");
        push_flag(&mut v, self.date_start.is_some(), "--date-start");
        push_flag(&mut v, self.date_end.is_some(), "--date-end");
        push_flag(&mut v, self.delivery_file.is_some(), "--delivery-file");
        push_flag(&mut v, self.delivery_col.is_some(), "--delivery-col");
        push_flag(&mut v, self.shipment_file.is_some(), "--shipment-file");
        push_flag(&mut v, self.shipment_col.is_some(), "--shipment-col");
        push_flag(&mut v, self.pre_export_back.is_some(), "--pre-export-back");
        push_flag(&mut v, self.tab_number.is_some(), "--tab-number");
        proof {
            let o = self@;
            assert(str_views(v@) =~= per_tcode_flags(o));
        }
        v
    }

    /// One-line summary of the flags overriding config, e.g.
    /// `--tcode=VT11 --layout=ob_6 --iterations=3`; `None` when no flag is set.
    pub fn summary_line(&self) -> (r: Option<String>)
        ensures
            match r {
                Some(s) => summary(self@) == Some(s@),
                None => summary(self@) is None,
            },
    {
        let mut parts: Vec<Vec<char>> = Vec::new();
        assert(views(parts@) =~= Seq::<Seq<char>>::empty());
        push_part(&mut parts, "--tcode=", self.tcode.as_ref());
        push_part(&mut parts, "--layout=", self.layout.as_ref());
        push_part(&mut parts, "--variant=", self.variant.as_ref());
        push_num_part(&mut parts, "--export-type=", opt_u8_as_u64(self.export_type));
        push_part(&mut parts, "--tcode-run-type=", self.tcode_run_type.as_ref());
        push_bool_part(&mut parts, "--by-date=", self.by_date);
        push_bool_part(&mut parts, "--by-delivery=", self.by_delivery);
        push_bool_part(&mut parts, "--by-shipment=", self.by_shipment);
        push_part(&mut parts, "--limiter=", self.limiter.as_ref());
        push_date_part(&mut parts, "--date-start=", self.date_start);
        push_date_part(&mut parts, "--date-end=", self.date_end);
        push_part(&mut parts, "--delivery-file=", self.delivery_file.as_ref());
        push_part(&mut parts, "--delivery-col=", self.delivery_col.as_ref());
        push_part(&mut parts, "--shipment-file=", self.shipment_file.as_ref());
        push_part(&mut parts, "--shipment-col=", self.shipment_col.as_ref());
        push_bool_part(&mut parts, "--pre-export-back=", self.pre_export_back);
        push_num_part(&mut parts, "--tab-number=", opt_u32_as_u64(self.tab_number));
        push_num_part(&mut parts, "--iterations=", opt_usize_as_u64(self.iterations));
        push_num_part(&mut parts, "--interval-seconds=", self.interval_seconds);
        push_num_part(&mut parts, "--delay-seconds=", self.delay_seconds);
        push_part(&mut parts, "--reports-dir=", self.reports_dir.as_ref());
        push_part(&mut parts, "--date-format=", self.date_format.as_ref());
        push_part(&mut parts, "--timezone=", self.timezone.as_ref());
        proof {
            let o = self@;
            assert(views(parts@) =~= summary_parts(o));
        }
        if parts.len() == 0 {
            None
        } else {
            let sep = chars_of(" ");
            let line = join_chars(&parts, sep.as_slice());
            Some(string_of(line.as_slice()))
        }
    }

    /// Whether a `--delivery-file` / `--shipment-file` value is a path (holds
    /// `\`, `/` or `.`) rather than a slug naming a reports sub-directory.
    pub fn looks_like_path(value: &str) -> (r: bool)
        ensures
            r == is_path_like(value@),
    {
        let v = chars_of(value);
        has_char_exec(v.as_slice(), '\\') || has_char_exec(v.as_slice(), '/') || has_char_exec(
            v.as_slice(),
            '.',
        )
    }
}

} // verus!
