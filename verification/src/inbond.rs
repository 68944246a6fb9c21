//! The inbond shipment workflow's settings (`[inbond]` in `config.toml`)
//! and the parameters it hands to the 149 run.
use crate::params::Report149ByDeliveryParams;
use crate::text::{
    copy_string, lowercase, non_empty, owned, parse_u8, parse_u8_spec, str_eq, string_views,
    to_lowercase, trim, trim_str,
};
use crate::toml_doc::{as_str, as_str_array, get, get_str, get_str_array, value_get, TomlValue};
use vstd::prelude::*;

verus! {

/// The inbond settings, defaults applied.
pub struct InbondSettings {
    pub vl06o_variant: String,
    pub variant_149: String,
    pub layout_149: String,
    pub layout_columns: Vec<String>,
    pub export_type: u8,
    pub open_notepad: bool,
}

/// The content of [`InbondSettings`].
pub struct InbondView {
    pub vl06o_variant: Seq<char>,
    pub variant_149: Seq<char>,
    pub layout_149: Seq<char>,
    pub layout_columns: Seq<Seq<char>>,
    pub export_type: u8,
    pub open_notepad: bool,
}

impl View for InbondSettings {
    type V = InbondView;

    open spec fn view(&self) -> InbondView {
        InbondView {
            vl06o_variant: self.vl06o_variant@,
            variant_149: self.variant_149@,
            layout_149: self.layout_149@,
            layout_columns: string_views(self.layout_columns@),
            export_type: self.export_type,
            open_notepad: self.open_notepad,
        }
    }
}

/// The columns of the default inbond layout, as material.php expects them.
pub open spec fn default_layout_columns() -> Seq<Seq<char>> {
    seq![
        "Plant"@,
        "Delivery Number"@,
        "Material"@,
        "Quantity"@,
        "UOM"@,
        "Logistics Reference Number"@,
    ]
}

pub open spec fn default_inbond() -> InbondView {
    InbondView {
        vl06o_variant: "blank_"@,
        variant_149: "inb_ship"@,
        layout_149: "inb_ship"@,
        layout_columns: default_layout_columns(),
        export_type: 1,
        open_notepad: true,
    }
}

/// The displayed columns of the default inbond layout (Plant … Logistics
/// Reference Number).
pub fn inbond_default_layout_columns() -> (r: Vec<String>)
    ensures
        string_views(r@) == default_layout_columns(),
{
    let r = vec![
        owned("Plant"),
        owned("Delivery Number"),
        owned("Material"),
        owned("Quantity"),
        owned("UOM"),
        owned("Logistics Reference Number"),
    ];
    assert(string_views(r@) =~= default_layout_columns());
    r
}

impl Default for InbondSettings {
    fn default() -> (r: InbondSettings)
        ensures
            r@ == default_inbond(),
    {
        InbondSettings {
            vl06o_variant: owned("blank_"),
            variant_149: owned("inb_ship"),
            layout_149: owned("inb_ship"),
            layout_columns: inbond_default_layout_columns(),
            export_type: 1,
            open_notepad: true,
        }
    }
}

/// A non-empty text setting, else the default.
pub open spec fn text_or(v: Option<Seq<char>>, d: Seq<char>) -> Seq<char> {
    match v {
        Some(s) => if s.len() > 0 { s } else { d },
        None => d,
    }
}

/// The export type: an integer 0..=4, or a text that parses to one.
pub open spec fn inbond_export_type(v: Option<TomlValue>, d: u8) -> u8 {
    match v {
        Some(TomlValue::Int(i)) => if 0 <= i <= 4 { i as u8 } else { d },
        Some(TomlValue::Str(s)) => match parse_u8_spec(s@) {
            Some(n) => if n <= 4 { n } else { d },
            None => d,
        },
        _ => d,
    }
}

/// Whether to open Notepad: a boolean, or a text `true`, `1` or `yes` in any case.
pub open spec fn inbond_notepad(v: Option<TomlValue>, d: bool) -> bool {
    match v {
        Some(TomlValue::Bool(b)) => b,
        Some(TomlValue::Str(s)) => {
            let l = lowercase(s@);
            l == "true"@ || l == "1"@ || l == "yes"@
        },
        _ => d,
    }
}

/// The settings that the document's `[inbond]` table gives.
pub open spec fn inbond_from(raw: Option<TomlValue>) -> InbondView {
    let d = default_inbond();
    let t = match raw {
        Some(doc) => match value_get(doc, "inbond"@) {
            Some(TomlValue::Table(e)) => Some(TomlValue::Table(e)),
            _ => None,
        },
        None => None,
    };
    match t {
        Some(t) => {
            let cols = match as_str_array(value_get(t, "layout_columns"@)) {
                Some(a) => if non_empty(a).len() > 0 { non_empty(a) } else { d.layout_columns },
                None => d.layout_columns,
            };
            InbondView {
                vl06o_variant: text_or(as_str(value_get(t, "vl06o_variant"@)), d.vl06o_variant),
                variant_149: text_or(as_str(value_get(t, "variant_149"@)), d.variant_149),
                layout_149: match as_str(value_get(t, "layout_149"@)) {
                    Some(s) => s,
                    None => d.layout_149,
                },
                layout_columns: cols,
                export_type: inbond_export_type(value_get(t, "export_type"@), d.export_type),
                open_notepad: inbond_notepad(value_get(t, "open_notepad"@), d.open_notepad),
            }
        },
        None => d,
    }
}

fn non_empty_strings(v: &Vec<String>) -> (r: Vec<String>)
    ensures
        string_views(r@) == non_empty(string_views(v@)),
{
    let mut out: Vec<String> = Vec::new();
    let mut i: usize = 0;
    while i < v.len()
        invariant
            i <= v@.len(),
            string_views(out@) == non_empty(string_views(v@.take(i as int))),
        decreases v@.len() - i,
    {
        proof {
            assert(string_views(v@.take(i + 1)).drop_last() =~= string_views(v@.take(i as int)));
            assert(string_views(v@.take(i + 1)).last() == v@[i as int]@);
        }
        if v[i].unicode_len() > 0 {
            let ghost prev = out@;
            out.push(copy_string(&v[i]));
            assert(string_views(out@) =~= string_views(prev).push(v@[i as int]@));
        }
        i = i + 1;
    }
    assert(v@.take(v@.len() as int) =~= v@);
    out
}

impl InbondSettings {
    /// The settings of the document's `[inbond]` table, each missing or
    /// unusable value left at its default.
    pub fn from_config(raw: &Option<TomlValue>) -> (r: InbondSettings)
        ensures
            r@ == inbond_from(*raw),
    {
        let mut s = InbondSettings::default();
        let t = match raw {
            Some(doc) => match get(doc, "inbond") {
                Some(t) => match t {
                    TomlValue::Table(_) => t,
                    _ => {
                        return s;
                    },
                },
                None => {
                    return s;
                },
            },
            None => {
                return s;
            },
        };
        if let Some(v) = get_str(t, "vl06o_variant") {
            if v.unicode_len() > 0 {
                s.vl06o_variant = copy_string(v);
            }
        }
        if let Some(v) = get_str(t, "variant_149") {
            if v.unicode_len() > 0 {
                s.variant_149 = copy_string(v);
            }
        }
        if let Some(v) = get_str(t, "layout_149") {
            s.layout_149 = copy_string(v);
        }
        if let Some(a) = get_str_array(t, "layout_columns") {
            let cols = non_empty_strings(&a);
            if cols.len() > 0 {
                s.layout_columns = cols;
            }
        }
        match get(t, "export_type") {
            Some(TomlValue::Int(i)) => {
                if 0 <= *i && *i <= 4 {
                    s.export_type = *i as u8;
                }
            },
            Some(TomlValue::Str(x)) => {
                if let Some(n) = parse_u8(x.as_str()) {
                    if n <= 4 {
                        s.export_type = n;
                    }
                }
            },
            _ => {},
        }
        match get(t, "open_notepad") {
            Some(TomlValue::Bool(b)) => {
                s.open_notepad = *b;
            },
            Some(TomlValue::Str(x)) => {
                let l = to_lowercase(x.as_str());
                proof {
                    reveal_strlit("true");
                    reveal_strlit("1");
                    reveal_strlit("yes");
                }
                s.open_notepad = str_eq(l.as_str(), "true") || str_eq(l.as_str(), "1") || str_eq(
                    l.as_str(),
                    "yes",
                );
            },
            _ => {},
        }
        s
    }
}

/// The shipment of an inbond run, trimmed; `None` when blank.
pub fn inbond_shipment(shipment: &str) -> (r: Option<String>)
    ensures
        match r {
            Some(s) => trim(shipment@).len() > 0 && s@ == trim(shipment@),
            None => trim(shipment@).len() == 0,
        },
{
    let t = trim_str(shipment);
    if t.unicode_len() == 0 {
        None
    } else {
        Some(t)
    }
}

fn copy_strings(v: &Vec<String>) -> (r: Vec<String>)
    ensures
        string_views(r@) == string_views(v@),
{
    let mut out: Vec<String> = Vec::new();
    let mut i: usize = 0;
    while i < v.len()
        invariant
            i <= v@.len(),
            out@.len() == i,
            forall|k: int| 0 <= k < i ==> #[trigger] out@[k]@ == v@[k]@,
        decreases v@.len() - i,
    {
        out.push(copy_string(&v[i]));
        i = i + 1;
    }
    assert(string_views(out@) =~= string_views(v@));
    out
}

/// The 149 run of an inbond flow: the settings' variant, layout, columns and
/// export type, the deliveries found, and the suffix `inbond-<shipment>`.
pub fn inbond_149_params(settings: &InbondSettings, deliveries: Vec<String>, shipment: &str) -> (r:
    Report149ByDeliveryParams)
    ensures
        r.variant@ == settings.variant_149@,
        r.layout@ == settings.layout_149@,
        string_views(r.layout_columns@) == string_views(settings.layout_columns@),
        r.delivery_numbers@ == deliveries@,
        r.export_type == settings.export_type,
        r.filename_suffix matches Some(x) && x@ == "inbond-"@ + shipment@,
{
    let mut suffix = crate::text::chars_of("inbond-");
    crate::text::append_str(&mut suffix, shipment);
    Report149ByDeliveryParams {
        variant: copy_string(&settings.variant_149),
        layout: copy_string(&settings.layout_149),
        layout_columns: copy_strings(&settings.layout_columns),
        delivery_numbers: deliveries,
        export_type: settings.export_type,
        filename_suffix: Some(crate::text::string_of(suffix.as_slice())),
    }
}

impl Default for Report149ByDeliveryParams {
    /// The inbond defaults: variant and layout `inb_ship`, the default
    /// columns, no deliveries, text with tabs, suffix `inbond`.
    fn default() -> (r: Report149ByDeliveryParams)
        ensures
            r.variant@ == "inb_ship"@,
            r.layout@ == "inb_ship"@,
            string_views(r.layout_columns@) == default_layout_columns(),
            r.delivery_numbers@.len() == 0,
            r.export_type == 1,
            r.filename_suffix matches Some(x) && x@ == "inbond"@,
    {
        Report149ByDeliveryParams {
            variant: owned("inb_ship"),
            layout: owned("inb_ship"),
            layout_columns: inbond_default_layout_columns(),
            delivery_numbers: Vec::new(),
            export_type: 1,
            filename_suffix: Some(owned("inbond")),
        }
    }
}

} // verus!
