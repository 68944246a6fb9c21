//! What merging the command-line overrides into a configuration promises:
//! no flag changes nothing, every flag given wins over the file, and merging
//! the same flags twice is merging them once; and what saving writes, so
//! that reading a saved section back gives the section again and the tables
//! the configuration does not model survive a load and a save.
use crate::assoc::{
    assoc_get, assoc_insert, first_index, has_key, keys_of, keys_unique,
    lemma_first_unique, lemma_get_insert_other, lemma_get_insert_same, lemma_has_first,
    lemma_insert_idempotent, lemma_insert_keys,
};
use crate::cli_overrides::{no_overrides, OverridesView};
use crate::config_ops::{
    instance_id_of, instance_id_set, reports_dir_of, reports_dir_set, applied, apply_global,
    apply_tcode, apply_tcode_map, first_match, has_match, is_first_match, section_key,
    set_param, step_filters, step_plain, step_plants, step_range, step_shipment, step_sources,
    step_zmdesnr,
};
use crate::config_types::{empty_tcode, fresh_config, GlobalView, LoopView, SapConfigView, SequenceView, TcodeView};
use crate::date::{formatted_date, DateStyle};
use crate::text::{bool_text, decimal, double_backslashes, eq_ignore_ascii_case, uppercase};
use crate::config_load::{from_document, global_from, loaded, loop_from, sequence_from, one_of, section_from, string_params, tcode_keys};
use crate::config_save::{
    bare_line, columns_items, columns_text, config_text, opt_nat_u8, opt_num_line, opt_quoted_line, params_text,
    global_text, loop_text, opt_nat_usize, options_items, quoted_line, raw_text, section_fields, section_text,
    sequence_text,
};
use crate::toml_doc::{as_str, str_elems, table_get, table_keys, toml_parse, TomlEntry, TomlValue};
use vstd::prelude::*;

verus! {

// ---------------------------------------------------------------------------
// No flag
// ---------------------------------------------------------------------------

/// Merging overrides with no flag set leaves the configuration as it was.
pub proof fn lemma_no_overrides_change_nothing(c: SapConfigView)
    ensures
        applied(c, no_overrides()) == c,
{
}

// ---------------------------------------------------------------------------
// The addressed section
// ---------------------------------------------------------------------------

/// The sections of a configuration (none when it has no `[tcode]` table).
pub open spec fn sections(c: SapConfigView) -> Seq<(Seq<char>, TcodeView)> {
    match c.tcode {
        Some(m) => m,
        None => Seq::empty(),
    }
}

/// The section `--tcode tc` addresses in `c`.
pub open spec fn addressed_key(c: SapConfigView, tc: Seq<char>) -> Seq<char> {
    section_key(keys_of(sections(c)), tc)
}

/// Everything a section holds once the per-tcode flags of `o` are merged
/// into it (`name` being the upper-cased `--tcode` value).
pub open spec fn settled(t: TcodeView, o: OverridesView, name: Seq<char>) -> bool {
    &&& (o.layout is Some ==> t.layout == o.layout)
    &&& (o.variant is Some ==> t.variant == o.variant)
    &&& (o.export_type is Some ==> t.export_type == o.export_type)
    &&& (o.by_date matches Some(b) ==> t.by_date == Some(bool_text(b)))
    &&& (o.by_delivery matches Some(b) ==> t.by_delivery == Some(bool_text(b)))
    &&& (o.by_shipment matches Some(b) ==> assoc_get(t.additional_params, "by_shipment"@) == Some(
        bool_text(b),
    ))
    &&& (o.by_shipment == Some(true) && name == "VL06O"@ ==> t.column_name is Some)
    &&& (o.limiter matches Some(l) ==> assoc_get(t.additional_params, "limiter"@) == Some(l))
    &&& (o.date_start matches Some(d) ==> t.date_range_start == Some(
        formatted_date(d, DateStyle::Iso),
    ))
    &&& (o.date_end matches Some(d) ==> t.date_range_end == Some(formatted_date(d, DateStyle::Iso)))
    &&& (o.delivery_file matches Some(v) ==> assoc_get(t.additional_params, "cli_delivery_file"@)
        == Some(v))
    &&& (o.delivery_col matches Some(v) ==> assoc_get(t.additional_params, "cli_delivery_col"@)
        == Some(v))
    &&& (o.shipment_file matches Some(v) ==> assoc_get(t.additional_params, "cli_shipment_file"@)
        == Some(v))
    &&& (o.shipment_col matches Some(v) ==> assoc_get(t.additional_params, "cli_shipment_col"@)
        == Some(v) && t.column_name == Some(v))
    &&& (name == "ZMDESNR"@ ==> (o.pre_export_back matches Some(b) ==> assoc_get(
        t.additional_params,
        "pre_export_back"@,
    ) == Some(bool_text(b))))
    &&& (name == "ZMDESNR"@ ==> (o.tab_number matches Some(n) ==> t.tab_number == Some(
        decimal(n as nat),
    )))
    &&& (o.plants is Some ==> t.plants == o.plants)
}

proof fn lemma_param_keys_distinct()
    ensures
        "by_shipment"@ != "limiter"@,
        "by_shipment"@ != "cli_delivery_file"@,
        "by_shipment"@ != "cli_delivery_col"@,
        "by_shipment"@ != "cli_shipment_file"@,
        "by_shipment"@ != "cli_shipment_col"@,
        "by_shipment"@ != "pre_export_back"@,
        "limiter"@ != "cli_delivery_file"@,
        "limiter"@ != "cli_delivery_col"@,
        "limiter"@ != "cli_shipment_file"@,
        "limiter"@ != "cli_shipment_col"@,
        "limiter"@ != "pre_export_back"@,
        "cli_delivery_file"@ != "cli_delivery_col"@,
        "cli_delivery_file"@ != "cli_shipment_file"@,
        "cli_delivery_file"@ != "cli_shipment_col"@,
        "cli_delivery_file"@ != "pre_export_back"@,
        "cli_delivery_col"@ != "cli_shipment_file"@,
        "cli_delivery_col"@ != "cli_shipment_col"@,
        "cli_delivery_col"@ != "pre_export_back"@,
        "cli_shipment_file"@ != "cli_shipment_col"@,
        "cli_shipment_file"@ != "pre_export_back"@,
        "cli_shipment_col"@ != "pre_export_back"@,
{
    reveal_strlit("by_shipment");
    reveal_strlit("limiter");
    reveal_strlit("cli_delivery_file");
    reveal_strlit("cli_delivery_col");
    reveal_strlit("cli_shipment_file");
    reveal_strlit("cli_shipment_col");
    reveal_strlit("pre_export_back");
    assert("by_shipment"@[0] != "limiter"@[0]);
    assert("by_shipment"@[0] != "cli_delivery_file"@[0]);
    assert("by_shipment"@[0] != "cli_delivery_col"@[0]);
    assert("by_shipment"@[0] != "cli_shipment_file"@[0]);
    assert("by_shipment"@[0] != "cli_shipment_col"@[0]);
    assert("by_shipment"@[0] != "pre_export_back"@[0]);
    assert("limiter"@[0] != "cli_delivery_file"@[0]);
    assert("limiter"@[0] != "cli_delivery_col"@[0]);
    assert("limiter"@[0] != "cli_shipment_file"@[0]);
    assert("limiter"@[0] != "cli_shipment_col"@[0]);
    assert("limiter"@[0] != "pre_export_back"@[0]);
    assert("cli_delivery_file"@[4] != "cli_shipment_file"@[4]);
    assert("cli_delivery_file"@[4] != "cli_shipment_col"@[4]);
    assert("cli_delivery_file"@[0] != "pre_export_back"@[0]);
    assert("cli_delivery_col"@[4] != "cli_shipment_file"@[4]);
    assert("cli_delivery_col"@[4] != "cli_shipment_col"@[4]);
    assert("cli_delivery_col"@[0] != "pre_export_back"@[0]);
    assert("cli_shipment_file"@[0] != "pre_export_back"@[0]);
    assert("cli_shipment_col"@[0] != "pre_export_back"@[0]);
    assert("cli_delivery_file"@.len() != "cli_delivery_col"@.len());
    assert("cli_shipment_file"@.len() != "cli_shipment_col"@.len());
}

/// A later write of another parameter keeps an earlier one.
proof fn lemma_keeps(t: TcodeView, k: Seq<char>, v: Seq<char>, q: Seq<char>)
    requires
        k != q,
    ensures
        assoc_get(set_param(t, k, v).additional_params, q) == assoc_get(t.additional_params, q),
{
    lemma_get_insert_other(t.additional_params, k, v, q);
}

/// The parameter just written reads back.
proof fn lemma_reads(t: TcodeView, k: Seq<char>, v: Seq<char>)
    ensures
        assoc_get(set_param(t, k, v).additional_params, k) == Some(v),
{
    lemma_get_insert_same(t.additional_params, k, v);
}

/// The fields that only the early steps write stay as they wrote them.
proof fn lemma_settles_fields(t: TcodeView, o: OverridesView, name: Seq<char>)
    ensures
        ({
            let r = apply_tcode(t, o, name);
            &&& (o.layout is Some ==> r.layout == o.layout)
            &&& (o.variant is Some ==> r.variant == o.variant)
            &&& (o.export_type is Some ==> r.export_type == o.export_type)
            &&& (o.by_date matches Some(b) ==> r.by_date == Some(bool_text(b)))
            &&& (o.by_delivery matches Some(b) ==> r.by_delivery == Some(bool_text(b)))
            &&& (o.date_start matches Some(d) ==> r.date_range_start == Some(
                formatted_date(d, DateStyle::Iso),
            ))
            &&& (o.date_end matches Some(d) ==> r.date_range_end == Some(
                formatted_date(d, DateStyle::Iso),
            ))
            &&& (name == "ZMDESNR"@ ==> (o.tab_number matches Some(n) ==> r.tab_number == Some(
                decimal(n as nat),
            )))
            &&& (o.plants is Some ==> r.plants == o.plants)
        }),
{
    let t1 = step_plain(t, o);
    let t2 = step_filters(t1, o);
    let t3 = step_shipment(t2, o, name);
    let t4 = step_range(t3, o);
    let t5 = step_sources(t4, o);
    let t6 = step_zmdesnr(t5, o, name);
    assert(t3.layout == t1.layout && t3.variant == t1.variant && t3.export_type == t1.export_type);
    assert(t3.by_date == t2.by_date && t3.by_delivery == t2.by_delivery);
    assert(t5.layout == t3.layout && t5.variant == t3.variant && t5.export_type == t3.export_type);
    assert(t5.by_date == t3.by_date && t5.by_delivery == t3.by_delivery);
    assert(t5.date_range_start == t4.date_range_start && t5.date_range_end == t4.date_range_end);
    assert(t6.layout == t5.layout && t6.variant == t5.variant && t6.export_type == t5.export_type);
    assert(t6.by_date == t5.by_date && t6.by_delivery == t5.by_delivery);
    assert(t6.date_range_start == t5.date_range_start && t6.date_range_end == t5.date_range_end);
}

/// `by_shipment` and `limiter`, written by the shipment and range steps.
proof fn lemma_settles_early_params(t: TcodeView, o: OverridesView, name: Seq<char>)
    ensures
        ({
            let r = apply_tcode(t, o, name);
            &&& (o.by_shipment matches Some(b) ==> assoc_get(r.additional_params, "by_shipment"@)
                == Some(bool_text(b)))
            &&& (o.limiter matches Some(l) ==> assoc_get(r.additional_params, "limiter"@) == Some(l))
            &&& (o.by_shipment == Some(true) && name == "VL06O"@ ==> r.column_name is Some)
        }),
{
    lemma_param_keys_distinct();
    let t1 = step_plain(t, o);
    let t2 = step_filters(t1, o);
    let t3 = step_shipment(t2, o, name);
    let t4 = step_range(t3, o);
    let t5 = step_sources(t4, o);
    if let Some(b) = o.by_shipment {
        lemma_reads(t2, "by_shipment"@, bool_text(b));
        let s3 = set_param(t2, "by_shipment"@, bool_text(b));
        assert(t3.additional_params == s3.additional_params);
        let t3b = match o.limiter { Some(l) => set_param(t3, "limiter"@, l), None => t3 };
        if let Some(l) = o.limiter {
            lemma_keeps(t3, "limiter"@, l, "by_shipment"@);
        }
        assert(t4.additional_params == t3b.additional_params);
        lemma_sources_keep(t4, o, "by_shipment"@);
        lemma_zmdesnr_keeps(t5, o, name, "by_shipment"@);
    }
    if let Some(l) = o.limiter {
        lemma_reads(t3, "limiter"@, l);
        let t3b = set_param(t3, "limiter"@, l);
        assert(t4.additional_params == t3b.additional_params);
        lemma_sources_keep(t4, o, "limiter"@);
        lemma_zmdesnr_keeps(t5, o, name, "limiter"@);
    }
    if o.by_shipment == Some(true) && name == "VL06O"@ {
        assert(t3.column_name is Some);
        assert(t4.column_name is Some);
        assert(t5.column_name is Some);
    }
}

/// The sources and `pre_export_back`, written by the last parameter steps.
proof fn lemma_settles_late_params(t: TcodeView, o: OverridesView, name: Seq<char>)
    ensures
        ({
            let r = apply_tcode(t, o, name);
            &&& (o.delivery_file matches Some(v) ==> assoc_get(r.additional_params, "cli_delivery_file"@)
                == Some(v))
            &&& (o.delivery_col matches Some(v) ==> assoc_get(r.additional_params, "cli_delivery_col"@)
                == Some(v))
            &&& (o.shipment_file matches Some(v) ==> assoc_get(r.additional_params, "cli_shipment_file"@)
                == Some(v))
            &&& (o.shipment_col matches Some(v) ==> assoc_get(r.additional_params, "cli_shipment_col"@)
                == Some(v) && r.column_name == Some(v))
            &&& (name == "ZMDESNR"@ ==> (o.pre_export_back matches Some(b) ==> assoc_get(
                r.additional_params,
                "pre_export_back"@,
            ) == Some(bool_text(b))))
        }),
{
    lemma_param_keys_distinct();
    let t1 = step_plain(t, o);
    let t2 = step_filters(t1, o);
    let t3 = step_shipment(t2, o, name);
    let t4 = step_range(t3, o);
    let t5 = step_sources(t4, o);
    lemma_sources_write(t4, o);
    lemma_zmdesnr_keeps(t5, o, name, "cli_delivery_file"@);
    lemma_zmdesnr_keeps(t5, o, name, "cli_delivery_col"@);
    lemma_zmdesnr_keeps(t5, o, name, "cli_shipment_file"@);
    lemma_zmdesnr_keeps(t5, o, name, "cli_shipment_col"@);
    if name == "ZMDESNR"@ {
        if let Some(b) = o.pre_export_back {
            lemma_reads(t5, "pre_export_back"@, bool_text(b));
        }
    }
}

/// Merging the per-tcode flags into any section settles it.
pub proof fn lemma_apply_settles(t: TcodeView, o: OverridesView, name: Seq<char>)
    ensures
        settled(apply_tcode(t, o, name), o, name),
{
    lemma_settles_fields(t, o, name);
    lemma_settles_early_params(t, o, name);
    lemma_settles_late_params(t, o, name);
}

proof fn lemma_sources_keep(t: TcodeView, o: OverridesView, q: Seq<char>)
    requires
        q == "by_shipment"@ || q == "limiter"@,
    ensures
        assoc_get(step_sources(t, o).additional_params, q) == assoc_get(t.additional_params, q),
{
    lemma_param_keys_distinct();
    let t1 = match o.delivery_file { Some(v) => set_param(t, "cli_delivery_file"@, v), None => t };
    if let Some(v) = o.delivery_file {
        lemma_keeps(t, "cli_delivery_file"@, v, q);
    }
    let t2 = match o.delivery_col { Some(v) => set_param(t1, "cli_delivery_col"@, v), None => t1 };
    if let Some(v) = o.delivery_col {
        lemma_keeps(t1, "cli_delivery_col"@, v, q);
    }
    let t3 = match o.shipment_file {
        Some(v) => set_param(t2, "cli_shipment_file"@, v),
        None => t2,
    };
    if let Some(v) = o.shipment_file {
        lemma_keeps(t2, "cli_shipment_file"@, v, q);
    }
    if let Some(v) = o.shipment_col {
        lemma_keeps(TcodeView { column_name: Some(v), ..t3 }, "cli_shipment_col"@, v, q);
    }
}

proof fn lemma_sources_write(t: TcodeView, o: OverridesView)
    ensures
        ({
            let s = step_sources(t, o);
            &&& (o.delivery_file matches Some(v) ==> assoc_get(s.additional_params, "cli_delivery_file"@)
                == Some(v))
            &&& (o.delivery_col matches Some(v) ==> assoc_get(s.additional_params, "cli_delivery_col"@)
                == Some(v))
            &&& (o.shipment_file matches Some(v) ==> assoc_get(s.additional_params, "cli_shipment_file"@)
                == Some(v))
            &&& (o.shipment_col matches Some(v) ==> assoc_get(s.additional_params, "cli_shipment_col"@)
                == Some(v) && s.column_name == Some(v))
        }),
{
    lemma_param_keys_distinct();
    let t1 = match o.delivery_file { Some(v) => set_param(t, "cli_delivery_file"@, v), None => t };
    let t2 = match o.delivery_col { Some(v) => set_param(t1, "cli_delivery_col"@, v), None => t1 };
    let t3 = match o.shipment_file {
        Some(v) => set_param(t2, "cli_shipment_file"@, v),
        None => t2,
    };
    let t4 = match o.shipment_col {
        Some(v) => set_param(TcodeView { column_name: Some(v), ..t3 }, "cli_shipment_col"@, v),
        None => t3,
    };
    if let Some(v) = o.delivery_file {
        lemma_reads(t, "cli_delivery_file"@, v);
        if let Some(w) = o.delivery_col {
            lemma_keeps(t1, "cli_delivery_col"@, w, "cli_delivery_file"@);
        }
        if let Some(w) = o.shipment_file {
            lemma_keeps(t2, "cli_shipment_file"@, w, "cli_delivery_file"@);
        }
        if let Some(w) = o.shipment_col {
            lemma_keeps(
                TcodeView { column_name: Some(w), ..t3 },
                "cli_shipment_col"@,
                w,
                "cli_delivery_file"@,
            );
        }
    }
    if let Some(v) = o.delivery_col {
        lemma_reads(t1, "cli_delivery_col"@, v);
        if let Some(w) = o.shipment_file {
            lemma_keeps(t2, "cli_shipment_file"@, w, "cli_delivery_col"@);
        }
        if let Some(w) = o.shipment_col {
            lemma_keeps(
                TcodeView { column_name: Some(w), ..t3 },
                "cli_shipment_col"@,
                w,
                "cli_delivery_col"@,
            );
        }
    }
    if let Some(v) = o.shipment_file {
        lemma_reads(t2, "cli_shipment_file"@, v);
        if let Some(w) = o.shipment_col {
            lemma_keeps(
                TcodeView { column_name: Some(w), ..t3 },
                "cli_shipment_col"@,
                w,
                "cli_shipment_file"@,
            );
        }
    }
    if let Some(v) = o.shipment_col {
        lemma_reads(TcodeView { column_name: Some(v), ..t3 }, "cli_shipment_col"@, v);
    }
}

proof fn lemma_zmdesnr_keeps(t: TcodeView, o: OverridesView, name: Seq<char>, q: Seq<char>)
    requires
        q != "pre_export_back"@,
    ensures
        assoc_get(step_zmdesnr(t, o, name).additional_params, q) == assoc_get(t.additional_params, q),
{
    if name == "ZMDESNR"@ {
        if let Some(b) = o.pre_export_back {
            lemma_keeps(t, "pre_export_back"@, bool_text(b), q);
        }
    }
}

/// Writing a parameter that already holds the value changes nothing.
proof fn lemma_set_same(t: TcodeView, k: Seq<char>, v: Seq<char>)
    requires
        assoc_get(t.additional_params, k) == Some(v),
    ensures
        set_param(t, k, v) == t,
{
    let p = t.additional_params;
    assert(has_key(keys_of(p), k));
    lemma_has_first(keys_of(p), k);
    let i = first_index(keys_of(p), k);
    assert(p[i] == (k, v));
    assert(assoc_insert(p, k, v) =~= p);
}

/// A settled section is left as it is by merging the same flags again.
pub proof fn lemma_settled_is_fixed(t: TcodeView, o: OverridesView, name: Seq<char>)
    requires
        settled(t, o, name),
    ensures
        apply_tcode(t, o, name) == t,
{
    lemma_param_keys_distinct();
    assert(step_plain(t, o) == t);
    assert(step_filters(t, o) == t);
    if let Some(b) = o.by_shipment {
        lemma_set_same(t, "by_shipment"@, bool_text(b));
    }
    assert(step_shipment(t, o, name) == t);
    if let Some(l) = o.limiter {
        lemma_set_same(t, "limiter"@, l);
    }
    assert(step_range(t, o) == t);
    if let Some(v) = o.delivery_file {
        lemma_set_same(t, "cli_delivery_file"@, v);
    }
    if let Some(v) = o.delivery_col {
        lemma_set_same(t, "cli_delivery_col"@, v);
    }
    if let Some(v) = o.shipment_file {
        lemma_set_same(t, "cli_shipment_file"@, v);
    }
    if let Some(v) = o.shipment_col {
        assert(TcodeView { column_name: Some(v), ..t } == t);
        lemma_set_same(t, "cli_shipment_col"@, v);
    }
    assert(step_sources(t, o) == t);
    if name == "ZMDESNR"@ {
        if let Some(b) = o.pre_export_back {
            lemma_set_same(t, "pre_export_back"@, bool_text(b));
        }
    }
    assert(step_zmdesnr(t, o, name) == t);
    assert(step_plants(t, o) == t);
}

/// Merging the same per-tcode flags into a section twice is merging them once.
pub proof fn lemma_apply_tcode_idempotent(t: TcodeView, o: OverridesView, name: Seq<char>)
    ensures
        apply_tcode(apply_tcode(t, o, name), o, name) == apply_tcode(t, o, name),
{
    lemma_apply_settles(t, o, name);
    lemma_settled_is_fixed(apply_tcode(t, o, name), o, name);
}

// ---------------------------------------------------------------------------
// Which section is addressed
// ---------------------------------------------------------------------------

proof fn lemma_first_match_unique(keys: Seq<Seq<char>>, tc: Seq<char>, i: int)
    requires
        is_first_match(keys, tc, i),
    ensures
        has_match(keys, tc),
        first_match(keys, tc) == i,
{
    let j = first_match(keys, tc);
    assert(is_first_match(keys, tc, j));
    if j < i {
        assert(!eq_ignore_ascii_case(keys[j], tc));
    }
    if i < j {
        assert(!eq_ignore_ascii_case(keys[i], tc));
    }
}

proof fn lemma_has_first_match(keys: Seq<Seq<char>>, tc: Seq<char>)
    requires
        has_match(keys, tc),
    ensures
        is_first_match(keys, tc, first_match(keys, tc)),
    decreases keys.len(),
{
    let d = keys.drop_last();
    if has_match(d, tc) {
        lemma_has_first_match(d, tc);
        let i = first_match(d, tc);
        assert forall|j: int| 0 <= j < i implies !eq_ignore_ascii_case(keys[j], tc) by {
            assert(keys[j] == d[j]);
        }
        assert(keys[i] == d[i]);
        lemma_first_match_unique(keys, tc, i);
    } else {
        let i = keys.len() - 1;
        let w = choose|w: int| 0 <= w < keys.len() && eq_ignore_ascii_case(keys[w], tc);
        if w < i {
            assert(d[w] == keys[w]);
        }
        assert forall|j: int| 0 <= j < i implies !eq_ignore_ascii_case(keys[j], tc) by {
            assert(keys[j] == d[j]);
        }
        lemma_first_match_unique(keys, tc, i);
    }
}

/// The section a `--tcode` value addresses exists once the flags are
/// merged, and merging again addresses the same section.
proof fn lemma_key_stable(m: Seq<(Seq<char>, TcodeView)>, tc: Seq<char>, t: TcodeView)
    ensures
        section_key(keys_of(assoc_insert(m, section_key(keys_of(m), tc), t)), tc) == section_key(
            keys_of(m),
            tc,
        ),
{
    let keys = keys_of(m);
    let key = section_key(keys, tc);
    let m2 = assoc_insert(m, key, t);
    lemma_insert_keys(m, key, t);
    if has_match(keys, tc) {
        lemma_has_first_match(keys, tc);
        let i = first_match(keys, tc);
        assert(has_key(keys, key));
        assert(keys_of(m2) == keys);
    } else {
        if has_key(keys, key) {
            assert(keys_of(m2) == keys);
        } else {
            let k2 = keys_of(m2);
            assert(k2 == keys.push(key));
            if has_match(k2, tc) {
                let n = keys.len() as int;
                let w = choose|w: int| 0 <= w < k2.len() && eq_ignore_ascii_case(k2[w], tc);
                if w < n {
                    assert(k2[w] == keys[w]);
                }
                assert forall|j: int| 0 <= j < n implies !eq_ignore_ascii_case(k2[j], tc) by {
                    assert(k2[j] == keys[j]);
                }
                lemma_first_match_unique(k2, tc, n);
            }
        }
    }
}

/// The sections after merging the same flags twice are those after merging once.
pub proof fn lemma_apply_map_idempotent(m: Seq<(Seq<char>, TcodeView)>, tc: Seq<char>, o: OverridesView)
    ensures
        apply_tcode_map(apply_tcode_map(m, tc, o), tc, o) == apply_tcode_map(m, tc, o),
{
    let key = section_key(keys_of(m), tc);
    let t0 = match assoc_get(m, key) {
        Some(t) => t,
        None => empty_tcode(),
    };
    let t1 = apply_tcode(t0, o, uppercase(tc));
    let m1 = assoc_insert(m, key, t1);
    lemma_key_stable(m, tc, t1);
    lemma_get_insert_same(m, key, t1);
    lemma_apply_tcode_idempotent(t0, o, uppercase(tc));
    lemma_insert_idempotent(m, key, t1);
}

/// Merging the global flags twice is merging them once.
proof fn lemma_apply_global_idempotent(c: SapConfigView, o: OverridesView)
    ensures
        apply_global(SapConfigView { global: apply_global(c, o), ..c }, o) == apply_global(c, o),
{
}

// ---------------------------------------------------------------------------
// The laws
// ---------------------------------------------------------------------------

/// Merging the same overrides twice gives what merging them once gives.
pub proof fn lemma_overrides_idempotent(c: SapConfigView, o: OverridesView)
    ensures
        applied(applied(c, o), o) == applied(c, o),
{
    lemma_apply_global_idempotent(c, o);
    if let Some(tc) = o.tcode {
        let c1 = SapConfigView { global: apply_global(c, o), ..c };
        let m = match c1.tcode {
            Some(m) => m,
            None => Seq::empty(),
        };
        lemma_apply_map_idempotent(m, tc, o);
    }
}

/// Every flag given wins over the file: after the merge, the section that
/// `--tcode` addresses exists and holds every per-tcode flag that was set,
/// and `[global]` holds every global flag that was set (the reports
/// directory with its backslashes doubled, as the file stores it).
pub proof fn lemma_overrides_win(c: SapConfigView, o: OverridesView)
    ensures
        o.tcode matches Some(tc) ==> ({
            let key = addressed_key(c, tc);
            let m = applied(c, o).tcode;
            &&& m is Some
            &&& assoc_get(m->Some_0, key) is Some
            &&& settled(assoc_get(m->Some_0, key)->Some_0, o, uppercase(tc))
        }),
        o.reports_dir matches Some(d) ==> (applied(c, o).global matches Some(g) && g.reports_dir
            == double_backslashes(d)),
        o.date_format matches Some(f) ==> (applied(c, o).global matches Some(g) && g.date_format
            == f),
        o.timezone matches Some(z) ==> (applied(c, o).global matches Some(g) && g.timezone == z),
{
    if let Some(tc) = o.tcode {
        let m = sections(c);
        let key = section_key(keys_of(m), tc);
        let t0 = match assoc_get(m, key) {
            Some(t) => t,
            None => empty_tcode(),
        };
        let t1 = apply_tcode(t0, o, uppercase(tc));
        lemma_get_insert_same(m, key, t1);
        lemma_apply_settles(t0, o, uppercase(tc));
    }
}

/// The reports directory just set is the one read back, and setting it
/// leaves the instance id alone.
pub proof fn lemma_reports_dir_round_trip(c: SapConfigView, d: Seq<char>)
    ensures
        reports_dir_of(reports_dir_set(c, d)) == d,
        instance_id_of(reports_dir_set(c, d)) == instance_id_of(c),
{
}

/// The instance id just set is the one read back, and setting it leaves the
/// reports directory alone.
pub proof fn lemma_instance_id_round_trip(c: SapConfigView, id: Seq<char>)
    ensures
        instance_id_of(instance_id_set(c, id)) == id,
        reports_dir_of(instance_id_set(c, id)) == reports_dir_of(c),
{
}


// ---------------------------------------------------------------------------
// Saving a section and reading it back
// ---------------------------------------------------------------------------

/// A value as the saved text writes it: a quoted string, a bare number, or a
/// list of quoted strings.
pub enum SavedValue {
    Text(Seq<char>),
    Number(nat),
    Texts(Seq<Seq<char>>),
    /// A list of quoted strings on one line.
    Inline(Seq<Seq<char>>),
}

pub open spec fn opt_text(k: Seq<char>, v: Option<Seq<char>>) -> Seq<(Seq<char>, SavedValue)> {
    match v {
        Some(x) => seq![(k, SavedValue::Text(x))],
        None => Seq::empty(),
    }
}

/// The parameters of a section, each a quoted string.
pub open spec fn param_entries(p: Seq<(Seq<char>, Seq<char>)>) -> Seq<(Seq<char>, SavedValue)> {
    Seq::new(p.len(), |i: int| (p[i].0, SavedValue::Text(p[i].1)))
}

/// The settings of a section that saving writes, in the order it writes
/// them; `by_delivery` and `plants` are not written.
pub open spec fn saved_fields(t: TcodeView) -> Seq<(Seq<char>, SavedValue)> {
    opt_text("variant"@, t.variant) + opt_text("layout"@, t.layout) + opt_text(
        "column_name"@,
        t.column_name,
    ) + opt_text("date_range_start"@, t.date_range_start) + opt_text(
        "date_range_end"@,
        t.date_range_end,
    ) + opt_text("by_date"@, t.by_date) + opt_text("serial_number"@, t.serial_number)
        + opt_text("tab_number"@, t.tab_number) + match t.export_type {
        Some(n) => seq![("export_type"@, SavedValue::Number(n as nat))],
        None => Seq::empty(),
    } + match t.layout_columns {
        Some(c) => seq![("layout_columns"@, SavedValue::Texts(c))],
        None => Seq::empty(),
    }
}

/// Every entry that saving writes for a section, parameters last.
pub open spec fn saved_section(t: TcodeView) -> Seq<(Seq<char>, SavedValue)> {
    saved_fields(t) + param_entries(t.additional_params)
}

/// The line (or lines) of one saved entry.
pub open spec fn entry_line(e: (Seq<char>, SavedValue)) -> Seq<char> {
    match e.1 {
        SavedValue::Text(x) => quoted_line(e.0, x),
        SavedValue::Number(n) => bare_line(e.0, decimal(n)),
        SavedValue::Texts(c) => e.0 + " = [\n"@ + columns_items(c) + "]\n"@,
        SavedValue::Inline(c) => e.0 + " = ["@ + options_items(c) + "]\n"@,
    }
}

/// The lines of saved entries, in order.
pub open spec fn entry_lines(es: Seq<(Seq<char>, SavedValue)>) -> Seq<char>
    decreases es.len(),
{
    if es.len() == 0 {
        Seq::empty()
    } else {
        entry_lines(es.drop_last()) + entry_line(es.last())
    }
}

/// A parsed value that stands for a saved one: the same string, number or
/// strings.
pub open spec fn value_reads(v: TomlValue, s: SavedValue) -> bool {
    match (v, s) {
        (TomlValue::Str(x), SavedValue::Text(y)) => x@ == y,
        (TomlValue::Int(i), SavedValue::Number(n)) => i == n,
        (TomlValue::Array(a), SavedValue::Texts(c)) => str_elems(a@) == c,
        (TomlValue::Array(a), SavedValue::Inline(c)) => str_elems(a@) == c,
        _ => false,
    }
}

/// A parsed table that holds the saved entries and nothing else, as a TOML
/// reader gives it for lines `key = "text"`, `key = number` and
/// `key = ["text", ...]`: no key twice, each saved key with the value its
/// line writes, in whatever order.
pub open spec fn reads_entries(parsed: Seq<TomlEntry>, es: Seq<(Seq<char>, SavedValue)>) -> bool {
    &&& keys_unique(table_keys(parsed))
    &&& forall|i: int|
        #![trigger es[i]]
        0 <= i < es.len() ==> match table_get(parsed, es[i].0) {
            Some(v) => value_reads(v, es[i].1),
            None => false,
        }
    &&& forall|k: Seq<char>| #[trigger] table_get(parsed, k) is Some ==> has_key(keys_of(es), k)
}

/// `k` is the key of an entry that saving writes for `t`.
spec fn saved_has(t: TcodeView, k: Seq<char>) -> bool {
    ||| k == "variant"@ && t.variant is Some
    ||| k == "layout"@ && t.layout is Some
    ||| k == "column_name"@ && t.column_name is Some
    ||| k == "date_range_start"@ && t.date_range_start is Some
    ||| k == "date_range_end"@ && t.date_range_end is Some
    ||| k == "by_date"@ && t.by_date is Some
    ||| k == "serial_number"@ && t.serial_number is Some
    ||| k == "tab_number"@ && t.tab_number is Some
    ||| k == "export_type"@ && t.export_type is Some
    ||| k == "layout_columns"@ && t.layout_columns is Some
    ||| has_key(keys_of(t.additional_params), k)
}

proof fn lemma_keys_concat<V>(a: Seq<(Seq<char>, V)>, b: Seq<(Seq<char>, V)>, k: Seq<char>)
    ensures
        has_key(keys_of(a + b), k) <==> has_key(keys_of(a), k) || has_key(keys_of(b), k),
{
    let ab = a + b;
    if has_key(keys_of(a), k) {
        let i = choose|i: int| 0 <= i < keys_of(a).len() && keys_of(a)[i] == k;
        assert(keys_of(ab)[i] == k);
    }
    if has_key(keys_of(b), k) {
        let i = choose|i: int| 0 <= i < keys_of(b).len() && keys_of(b)[i] == k;
        assert(keys_of(ab)[a.len() + i] == k);
    }
    if has_key(keys_of(ab), k) {
        let i = choose|i: int| 0 <= i < keys_of(ab).len() && keys_of(ab)[i] == k;
        if i < a.len() {
            assert(keys_of(a)[i] == k);
        } else {
            assert(keys_of(b)[i - a.len()] == k);
        }
    }
}

proof fn lemma_one_key<V>(e: (Seq<char>, V), k: Seq<char>)
    ensures
        has_key(keys_of(seq![e]), k) <==> e.0 == k,
{
    if e.0 == k {
        assert(keys_of(seq![e])[0] == k);
    }
}

proof fn lemma_opt_keys(kk: Seq<char>, v: Option<Seq<char>>, k: Seq<char>)
    ensures
        has_key(keys_of(opt_text(kk, v)), k) <==> k == kk && v is Some,
{
    match v {
        Some(x) => lemma_one_key((kk, SavedValue::Text(x)), k),
        None => {},
    }
}

proof fn lemma_contains_concat<A>(a: Seq<A>, b: Seq<A>)
    ensures
        forall|e: A| a.contains(e) ==> #[trigger] (a + b).contains(e),
        forall|e: A| b.contains(e) ==> #[trigger] (a + b).contains(e),
{
    assert forall|e: A| a.contains(e) implies #[trigger] (a + b).contains(e) by {
        let i = choose|i: int| 0 <= i < a.len() && a[i] == e;
        assert((a + b)[i] == e);
    }
    assert forall|e: A| b.contains(e) implies #[trigger] (a + b).contains(e) by {
        let i = choose|i: int| 0 <= i < b.len() && b[i] == e;
        assert((a + b)[a.len() + i] == e);
    }
}

/// The keys that saving writes for `t`, and the entry it writes for each.
proof fn lemma_saved_section(t: TcodeView)
    ensures
        forall|k: Seq<char>| has_key(keys_of(saved_section(t)), k) <==> #[trigger] saved_has(t, k),
        t.variant is Some ==> saved_section(t).contains(("variant"@, SavedValue::Text(t.variant->0))),
        t.layout is Some ==> saved_section(t).contains(("layout"@, SavedValue::Text(t.layout->0))),
        t.column_name is Some ==> saved_section(t).contains(
            ("column_name"@, SavedValue::Text(t.column_name->0)),
        ),
        t.date_range_start is Some ==> saved_section(t).contains(
            ("date_range_start"@, SavedValue::Text(t.date_range_start->0)),
        ),
        t.date_range_end is Some ==> saved_section(t).contains(
            ("date_range_end"@, SavedValue::Text(t.date_range_end->0)),
        ),
        t.by_date is Some ==> saved_section(t).contains(("by_date"@, SavedValue::Text(t.by_date->0))),
        t.serial_number is Some ==> saved_section(t).contains(
            ("serial_number"@, SavedValue::Text(t.serial_number->0)),
        ),
        t.tab_number is Some ==> saved_section(t).contains(
            ("tab_number"@, SavedValue::Text(t.tab_number->0)),
        ),
        t.export_type is Some ==> saved_section(t).contains(
            ("export_type"@, SavedValue::Number(t.export_type->0 as nat)),
        ),
        t.layout_columns is Some ==> saved_section(t).contains(
            ("layout_columns"@, SavedValue::Texts(t.layout_columns->0)),
        ),
        forall|k: Seq<char>|
            has_key(keys_of(t.additional_params), k) ==> #[trigger] saved_section(t).contains(
                (k, SavedValue::Text(assoc_get(t.additional_params, k)->0)),
            ),
{
    let o1 = opt_text("variant"@, t.variant);
    let o2 = opt_text("layout"@, t.layout);
    let o3 = opt_text("column_name"@, t.column_name);
    let o4 = opt_text("date_range_start"@, t.date_range_start);
    let o5 = opt_text("date_range_end"@, t.date_range_end);
    let o6 = opt_text("by_date"@, t.by_date);
    let o7 = opt_text("serial_number"@, t.serial_number);
    let o8 = opt_text("tab_number"@, t.tab_number);
    let ex = match t.export_type {
        Some(n) => seq![("export_type"@, SavedValue::Number(n as nat))],
        None => Seq::empty(),
    };
    let lc = match t.layout_columns {
        Some(c) => seq![("layout_columns"@, SavedValue::Texts(c))],
        None => Seq::empty(),
    };
    let p = param_entries(t.additional_params);
    let f2 = o1 + o2;
    let f3 = f2 + o3;
    let f4 = f3 + o4;
    let f5 = f4 + o5;
    let f6 = f5 + o6;
    let f7 = f6 + o7;
    let f8 = f7 + o8;
    let f9 = f8 + ex;
    let f10 = f9 + lc;
    assert(saved_section(t) == f10 + p);
    assert(keys_of(p) =~= keys_of(t.additional_params));
    assert forall|k: Seq<char>| has_key(keys_of(saved_section(t)), k) <==> #[trigger] saved_has(t, k) by {
        lemma_opt_keys("variant"@, t.variant, k);
        lemma_opt_keys("layout"@, t.layout, k);
        lemma_opt_keys("column_name"@, t.column_name, k);
        lemma_opt_keys("date_range_start"@, t.date_range_start, k);
        lemma_opt_keys("date_range_end"@, t.date_range_end, k);
        lemma_opt_keys("by_date"@, t.by_date, k);
        lemma_opt_keys("serial_number"@, t.serial_number, k);
        lemma_opt_keys("tab_number"@, t.tab_number, k);
        match t.export_type {
            Some(n) => lemma_one_key(("export_type"@, SavedValue::Number(n as nat)), k),
            None => {},
        }
        match t.layout_columns {
            Some(c) => lemma_one_key(("layout_columns"@, SavedValue::Texts(c)), k),
            None => {},
        }
        lemma_keys_concat(o1, o2, k);
        lemma_keys_concat(f2, o3, k);
        lemma_keys_concat(f3, o4, k);
        lemma_keys_concat(f4, o5, k);
        lemma_keys_concat(f5, o6, k);
        lemma_keys_concat(f6, o7, k);
        lemma_keys_concat(f7, o8, k);
        lemma_keys_concat(f8, ex, k);
        lemma_keys_concat(f9, lc, k);
        lemma_keys_concat(f10, p, k);
    }
    lemma_contains_concat(o1, o2);
    lemma_contains_concat(f2, o3);
    lemma_contains_concat(f3, o4);
    lemma_contains_concat(f4, o5);
    lemma_contains_concat(f5, o6);
    lemma_contains_concat(f6, o7);
    lemma_contains_concat(f7, o8);
    lemma_contains_concat(f8, ex);
    lemma_contains_concat(f9, lc);
    lemma_contains_concat(f10, p);
    assert(t.variant is Some ==> o1[0] == ("variant"@, SavedValue::Text(t.variant->0)));
    assert(t.layout is Some ==> o2[0] == ("layout"@, SavedValue::Text(t.layout->0)));
    assert(t.column_name is Some ==> o3[0] == ("column_name"@, SavedValue::Text(t.column_name->0)));
    assert(t.date_range_start is Some ==> o4[0] == (
        "date_range_start"@,
        SavedValue::Text(t.date_range_start->0),
    ));
    assert(t.date_range_end is Some ==> o5[0] == (
        "date_range_end"@,
        SavedValue::Text(t.date_range_end->0),
    ));
    assert(t.by_date is Some ==> o6[0] == ("by_date"@, SavedValue::Text(t.by_date->0)));
    assert(t.serial_number is Some ==> o7[0] == (
        "serial_number"@,
        SavedValue::Text(t.serial_number->0),
    ));
    assert(t.tab_number is Some ==> o8[0] == ("tab_number"@, SavedValue::Text(t.tab_number->0)));
    assert(t.export_type is Some ==> ex[0] == (
        "export_type"@,
        SavedValue::Number(t.export_type->0 as nat),
    ));
    assert(t.layout_columns is Some ==> lc[0] == (
        "layout_columns"@,
        SavedValue::Texts(t.layout_columns->0),
    ));
    assert forall|k: Seq<char>|
        has_key(keys_of(t.additional_params), k) implies #[trigger] saved_section(t).contains(
            (k, SavedValue::Text(assoc_get(t.additional_params, k)->0)),
        ) by {
        lemma_has_first(keys_of(t.additional_params), k);
        let i = first_index(keys_of(t.additional_params), k);
        assert(p[i] == (k, SavedValue::Text(assoc_get(t.additional_params, k)->0)));
        assert(p.contains(p[i]));
    }
}

/// Each setting that saving writes, and `by_delivery`, is a name the
/// loader keeps out of the extra parameters.
proof fn lemma_settings_named(k: Seq<char>)
    requires
        k == "variant"@ || k == "layout"@ || k == "column_name"@ || k == "date_range_start"@
            || k == "date_range_end"@ || k == "by_date"@ || k == "by_delivery"@
            || k == "serial_number"@ || k == "tab_number"@ || k == "export_type"@
            || k == "layout_columns"@,
    ensures
        one_of(k, tcode_keys()),
{
    let n = tcode_keys();
    assert(n[0]@ == "variant"@);
    assert(n[1]@ == "layout"@);
    assert(n[2]@ == "column_name"@);
    assert(n[3]@ == "date_range_start"@);
    assert(n[4]@ == "date_range_end"@);
    assert(n[5]@ == "by_date"@);
    assert(n[6]@ == "by_delivery"@);
    assert(n[7]@ == "serial_number"@);
    assert(n[8]@ == "tab_number"@);
    assert(n[9]@ == "export_type"@);
    assert(n[11]@ == "layout_columns"@);
}

/// No extra parameter of `t` is named `k` when `k` is a setting's name.
proof fn lemma_not_param(t: TcodeView, k: Seq<char>)
    requires
        forall|i: int|
            0 <= i < t.additional_params.len() ==> !one_of(
                #[trigger] t.additional_params[i].0,
                tcode_keys(),
            ),
        one_of(k, tcode_keys()),
    ensures
        !has_key(keys_of(t.additional_params), k),
{
    if has_key(keys_of(t.additional_params), k) {
        let i = choose|i: int|
            0 <= i < keys_of(t.additional_params).len() && keys_of(t.additional_params)[i] == k;
        assert(keys_of(t.additional_params)[i] == t.additional_params[i].0);
    }
}

/// A saved entry is found in the parsed table with the value its line writes.
proof fn lemma_found(parsed: Seq<TomlEntry>, es: Seq<(Seq<char>, SavedValue)>, e: (Seq<char>, SavedValue))
    requires
        reads_entries(parsed, es),
        es.contains(e),
    ensures
        table_get(parsed, e.0) is Some,
        value_reads(table_get(parsed, e.0)->Some_0, e.1),
{
    let j = choose|j: int| 0 <= j < es.len() && es[j] == e;
    assert(es[j] == e);
}

/// A text setting reads back as saved.
proof fn lemma_text_field(parsed: Seq<TomlEntry>, t: TcodeView, k: Seq<char>, v: Option<Seq<char>>)
    requires
        reads_entries(parsed, saved_section(t)),
        v is Some ==> saved_section(t).contains((k, SavedValue::Text(v->Some_0))),
        v is None ==> !saved_has(t, k),
    ensures
        as_str(table_get(parsed, k)) == v,
{
    lemma_saved_section(t);
    match v {
        Some(x) => lemma_found(parsed, saved_section(t), (k, SavedValue::Text(x))),
        None => {
            assert(table_get(parsed, k) is None) by {
                if table_get(parsed, k) is Some {
                    assert(has_key(keys_of(saved_section(t)), k));
                }
            }
        },
    }
}

/// The value under `k` in a table whose keys are unique: the last entry's
/// when `k` is its key, else the value in the rest.
proof fn lemma_table_get_last(t: Seq<TomlEntry>, k: Seq<char>)
    requires
        t.len() > 0,
        keys_unique(table_keys(t)),
    ensures
        keys_unique(table_keys(t.drop_last())),
        t.last().key@ == k ==> table_get(t, k) == Some(t.last().value) && table_get(
            t.drop_last(),
            k,
        ) is None,
        t.last().key@ != k ==> table_get(t, k) == table_get(t.drop_last(), k),
{
    let d = t.drop_last();
    let n = t.len() - 1;
    assert(table_keys(d) =~= table_keys(t).drop_last());
    if t.last().key@ == k {
        assert forall|j: int| 0 <= j < n implies table_keys(t)[j] != k by {
            assert(table_keys(t)[n] == k);
        }
        lemma_first_unique(table_keys(t), k, n);
        if has_key(table_keys(d), k) {
            let w = choose|w: int| 0 <= w < table_keys(d).len() && table_keys(d)[w] == k;
            assert(table_keys(t)[w] == k);
            assert(table_keys(t)[n] == k);
        }
    } else {
        if has_key(table_keys(d), k) {
            lemma_has_first(table_keys(d), k);
            let i = first_index(table_keys(d), k);
            assert forall|j: int| 0 <= j < i implies table_keys(t)[j] != k by {
                assert(table_keys(t)[j] == table_keys(d)[j]);
            }
            assert(table_keys(t)[i] == k);
            lemma_first_unique(table_keys(t), k, i);
            assert(t[i] == d[i]);
        } else {
            if has_key(table_keys(t), k) {
                let w = choose|w: int| 0 <= w < table_keys(t).len() && table_keys(t)[w] == k;
                assert(w != n);
                assert(table_keys(d)[w] == k);
            }
        }
    }
}

/// The extra parameters read from a table with unique keys: the value
/// under each key not excluded, when that value is a string.
proof fn lemma_string_params_get(t: Seq<TomlEntry>, excluded: Seq<&'static str>, k: Seq<char>)
    requires
        keys_unique(table_keys(t)),
    ensures
        assoc_get(string_params(t, excluded), k) == if one_of(k, excluded) {
            None
        } else {
            match table_get(t, k) {
                Some(TomlValue::Str(s)) => Some(s@),
                _ => None,
            }
        },
    decreases t.len(),
{
    if t.len() == 0 {
        assert(!has_key(table_keys(t), k));
        assert(!has_key(keys_of(string_params(t, excluded)), k));
    } else {
        let d = t.drop_last();
        let e = t.last();
        lemma_table_get_last(t, k);
        lemma_string_params_get(d, excluded, k);
        let init = string_params(d, excluded);
        match e.value {
            TomlValue::Str(s) => {
                if !one_of(e.key@, excluded) {
                    if e.key@ == k {
                        lemma_get_insert_same(init, e.key@, s@);
                    } else {
                        lemma_get_insert_other(init, e.key@, s@, k);
                    }
                }
            },
            _ => {},
        }
    }
}

proof fn lemma_entry_lines_concat(a: Seq<(Seq<char>, SavedValue)>, b: Seq<(Seq<char>, SavedValue)>)
    ensures
        entry_lines(a + b) == entry_lines(a) + entry_lines(b),
    decreases b.len(),
{
    if b.len() == 0 {
        assert(a + b =~= a);
        assert(entry_lines(a) + entry_lines(b) =~= entry_lines(a));
    } else {
        assert((a + b).drop_last() =~= a + b.drop_last());
        assert((a + b).last() == b.last());
        lemma_entry_lines_concat(a, b.drop_last());
        assert(entry_lines(a) + entry_lines(b) =~= entry_lines(a) + entry_lines(b.drop_last())
            + entry_line(b.last()));
    }
}

proof fn lemma_one_line(e: (Seq<char>, SavedValue))
    ensures
        entry_lines(seq![e]) == entry_line(e),
{
    assert(seq![e].drop_last() =~= Seq::<(Seq<char>, SavedValue)>::empty());
    assert(seq![e].last() == e);
    assert(entry_lines(Seq::<(Seq<char>, SavedValue)>::empty()) == Seq::<char>::empty());
    assert(Seq::<char>::empty() + entry_line(e) =~= entry_line(e));
}

proof fn lemma_opt_line(k: Seq<char>, v: Option<Seq<char>>)
    ensures
        entry_lines(opt_text(k, v)) == opt_quoted_line(k, v),
{
    match v {
        Some(x) => lemma_one_line((k, SavedValue::Text(x))),
        None => {},
    }
}

proof fn lemma_param_lines(p: Seq<(Seq<char>, Seq<char>)>)
    ensures
        entry_lines(param_entries(p)) == params_text(p, Seq::empty()),
    decreases p.len(),
{
    if p.len() > 0 {
        assert(param_entries(p).drop_last() =~= param_entries(p.drop_last()));
        lemma_param_lines(p.drop_last());
        assert(Seq::<char>::empty() + p.last().0 =~= p.last().0);
    }
}

/// The text of a saved section: its header, one line per saved entry, and a
/// blank line.
proof fn lemma_section_lines(name: Seq<char>, t: TcodeView)
    ensures
        section_text(name, t) == "[tcode."@ + name + "]\n"@ + entry_lines(saved_section(t)) + "\n"@,
{
    let o1 = opt_text("variant"@, t.variant);
    let o2 = opt_text("layout"@, t.layout);
    let o3 = opt_text("column_name"@, t.column_name);
    let o4 = opt_text("date_range_start"@, t.date_range_start);
    let o5 = opt_text("date_range_end"@, t.date_range_end);
    let o6 = opt_text("by_date"@, t.by_date);
    let o7 = opt_text("serial_number"@, t.serial_number);
    let o8 = opt_text("tab_number"@, t.tab_number);
    let ex = match t.export_type {
        Some(n) => seq![("export_type"@, SavedValue::Number(n as nat))],
        None => Seq::empty(),
    };
    let lc = match t.layout_columns {
        Some(c) => seq![("layout_columns"@, SavedValue::Texts(c))],
        None => Seq::empty(),
    };
    let p = param_entries(t.additional_params);
    let f2 = o1 + o2;
    let f3 = f2 + o3;
    let f4 = f3 + o4;
    let f5 = f4 + o5;
    let f6 = f5 + o6;
    let f7 = f6 + o7;
    let f8 = f7 + o8;
    let f9 = f8 + ex;
    let f10 = f9 + lc;
    lemma_opt_line("variant"@, t.variant);
    lemma_opt_line("layout"@, t.layout);
    lemma_opt_line("column_name"@, t.column_name);
    lemma_opt_line("date_range_start"@, t.date_range_start);
    lemma_opt_line("date_range_end"@, t.date_range_end);
    lemma_opt_line("by_date"@, t.by_date);
    lemma_opt_line("serial_number"@, t.serial_number);
    lemma_opt_line("tab_number"@, t.tab_number);
    lemma_entry_lines_concat(o1, o2);
    lemma_entry_lines_concat(f2, o3);
    lemma_entry_lines_concat(f3, o4);
    lemma_entry_lines_concat(f4, o5);
    lemma_entry_lines_concat(f5, o6);
    lemma_entry_lines_concat(f6, o7);
    lemma_entry_lines_concat(f7, o8);
    lemma_entry_lines_concat(f8, ex);
    lemma_entry_lines_concat(f9, lc);
    lemma_entry_lines_concat(f10, p);
    lemma_param_lines(t.additional_params);
    match t.export_type {
        Some(n) => lemma_one_line(("export_type"@, SavedValue::Number(n as nat))),
        None => {},
    }
    assert(entry_lines(ex) == opt_num_line("export_type"@, opt_nat_u8(t.export_type)));
    assert(entry_lines(f9) == section_fields(t));
    match t.layout_columns {
        Some(c) => {
            lemma_one_line(("layout_columns"@, SavedValue::Texts(c)));
            reveal_strlit("layout_columns");
            reveal_strlit(" = [\n");
            reveal_strlit("layout_columns = [\n");
            assert("layout_columns"@ + " = [\n"@ =~= "layout_columns = [\n"@);
        },
        None => {},
    }
    assert(entry_lines(lc) == columns_text(t.layout_columns));
    assert(saved_section(t) == f10 + p);
    assert(section_text(name, t) =~= "[tcode."@ + name + "]\n"@ + entry_lines(saved_section(t))
        + "\n"@);
}

/// Which saved entry can carry each setting's name: only that setting's own,
/// and none for `by_delivery`; `plants` only as an extra parameter.
#[verifier::rlimit(40)]
proof fn lemma_saved_names(t: TcodeView)
    requires
        forall|i: int|
            0 <= i < t.additional_params.len() ==> !one_of(
                #[trigger] t.additional_params[i].0,
                tcode_keys(),
            ),
    ensures
        saved_has(t, "variant"@) ==> t.variant is Some,
        saved_has(t, "layout"@) ==> t.layout is Some,
        saved_has(t, "column_name"@) ==> t.column_name is Some,
        saved_has(t, "date_range_start"@) ==> t.date_range_start is Some,
        saved_has(t, "date_range_end"@) ==> t.date_range_end is Some,
        saved_has(t, "by_date"@) ==> t.by_date is Some,
        saved_has(t, "serial_number"@) ==> t.serial_number is Some,
        saved_has(t, "tab_number"@) ==> t.tab_number is Some,
        saved_has(t, "export_type"@) ==> t.export_type is Some,
        saved_has(t, "layout_columns"@) ==> t.layout_columns is Some,
        !saved_has(t, "by_delivery"@),
        saved_has(t, "plants"@) ==> has_key(keys_of(t.additional_params), "plants"@),
{
    reveal_strlit("variant");
    reveal_strlit("layout");
    reveal_strlit("column_name");
    reveal_strlit("date_range_start");
    reveal_strlit("date_range_end");
    reveal_strlit("by_date");
    reveal_strlit("by_delivery");
    reveal_strlit("serial_number");
    reveal_strlit("tab_number");
    reveal_strlit("export_type");
    reveal_strlit("layout_columns");
    reveal_strlit("plants");
    assert("variant"@.len() != "layout"@.len());
    assert("variant"@.len() != "column_name"@.len());
    assert("variant"@.len() != "date_range_start"@.len());
    assert("variant"@.len() != "date_range_end"@.len());
    assert("variant"@[0] != "by_date"@[0]);
    assert("variant"@.len() != "by_delivery"@.len());
    assert("variant"@.len() != "serial_number"@.len());
    assert("variant"@.len() != "tab_number"@.len());
    assert("variant"@.len() != "export_type"@.len());
    assert("variant"@.len() != "layout_columns"@.len());
    assert("variant"@.len() != "plants"@.len());
    assert("layout"@.len() != "column_name"@.len());
    assert("layout"@.len() != "date_range_start"@.len());
    assert("layout"@.len() != "date_range_end"@.len());
    assert("layout"@.len() != "by_date"@.len());
    assert("layout"@.len() != "by_delivery"@.len());
    assert("layout"@.len() != "serial_number"@.len());
    assert("layout"@.len() != "tab_number"@.len());
    assert("layout"@.len() != "export_type"@.len());
    assert("layout"@.len() != "layout_columns"@.len());
    assert("layout"@[0] != "plants"@[0]);
    assert("column_name"@.len() != "date_range_start"@.len());
    assert("column_name"@.len() != "date_range_end"@.len());
    assert("column_name"@.len() != "by_date"@.len());
    assert("column_name"@[0] != "by_delivery"@[0]);
    assert("column_name"@.len() != "serial_number"@.len());
    assert("column_name"@.len() != "tab_number"@.len());
    assert("column_name"@[0] != "export_type"@[0]);
    assert("column_name"@.len() != "layout_columns"@.len());
    assert("column_name"@.len() != "plants"@.len());
    assert("date_range_start"@.len() != "date_range_end"@.len());
    assert("date_range_start"@.len() != "by_date"@.len());
    assert("date_range_start"@.len() != "by_delivery"@.len());
    assert("date_range_start"@.len() != "serial_number"@.len());
    assert("date_range_start"@.len() != "tab_number"@.len());
    assert("date_range_start"@.len() != "export_type"@.len());
    assert("date_range_start"@.len() != "layout_columns"@.len());
    assert("date_range_start"@.len() != "plants"@.len());
    assert("date_range_end"@.len() != "by_date"@.len());
    assert("date_range_end"@.len() != "by_delivery"@.len());
    assert("date_range_end"@.len() != "serial_number"@.len());
    assert("date_range_end"@.len() != "tab_number"@.len());
    assert("date_range_end"@.len() != "export_type"@.len());
    assert("date_range_end"@[0] != "layout_columns"@[0]);
    assert("date_range_end"@.len() != "plants"@.len());
    assert("by_date"@.len() != "by_delivery"@.len());
    assert("by_date"@.len() != "serial_number"@.len());
    assert("by_date"@.len() != "tab_number"@.len());
    assert("by_date"@.len() != "export_type"@.len());
    assert("by_date"@.len() != "layout_columns"@.len());
    assert("by_date"@.len() != "plants"@.len());
    assert("by_delivery"@.len() != "serial_number"@.len());
    assert("by_delivery"@.len() != "tab_number"@.len());
    assert("by_delivery"@[0] != "export_type"@[0]);
    assert("by_delivery"@.len() != "layout_columns"@.len());
    assert("by_delivery"@.len() != "plants"@.len());
    assert("serial_number"@.len() != "tab_number"@.len());
    assert("serial_number"@.len() != "export_type"@.len());
    assert("serial_number"@.len() != "layout_columns"@.len());
    assert("serial_number"@.len() != "plants"@.len());
    assert("tab_number"@.len() != "export_type"@.len());
    assert("tab_number"@.len() != "layout_columns"@.len());
    assert("tab_number"@.len() != "plants"@.len());
    assert("export_type"@.len() != "layout_columns"@.len());
    assert("export_type"@.len() != "plants"@.len());
    assert("layout_columns"@.len() != "plants"@.len());
    lemma_settings_named("variant"@);
    lemma_settings_named("layout"@);
    lemma_settings_named("column_name"@);
    lemma_settings_named("date_range_start"@);
    lemma_settings_named("date_range_end"@);
    lemma_settings_named("by_date"@);
    lemma_settings_named("by_delivery"@);
    lemma_settings_named("serial_number"@);
    lemma_settings_named("tab_number"@);
    lemma_settings_named("export_type"@);
    lemma_settings_named("layout_columns"@);
    lemma_not_param(t, "variant"@);
    lemma_not_param(t, "layout"@);
    lemma_not_param(t, "column_name"@);
    lemma_not_param(t, "date_range_start"@);
    lemma_not_param(t, "date_range_end"@);
    lemma_not_param(t, "by_date"@);
    lemma_not_param(t, "by_delivery"@);
    lemma_not_param(t, "serial_number"@);
    lemma_not_param(t, "tab_number"@);
    lemma_not_param(t, "export_type"@);
    lemma_not_param(t, "layout_columns"@);
}

/// The settings of a saved section read back from its entries.
proof fn lemma_fields_read_back(t: TcodeView, parsed: Seq<TomlEntry>)
    requires
        forall|i: int|
            0 <= i < t.additional_params.len() ==> !one_of(
                #[trigger] t.additional_params[i].0,
                tcode_keys(),
            ),
        reads_entries(parsed, saved_section(t)),
    ensures
        section_from(parsed).variant == t.variant,
        section_from(parsed).layout == t.layout,
        section_from(parsed).column_name == t.column_name,
        section_from(parsed).date_range_start == t.date_range_start,
        section_from(parsed).date_range_end == t.date_range_end,
        section_from(parsed).by_date == t.by_date,
        section_from(parsed).serial_number == t.serial_number,
        section_from(parsed).tab_number == t.tab_number,
        section_from(parsed).export_type == t.export_type,
        section_from(parsed).layout_columns == t.layout_columns,
        section_from(parsed).by_delivery is None,
        section_from(parsed).plants is None,
{
    lemma_saved_section(t);
    let es = saved_section(t);
    lemma_saved_names(t);
    lemma_text_field(parsed, t, "variant"@, t.variant);
    lemma_text_field(parsed, t, "layout"@, t.layout);
    lemma_text_field(parsed, t, "column_name"@, t.column_name);
    lemma_text_field(parsed, t, "date_range_start"@, t.date_range_start);
    lemma_text_field(parsed, t, "date_range_end"@, t.date_range_end);
    lemma_text_field(parsed, t, "by_date"@, t.by_date);
    lemma_text_field(parsed, t, "serial_number"@, t.serial_number);
    lemma_text_field(parsed, t, "tab_number"@, t.tab_number);
    lemma_text_field(parsed, t, "by_delivery"@, None);
    match t.export_type {
        Some(n) => lemma_found(parsed, es, ("export_type"@, SavedValue::Number(n as nat))),
        None => {
            if table_get(parsed, "export_type"@) is Some {
                assert(has_key(keys_of(es), "export_type"@));
            }
        },
    }
    match t.layout_columns {
        Some(c) => lemma_found(parsed, es, ("layout_columns"@, SavedValue::Texts(c))),
        None => {
            if table_get(parsed, "layout_columns"@) is Some {
                assert(has_key(keys_of(es), "layout_columns"@));
            }
        },
    }
    if table_get(parsed, "plants"@) is Some {
        assert(has_key(keys_of(es), "plants"@));
        lemma_found(
            parsed,
            es,
            ("plants"@, SavedValue::Text(assoc_get(t.additional_params, "plants"@)->Some_0)),
        );
    }
}

/// The extra parameters of a saved section read back from its entries.
proof fn lemma_params_read_back(t: TcodeView, parsed: Seq<TomlEntry>)
    requires
        forall|i: int|
            0 <= i < t.additional_params.len() ==> !one_of(
                #[trigger] t.additional_params[i].0,
                tcode_keys(),
            ),
        reads_entries(parsed, saved_section(t)),
    ensures
        forall|k: Seq<char>|
            #[trigger] assoc_get(section_from(parsed).additional_params, k) == assoc_get(
                t.additional_params,
                k,
            ),
{
    lemma_saved_section(t);
    let es = saved_section(t);
    assert forall|k: Seq<char>|
        #[trigger] assoc_get(section_from(parsed).additional_params, k) == assoc_get(
            t.additional_params,
            k,
        ) by {
        lemma_string_params_get(parsed, tcode_keys(), k);
        if one_of(k, tcode_keys()) {
            lemma_not_param(t, k);
        } else if has_key(keys_of(t.additional_params), k) {
            lemma_found(
                parsed,
                es,
                (k, SavedValue::Text(assoc_get(t.additional_params, k)->Some_0)),
            );
        } else if table_get(parsed, k) is Some {
            assert(has_key(keys_of(es), k));
            assert(saved_has(t, k));
            if k == "variant"@ || k == "layout"@ || k == "column_name"@ || k == "date_range_start"@
                || k == "date_range_end"@ || k == "by_date"@ || k == "serial_number"@
                || k == "tab_number"@ || k == "export_type"@ || k == "layout_columns"@ {
                lemma_settings_named(k);
            }
        }
    }
}

/// Saving a section and reading it back gives the section again. The text
/// that saving writes for `[tcode.name]` is its header, one line per saved
/// entry and a blank line; a table holding exactly those entries, as a TOML
/// reader gives it, reads back as `t` in every setting but two: `by_delivery`,
/// which saving does not write, and `plants`, which it writes only when it is
/// a text parameter. The extra parameters come back with the same value under
/// each key. This holds when no extra parameter is named like a setting.
pub proof fn lemma_save_then_load(name: Seq<char>, t: TcodeView, parsed: Seq<TomlEntry>)
    requires
        forall|i: int|
            0 <= i < t.additional_params.len() ==> !one_of(
                #[trigger] t.additional_params[i].0,
                tcode_keys(),
            ),
        reads_entries(parsed, saved_section(t)),
    ensures
        section_text(name, t) == "[tcode."@ + name + "]\n"@ + entry_lines(saved_section(t)) + "\n"@,
        section_from(parsed).variant == t.variant,
        section_from(parsed).layout == t.layout,
        section_from(parsed).column_name == t.column_name,
        section_from(parsed).date_range_start == t.date_range_start,
        section_from(parsed).date_range_end == t.date_range_end,
        section_from(parsed).by_date == t.by_date,
        section_from(parsed).serial_number == t.serial_number,
        section_from(parsed).tab_number == t.tab_number,
        section_from(parsed).export_type == t.export_type,
        section_from(parsed).layout_columns == t.layout_columns,
        section_from(parsed).by_delivery is None,
        section_from(parsed).plants is None,
        forall|k: Seq<char>|
            #[trigger] assoc_get(section_from(parsed).additional_params, k) == assoc_get(
                t.additional_params,
                k,
            ),
{
    lemma_section_lines(name, t);
    lemma_fields_read_back(t, parsed);
    lemma_params_read_back(t, parsed);
}

/// Loading keeps the parsed document, and saving what was loaded writes the
/// document's top-level tables that the configuration does not model back
/// first, each as `[name]`, one line per entry and a blank line, in the
/// document's order: a section the configuration does not know survives a
/// load and a save.
pub proof fn lemma_unknown_tables_kept(
    path: Seq<char>,
    content: Seq<char>,
    default_reports_dir: Seq<char>,
    o: OverridesView,
)
    requires
        toml_parse(content) matches Ok(TomlValue::Table(_)),
    ensures
        loaded(path, Some(content), default_reports_dir, o) is Ok,
        ({
            let c = loaded(path, Some(content), default_reports_dir, o)->Ok_0;
            let doc = toml_parse(content)->Ok_0;
            &&& c.raw_config == Some(doc)
            &&& config_text(c).subrange(0, raw_text(Some(doc)).len() as int) == raw_text(Some(doc))
        }),
{
    let base = SapConfigView { config_path: path, ..fresh_config(default_reports_dir) };
    let doc = toml_parse(content)->Ok_0;
    let read = from_document(base, doc);
    assert(read.raw_config == Some(doc));
    let c = applied(read, o);
    assert(c == loaded(path, Some(content), default_reports_dir, o)->Ok_0);
    assert(c.raw_config == Some(doc));
    assert(config_text(c).subrange(0, raw_text(Some(doc)).len() as int) =~= raw_text(Some(doc)));
}

// ---------------------------------------------------------------------------
// Saving the loop settings and reading them back
// ---------------------------------------------------------------------------

/// The entries that saving writes for `[loop]`, in order: the transaction,
/// the iterations, the delay, then each parameter under `param_` and its key.
pub open spec fn saved_loop(l: LoopView) -> Seq<(Seq<char>, SavedValue)> {
    seq![("tcode"@, SavedValue::Text(l.tcode))] + seq![("iterations"@, SavedValue::Text(l.iterations))]
        + seq![("delay_seconds"@, SavedValue::Text(l.delay_seconds))] + Seq::new(
        l.params.len(),
        |i: int| ("param_"@ + l.params[i].0, SavedValue::Text(l.params[i].1)),
    )
}

proof fn lemma_prefixed_param_lines(p: Seq<(Seq<char>, Seq<char>)>)
    ensures
        entry_lines(Seq::new(p.len(), |i: int| ("param_"@ + p[i].0, SavedValue::Text(p[i].1))))
            == params_text(p, "param_"@),
    decreases p.len(),
{
    if p.len() > 0 {
        let e = Seq::new(p.len(), |i: int| ("param_"@ + p[i].0, SavedValue::Text(p[i].1)));
        let d = p.drop_last();
        assert(e.drop_last() =~= Seq::new(d.len(), |i: int| ("param_"@ + d[i].0, SavedValue::Text(d[i].1))));
        lemma_prefixed_param_lines(d);
    }
}

/// Saving the loop settings and reading them back gives them again: the text
/// that saving writes for `[loop]` is its header, one line per saved entry and
/// a blank line; a table holding exactly those entries, as a TOML reader
/// gives it, reads back the same transaction, iterations and delay.
pub proof fn lemma_loop_save_then_load(l: LoopView, parsed: Seq<TomlEntry>)
    requires
        reads_entries(parsed, saved_loop(l)),
    ensures
        loop_text(Some(l)) == "[loop]\n"@ + entry_lines(saved_loop(l)) + "\n"@,
        loop_from(parsed).tcode == l.tcode,
        loop_from(parsed).iterations == l.iterations,
        loop_from(parsed).delay_seconds == l.delay_seconds,
{
    let a = seq![("tcode"@, SavedValue::Text(l.tcode))];
    let b = seq![("iterations"@, SavedValue::Text(l.iterations))];
    let c = seq![("delay_seconds"@, SavedValue::Text(l.delay_seconds))];
    let p = Seq::new(l.params.len(), |i: int| ("param_"@ + l.params[i].0, SavedValue::Text(l.params[i].1)));
    lemma_one_line(a[0]);
    lemma_one_line(b[0]);
    lemma_one_line(c[0]);
    assert(a =~= seq![a[0]]);
    assert(b =~= seq![b[0]]);
    assert(c =~= seq![c[0]]);
    lemma_entry_lines_concat(a, b);
    lemma_entry_lines_concat(a + b, c);
    lemma_entry_lines_concat(a + b + c, p);
    lemma_prefixed_param_lines(l.params);
    assert(loop_text(Some(l)) =~= "[loop]\n"@ + entry_lines(saved_loop(l)) + "\n"@);
    let es = saved_loop(l);
    assert(es[0] == a[0]);
    assert(es[1] == b[0]);
    assert(es[2] == c[0]);
    assert(es.contains(a[0]));
    assert(es.contains(b[0]));
    assert(es.contains(c[0]));
    lemma_found(parsed, es, a[0]);
    lemma_found(parsed, es, b[0]);
    lemma_found(parsed, es, c[0]);
}

// ---------------------------------------------------------------------------
// Saving the sequence settings and reading them back
// ---------------------------------------------------------------------------

/// The entries that saving writes for `[sequence]`, in order: the options
/// (when there are any), the iterations, the delay, the interval, then each
/// parameter under `param_` and its key.
pub open spec fn saved_sequence(q: SequenceView) -> Seq<(Seq<char>, SavedValue)> {
    (if q.options.len() > 0 {
        seq![("options"@, SavedValue::Inline(q.options))]
    } else {
        Seq::empty()
    }) + seq![("iterations"@, SavedValue::Text(q.iterations))] + seq![
        ("delay_seconds"@, SavedValue::Text(q.delay_seconds)),
    ] + seq![("interval_seconds"@, SavedValue::Text(q.interval_seconds))] + Seq::new(
        q.params.len(),
        |i: int| ("param_"@ + q.params[i].0, SavedValue::Text(q.params[i].1)),
    )
}

/// Saving the sequence settings and reading them back gives them again: the
/// text that saving writes for `[sequence]` is its header, one line per saved
/// entry and a blank line; a table holding exactly those entries, as a TOML
/// reader gives it, reads back the same options, iterations, delay and
/// interval.
pub proof fn lemma_sequence_save_then_load(q: SequenceView, parsed: Seq<TomlEntry>)
    requires
        reads_entries(parsed, saved_sequence(q)),
    ensures
        sequence_text(Some(q)) == "[sequence]\n"@ + entry_lines(saved_sequence(q)) + "\n"@,
        sequence_from(parsed).options == q.options,
        sequence_from(parsed).iterations == q.iterations,
        sequence_from(parsed).delay_seconds == q.delay_seconds,
        sequence_from(parsed).interval_seconds == q.interval_seconds,
{
    let o: Seq<(Seq<char>, SavedValue)> = if q.options.len() > 0 {
        seq![("options"@, SavedValue::Inline(q.options))]
    } else {
        Seq::empty()
    };
    let a = seq![("iterations"@, SavedValue::Text(q.iterations))];
    let b = seq![("delay_seconds"@, SavedValue::Text(q.delay_seconds))];
    let c = seq![("interval_seconds"@, SavedValue::Text(q.interval_seconds))];
    let p = Seq::new(q.params.len(), |i: int| ("param_"@ + q.params[i].0, SavedValue::Text(q.params[i].1)));
    if q.options.len() > 0 {
        lemma_one_line(o[0]);
        assert(o =~= seq![o[0]]);
        reveal_strlit("options");
        reveal_strlit(" = [");
        reveal_strlit("options = [");
        assert("options"@ + " = ["@ =~= "options = ["@);
    }
    lemma_one_line(a[0]);
    lemma_one_line(b[0]);
    lemma_one_line(c[0]);
    assert(a =~= seq![a[0]]);
    assert(b =~= seq![b[0]]);
    assert(c =~= seq![c[0]]);
    lemma_entry_lines_concat(o, a);
    lemma_entry_lines_concat(o + a, b);
    lemma_entry_lines_concat(o + a + b, c);
    lemma_entry_lines_concat(o + a + b + c, p);
    lemma_prefixed_param_lines(q.params);
    assert(sequence_text(Some(q)) =~= "[sequence]\n"@ + entry_lines(saved_sequence(q)) + "\n"@);
    let es = saved_sequence(q);
    let n = o.len() as int;
    assert(es[n] == a[0]);
    assert(es[n + 1] == b[0]);
    assert(es[n + 2] == c[0]);
    assert(es.contains(a[0]));
    assert(es.contains(b[0]));
    assert(es.contains(c[0]));
    lemma_found(parsed, es, a[0]);
    lemma_found(parsed, es, b[0]);
    lemma_found(parsed, es, c[0]);
    if q.options.len() > 0 {
        assert(es[0] == o[0]);
        assert(es.contains(o[0]));
        lemma_found(parsed, es, o[0]);
    } else {
        reveal_strlit("options");
        reveal_strlit("iterations");
        reveal_strlit("delay_seconds");
        reveal_strlit("interval_seconds");
        reveal_strlit("param_");
        if table_get(parsed, "options"@) is Some {
            assert(has_key(keys_of(es), "options"@));
            let w = choose|w: int| 0 <= w < keys_of(es).len() && keys_of(es)[w] == "options"@;
            assert(keys_of(es)[w] == es[w].0);
            assert("options"@[0] == 'o');
            if w < 3 {
                assert("iterations"@.len() != "options"@.len());
                assert("delay_seconds"@.len() != "options"@.len());
                assert("interval_seconds"@.len() != "options"@.len());
            } else {
                assert(es[w].0 == "param_"@ + q.params[w - 3].0);
                assert(es[w].0[0] == 'p');
            }
        }
    }
}

// ---------------------------------------------------------------------------
// Saving the global settings and reading them back
// ---------------------------------------------------------------------------

pub open spec fn opt_number(k: Seq<char>, v: Option<nat>) -> Seq<(Seq<char>, SavedValue)> {
    match v {
        Some(n) => seq![(k, SavedValue::Number(n))],
        None => Seq::empty(),
    }
}

/// The entries that saving writes for `[global]`, in order.
pub open spec fn saved_global(g: GlobalView) -> Seq<(Seq<char>, SavedValue)> {
    seq![("instance_id"@, SavedValue::Text(g.instance_id))] + seq![
        ("reports_dir"@, SavedValue::Text(g.reports_dir)),
    ] + seq![("date_format"@, SavedValue::Text(g.date_format))] + seq![
        ("timezone"@, SavedValue::Text(g.timezone)),
    ] + opt_text("default_tcode"@, g.default_tcode) + opt_number(
        "default_menu_option"@,
        opt_nat_usize(g.default_menu_option),
    ) + opt_number("default_export_type"@, opt_nat_u8(g.default_export_type)) + param_entries(
        g.additional_params,
    )
}

proof fn lemma_opt_number_line(k: Seq<char>, v: Option<nat>)
    ensures
        entry_lines(opt_number(k, v)) == opt_num_line(k, v),
{
    match v {
        Some(n) => lemma_one_line((k, SavedValue::Number(n))),
        None => {},
    }
}

proof fn lemma_found_in(parsed: Seq<TomlEntry>, es: Seq<(Seq<char>, SavedValue)>, i: int)
    requires
        reads_entries(parsed, es),
        0 <= i < es.len(),
    ensures
        table_get(parsed, es[i].0) is Some,
        value_reads(table_get(parsed, es[i].0)->Some_0, es[i].1),
{
    assert(es.contains(es[i]));
    lemma_found(parsed, es, es[i]);
}

proof fn lemma_global_lines(g: GlobalView)
    ensures
        global_text(Some(g)) == "[global]\n"@ + entry_lines(saved_global(g)) + "\n"@,
{
    let a = seq![("instance_id"@, SavedValue::Text(g.instance_id))];
    let b = seq![("reports_dir"@, SavedValue::Text(g.reports_dir))];
    let c = seq![("date_format"@, SavedValue::Text(g.date_format))];
    let e = seq![("timezone"@, SavedValue::Text(g.timezone))];
    let f = opt_text("default_tcode"@, g.default_tcode);
    let h = opt_number("default_menu_option"@, opt_nat_usize(g.default_menu_option));
    let k = opt_number("default_export_type"@, opt_nat_u8(g.default_export_type));
    let p = param_entries(g.additional_params);
    lemma_one_line(a[0]);
    lemma_one_line(b[0]);
    lemma_one_line(c[0]);
    lemma_one_line(e[0]);
    assert(a =~= seq![a[0]]);
    assert(b =~= seq![b[0]]);
    assert(c =~= seq![c[0]]);
    assert(e =~= seq![e[0]]);
    lemma_opt_line("default_tcode"@, g.default_tcode);
    lemma_opt_number_line("default_menu_option"@, opt_nat_usize(g.default_menu_option));
    lemma_opt_number_line("default_export_type"@, opt_nat_u8(g.default_export_type));
    lemma_param_lines(g.additional_params);
    lemma_entry_lines_concat(a, b);
    lemma_entry_lines_concat(a + b, c);
    lemma_entry_lines_concat(a + b + c, e);
    lemma_entry_lines_concat(a + b + c + e, f);
    lemma_entry_lines_concat(a + b + c + e + f, h);
    lemma_entry_lines_concat(a + b + c + e + f + h, k);
    lemma_entry_lines_concat(a + b + c + e + f + h + k, p);
    assert(global_text(Some(g)) =~= "[global]\n"@ + entry_lines(saved_global(g)) + "\n"@);
}

/// Saving the global settings and reading them back gives them again: the
/// text that saving writes for `[global]` is its header, one line per saved
/// entry and a blank line; a table holding exactly those entries, as a TOML
/// reader gives it, reads back the same instance, date format, time zone,
/// default transaction, menu option and export type, and the reports
/// directory with its backslashes doubled (as loading always stores it).
#[verifier::rlimit(40)]
pub proof fn lemma_global_save_then_load(g: GlobalView, parsed: Seq<TomlEntry>, d: Seq<char>)
    requires
        reads_entries(parsed, saved_global(g)),
    ensures
        global_text(Some(g)) == "[global]\n"@ + entry_lines(saved_global(g)) + "\n"@,
        global_from(parsed, d).instance_id == g.instance_id,
        global_from(parsed, d).reports_dir == double_backslashes(g.reports_dir),
        global_from(parsed, d).date_format == g.date_format,
        global_from(parsed, d).timezone == g.timezone,
        g.default_tcode is Some ==> global_from(parsed, d).default_tcode == g.default_tcode,
        g.default_menu_option is Some ==> global_from(parsed, d).default_menu_option == g.default_menu_option,
        g.default_export_type is Some ==> global_from(parsed, d).default_export_type == g.default_export_type,
{
    lemma_global_lines(g);
    let a = seq![("instance_id"@, SavedValue::Text(g.instance_id))];
    let b = seq![("reports_dir"@, SavedValue::Text(g.reports_dir))];
    let c = seq![("date_format"@, SavedValue::Text(g.date_format))];
    let e = seq![("timezone"@, SavedValue::Text(g.timezone))];
    let f = opt_text("default_tcode"@, g.default_tcode);
    let h = opt_number("default_menu_option"@, opt_nat_usize(g.default_menu_option));
    let k = opt_number("default_export_type"@, opt_nat_u8(g.default_export_type));
    let es = saved_global(g);
    assert(es == a + b + c + e + f + h + k + param_entries(g.additional_params));
    assert(es[0] == a[0]);
    assert(es[1] == b[0]);
    assert(es[2] == c[0]);
    assert(es[3] == e[0]);
    lemma_found_in(parsed, es, 0);
    lemma_found_in(parsed, es, 1);
    lemma_found_in(parsed, es, 2);
    lemma_found_in(parsed, es, 3);
    if g.default_tcode is Some {
        assert(es[4] == f[0]);
        lemma_found_in(parsed, es, 4);
    }
    let nf = f.len() as int;
    if g.default_menu_option is Some {
        assert(es[4 + nf] == h[0]);
        lemma_found_in(parsed, es, 4 + nf);
    }
    let nh = h.len() as int;
    if g.default_export_type is Some {
        assert(es[4 + nf + nh] == k[0]);
        lemma_found_in(parsed, es, 4 + nf + nh);
    }
}

} // verus!
