//! What the merged settings of a transaction hold, and how the loop and
//! sequence settings are read.
use crate::assoc::{
    assoc_get, assoc_insert, first_index, has_key, is_first, keys_of, keys_unique,
    lemma_first_unique, lemma_get_insert_other, lemma_get_insert_same, lemma_has_first,
};
use crate::config_query::{effective_export_type, ins_opt, insert_all, json_list, lookup_section, section_pairs, tcode_settings};
use crate::config_types::{SapConfigView, TcodeView};
use crate::config_load::loaded;
use crate::config_types::{default_delay_seconds_text, default_interval_seconds_text, default_iterations_text};
use crate::text::{all_digits, decimal, digit_char, digits_value, is_ascii_digit, join, unsigned_body};
use crate::toml_doc::{as_table, str_elems, table_get, toml_parse, value_get, TomlEntry, TomlValue};
use vstd::prelude::*;

verus! {

/// `k` is the name under which the merged settings list a section's field.
pub open spec fn settings_field(k: Seq<char>) -> bool {
    k == "variant"@ || k == "layout"@ || k == "column_name"@ || k == "date_range_start"@ || k == "date_range_end"@ || k == "by_date"@ || k == "serial_number"@ || k == "tab_number"@ || k == "export_type"@ || k == "layout_columns"@ || k == "by_delivery"@ || k == "plants"@
}

/// The names of the section fields in the merged settings are all different,
/// and differ from `tcode`.
proof fn lemma_field_names_distinct()
    ensures
        "tcode"@ != "variant"@,
        "tcode"@ != "layout"@,
        "tcode"@ != "column_name"@,
        "tcode"@ != "date_range_start"@,
        "tcode"@ != "date_range_end"@,
        "tcode"@ != "by_date"@,
        "tcode"@ != "serial_number"@,
        "tcode"@ != "tab_number"@,
        "tcode"@ != "export_type"@,
        "tcode"@ != "layout_columns"@,
        "tcode"@ != "by_delivery"@,
        "tcode"@ != "plants"@,
        "variant"@ != "layout"@,
        "variant"@ != "column_name"@,
        "variant"@ != "date_range_start"@,
        "variant"@ != "date_range_end"@,
        "variant"@ != "by_date"@,
        "variant"@ != "serial_number"@,
        "variant"@ != "tab_number"@,
        "variant"@ != "export_type"@,
        "variant"@ != "layout_columns"@,
        "variant"@ != "by_delivery"@,
        "variant"@ != "plants"@,
        "layout"@ != "column_name"@,
        "layout"@ != "date_range_start"@,
        "layout"@ != "date_range_end"@,
        "layout"@ != "by_date"@,
        "layout"@ != "serial_number"@,
        "layout"@ != "tab_number"@,
        "layout"@ != "export_type"@,
        "layout"@ != "layout_columns"@,
        "layout"@ != "by_delivery"@,
        "layout"@ != "plants"@,
        "column_name"@ != "date_range_start"@,
        "column_name"@ != "date_range_end"@,
        "column_name"@ != "by_date"@,
        "column_name"@ != "serial_number"@,
        "column_name"@ != "tab_number"@,
        "column_name"@ != "export_type"@,
        "column_name"@ != "layout_columns"@,
        "column_name"@ != "by_delivery"@,
        "column_name"@ != "plants"@,
        "date_range_start"@ != "date_range_end"@,
        "date_range_start"@ != "by_date"@,
        "date_range_start"@ != "serial_number"@,
        "date_range_start"@ != "tab_number"@,
        "date_range_start"@ != "export_type"@,
        "date_range_start"@ != "layout_columns"@,
        "date_range_start"@ != "by_delivery"@,
        "date_range_start"@ != "plants"@,
        "date_range_end"@ != "by_date"@,
        "date_range_end"@ != "serial_number"@,
        "date_range_end"@ != "tab_number"@,
        "date_range_end"@ != "export_type"@,
        "date_range_end"@ != "layout_columns"@,
        "date_range_end"@ != "by_delivery"@,
        "date_range_end"@ != "plants"@,
        "by_date"@ != "serial_number"@,
        "by_date"@ != "tab_number"@,
        "by_date"@ != "export_type"@,
        "by_date"@ != "layout_columns"@,
        "by_date"@ != "by_delivery"@,
        "by_date"@ != "plants"@,
        "serial_number"@ != "tab_number"@,
        "serial_number"@ != "export_type"@,
        "serial_number"@ != "layout_columns"@,
        "serial_number"@ != "by_delivery"@,
        "serial_number"@ != "plants"@,
        "tab_number"@ != "export_type"@,
        "tab_number"@ != "layout_columns"@,
        "tab_number"@ != "by_delivery"@,
        "tab_number"@ != "plants"@,
        "export_type"@ != "layout_columns"@,
        "export_type"@ != "by_delivery"@,
        "export_type"@ != "plants"@,
        "layout_columns"@ != "by_delivery"@,
        "layout_columns"@ != "plants"@,
        "by_delivery"@ != "plants"@,
{
    reveal_strlit("tcode");
    reveal_strlit("variant");
    reveal_strlit("layout");
    reveal_strlit("column_name");
    reveal_strlit("date_range_start");
    reveal_strlit("date_range_end");
    reveal_strlit("by_date");
    reveal_strlit("serial_number");
    reveal_strlit("tab_number");
    reveal_strlit("export_type");
    reveal_strlit("layout_columns");
    reveal_strlit("by_delivery");
    reveal_strlit("plants");
    assert("tcode"@.len() != "variant"@.len());
    assert("tcode"@.len() != "layout"@.len());
    assert("tcode"@.len() != "column_name"@.len());
    assert("tcode"@.len() != "date_range_start"@.len());
    assert("tcode"@.len() != "date_range_end"@.len());
    assert("tcode"@.len() != "by_date"@.len());
    assert("tcode"@.len() != "serial_number"@.len());
    assert("tcode"@.len() != "tab_number"@.len());
    assert("tcode"@.len() != "export_type"@.len());
    assert("tcode"@.len() != "layout_columns"@.len());
    assert("tcode"@.len() != "by_delivery"@.len());
    assert("tcode"@.len() != "plants"@.len());
    assert("variant"@.len() != "layout"@.len());
    assert("variant"@.len() != "column_name"@.len());
    assert("variant"@.len() != "date_range_start"@.len());
    assert("variant"@.len() != "date_range_end"@.len());
    assert("variant"@[0] != "by_date"@[0]);
    assert("variant"@.len() != "serial_number"@.len());
    assert("variant"@.len() != "tab_number"@.len());
    assert("variant"@.len() != "export_type"@.len());
    assert("variant"@.len() != "layout_columns"@.len());
    assert("variant"@.len() != "by_delivery"@.len());
    assert("variant"@.len() != "plants"@.len());
    assert("layout"@.len() != "column_name"@.len());
    assert("layout"@.len() != "date_range_start"@.len());
    assert("layout"@.len() != "date_range_end"@.len());
    assert("layout"@.len() != "by_date"@.len());
    assert("layout"@.len() != "serial_number"@.len());
    assert("layout"@.len() != "tab_number"@.len());
    assert("layout"@.len() != "export_type"@.len());
    assert("layout"@.len() != "layout_columns"@.len());
    assert("layout"@.len() != "by_delivery"@.len());
    assert("layout"@[0] != "plants"@[0]);
    assert("column_name"@.len() != "date_range_start"@.len());
    assert("column_name"@.len() != "date_range_end"@.len());
    assert("column_name"@.len() != "by_date"@.len());
    assert("column_name"@.len() != "serial_number"@.len());
    assert("column_name"@.len() != "tab_number"@.len());
    assert("column_name"@[0] != "export_type"@[0]);
    assert("column_name"@.len() != "layout_columns"@.len());
    assert("column_name"@[0] != "by_delivery"@[0]);
    assert("column_name"@.len() != "plants"@.len());
    assert("date_range_start"@.len() != "date_range_end"@.len());
    assert("date_range_start"@.len() != "by_date"@.len());
    assert("date_range_start"@.len() != "serial_number"@.len());
    assert("date_range_start"@.len() != "tab_number"@.len());
    assert("date_range_start"@.len() != "export_type"@.len());
    assert("date_range_start"@.len() != "layout_columns"@.len());
    assert("date_range_start"@.len() != "by_delivery"@.len());
    assert("date_range_start"@.len() != "plants"@.len());
    assert("date_range_end"@.len() != "by_date"@.len());
    assert("date_range_end"@.len() != "serial_number"@.len());
    assert("date_range_end"@.len() != "tab_number"@.len());
    assert("date_range_end"@.len() != "export_type"@.len());
    assert("date_range_end"@[0] != "layout_columns"@[0]);
    assert("date_range_end"@.len() != "by_delivery"@.len());
    assert("date_range_end"@.len() != "plants"@.len());
    assert("by_date"@.len() != "serial_number"@.len());
    assert("by_date"@.len() != "tab_number"@.len());
    assert("by_date"@.len() != "export_type"@.len());
    assert("by_date"@.len() != "layout_columns"@.len());
    assert("by_date"@.len() != "by_delivery"@.len());
    assert("by_date"@.len() != "plants"@.len());
    assert("serial_number"@.len() != "tab_number"@.len());
    assert("serial_number"@.len() != "export_type"@.len());
    assert("serial_number"@.len() != "layout_columns"@.len());
    assert("serial_number"@.len() != "by_delivery"@.len());
    assert("serial_number"@.len() != "plants"@.len());
    assert("tab_number"@.len() != "export_type"@.len());
    assert("tab_number"@.len() != "layout_columns"@.len());
    assert("tab_number"@.len() != "by_delivery"@.len());
    assert("tab_number"@.len() != "plants"@.len());
    assert("export_type"@.len() != "layout_columns"@.len());
    assert("export_type"@[0] != "by_delivery"@[0]);
    assert("export_type"@.len() != "plants"@.len());
    assert("layout_columns"@.len() != "by_delivery"@.len());
    assert("layout_columns"@.len() != "plants"@.len());
    assert("by_delivery"@.len() != "plants"@.len());
}

proof fn lemma_ins_opt_get(m: Seq<(Seq<char>, Seq<char>)>, k: Seq<char>, v: Option<Seq<char>>, q: Seq<char>)
    ensures
        assoc_get(ins_opt(m, k, v), q) == if q == k && v is Some { v } else { assoc_get(m, q) },
{
    match v {
        Some(x) => if q == k {
            lemma_get_insert_same(m, k, x);
        } else {
            lemma_get_insert_other(m, k, x, q);
        },
        None => {},
    }
}

/// Looking up in a list whose keys are unique: the last pair's value for its
/// key, else what the rest gives.
proof fn lemma_assoc_last(p: Seq<(Seq<char>, Seq<char>)>, q: Seq<char>)
    requires
        p.len() > 0,
        keys_unique(keys_of(p)),
    ensures
        keys_unique(keys_of(p.drop_last())),
        q == p.last().0 ==> has_key(keys_of(p), q) && assoc_get(p, q) == Some(p.last().1)
            && !has_key(keys_of(p.drop_last()), q),
        q != p.last().0 ==> has_key(keys_of(p), q) == has_key(keys_of(p.drop_last()), q)
            && assoc_get(p, q) == assoc_get(p.drop_last(), q),
{
    let d = p.drop_last();
    let n = p.len() - 1;
    assert(keys_of(d) =~= keys_of(p).drop_last());
    if q == p.last().0 {
        assert(keys_of(p)[n] == q);
        assert forall|j: int| 0 <= j < n implies keys_of(p)[j] != q by {}
        lemma_first_unique(keys_of(p), q, n);
        if has_key(keys_of(d), q) {
            let w = choose|w: int| 0 <= w < keys_of(d).len() && keys_of(d)[w] == q;
            assert(keys_of(p)[w] == q);
        }
    } else {
        if has_key(keys_of(d), q) {
            lemma_has_first(keys_of(d), q);
            let i = first_index(keys_of(d), q);
            assert forall|j: int| 0 <= j < i implies keys_of(p)[j] != q by {
                assert(keys_of(p)[j] == keys_of(d)[j]);
            }
            assert(keys_of(p)[i] == q);
            lemma_first_unique(keys_of(p), q, i);
            assert(p[i] == d[i]);
        } else if has_key(keys_of(p), q) {
            let w = choose|w: int| 0 <= w < keys_of(p).len() && keys_of(p)[w] == q;
            assert(w != n);
            assert(keys_of(d)[w] == q);
        }
    }
}

/// Inserting the pairs of a list with unique keys: each of its keys gets its
/// value, every other key keeps its own.
proof fn lemma_insert_all_get(m: Seq<(Seq<char>, Seq<char>)>, p: Seq<(Seq<char>, Seq<char>)>, q: Seq<char>)
    requires
        keys_unique(keys_of(p)),
    ensures
        assoc_get(insert_all(m, p), q) == if has_key(keys_of(p), q) {
            assoc_get(p, q)
        } else {
            assoc_get(m, q)
        },
    decreases p.len(),
{
    if p.len() > 0 {
        lemma_assoc_last(p, q);
        lemma_insert_all_get(m, p.drop_last(), q);
        if q == p.last().0 {
            lemma_get_insert_same(insert_all(m, p.drop_last()), p.last().0, p.last().1);
        } else {
            lemma_get_insert_other(insert_all(m, p.drop_last()), p.last().0, p.last().1, q);
        }
    }
}

/// What the merged settings give for a key that no extra parameter has.
proof fn lemma_section_pairs_get(m: Seq<(Seq<char>, Seq<char>)>, t: TcodeView, q: Seq<char>)
    requires
        keys_unique(keys_of(t.additional_params)),
        !has_key(keys_of(t.additional_params), q),
    ensures
        assoc_get(section_pairs(m, t), q) == if q == "plants"@ && t.plants is Some {
            Some(join(t.plants->Some_0, ","@))
        } else if q == "by_delivery"@ && t.by_delivery is Some {
            t.by_delivery
        } else if q == "layout_columns"@ && t.layout_columns is Some {
            Some(json_list(t.layout_columns->Some_0))
        } else if q == "export_type"@ && t.export_type is Some {
            Some(decimal(t.export_type->Some_0 as nat))
        } else if q == "tab_number"@ && t.tab_number is Some {
            t.tab_number
        } else if q == "serial_number"@ && t.serial_number is Some {
            t.serial_number
        } else if q == "by_date"@ && t.by_date is Some {
            t.by_date
        } else if q == "date_range_end"@ && t.date_range_end is Some {
            t.date_range_end
        } else if q == "date_range_start"@ && t.date_range_start is Some {
            t.date_range_start
        } else if q == "column_name"@ && t.column_name is Some {
            t.column_name
        } else if q == "layout"@ && t.layout is Some {
            t.layout
        } else if q == "variant"@ && t.variant is Some {
            t.variant
        } else {
            assoc_get(m, q)
        },
{
    let m1 = ins_opt(m, "variant"@, t.variant);
    let m2 = ins_opt(m1, "layout"@, t.layout);
    let m3 = ins_opt(m2, "column_name"@, t.column_name);
    let m4 = ins_opt(m3, "date_range_start"@, t.date_range_start);
    let m5 = ins_opt(m4, "date_range_end"@, t.date_range_end);
    let m6 = ins_opt(m5, "by_date"@, t.by_date);
    let m7 = ins_opt(m6, "serial_number"@, t.serial_number);
    let m8 = ins_opt(m7, "tab_number"@, t.tab_number);
    let m9 = ins_opt(m8, "export_type"@, crate::config_query::opt_num(t.export_type));
    let m10 = match t.layout_columns {
        Some(c) => assoc_insert(m9, "layout_columns"@, json_list(c)),
        None => m9,
    };
    let m11 = ins_opt(m10, "by_delivery"@, t.by_delivery);
    let m12 = ins_opt(m11, "plants"@, crate::config_query::opt_join(t.plants));
    lemma_ins_opt_get(m, "variant"@, t.variant, q);
    lemma_ins_opt_get(m1, "layout"@, t.layout, q);
    lemma_ins_opt_get(m2, "column_name"@, t.column_name, q);
    lemma_ins_opt_get(m3, "date_range_start"@, t.date_range_start, q);
    lemma_ins_opt_get(m4, "date_range_end"@, t.date_range_end, q);
    lemma_ins_opt_get(m5, "by_date"@, t.by_date, q);
    lemma_ins_opt_get(m6, "serial_number"@, t.serial_number, q);
    lemma_ins_opt_get(m7, "tab_number"@, t.tab_number, q);
    lemma_ins_opt_get(m8, "export_type"@, crate::config_query::opt_num(t.export_type), q);
    match t.layout_columns {
        Some(c) => lemma_ins_opt_get(m9, "layout_columns"@, Some(json_list(c)), q),
        None => {},
    }
    lemma_ins_opt_get(m10, "by_delivery"@, t.by_delivery, q);
    lemma_ins_opt_get(m11, "plants"@, crate::config_query::opt_join(t.plants), q);
    lemma_insert_all_get(m12, t.additional_params, q);
}

/// The merged settings of a transaction that has a section hold every field
/// of the section: each text field under its own name with its own value
/// (and no such key when the field is unset), the export type as decimal
/// text, the layout columns as JSON, the plants joined with commas; and
/// every extra parameter with its value. This holds when the extra
/// parameters have unique keys, none named like a field.
pub proof fn lemma_settings_hold_section(c: SapConfigView, tcode: Seq<char>, is_loop_run: Option<bool>, t: TcodeView)
    requires
        c.tcode matches Some(m) && lookup_section(m, tcode) == Some(t),
        keys_unique(keys_of(t.additional_params)),
        forall|i: int| 0 <= i < t.additional_params.len() ==> !settings_field(#[trigger] t.additional_params[i].0),
    ensures
        tcode_settings(c, tcode, is_loop_run) is Some,
        ({
            let s = tcode_settings(c, tcode, is_loop_run)->Some_0;
            &&& assoc_get(s, "variant"@) == t.variant
            &&& assoc_get(s, "layout"@) == t.layout
            &&& assoc_get(s, "column_name"@) == t.column_name
            &&& assoc_get(s, "date_range_start"@) == t.date_range_start
            &&& assoc_get(s, "date_range_end"@) == t.date_range_end
            &&& assoc_get(s, "by_date"@) == t.by_date
            &&& assoc_get(s, "serial_number"@) == t.serial_number
            &&& assoc_get(s, "tab_number"@) == t.tab_number
            &&& assoc_get(s, "by_delivery"@) == t.by_delivery
            &&& assoc_get(s, "export_type"@) == match t.export_type {
                Some(n) => Some(decimal(n as nat)),
                None => None,
            }
            &&& assoc_get(s, "layout_columns"@) == match t.layout_columns {
                Some(cols) => Some(json_list(cols)),
                None => None,
            }
            &&& assoc_get(s, "plants"@) == match t.plants {
                Some(p) => Some(join(p, ","@)),
                None => None,
            }
            &&& forall|k: Seq<char>|
                has_key(keys_of(t.additional_params), k) ==> #[trigger] assoc_get(s, k) == assoc_get(
                    t.additional_params,
                    k,
                )
        }),
{
    let configured = if is_loop_run == Some(true) {
        match c.loop_config {
            Some(l) => Some(l.tcode),
            None => None,
        }
    } else {
        match c.global {
            Some(g) => g.default_tcode,
            None => None,
        }
    };
    let m0 = ins_opt(Seq::empty(), "tcode"@, configured);
    let s = section_pairs(m0, t);
    assert(tcode_settings(c, tcode, is_loop_run) == Some(s));
    lemma_field_names_distinct();
    assert forall|k: Seq<char>| settings_field(k) implies !has_key(keys_of(t.additional_params), k) by {
        if has_key(keys_of(t.additional_params), k) {
            let i = choose|i: int| 0 <= i < keys_of(t.additional_params).len() && keys_of(t.additional_params)[i] == k;
            assert(keys_of(t.additional_params)[i] == t.additional_params[i].0);
        }
    }
    lemma_ins_opt_get(Seq::empty(), "tcode"@, configured, "variant"@);
    lemma_ins_opt_get(Seq::empty(), "tcode"@, configured, "layout"@);
    lemma_ins_opt_get(Seq::empty(), "tcode"@, configured, "column_name"@);
    lemma_ins_opt_get(Seq::empty(), "tcode"@, configured, "date_range_start"@);
    lemma_ins_opt_get(Seq::empty(), "tcode"@, configured, "date_range_end"@);
    lemma_ins_opt_get(Seq::empty(), "tcode"@, configured, "by_date"@);
    lemma_ins_opt_get(Seq::empty(), "tcode"@, configured, "serial_number"@);
    lemma_ins_opt_get(Seq::empty(), "tcode"@, configured, "tab_number"@);
    lemma_ins_opt_get(Seq::empty(), "tcode"@, configured, "export_type"@);
    lemma_ins_opt_get(Seq::empty(), "tcode"@, configured, "layout_columns"@);
    lemma_ins_opt_get(Seq::empty(), "tcode"@, configured, "by_delivery"@);
    lemma_ins_opt_get(Seq::empty(), "tcode"@, configured, "plants"@);
    lemma_section_pairs_get(m0, t, "variant"@);
    lemma_section_pairs_get(m0, t, "layout"@);
    lemma_section_pairs_get(m0, t, "column_name"@);
    lemma_section_pairs_get(m0, t, "date_range_start"@);
    lemma_section_pairs_get(m0, t, "date_range_end"@);
    lemma_section_pairs_get(m0, t, "by_date"@);
    lemma_section_pairs_get(m0, t, "serial_number"@);
    lemma_section_pairs_get(m0, t, "tab_number"@);
    lemma_section_pairs_get(m0, t, "export_type"@);
    lemma_section_pairs_get(m0, t, "layout_columns"@);
    lemma_section_pairs_get(m0, t, "by_delivery"@);
    lemma_section_pairs_get(m0, t, "plants"@);
    assert forall|k: Seq<char>|
        has_key(keys_of(t.additional_params), k) implies #[trigger] assoc_get(s, k) == assoc_get(
            t.additional_params,
            k,
        ) by {
        lemma_insert_all_get(
            ins_opt(
                ins_opt(
                    match t.layout_columns {
                        Some(cols) => assoc_insert(
                            ins_opt(
                                ins_opt(
                                    ins_opt(
                                        ins_opt(
                                            ins_opt(
                                                ins_opt(
                                                    ins_opt(
                                                        ins_opt(
                                                            ins_opt(m0, "variant"@, t.variant),
                                                            "layout"@,
                                                            t.layout,
                                                        ),
                                                        "column_name"@,
                                                        t.column_name,
                                                    ),
                                                    "date_range_start"@,
                                                    t.date_range_start,
                                                ),
                                                "date_range_end"@,
                                                t.date_range_end,
                                            ),
                                            "by_date"@,
                                            t.by_date,
                                        ),
                                        "serial_number"@,
                                        t.serial_number,
                                    ),
                                    "tab_number"@,
                                    t.tab_number,
                                ),
                                "export_type"@,
                                crate::config_query::opt_num(t.export_type),
                            ),
                            "layout_columns"@,
                            json_list(cols),
                        ),
                        None => ins_opt(
                            ins_opt(
                                ins_opt(
                                    ins_opt(
                                        ins_opt(
                                            ins_opt(
                                                ins_opt(
                                                    ins_opt(
                                                        ins_opt(m0, "variant"@, t.variant),
                                                        "layout"@,
                                                        t.layout,
                                                    ),
                                                    "column_name"@,
                                                    t.column_name,
                                                ),
                                                "date_range_start"@,
                                                t.date_range_start,
                                            ),
                                            "date_range_end"@,
                                            t.date_range_end,
                                        ),
                                        "by_date"@,
                                        t.by_date,
                                    ),
                                    "serial_number"@,
                                    t.serial_number,
                                ),
                                "tab_number"@,
                                t.tab_number,
                            ),
                            "export_type"@,
                            crate::config_query::opt_num(t.export_type),
                        ),
                    },
                    "by_delivery"@,
                    t.by_delivery,
                ),
                "plants"@,
                crate::config_query::opt_join(t.plants),
            ),
            t.additional_params,
            k,
        );
    }
}

/// The loop and sequence settings loaded from a file: each is the text
/// under its own key in the file's `[loop]` / `[sequence]` table, or its
/// default when that key holds no text; the sequence options are the texts
/// of the `options` array. (The loop and sequence are read from a file in
/// the current format, one with `[global]` or `[tcode]`; no command-line
/// flag changes them.)
pub proof fn lemma_loop_and_sequence_read(
    path: Seq<char>,
    content: Seq<char>,
    default_reports_dir: Seq<char>,
    o: crate::cli_overrides::OverridesView,
)
    requires
        toml_parse(content) matches Ok(doc) && doc is Table && (value_get(doc, "global"@) is Some
            || value_get(doc, "tcode"@) is Some),
    ensures
        loaded(path, Some(content), default_reports_dir, o) is Ok,
        ({
            let c = loaded(path, Some(content), default_reports_dir, o)->Ok_0;
            let doc = toml_parse(content)->Ok_0;
            &&& (as_table(value_get(doc, "loop"@)) matches Some(t) ==> {
                &&& c.loop_config is Some
                &&& c.loop_config->Some_0.tcode == text_or(t, "tcode"@, Seq::empty())
                &&& c.loop_config->Some_0.iterations == text_or(t, "iterations"@, default_iterations_text())
                &&& c.loop_config->Some_0.delay_seconds == text_or(t, "delay_seconds"@, default_delay_seconds_text())
            })
            &&& (as_table(value_get(doc, "sequence"@)) matches Some(t) ==> {
                &&& c.sequence is Some
                &&& c.sequence->Some_0.iterations == text_or(t, "iterations"@, default_iterations_text())
                &&& c.sequence->Some_0.delay_seconds == text_or(t, "delay_seconds"@, default_delay_seconds_text())
                &&& c.sequence->Some_0.interval_seconds == text_or(
                    t,
                    "interval_seconds"@,
                    default_interval_seconds_text(),
                )
                &&& (table_get(t, "options"@) matches Some(TomlValue::Array(a)) ==> c.sequence->Some_0.options
                    == str_elems(a@))
            })
        }),
{
}

/// The text under `k` in a table, or `d` when `k` holds no text.
pub open spec fn text_or(t: Seq<TomlEntry>, k: Seq<char>, d: Seq<char>) -> Seq<char> {
    match table_get(t, k) {
        Some(TomlValue::Str(x)) => x@,
        _ => d,
    }
}

proof fn lemma_digit(d: nat)
    requires
        d < 10,
    ensures
        is_ascii_digit(digit_char(d)),
        (digit_char(d) as u32 - '0' as u32) as nat == d,
        digit_char(d) != '+',
{
}

/// The decimal text of a number is all digits and reads back as the number.
proof fn lemma_decimal_reads_back(n: nat)
    ensures
        decimal(n).len() > 0,
        all_digits(decimal(n)),
        digits_value(decimal(n)) == n,
        decimal(n)[0] != '+',
    decreases n,
{
    if n < 10 {
        lemma_digit(n);
        let s = decimal(n);
        assert(s.drop_last() =~= Seq::<char>::empty());
        assert(digits_value(Seq::<char>::empty()) == 0);
    } else {
        lemma_decimal_reads_back(n / 10);
        lemma_digit(n % 10);
        let s = decimal(n);
        assert(s.drop_last() =~= decimal(n / 10));
        assert forall|i: int| 0 <= i < s.len() implies is_ascii_digit(s[i]) by {
            if i < s.len() - 1 {
                assert(s[i] == decimal(n / 10)[i]);
            }
        }
        assert(s[0] == decimal(n / 10)[0]);
    }
}

/// The export type in effect for a transaction with a section: the
/// section's own when it sets one, else the global default.
pub proof fn lemma_export_type_in_effect(c: SapConfigView, tcode: Seq<char>, t: TcodeView)
    requires
        c.tcode matches Some(m) && lookup_section(m, tcode) == Some(t),
        keys_unique(keys_of(t.additional_params)),
        forall|i: int| 0 <= i < t.additional_params.len() ==> !settings_field(#[trigger] t.additional_params[i].0),
    ensures
        effective_export_type(c, tcode) == match t.export_type {
            Some(n) => Some(n),
            None => match c.global {
                Some(g) => g.default_export_type,
                None => None,
            },
        },
{
    lemma_settings_hold_section(c, tcode, Some(true), t);
    match t.export_type {
        Some(n) => {
            lemma_decimal_reads_back(n as nat);
            assert(unsigned_body(decimal(n as nat)) == decimal(n as nat));
        },
        None => {},
    }
}

} // verus!
