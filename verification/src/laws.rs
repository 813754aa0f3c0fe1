use vstd::prelude::*;

use crate::annotation::{
    AttrBlockModel, InfluxAttrModel, empty_attr, fold_blocks_model, merge_model,
    parse_items_model,
};
use crate::errors::{ConstraintKind, ResolveError};
use crate::generator::{field_section, serialized, tag_section, timestamp_section};
use crate::resolver::{
    FieldDefModel, FieldDescriptorModel, RecordTypeModel, TypeBodyModel, TypeDefModel,
    count_field_roles, count_tag_roles, count_timestamp_roles, descs_model, field_desc_model,
    resolve_model,
};

verus! {

/// The left-to-right merge of a whole sequence of annotation occurrences,
/// starting from the empty occurrence.
pub open spec fn merged_of(occs: Seq<InfluxAttrModel>) -> InfluxAttrModel
    decreases occs.len(),
{
    if occs.len() == 0 {
        empty_attr()
    } else {
        merge_model(merged_of(occs.drop_last()), occs.last())
    }
}

/// The rename that survives a left-to-right merge: the last occurrence that
/// carries one, or none at all.
pub open spec fn last_rename(occs: Seq<InfluxAttrModel>) -> Option<Seq<char>>
    decreases occs.len(),
{
    if occs.len() == 0 {
        None
    } else {
        match occs.last().name {
            Some(n) => Some(n),
            None => last_rename(occs.drop_last()),
        }
    }
}

/// Merging is monotone: a role marker set by any occurrence is set in the
/// merge of the whole sequence, and an occurrence that omits a marker never
/// clears it; the merged rename is the last one present, and an occurrence
/// without a rename never erases an earlier one.
pub proof fn lemma_merge_monotonic(occs: Seq<InfluxAttrModel>)
    ensures
        merged_of(occs).is_tag <==> exists|i: int| 0 <= i < occs.len() && occs[i].is_tag,
        merged_of(occs).is_field <==> exists|i: int| 0 <= i < occs.len() && occs[i].is_field,
        merged_of(occs).is_timestamp <==> exists|i: int|
            0 <= i < occs.len() && occs[i].is_timestamp,
        merged_of(occs).name == last_rename(occs),
    decreases occs.len(),
{
    if occs.len() > 0 {
        lemma_merge_monotonic(occs.drop_last());
        let prev = occs.drop_last();
        if merged_of(occs).is_tag && !occs.last().is_tag {
            let i = choose|i: int| 0 <= i < prev.len() && prev[i].is_tag;
            assert(occs[i].is_tag);
        }
        if exists|i: int| 0 <= i < occs.len() && occs[i].is_tag {
            let i = choose|i: int| 0 <= i < occs.len() && occs[i].is_tag;
            if i < occs.len() - 1 {
                assert(prev[i].is_tag);
            }
        }
        if merged_of(occs).is_field && !occs.last().is_field {
            let i = choose|i: int| 0 <= i < prev.len() && prev[i].is_field;
            assert(occs[i].is_field);
        }
        if exists|i: int| 0 <= i < occs.len() && occs[i].is_field {
            let i = choose|i: int| 0 <= i < occs.len() && occs[i].is_field;
            if i < occs.len() - 1 {
                assert(prev[i].is_field);
            }
        }
        if merged_of(occs).is_timestamp && !occs.last().is_timestamp {
            let i = choose|i: int| 0 <= i < prev.len() && prev[i].is_timestamp;
            assert(occs[i].is_timestamp);
        }
        if exists|i: int| 0 <= i < occs.len() && occs[i].is_timestamp {
            let i = choose|i: int| 0 <= i < occs.len() && occs[i].is_timestamp;
            if i < occs.len() - 1 {
                assert(prev[i].is_timestamp);
            }
        }
    }
}

/// The occurrences that a site's `influx` annotation blocks parse to, in
/// order, passing over blocks with other names; a block that fails to parse
/// contributes nothing (the fold is then an error anyway).
pub open spec fn influx_occurrences(blocks: Seq<AttrBlockModel>) -> Seq<InfluxAttrModel>
    decreases blocks.len(),
{
    if blocks.len() == 0 {
        Seq::empty()
    } else {
        let rest = influx_occurrences(blocks.drop_last());
        if blocks.last().name == "influx"@ {
            match parse_items_model(blocks.last().items) {
                Some(a) => rest.push(a),
                None => rest,
            }
        } else {
            rest
        }
    }
}

/// A successful fold over a site's annotation blocks is exactly the
/// left-to-right merge of the occurrences of its `influx` blocks; it is
/// empty only when the site carries no `influx` block.
pub proof fn lemma_fold_blocks_is_merged(blocks: Seq<AttrBlockModel>)
    requires
        fold_blocks_model(blocks) is Ok,
    ensures
        ({
            let occs = influx_occurrences(blocks);
            fold_blocks_model(blocks) == Ok::<Option<InfluxAttrModel>, ()>(
                if occs.len() == 0 {
                    None
                } else {
                    Some(merged_of(occs))
                },
            )
        }),
    decreases blocks.len(),
{
    if blocks.len() > 0 {
        lemma_fold_blocks_is_merged(blocks.drop_last());
        let occs_prev = influx_occurrences(blocks.drop_last());
        let occs = influx_occurrences(blocks);
        if blocks.last().name == "influx"@ {
            match parse_items_model(blocks.last().items) {
                Some(a) => {
                    assert(occs.drop_last() =~= occs_prev);
                    if occs_prev.len() == 0 {
                        assert(merge_model(empty_attr(), a) == a);
                    }
                },
                None => {
                    assert(false);
                },
            }
        }
    }
}

/// A resolvable field list yields one descriptor per field.
pub proof fn lemma_descs_model_len(fds: Seq<FieldDefModel>, descs: Seq<FieldDescriptorModel>)
    requires
        descs_model(fds) == Some(descs),
    ensures
        descs.len() == fds.len(),
    decreases fds.len(),
{
    if fds.len() > 0 {
        match descs_model(fds.drop_last()) {
            Some(prevs) => {
                lemma_descs_model_len(fds.drop_last(), prevs);
            },
            None => {
                assert(false);
            },
        }
    }
}

/// Within a resolvable field list, each descriptor is the resolution of the
/// field definition at the same position.
pub proof fn lemma_descs_model_index(
    fds: Seq<FieldDefModel>,
    descs: Seq<FieldDescriptorModel>,
    j: int,
)
    requires
        descs_model(fds) == Some(descs),
        0 <= j < fds.len(),
    ensures
        descs.len() == fds.len(),
        field_desc_model(fds[j]) == Some(descs[j]),
    decreases fds.len(),
{
    lemma_descs_model_len(fds, descs);
    match (descs_model(fds.drop_last()), field_desc_model(fds.last())) {
        (Some(prevs), Some(d)) => {
            assert(descs == prevs.push(d));
            lemma_descs_model_len(fds.drop_last(), prevs);
            if j < fds.len() - 1 {
                lemma_descs_model_index(fds.drop_last(), prevs, j);
                assert(fds.drop_last()[j] == fds[j]);
                assert(descs[j] == prevs[j]);
            } else {
                assert(fds[j] == fds.last());
                assert(descs[j] == d);
            }
        },
        _ => {
            assert(false);
        },
    }
}

/// Resolution succeeds on every definition that is a flat structure of
/// named fields, whose annotations all parse, and whose merged roles give
/// at least one field role and at most one timestamp role; the resolved
/// descriptors then carry, field by field, exactly the OR-merge of the
/// field's annotation occurrences and the last rename among them.
pub proof fn lemma_resolution_succeeds(
    d: TypeDefModel,
    fds: Seq<FieldDefModel>,
    descs: Seq<FieldDescriptorModel>,
)
    requires
        d.body == TypeBodyModel::NamedFields(fds),
        fold_blocks_model(d.attrs) is Ok,
        descs_model(fds) == Some(descs),
        count_field_roles(descs) >= 1,
        count_timestamp_roles(descs) <= 1,
    ensures
        resolve_model(d) is Ok,
        resolve_model(d)->Ok_0.field_descriptors == descs,
        descs.len() == fds.len(),
        forall|j: int|
            0 <= j < fds.len() ==> {
                let occs = influx_occurrences(fds[j].attrs);
                &&& (#[trigger] descs[j]).source_field_name == fds[j].name
                &&& (descs[j].is_tag <==> exists|i: int| 0 <= i < occs.len() && occs[i].is_tag)
                &&& (descs[j].is_field <==> exists|i: int|
                    0 <= i < occs.len() && occs[i].is_field)
                &&& (descs[j].is_timestamp <==> exists|i: int|
                    0 <= i < occs.len() && occs[i].is_timestamp)
                &&& descs[j].wire_name == (match last_rename(occs) {
                    Some(n) => n,
                    None => fds[j].name,
                })
            },
{
    assert forall|j: int| 0 <= j < fds.len() implies {
        let occs = influx_occurrences(fds[j].attrs);
        &&& (#[trigger] descs[j]).source_field_name == fds[j].name
        &&& (descs[j].is_tag <==> exists|i: int| 0 <= i < occs.len() && occs[i].is_tag)
        &&& (descs[j].is_field <==> exists|i: int| 0 <= i < occs.len() && occs[i].is_field)
        &&& (descs[j].is_timestamp <==> exists|i: int|
            0 <= i < occs.len() && occs[i].is_timestamp)
        &&& descs[j].wire_name == (match last_rename(occs) {
            Some(n) => n,
            None => fds[j].name,
        })
    } by {
        lemma_descs_model_index(fds, descs, j);
        lemma_fold_blocks_is_merged(fds[j].attrs);
        lemma_merge_monotonic(influx_occurrences(fds[j].attrs));
    }
    lemma_descs_model_len(fds, descs);
}

/// A definition whose resolved roles include no field role fails with a
/// constraint violation naming that invariant, whatever its other roles.
pub proof fn lemma_no_field_role_rejected(
    d: TypeDefModel,
    fds: Seq<FieldDefModel>,
    descs: Seq<FieldDescriptorModel>,
)
    requires
        d.body == TypeBodyModel::NamedFields(fds),
        fold_blocks_model(d.attrs) is Ok,
        descs_model(fds) == Some(descs),
        count_field_roles(descs) == 0,
    ensures
        resolve_model(d) == Err::<RecordTypeModel, _>(
            ResolveError::ConstraintViolation(ConstraintKind::NoFieldRole),
        ),
{
}

/// A definition whose resolved roles include two or more timestamp roles
/// fails with a constraint violation.
pub proof fn lemma_multiple_timestamps_rejected(
    d: TypeDefModel,
    fds: Seq<FieldDefModel>,
    descs: Seq<FieldDescriptorModel>,
)
    requires
        d.body == TypeBodyModel::NamedFields(fds),
        fold_blocks_model(d.attrs) is Ok,
        descs_model(fds) == Some(descs),
        count_timestamp_roles(descs) >= 2,
    ensures
        resolve_model(d) is Err,
        resolve_model(d)->Err_0 is ConstraintViolation,
{
}

/// Resolution is a pure function of the definition: any two resolutions of
/// the same definition yield identical outcomes, descriptor for descriptor.
pub proof fn lemma_resolution_deterministic(
    d: TypeDefModel,
    r1: Result<RecordTypeModel, ResolveError>,
    r2: Result<RecordTypeModel, ResolveError>,
)
    requires
        r1 == resolve_model(d),
        r2 == resolve_model(d),
    ensures
        r1 == r2,
{
}

/// How many times a character occurs in a sequence.
pub open spec fn count_char(s: Seq<char>, c: char) -> nat
    decreases s.len(),
{
    if s.len() == 0 {
        0
    } else {
        count_char(s.drop_last(), c) + if s.last() == c {
            1nat
        } else {
            0nat
        }
    }
}

/// Character counts add up over concatenation.
pub proof fn lemma_count_char_concat(a: Seq<char>, b: Seq<char>, c: char)
    ensures
        count_char(a + b, c) == count_char(a, c) + count_char(b, c),
    decreases b.len(),
{
    if b.len() == 0 {
        assert(a + b =~= a);
    } else {
        assert((a + b).drop_last() =~= a + b.drop_last());
        lemma_count_char_concat(a, b.drop_last(), c);
    }
}

/// The character count of a singleton sequence.
proof fn lemma_count_single(c: char, d: char)
    ensures
        count_char(seq![c], d) == if c == d {
            1nat
        } else {
            0nat
        },
{
    assert(seq![c].drop_last() =~= Seq::<char>::empty());
    assert(count_char(Seq::<char>::empty(), d) == 0);
    assert(seq![c].last() == c);
}

/// A sequence free of the two separator characters of the wire grammar.
pub open spec fn sep_free(s: Seq<char>) -> bool {
    count_char(s, ',') == 0 && count_char(s, ' ') == 0
}

/// Character counts of one `wire_name=value` pair written in the grouping
/// the section specs use.
proof fn lemma_pair_counts(w: Seq<char>, v: Seq<char>, c: char)
    ensures
        count_char(w + seq!['='] + v, c) == count_char(w, c) + count_char(v, c) + if c == '=' {
            1nat
        } else {
            0nat
        },
{
    lemma_count_char_concat(w + seq!['='], v, c);
    lemma_count_char_concat(w, seq!['='], c);
    lemma_count_single('=', c);
}

/// The tag section of a line over separator-free names and values holds
/// exactly one comma per tag-role descriptor (the first separating the
/// section from the measurement name, the rest separating successive tags)
/// and no space.
pub proof fn lemma_tag_section_counts(descs: Seq<FieldDescriptorModel>, vals: Seq<Seq<char>>)
    requires
        vals.len() == descs.len(),
        forall|i: int|
            0 <= i < descs.len() ==> sep_free((#[trigger] descs[i]).wire_name) && sep_free(
                vals[i],
            ),
    ensures
        count_char(tag_section(descs, vals), ',') == count_tag_roles(descs),
        count_char(tag_section(descs, vals), ' ') == 0,
    decreases descs.len(),
{
    if descs.len() > 0 {
        lemma_tag_section_counts(descs.drop_last(), vals.drop_last());
        let prefix = tag_section(descs.drop_last(), vals.drop_last());
        if descs.last().is_tag {
            let w = descs.last().wire_name;
            let v = vals.last();
            assert(sep_free(w) && sep_free(v));
            let item = seq![','] + w + seq!['='] + v;
            assert(item =~= seq![','] + (w + seq!['='] + v));
            lemma_count_char_concat(prefix, item, ',');
            lemma_count_char_concat(prefix, item, ' ');
            lemma_count_char_concat(seq![','], w + seq!['='] + v, ',');
            lemma_count_char_concat(seq![','], w + seq!['='] + v, ' ');
            lemma_pair_counts(w, v, ',');
            lemma_pair_counts(w, v, ' ');
            lemma_count_single(',', ',');
            lemma_count_single(',', ' ');
        } else {
            assert(tag_section(descs, vals) =~= prefix);
        }
    }
}

/// The field section of a line over separator-free names and values holds
/// exactly one comma fewer than it has field-role descriptors (and none at
/// all when it has none) and no space.
pub proof fn lemma_field_section_counts(descs: Seq<FieldDescriptorModel>, vals: Seq<Seq<char>>)
    requires
        vals.len() == descs.len(),
        forall|i: int|
            0 <= i < descs.len() ==> sep_free((#[trigger] descs[i]).wire_name) && sep_free(
                vals[i],
            ),
    ensures
        count_char(field_section(descs, vals), ',') == if count_field_roles(descs) == 0 {
            0nat
        } else {
            (count_field_roles(descs) - 1) as nat
        },
        count_char(field_section(descs, vals), ' ') == 0,
    decreases descs.len(),
{
    if descs.len() > 0 {
        lemma_field_section_counts(descs.drop_last(), vals.drop_last());
        let prefix = field_section(descs.drop_last(), vals.drop_last());
        if descs.last().is_field {
            let w = descs.last().wire_name;
            let v = vals.last();
            assert(sep_free(w) && sep_free(v));
            lemma_pair_counts(w, v, ',');
            lemma_pair_counts(w, v, ' ');
            if count_field_roles(descs.drop_last()) == 0 {
                lemma_count_char_concat(prefix, w + seq!['='] + v, ',');
                lemma_count_char_concat(prefix, w + seq!['='] + v, ' ');
            } else {
                let item = seq![','] + w + seq!['='] + v;
                assert(item =~= seq![','] + (w + seq!['='] + v));
                lemma_count_char_concat(prefix, item, ',');
                lemma_count_char_concat(prefix, item, ' ');
                lemma_count_char_concat(seq![','], w + seq!['='] + v, ',');
                lemma_count_char_concat(seq![','], w + seq!['='] + v, ' ');
                lemma_count_single(',', ',');
                lemma_count_single(',', ' ');
            }
        } else {
            assert(field_section(descs, vals) =~= prefix);
        }
    }
}

/// The timestamp section of a line over separator-free values holds no
/// comma and no space.
pub proof fn lemma_timestamp_section_counts(
    descs: Seq<FieldDescriptorModel>,
    vals: Seq<Seq<char>>,
)
    requires
        vals.len() == descs.len(),
        forall|i: int|
            0 <= i < descs.len() ==> sep_free((#[trigger] descs[i]).wire_name) && sep_free(
                vals[i],
            ),
    ensures
        count_char(timestamp_section(descs, vals), ',') == 0,
        count_char(timestamp_section(descs, vals), ' ') == 0,
    decreases descs.len(),
{
    if descs.len() > 0 {
        lemma_timestamp_section_counts(descs.drop_last(), vals.drop_last());
        let prefix = timestamp_section(descs.drop_last(), vals.drop_last());
        if descs.last().is_timestamp {
            lemma_count_char_concat(prefix, vals.last(), ',');
            lemma_count_char_concat(prefix, vals.last(), ' ');
        } else {
            assert(timestamp_section(descs, vals) =~= prefix);
        }
    }
}

/// A timestamp section over descriptors without a timestamp role is empty.
proof fn lemma_timestamp_section_empty(descs: Seq<FieldDescriptorModel>, vals: Seq<Seq<char>>)
    requires
        count_timestamp_roles(descs) == 0,
    ensures
        timestamp_section(descs, vals) =~= Seq::<char>::empty(),
    decreases descs.len(),
{
    if descs.len() > 0 {
        lemma_timestamp_section_empty(descs.drop_last(), vals.drop_last());
    }
}

/// A type with no timestamp role writes nothing after the second space: its
/// line is the measurement name, tag section, space, field section and one
/// dangling space, exactly as the grammar prescribes for an absent
/// timestamp.
pub proof fn lemma_no_timestamp_means_trailing_space(rt: RecordTypeModel, vals: Seq<Seq<char>>)
    requires
        count_timestamp_roles(rt.field_descriptors) == 0,
    ensures
        serialized(rt, vals) =~= rt.measurement_name + tag_section(rt.field_descriptors, vals)
            + seq![' '] + field_section(rt.field_descriptors, vals) + seq![' '],
        serialized(rt, vals).last() == ' ',
{
    lemma_timestamp_section_empty(rt.field_descriptors, vals);
}

/// Separator discipline of a whole serialized line over separator-free
/// names and values: with `k` tag-role and `m` field-role descriptors the
/// line holds exactly two single-space separators (one before the field
/// section, one before the timestamp section) and exactly `k` commas in the
/// tag section (`k-1` between successive tags plus the one separating the
/// section from the measurement name, none at all when `k` is zero) and
/// `m-1` commas between successive fields (none when `m` is at most one).
pub proof fn lemma_separator_counts(rt: RecordTypeModel, vals: Seq<Seq<char>>)
    requires
        vals.len() == rt.field_descriptors.len(),
        sep_free(rt.measurement_name),
        forall|i: int|
            0 <= i < rt.field_descriptors.len() ==> sep_free(
                (#[trigger] rt.field_descriptors[i]).wire_name,
            ) && sep_free(vals[i]),
    ensures
        count_char(serialized(rt, vals), ' ') == 2,
        count_char(serialized(rt, vals), ',') == count_tag_roles(rt.field_descriptors) + if count_field_roles(
            rt.field_descriptors,
        ) == 0 {
            0nat
        } else {
            (count_field_roles(rt.field_descriptors) - 1) as nat
        },
{
    let descs = rt.field_descriptors;
    let m = rt.measurement_name;
    let tags = tag_section(descs, vals);
    let fields = field_section(descs, vals);
    let ts = timestamp_section(descs, vals);
    lemma_tag_section_counts(descs, vals);
    lemma_field_section_counts(descs, vals);
    lemma_timestamp_section_counts(descs, vals);
    lemma_count_char_concat(m + tags + seq![' '] + fields + seq![' '], ts, ',');
    lemma_count_char_concat(m + tags + seq![' '] + fields, seq![' '], ',');
    lemma_count_char_concat(m + tags + seq![' '], fields, ',');
    lemma_count_char_concat(m + tags, seq![' '], ',');
    lemma_count_char_concat(m, tags, ',');
    lemma_count_char_concat(m + tags + seq![' '] + fields + seq![' '], ts, ' ');
    lemma_count_char_concat(m + tags + seq![' '] + fields, seq![' '], ' ');
    lemma_count_char_concat(m + tags + seq![' '], fields, ' ');
    lemma_count_char_concat(m + tags, seq![' '], ' ');
    lemma_count_char_concat(m, tags, ' ');
    lemma_count_single(' ', ',');
    lemma_count_single(' ', ' ');
}

} // verus!
