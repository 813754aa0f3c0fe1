use vstd::prelude::*;

use crate::resolver::{
    FieldDescriptorModel, RecordType, RecordTypeModel, count_field_roles, count_tag_roles,
    count_timestamp_roles, descs_view,
};

verus! {

/// The encoded value texts of one record instance, one per field descriptor,
/// as sequences of characters.
pub open spec fn vals_view(vals: Seq<String>) -> Seq<Seq<char>> {
    vals.map_values(|v: String| v@)
}

/// The tag section of a serialized line: for each tag-role descriptor, in
/// declaration order, a comma followed by `wire_name=value`. The leading
/// comma of the first tag separates the section from the measurement name;
/// the others separate successive tags. Empty when no field carries the tag
/// role.
pub open spec fn tag_section(descs: Seq<FieldDescriptorModel>, vals: Seq<Seq<char>>) -> Seq<char>
    decreases descs.len(),
{
    if descs.len() == 0 {
        Seq::empty()
    } else {
        tag_section(descs.drop_last(), vals.drop_last()) + if descs.last().is_tag {
            seq![','] + descs.last().wire_name + seq!['='] + vals.last()
        } else {
            Seq::<char>::empty()
        }
    }
}

/// The field section of a serialized line: each field-role descriptor as
/// `wire_name=value`, in declaration order, with a comma between successive
/// entries and none before the first or after the last.
pub open spec fn field_section(descs: Seq<FieldDescriptorModel>, vals: Seq<Seq<char>>) -> Seq<
    char,
>
    decreases descs.len(),
{
    if descs.len() == 0 {
        Seq::empty()
    } else {
        field_section(descs.drop_last(), vals.drop_last()) + if descs.last().is_field {
            if count_field_roles(descs.drop_last()) == 0 {
                descs.last().wire_name + seq!['='] + vals.last()
            } else {
                seq![','] + descs.last().wire_name + seq!['='] + vals.last()
            }
        } else {
            Seq::<char>::empty()
        }
    }
}

/// The timestamp section of a serialized line: the encoded value of each
/// timestamp-role descriptor, bare. Under the type-level invariants at most
/// one descriptor carries the timestamp role, so the section is one encoded
/// timestamp or empty.
pub open spec fn timestamp_section(
    descs: Seq<FieldDescriptorModel>,
    vals: Seq<Seq<char>>,
) -> Seq<char>
    decreases descs.len(),
{
    if descs.len() == 0 {
        Seq::empty()
    } else {
        timestamp_section(descs.drop_last(), vals.drop_last()) + if descs.last().is_timestamp {
            vals.last()
        } else {
            Seq::<char>::empty()
        }
    }
}

/// A whole serialized line body: the measurement name, the tag section, one
/// space, the field section, one space, and the timestamp section. The two
/// spaces stand whether or not their following section is empty.
pub open spec fn serialized(rt: RecordTypeModel, vals: Seq<Seq<char>>) -> Seq<char> {
    rt.measurement_name + tag_section(rt.field_descriptors, vals) + seq![' '] + field_section(
        rt.field_descriptors,
        vals,
    ) + seq![' '] + timestamp_section(rt.field_descriptors, vals)
}

impl RecordType {
    /// Append to `out` the serialized line body of one instance of this
    /// record type. `values[i]` is the already-encoded text of field `i`;
    /// encoding and escaping of single values belong to the caller's
    /// encoding collaborator, sequencing and separators are decided here.
    /// The text of a field that carries no role is never read. Serialization
    /// of a resolved type cannot fail and writes only to `out`.
    pub fn serialize(&self, values: &Vec<String>, out: &mut String)
        requires
            values@.len() == self.field_descriptors@.len(),
        ensures
            final(out)@ == old(out)@ + serialized(self@, vals_view(values@)),
    {
        proof {
            reveal_strlit(",");
            reveal_strlit("=");
            reveal_strlit(" ");
        }
        let ghost dm = descs_view(self.field_descriptors@);
        let ghost vm = vals_view(values@);
        let ghost start = out@;
        out.append(self.measurement_name.as_str());
        let n = self.field_descriptors.len();
        let mut i: usize = 0;
        while i < n
            invariant
                0 <= i <= n,
                n == self.field_descriptors@.len(),
                values@.len() == n,
                dm == descs_view(self.field_descriptors@),
                vm == vals_view(values@),
                out@ == start + self@.measurement_name + tag_section(
                    dm.take(i as int),
                    vm.take(i as int),
                ),
            decreases n - i,
        {
            proof {
                assert(dm.take(i + 1).drop_last() =~= dm.take(i as int));
                assert(vm.take(i + 1).drop_last() =~= vm.take(i as int));
                assert(dm.take(i + 1).last() == self.field_descriptors@[i as int]@);
                assert(vm.take(i + 1).last() == values@[i as int]@);
            }
            let d = &self.field_descriptors[i];
            if d.is_tag {
                out.append(",");
                out.append(d.wire_name.as_str());
                out.append("=");
                out.append(values[i].as_str());
            }
            proof {
                reveal_strlit(",");
                reveal_strlit("=");
                assert(out@ =~= start + self@.measurement_name + tag_section(
                    dm.take(i + 1),
                    vm.take(i + 1),
                ));
            }
            i = i + 1;
        }
        proof {
            assert(dm.take(n as int) =~= dm);
            assert(vm.take(n as int) =~= vm);
        }
        out.append(" ");
        let ghost after_tags = out@;
        let mut seen_fields: usize = 0;
        let mut j: usize = 0;
        while j < n
            invariant
                0 <= j <= n,
                n == self.field_descriptors@.len(),
                values@.len() == n,
                dm == descs_view(self.field_descriptors@),
                vm == vals_view(values@),
                seen_fields as nat == count_field_roles(dm.take(j as int)),
                seen_fields <= j,
                out@ == after_tags + field_section(dm.take(j as int), vm.take(j as int)),
            decreases n - j,
        {
            proof {
                assert(dm.take(j + 1).drop_last() =~= dm.take(j as int));
                assert(vm.take(j + 1).drop_last() =~= vm.take(j as int));
                assert(dm.take(j + 1).last() == self.field_descriptors@[j as int]@);
                assert(vm.take(j + 1).last() == values@[j as int]@);
            }
            let d = &self.field_descriptors[j];
            if d.is_field {
                if seen_fields > 0 {
                    out.append(",");
                }
                out.append(d.wire_name.as_str());
                out.append("=");
                out.append(values[j].as_str());
                seen_fields = seen_fields + 1;
            }
            proof {
                reveal_strlit(",");
                reveal_strlit("=");
                assert(out@ =~= after_tags + field_section(dm.take(j + 1), vm.take(j + 1)));
            }
            j = j + 1;
        }
        proof {
            assert(dm.take(n as int) =~= dm);
            assert(vm.take(n as int) =~= vm);
        }
        out.append(" ");
        let ghost after_fields = out@;
        let mut k: usize = 0;
        while k < n
            invariant
                0 <= k <= n,
                n == self.field_descriptors@.len(),
                values@.len() == n,
                dm == descs_view(self.field_descriptors@),
                vm == vals_view(values@),
                out@ == after_fields + timestamp_section(dm.take(k as int), vm.take(k as int)),
            decreases n - k,
        {
            proof {
                assert(dm.take(k + 1).drop_last() =~= dm.take(k as int));
                assert(vm.take(k + 1).drop_last() =~= vm.take(k as int));
                assert(dm.take(k + 1).last() == self.field_descriptors@[k as int]@);
                assert(vm.take(k + 1).last() == values@[k as int]@);
            }
            let d = &self.field_descriptors[k];
            if d.is_timestamp {
                out.append(values[k].as_str());
            }
            k = k + 1;
        }
        proof {
            assert(dm.take(n as int) =~= dm);
            assert(vm.take(n as int) =~= vm);
            assert(out@ =~= start + serialized(self@, vm));
        }
    }

    /// How many fields of this type carry the tag role.
    pub fn tag_count(&self) -> (r: usize)
        ensures
            r as nat == count_tag_roles(self@.field_descriptors),
    {
        let ghost dm = descs_view(self.field_descriptors@);
        let mut count: usize = 0;
        let mut i: usize = 0;
        while i < self.field_descriptors.len()
            invariant
                0 <= i <= self.field_descriptors@.len(),
                dm == descs_view(self.field_descriptors@),
                count as nat == count_tag_roles(dm.take(i as int)),
                count <= i,
            decreases self.field_descriptors@.len() - i,
        {
            proof {
                assert(dm.take(i + 1).drop_last() =~= dm.take(i as int));
                assert(dm.take(i + 1).last() == self.field_descriptors@[i as int]@);
            }
            if self.field_descriptors[i].is_tag {
                count = count + 1;
            }
            i = i + 1;
        }
        proof {
            assert(dm.take(self.field_descriptors@.len() as int) =~= dm);
        }
        count
    }

    /// How many fields of this type carry the field role.
    pub fn field_count(&self) -> (r: usize)
        ensures
            r as nat == count_field_roles(self@.field_descriptors),
    {
        let ghost dm = descs_view(self.field_descriptors@);
        let mut count: usize = 0;
        let mut i: usize = 0;
        while i < self.field_descriptors.len()
            invariant
                0 <= i <= self.field_descriptors@.len(),
                dm == descs_view(self.field_descriptors@),
                count as nat == count_field_roles(dm.take(i as int)),
                count <= i,
            decreases self.field_descriptors@.len() - i,
        {
            proof {
                assert(dm.take(i + 1).drop_last() =~= dm.take(i as int));
                assert(dm.take(i + 1).last() == self.field_descriptors@[i as int]@);
            }
            if self.field_descriptors[i].is_field {
                count = count + 1;
            }
            i = i + 1;
        }
        proof {
            assert(dm.take(self.field_descriptors@.len() as int) =~= dm);
        }
        count
    }

    /// How many fields of this type carry the timestamp role.
    pub fn timestamp_count(&self) -> (r: usize)
        ensures
            r as nat == count_timestamp_roles(self@.field_descriptors),
    {
        let ghost dm = descs_view(self.field_descriptors@);
        let mut count: usize = 0;
        let mut i: usize = 0;
        while i < self.field_descriptors.len()
            invariant
                0 <= i <= self.field_descriptors@.len(),
                dm == descs_view(self.field_descriptors@),
                count as nat == count_timestamp_roles(dm.take(i as int)),
                count <= i,
            decreases self.field_descriptors@.len() - i,
        {
            proof {
                assert(dm.take(i + 1).drop_last() =~= dm.take(i as int));
                assert(dm.take(i + 1).last() == self.field_descriptors@[i as int]@);
            }
            if self.field_descriptors[i].is_timestamp {
                count = count + 1;
            }
            i = i + 1;
        }
        proof {
            assert(dm.take(self.field_descriptors@.len() as int) =~= dm);
        }
        count
    }
}

} // verus!
