use vstd::prelude::*;

use crate::annotation::{
    AttrBlock, AttrBlockModel, InfluxAttrModel, blocks_model, empty_attr, fold_blocks_model,
    parse_influx_db_attrs,
};
use crate::errors::{ConstraintKind, ResolveError};

verus! {

/// One named field of a record type definition, with the annotation blocks
/// attached to it.
#[derive(Debug, Clone, PartialEq, Eq)]
pub struct FieldDef {
    pub name: String,
    pub attrs: Vec<AttrBlock>,
}

/// Spec-level shape of a `FieldDef`.
pub struct FieldDefModel {
    pub name: Seq<char>,
    pub attrs: Seq<AttrBlockModel>,
}

impl View for FieldDef {
    type V = FieldDefModel;

    open spec fn view(&self) -> FieldDefModel {
        FieldDefModel { name: self.name@, attrs: blocks_model(self.attrs@) }
    }
}

/// The models of a sequence of field definitions.
pub open spec fn field_defs_model(fds: Seq<FieldDef>) -> Seq<FieldDefModel> {
    fds.map_values(|fd: FieldDef| fd@)
}

/// The body of a record type definition. Only a flat structure of named
/// fields can be resolved: wire names are derived from field names.
#[derive(Debug, Clone, PartialEq, Eq)]
pub enum TypeBody {
    NamedFields(Vec<FieldDef>),
    UnnamedFields,
    NotStruct,
}

/// Spec-level shape of a `TypeBody`.
pub enum TypeBodyModel {
    NamedFields(Seq<FieldDefModel>),
    UnnamedFields,
    NotStruct,
}

impl View for TypeBody {
    type V = TypeBodyModel;

    open spec fn view(&self) -> TypeBodyModel {
        match self {
            TypeBody::NamedFields(fds) => TypeBodyModel::NamedFields(field_defs_model(fds@)),
            TypeBody::UnnamedFields => TypeBodyModel::UnnamedFields,
            TypeBody::NotStruct => TypeBodyModel::NotStruct,
        }
    }
}

/// A record type definition: the type's own identifier, the annotation
/// blocks attached to the type itself, and its body.
#[derive(Debug, Clone, PartialEq, Eq)]
pub struct TypeDef {
    pub name: String,
    pub attrs: Vec<AttrBlock>,
    pub body: TypeBody,
}

/// Spec-level shape of a `TypeDef`.
pub struct TypeDefModel {
    pub name: Seq<char>,
    pub attrs: Seq<AttrBlockModel>,
    pub body: TypeBodyModel,
}

impl View for TypeDef {
    type V = TypeDefModel;

    open spec fn view(&self) -> TypeDefModel {
        TypeDefModel { name: self.name@, attrs: blocks_model(self.attrs@), body: self.body@ }
    }
}

/// The resolved description of one field: where its value comes from, the
/// name it goes out under, and the roles it carries. A field may carry more
/// than one role and then contributes to each matching output section; one
/// with no role is ignored and appears in no section.
#[derive(Debug, Clone, PartialEq, Eq)]
pub struct FieldDescriptor {
    pub source_field_name: String,
    pub wire_name: String,
    pub is_tag: bool,
    pub is_field: bool,
    pub is_timestamp: bool,
}

/// Spec-level shape of a `FieldDescriptor`.
pub struct FieldDescriptorModel {
    pub source_field_name: Seq<char>,
    pub wire_name: Seq<char>,
    pub is_tag: bool,
    pub is_field: bool,
    pub is_timestamp: bool,
}

impl View for FieldDescriptor {
    type V = FieldDescriptorModel;

    open spec fn view(&self) -> FieldDescriptorModel {
        FieldDescriptorModel {
            source_field_name: self.source_field_name@,
            wire_name: self.wire_name@,
            is_tag: self.is_tag,
            is_field: self.is_field,
            is_timestamp: self.is_timestamp,
        }
    }
}

/// The models of a sequence of field descriptors.
pub open spec fn descs_view(descs: Seq<FieldDescriptor>) -> Seq<FieldDescriptorModel> {
    descs.map_values(|d: FieldDescriptor| d@)
}

/// The resolved, immutable description of a record type: the measurement
/// name and one descriptor per field, in declaration order.
#[derive(Debug, Clone, PartialEq, Eq)]
pub struct RecordType {
    pub measurement_name: String,
    pub field_descriptors: Vec<FieldDescriptor>,
}

/// Spec-level shape of a `RecordType`.
pub struct RecordTypeModel {
    pub measurement_name: Seq<char>,
    pub field_descriptors: Seq<FieldDescriptorModel>,
}

impl View for RecordType {
    type V = RecordTypeModel;

    open spec fn view(&self) -> RecordTypeModel {
        RecordTypeModel {
            measurement_name: self.measurement_name@,
            field_descriptors: descs_view(self.field_descriptors@),
        }
    }
}

/// The descriptor one field definition resolves to, or `None` when one of
/// its `influx` blocks fails to parse. A field with no `influx` block gets
/// the empty occurrence and so carries no role.
pub open spec fn field_desc_model(fd: FieldDefModel) -> Option<FieldDescriptorModel> {
    match fold_blocks_model(fd.attrs) {
        Err(_) => None,
        Ok(opt) => {
            let a = match opt {
                None => empty_attr(),
                Some(a) => a,
            };
            Some(
                FieldDescriptorModel {
                    source_field_name: fd.name,
                    wire_name: match a.name {
                        Some(n) => n,
                        None => fd.name,
                    },
                    is_tag: a.is_tag,
                    is_field: a.is_field,
                    is_timestamp: a.is_timestamp,
                },
            )
        },
    }
}

/// The descriptors of a sequence of field definitions, in declaration
/// order, or `None` when some field's annotations fail to parse.
pub open spec fn descs_model(fds: Seq<FieldDefModel>) -> Option<Seq<FieldDescriptorModel>>
    decreases fds.len(),
{
    if fds.len() == 0 {
        Some(Seq::empty())
    } else {
        match (descs_model(fds.drop_last()), field_desc_model(fds.last())) {
            (Some(s), Some(d)) => Some(s.push(d)),
            _ => None,
        }
    }
}

/// How many descriptors carry the field role.
pub open spec fn count_field_roles(descs: Seq<FieldDescriptorModel>) -> nat
    decreases descs.len(),
{
    if descs.len() == 0 {
        0
    } else {
        count_field_roles(descs.drop_last()) + if descs.last().is_field {
            1nat
        } else {
            0nat
        }
    }
}

/// How many descriptors carry the tag role.
pub open spec fn count_tag_roles(descs: Seq<FieldDescriptorModel>) -> nat
    decreases descs.len(),
{
    if descs.len() == 0 {
        0
    } else {
        count_tag_roles(descs.drop_last()) + if descs.last().is_tag {
            1nat
        } else {
            0nat
        }
    }
}

/// How many descriptors carry the timestamp role.
pub open spec fn count_timestamp_roles(descs: Seq<FieldDescriptorModel>) -> nat
    decreases descs.len(),
{
    if descs.len() == 0 {
        0
    } else {
        count_timestamp_roles(descs.drop_last()) + if descs.last().is_timestamp {
            1nat
        } else {
            0nat
        }
    }
}

/// The measurement name a resolved type goes out under: the type-level
/// rename when one is present, else the type's own identifier.
pub open spec fn measurement_name_model(d: TypeDefModel, top: Option<InfluxAttrModel>) -> Seq<
    char,
> {
    match top {
        Some(a) => match a.name {
            Some(n) => n,
            None => d.name,
        },
        None => d.name,
    }
}

/// Full model of resolution. A definition resolves exactly when its body is
/// a flat structure of named fields, every `influx` block parses, at least
/// one field carries the field role, and at most one field carries the
/// timestamp role; the errors come in that order of precedence.
pub open spec fn resolve_model(d: TypeDefModel) -> Result<RecordTypeModel, ResolveError> {
    match d.body {
        TypeBodyModel::NamedFields(fds) => match fold_blocks_model(d.attrs) {
            Err(_) => Err(ResolveError::InvalidAnnotation),
            Ok(top) => match descs_model(fds) {
                None => Err(ResolveError::InvalidAnnotation),
                Some(descs) => if count_field_roles(descs) == 0 {
                    Err(ResolveError::ConstraintViolation(ConstraintKind::NoFieldRole))
                } else if count_timestamp_roles(descs) > 1 {
                    Err(ResolveError::ConstraintViolation(ConstraintKind::MultipleTimestamps))
                } else {
                    Ok(
                        RecordTypeModel {
                            measurement_name: measurement_name_model(d, top),
                            field_descriptors: descs,
                        },
                    )
                },
            },
        },
        TypeBodyModel::UnnamedFields => Err(ResolveError::UnsupportedShape),
        TypeBodyModel::NotStruct => Err(ResolveError::UnsupportedShape),
    }
}

/// Once a field's annotations fail to parse, the whole field list fails.
proof fn lemma_descs_model_none_absorbs(fds: Seq<FieldDefModel>, i: int)
    requires
        0 <= i <= fds.len(),
        descs_model(fds.take(i)) is None,
    ensures
        descs_model(fds) is None,
    decreases fds.len() - i,
{
    if i == fds.len() {
        assert(fds.take(i) =~= fds);
    } else {
        assert(fds.take(i + 1).drop_last() =~= fds.take(i));
        lemma_descs_model_none_absorbs(fds, i + 1);
    }
}

/// Resolve one field definition into its descriptor.
fn resolve_field(fd: &FieldDef) -> (r: Result<FieldDescriptor, ResolveError>)
    ensures
        match r {
            Ok(d) => field_desc_model(fd@) == Some(d@),
            Err(e) => field_desc_model(fd@) is None && e == ResolveError::InvalidAnnotation,
        },
{
    match parse_influx_db_attrs(&fd.attrs) {
        Err(e) => Err(e),
        Ok(opt) => {
            let (name, is_tag, is_field, is_timestamp) = match opt {
                None => (None, false, false, false),
                Some(a) => (a.name, a.is_tag, a.is_field, a.is_timestamp),
            };
            Ok(
                FieldDescriptor {
                    source_field_name: fd.name.clone(),
                    wire_name: match name {
                        Some(n) => n,
                        None => fd.name.clone(),
                    },
                    is_tag,
                    is_field,
                    is_timestamp,
                },
            )
        },
    }
}

/// Count, at run time, how many descriptors carry the field role and how
/// many the timestamp role.
fn count_roles(descs: &Vec<FieldDescriptor>) -> (r: (usize, usize))
    ensures
        r.0 as nat == count_field_roles(descs_view(descs@)),
        r.1 as nat == count_timestamp_roles(descs_view(descs@)),
{
    let ghost m = descs_view(descs@);
    let mut fields: usize = 0;
    let mut timestamps: usize = 0;
    let mut i: usize = 0;
    while i < descs.len()
        invariant
            0 <= i <= descs.len(),
            m == descs_view(descs@),
            fields as nat == count_field_roles(m.take(i as int)),
            timestamps as nat == count_timestamp_roles(m.take(i as int)),
            fields <= i,
            timestamps <= i,
        decreases descs.len() - i,
    {
        proof {
            assert(m.take(i + 1).drop_last() =~= m.take(i as int));
            assert(m.take(i + 1).last() == descs@[i as int]@);
        }
        if descs[i].is_field {
            fields = fields + 1;
        }
        if descs[i].is_timestamp {
            timestamps = timestamps + 1;
        }
        i = i + 1;
    }
    proof {
        assert(m.take(descs@.len() as int) =~= m);
    }
    (fields, timestamps)
}

/// Resolve an annotated record type definition into its immutable
/// `RecordType` description. Resolution runs once per type; the result
/// is a pure function of the definition. Exactly the definitions whose
/// body is a flat structure of named fields, whose `influx` annotation
/// blocks all parse, and whose resolved roles satisfy the two type-level
/// invariants (at least one field role, at most one timestamp role)
/// resolve successfully; all others fail with the error `resolve_model`
/// assigns them.
pub fn resolve(def: &TypeDef) -> (r: Result<RecordType, ResolveError>)
    ensures
        match r {
            Ok(rt) => resolve_model(def@) == Ok::<_, ResolveError>(rt@),
            Err(e) => resolve_model(def@) == Err::<RecordTypeModel, _>(e),
        },
{
    let fields: &Vec<FieldDef> = match &def.body {
        TypeBody::NamedFields(fds) => fds,
        TypeBody::UnnamedFields => {
            return Err(ResolveError::UnsupportedShape);
        },
        TypeBody::NotStruct => {
            return Err(ResolveError::UnsupportedShape);
        },
    };
    let ghost fm = field_defs_model(fields@);
    let top = match parse_influx_db_attrs(&def.attrs) {
        Ok(opt) => opt,
        Err(e) => {
            return Err(e);
        },
    };
    let mut descs: Vec<FieldDescriptor> = Vec::new();
    let mut i: usize = 0;
    while i < fields.len()
        invariant
            0 <= i <= fields.len(),
            fm == field_defs_model(fields@),
            def@.body == TypeBodyModel::NamedFields(fm),
            fold_blocks_model(def@.attrs) is Ok,
            descs_model(fm.take(i as int)) == Some(descs_view(descs@)),
        decreases fields.len() - i,
    {
        proof {
            assert(fm.take(i + 1).drop_last() =~= fm.take(i as int));
            assert(fm.take(i + 1).last() == fields@[i as int]@);
        }
        match resolve_field(&fields[i]) {
            Ok(d) => {
                let ghost before = descs_view(descs@);
                descs.push(d);
                proof {
                    assert(descs_view(descs@) =~= before.push(d@));
                }
            },
            Err(e) => {
                proof {
                    lemma_descs_model_none_absorbs(fm, i + 1);
                }
                return Err(e);
            },
        }
        i = i + 1;
    }
    proof {
        assert(fm.take(fields@.len() as int) =~= fm);
    }
    let (field_count, timestamp_count) = count_roles(&descs);
    if field_count == 0 {
        return Err(ResolveError::ConstraintViolation(ConstraintKind::NoFieldRole));
    }
    if timestamp_count > 1 {
        return Err(ResolveError::ConstraintViolation(ConstraintKind::MultipleTimestamps));
    }
    let measurement_name = match top {
        Some(a) => match a.name {
            Some(n) => n,
            None => def.name.clone(),
        },
        None => def.name.clone(),
    };
    Ok(RecordType { measurement_name, field_descriptors: descs })
}

} // verus!
