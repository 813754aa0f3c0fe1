//! Resolution of annotated record types into measurement descriptors, and
//! serialization of record instances into the line-oriented wire format
//! `measurement[,tags] fields [timestamp]`.

mod annotation;
mod errors;
mod generator;
mod laws;
mod resolver;

pub use annotation::{
    AttrBlock, AttrBlockModel, AttrItem, AttrItemModel, InfluxAttr, InfluxAttrModel,
    apply_item, blocks_model, empty_attr, fold_blocks_model, items_model, merge_model,
    parse_influx_db_attr, parse_influx_db_attrs, parse_items_model,
};
pub use errors::{ConstraintKind, ResolveError, status_is_client_error};
pub use generator::{field_section, serialized, tag_section, timestamp_section, vals_view};
pub use laws::{
    count_char, influx_occurrences, last_rename, lemma_count_char_concat,
    lemma_descs_model_index, lemma_field_section_counts, lemma_fold_blocks_is_merged,
    lemma_merge_monotonic, lemma_multiple_timestamps_rejected, lemma_no_field_role_rejected,
    lemma_no_timestamp_means_trailing_space,
    lemma_resolution_deterministic, lemma_resolution_succeeds, lemma_separator_counts,
    lemma_tag_section_counts, lemma_timestamp_section_counts, merged_of, sep_free,
};
pub use resolver::{
    FieldDef, FieldDefModel, FieldDescriptor, FieldDescriptorModel, RecordType, RecordTypeModel,
    TypeBody, TypeBodyModel, TypeDef, TypeDefModel, count_field_roles, count_tag_roles,
    count_timestamp_roles, descs_model, descs_view, field_defs_model, field_desc_model,
    measurement_name_model, resolve, resolve_model,
};

use vstd::prelude::*;

verus! {

/// An error payload returned by an InfluxDB server in a response body.
#[derive(Debug, Clone, PartialEq, Eq)]
pub struct InfluxServerError {
    pub error: String,
}

} // verus!
