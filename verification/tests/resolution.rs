use influxdb::{
    AttrBlock, AttrItem, ConstraintKind, FieldDef, InfluxAttr, ResolveError, TypeBody, TypeDef,
    resolve,
};

fn influx(items: Vec<AttrItem>) -> AttrBlock {
    AttrBlock { name: "influx".to_string(), items }
}

fn word(w: &str) -> AttrItem {
    AttrItem::Word(w.to_string())
}

fn rename(v: &str) -> AttrItem {
    AttrItem::KeyValue("rename".to_string(), v.to_string())
}

fn field_def(name: &str, attrs: Vec<AttrBlock>) -> FieldDef {
    FieldDef { name: name.to_string(), attrs }
}

fn type_def(name: &str, attrs: Vec<AttrBlock>, fields: Vec<FieldDef>) -> TypeDef {
    TypeDef { name: name.to_string(), attrs, body: TypeBody::NamedFields(fields) }
}

#[test]
fn merge_keeps_marker_and_takes_rename() {
    let first = InfluxAttr { name: None, is_tag: true, is_field: false, is_timestamp: false };
    let second = InfluxAttr {
        name: Some("x".to_string()),
        is_tag: false,
        is_field: false,
        is_timestamp: false,
    };
    let merged = first.merge(second);
    assert!(merged.is_tag);
    assert!(!merged.is_field);
    assert!(!merged.is_timestamp);
    assert_eq!(merged.name, Some("x".to_string()));
}

#[test]
fn merge_does_not_erase_earlier_rename() {
    let first = InfluxAttr {
        name: Some("a".to_string()),
        is_tag: false,
        is_field: true,
        is_timestamp: false,
    };
    let second = InfluxAttr { name: None, is_tag: false, is_field: false, is_timestamp: true };
    let merged = first.merge(second);
    assert_eq!(merged.name, Some("a".to_string()));
    assert!(merged.is_field);
    assert!(merged.is_timestamp);
}

#[test]
fn merge_later_rename_wins() {
    let first = InfluxAttr {
        name: Some("a".to_string()),
        is_tag: false,
        is_field: true,
        is_timestamp: false,
    };
    let second = InfluxAttr {
        name: Some("b".to_string()),
        is_tag: false,
        is_field: false,
        is_timestamp: false,
    };
    let merged = first.merge(second);
    assert_eq!(merged.name, Some("b".to_string()));
    assert!(merged.is_field);
}

#[test]
fn resolve_reading_scenario() {
    let def = type_def(
        "Reading",
        vec![influx(vec![rename("my_measure")])],
        vec![
            field_def("region", vec![influx(vec![word("tag")])]),
            field_def("count", vec![influx(vec![word("field"), rename("amount")])]),
            field_def("ts", vec![influx(vec![word("timestamp")])]),
            field_def("scratch", vec![]),
        ],
    );
    let rt = resolve(&def).expect("Reading resolves");
    assert_eq!(rt.measurement_name, "my_measure");
    assert_eq!(rt.field_descriptors.len(), 4);
    let region = &rt.field_descriptors[0];
    assert_eq!(region.source_field_name, "region");
    assert_eq!(region.wire_name, "region");
    assert!(region.is_tag && !region.is_field && !region.is_timestamp);
    let count = &rt.field_descriptors[1];
    assert_eq!(count.source_field_name, "count");
    assert_eq!(count.wire_name, "amount");
    assert!(!count.is_tag && count.is_field && !count.is_timestamp);
    let ts = &rt.field_descriptors[2];
    assert!(!ts.is_tag && !ts.is_field && ts.is_timestamp);
    let scratch = &rt.field_descriptors[3];
    assert!(!scratch.is_tag && !scratch.is_field && !scratch.is_timestamp);
}

#[test]
fn separate_blocks_merge_monotonically() {
    let def = type_def(
        "M",
        vec![],
        vec![
            field_def("v", vec![influx(vec![word("field")])]),
            field_def("r", vec![influx(vec![word("tag")]), influx(vec![rename("x")])]),
        ],
    );
    let rt = resolve(&def).expect("resolves");
    let r = &rt.field_descriptors[1];
    assert!(r.is_tag);
    assert_eq!(r.wire_name, "x");
}

#[test]
fn later_block_rename_overrides_earlier() {
    let def = type_def(
        "M",
        vec![],
        vec![field_def(
            "v",
            vec![influx(vec![word("field"), rename("a")]), influx(vec![rename("b")])],
        )],
    );
    let rt = resolve(&def).expect("resolves");
    assert_eq!(rt.field_descriptors[0].wire_name, "b");
    assert!(rt.field_descriptors[0].is_field);
}

#[test]
fn block_without_rename_keeps_earlier_rename() {
    let def = type_def(
        "M",
        vec![],
        vec![field_def("v", vec![influx(vec![word("field"), rename("a")]), influx(vec![
            word("tag"),
        ])])],
    );
    let rt = resolve(&def).expect("resolves");
    let d = &rt.field_descriptors[0];
    assert_eq!(d.wire_name, "a");
    assert!(d.is_field && d.is_tag);
}

#[test]
fn measurement_name_defaults_to_type_name() {
    let def = type_def("Plain", vec![], vec![field_def("v", vec![influx(vec![word("field")])])]);
    let rt = resolve(&def).expect("resolves");
    assert_eq!(rt.measurement_name, "Plain");
}

#[test]
fn no_field_role_is_constraint_violation() {
    let def = type_def("M", vec![], vec![field_def("r", vec![influx(vec![word("tag")])])]);
    assert_eq!(
        resolve(&def),
        Err(ResolveError::ConstraintViolation(ConstraintKind::NoFieldRole))
    );
}

#[test]
fn no_annotation_at_all_is_constraint_violation() {
    let def = type_def("M", vec![], vec![field_def("a", vec![]), field_def("b", vec![])]);
    assert_eq!(
        resolve(&def),
        Err(ResolveError::ConstraintViolation(ConstraintKind::NoFieldRole))
    );
}

#[test]
fn two_timestamps_is_constraint_violation() {
    let def = type_def(
        "M",
        vec![],
        vec![
            field_def("v", vec![influx(vec![word("field")])]),
            field_def("t1", vec![influx(vec![word("timestamp")])]),
            field_def("t2", vec![influx(vec![word("timestamp")])]),
        ],
    );
    assert_eq!(
        resolve(&def),
        Err(ResolveError::ConstraintViolation(ConstraintKind::MultipleTimestamps))
    );
}

#[test]
fn one_timestamp_is_accepted() {
    let def = type_def(
        "M",
        vec![],
        vec![
            field_def("v", vec![influx(vec![word("field")])]),
            field_def("t", vec![influx(vec![word("timestamp")])]),
        ],
    );
    assert!(resolve(&def).is_ok());
}

#[test]
fn unnamed_fields_are_unsupported() {
    let def = TypeDef {
        name: "M".to_string(),
        attrs: vec![],
        body: TypeBody::UnnamedFields,
    };
    assert_eq!(resolve(&def), Err(ResolveError::UnsupportedShape));
}

#[test]
fn non_struct_is_unsupported() {
    let def = TypeDef { name: "M".to_string(), attrs: vec![], body: TypeBody::NotStruct };
    assert_eq!(resolve(&def), Err(ResolveError::UnsupportedShape));
}

#[test]
fn unknown_marker_is_invalid_annotation() {
    let def = type_def("M", vec![], vec![field_def("v", vec![influx(vec![word("gauge")])])]);
    assert_eq!(resolve(&def), Err(ResolveError::InvalidAnnotation));
}

#[test]
fn unknown_key_is_invalid_annotation() {
    let def = type_def(
        "M",
        vec![],
        vec![field_def("v", vec![influx(vec![AttrItem::KeyValue(
            "size".to_string(),
            "3".to_string(),
        )])])],
    );
    assert_eq!(resolve(&def), Err(ResolveError::InvalidAnnotation));
}

#[test]
fn invalid_type_level_annotation_is_rejected() {
    let def = type_def(
        "M",
        vec![influx(vec![word("nonsense")])],
        vec![field_def("v", vec![influx(vec![word("field")])])],
    );
    assert_eq!(resolve(&def), Err(ResolveError::InvalidAnnotation));
}

#[test]
fn non_influx_blocks_are_ignored() {
    let strange = AttrBlock {
        name: "serde".to_string(),
        items: vec![word("anything"), AttrItem::KeyValue("k".to_string(), "v".to_string())],
    };
    let def = type_def(
        "M",
        vec![strange.clone()],
        vec![field_def("v", vec![strange, influx(vec![word("field")])])],
    );
    let rt = resolve(&def).expect("resolves");
    assert_eq!(rt.measurement_name, "M");
    assert!(rt.field_descriptors[0].is_field);
}

#[test]
fn resolution_is_idempotent() {
    let def = type_def(
        "Reading",
        vec![influx(vec![rename("my_measure")])],
        vec![
            field_def("region", vec![influx(vec![word("tag")])]),
            field_def("count", vec![influx(vec![word("field"), rename("amount")])]),
            field_def("ts", vec![influx(vec![word("timestamp")])]),
        ],
    );
    let first = resolve(&def);
    let second = resolve(&def);
    assert_eq!(first, second);
    let rt1 = first.expect("resolves");
    let rt2 = second.expect("resolves");
    assert_eq!(rt1, rt2);
}

#[test]
fn server_error_payload_carries_message() {
    let e = influxdb::InfluxServerError { error: "database not found".to_string() };
    assert_eq!(e.error, "database not found");
}
