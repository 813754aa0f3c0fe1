use influxdb::{AttrBlock, AttrItem, FieldDef, FieldDescriptor, RecordType, TypeBody, TypeDef, resolve};

fn influx(items: Vec<AttrItem>) -> AttrBlock {
    AttrBlock { name: "influx".to_string(), items }
}

fn word(w: &str) -> AttrItem {
    AttrItem::Word(w.to_string())
}

fn rename(v: &str) -> AttrItem {
    AttrItem::KeyValue("rename".to_string(), v.to_string())
}

fn field_def(name: &str, attrs: Vec<AttrBlock>) -> FieldDef {
    FieldDef { name: name.to_string(), attrs }
}

fn descriptor(name: &str, is_tag: bool, is_field: bool, is_timestamp: bool) -> FieldDescriptor {
    FieldDescriptor {
        source_field_name: name.to_string(),
        wire_name: name.to_string(),
        is_tag,
        is_field,
        is_timestamp,
    }
}

fn strings(texts: &[&str]) -> Vec<String> {
    texts.iter().map(|t| t.to_string()).collect()
}

#[test]
fn reading_scenario_line() {
    let def = TypeDef {
        name: "Reading".to_string(),
        attrs: vec![influx(vec![rename("my_measure")])],
        body: TypeBody::NamedFields(vec![
            field_def("region", vec![influx(vec![word("tag")])]),
            field_def("count", vec![influx(vec![word("field"), rename("amount")])]),
            field_def("ts", vec![influx(vec![word("timestamp")])]),
            field_def("scratch", vec![]),
        ]),
    };
    let rt = resolve(&def).expect("Reading resolves");
    let values = strings(&["us-east", "3", "1445009000000000000", "9"]);
    let mut out = String::new();
    rt.serialize(&values, &mut out);
    assert_eq!(out, "my_measure,region=us-east amount=3 1445009000000000000");
    assert!(!out.contains("scratch"));
}

#[test]
fn plain_scenario_trailing_space() {
    let def = TypeDef {
        name: "Plain".to_string(),
        attrs: vec![],
        body: TypeBody::NamedFields(vec![field_def("v", vec![influx(vec![word("field")])])]),
    };
    let rt = resolve(&def).expect("Plain resolves");
    let values = strings(&["1"]);
    let mut out = String::new();
    rt.serialize(&values, &mut out);
    assert_eq!(out, "Plain v=1 ");
}

#[test]
fn serialize_appends_to_existing_buffer() {
    let rt = RecordType {
        measurement_name: "m".to_string(),
        field_descriptors: vec![descriptor("v", false, true, false)],
    };
    let mut out = String::from("cpu f=0 \n");
    rt.serialize(&strings(&["7"]), &mut out);
    assert_eq!(out, "cpu f=0 \nm v=7 ");
}

#[test]
fn separator_counts_three_tags_two_fields() {
    let rt = RecordType {
        measurement_name: "m".to_string(),
        field_descriptors: vec![
            descriptor("t1", true, false, false),
            descriptor("t2", true, false, false),
            descriptor("t3", true, false, false),
            descriptor("f1", false, true, false),
            descriptor("f2", false, true, false),
        ],
    };
    let mut out = String::new();
    rt.serialize(&strings(&["a", "b", "c", "1", "2"]), &mut out);
    assert_eq!(out, "m,t1=a,t2=b,t3=c f1=1,f2=2 ");
    let commas = out.chars().filter(|c| *c == ',').count();
    let spaces = out.chars().filter(|c| *c == ' ').count();
    assert_eq!(commas, 3 + (2 - 1));
    assert_eq!(spaces, 2);
}

#[test]
fn no_tags_means_no_commas() {
    let rt = RecordType {
        measurement_name: "m".to_string(),
        field_descriptors: vec![descriptor("f", false, true, false)],
    };
    let mut out = String::new();
    rt.serialize(&strings(&["1"]), &mut out);
    assert_eq!(out, "m f=1 ");
    assert_eq!(out.chars().filter(|c| *c == ',').count(), 0);
    assert_eq!(out.chars().filter(|c| *c == ' ').count(), 2);
}

#[test]
fn multi_role_field_appears_in_both_sections() {
    let rt = RecordType {
        measurement_name: "m".to_string(),
        field_descriptors: vec![
            descriptor("both", true, true, false),
            descriptor("f", false, true, false),
        ],
    };
    let mut out = String::new();
    rt.serialize(&strings(&["x", "1"]), &mut out);
    assert_eq!(out, "m,both=x both=x,f=1 ");
}

#[test]
fn timestamp_value_ends_line_without_trailing_space() {
    let rt = RecordType {
        measurement_name: "m".to_string(),
        field_descriptors: vec![
            descriptor("f", false, true, false),
            descriptor("t", false, false, true),
        ],
    };
    let mut out = String::new();
    rt.serialize(&strings(&["1", "42"]), &mut out);
    assert_eq!(out, "m f=1 42");
}

#[test]
fn ignored_field_text_is_not_written() {
    let rt = RecordType {
        measurement_name: "m".to_string(),
        field_descriptors: vec![
            descriptor("f", false, true, false),
            descriptor("junk", false, false, false),
        ],
    };
    let mut out = String::new();
    rt.serialize(&strings(&["1", "SHOULD-NOT-APPEAR"]), &mut out);
    assert_eq!(out, "m f=1 ");
}

#[test]
fn role_counts_report_the_partition() {
    let rt = RecordType {
        measurement_name: "m".to_string(),
        field_descriptors: vec![
            descriptor("t1", true, false, false),
            descriptor("t2", true, false, false),
            descriptor("f1", false, true, false),
            descriptor("both", true, true, false),
            descriptor("when", false, false, true),
            descriptor("junk", false, false, false),
        ],
    };
    assert_eq!(rt.tag_count(), 3);
    assert_eq!(rt.field_count(), 2);
    assert_eq!(rt.timestamp_count(), 1);
}
