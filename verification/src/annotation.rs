use vstd::prelude::*;

use crate::errors::ResolveError;

verus! {

/// One item inside an annotation block: a bare marker word such as `tag`,
/// `field` or `timestamp`, or a `key = "value"` pair such as `rename = "x"`.
#[derive(Debug, Clone, PartialEq, Eq)]
pub enum AttrItem {
    Word(String),
    KeyValue(String, String),
}

/// Spec-level shape of an `AttrItem`.
pub enum AttrItemModel {
    Word(Seq<char>),
    KeyValue(Seq<char>, Seq<char>),
}

impl View for AttrItem {
    type V = AttrItemModel;

    open spec fn view(&self) -> AttrItemModel {
        match self {
            AttrItem::Word(w) => AttrItemModel::Word(w@),
            AttrItem::KeyValue(k, v) => AttrItemModel::KeyValue(k@, v@),
        }
    }
}

/// One annotation block attached to a type or a field, carried as the
/// block's path name and its listed items. A field may carry several blocks;
/// only blocks named `influx` belong to the annotation language.
#[derive(Debug, Clone, PartialEq, Eq)]
pub struct AttrBlock {
    pub name: String,
    pub items: Vec<AttrItem>,
}

/// Spec-level shape of an `AttrBlock`.
pub struct AttrBlockModel {
    pub name: Seq<char>,
    pub items: Seq<AttrItemModel>,
}

/// The models of a sequence of annotation items.
pub open spec fn items_model(items: Seq<AttrItem>) -> Seq<AttrItemModel> {
    items.map_values(|it: AttrItem| it@)
}

/// The models of a sequence of annotation blocks.
pub open spec fn blocks_model(attrs: Seq<AttrBlock>) -> Seq<AttrBlockModel> {
    attrs.map_values(|a: AttrBlock| a@)
}

impl View for AttrBlock {
    type V = AttrBlockModel;

    open spec fn view(&self) -> AttrBlockModel {
        AttrBlockModel { name: self.name@, items: items_model(self.items@) }
    }
}

/// One resolved annotation occurrence: the three role markers plus the
/// optional rename seen for a single site.
#[derive(Debug, Clone, PartialEq, Eq)]
pub struct InfluxAttr {
    pub name: Option<String>,
    pub is_tag: bool,
    pub is_field: bool,
    pub is_timestamp: bool,
}

/// Spec-level shape of an `InfluxAttr`.
pub struct InfluxAttrModel {
    pub name: Option<Seq<char>>,
    pub is_tag: bool,
    pub is_field: bool,
    pub is_timestamp: bool,
}

impl View for InfluxAttr {
    type V = InfluxAttrModel;

    open spec fn view(&self) -> InfluxAttrModel {
        InfluxAttrModel {
            name: match &self.name {
                Some(n) => Some(n@),
                None => None,
            },
            is_tag: self.is_tag,
            is_field: self.is_field,
            is_timestamp: self.is_timestamp,
        }
    }
}

/// The occurrence with no markers and no rename.
pub open spec fn empty_attr() -> InfluxAttrModel {
    InfluxAttrModel { name: None, is_tag: false, is_field: false, is_timestamp: false }
}

/// OR/last-wins merge of two occurrences, the later one on the right:
/// markers accumulate, a later rename overrides, an absent later rename
/// keeps the earlier one.
pub open spec fn merge_model(a: InfluxAttrModel, b: InfluxAttrModel) -> InfluxAttrModel {
    InfluxAttrModel {
        name: match b.name {
            Some(n) => Some(n),
            None => a.name,
        },
        is_tag: b.is_tag || a.is_tag,
        is_field: b.is_field || a.is_field,
        is_timestamp: b.is_timestamp || a.is_timestamp,
    }
}

impl Default for InfluxAttr {
    /// The occurrence with no markers and no rename.
    fn default() -> (r: Self)
        ensures
            r@ == empty_attr(),
    {
        InfluxAttr { name: None, is_tag: false, is_field: false, is_timestamp: false }
    }
}

impl InfluxAttr {
    /// Merge a later annotation occurrence into this one.
    pub fn merge(self, other: Self) -> (r: Self)
        ensures
            r@ == merge_model(self@, other@),
    {
        InfluxAttr {
            name: match other.name {
                Some(n) => Some(n),
                None => self.name,
            },
            is_tag: other.is_tag || self.is_tag,
            is_field: other.is_field || self.is_field,
            is_timestamp: other.is_timestamp || self.is_timestamp,
        }
    }
}

/// Effect of one annotation item on the occurrence parsed so far; `None`
/// when the item lies outside the annotation language.
pub open spec fn apply_item(a: InfluxAttrModel, item: AttrItemModel) -> Option<InfluxAttrModel> {
    match item {
        AttrItemModel::Word(w) => if w == "tag"@ {
            Some(
                InfluxAttrModel {
                    name: a.name,
                    is_tag: true,
                    is_field: a.is_field,
                    is_timestamp: a.is_timestamp,
                },
            )
        } else if w == "field"@ {
            Some(
                InfluxAttrModel {
                    name: a.name,
                    is_tag: a.is_tag,
                    is_field: true,
                    is_timestamp: a.is_timestamp,
                },
            )
        } else if w == "timestamp"@ {
            Some(
                InfluxAttrModel {
                    name: a.name,
                    is_tag: a.is_tag,
                    is_field: a.is_field,
                    is_timestamp: true,
                },
            )
        } else {
            None
        },
        AttrItemModel::KeyValue(k, v) => if k == "rename"@ {
            Some(
                InfluxAttrModel {
                    name: Some(v),
                    is_tag: a.is_tag,
                    is_field: a.is_field,
                    is_timestamp: a.is_timestamp,
                },
            )
        } else {
            None
        },
    }
}

/// The occurrence parsed from the items of one block, item by item from the
/// left; `None` when some item lies outside the annotation language.
pub open spec fn parse_items_model(items: Seq<AttrItemModel>) -> Option<InfluxAttrModel>
    decreases items.len(),
{
    if items.len() == 0 {
        Some(empty_attr())
    } else {
        match parse_items_model(items.drop_last()) {
            None => None,
            Some(a) => apply_item(a, items.last()),
        }
    }
}

/// Once an item fails to parse, the whole block fails.
proof fn lemma_parse_items_none_absorbs(items: Seq<AttrItemModel>, i: int)
    requires
        0 <= i <= items.len(),
        parse_items_model(items.take(i)) is None,
    ensures
        parse_items_model(items) is None,
    decreases items.len() - i,
{
    if i == items.len() {
        assert(items.take(i) =~= items);
    } else {
        assert(items.take(i + 1).drop_last() =~= items.take(i));
        lemma_parse_items_none_absorbs(items, i + 1);
    }
}

/// Parse the items of one `influx(...)` annotation block into a single
/// occurrence. Fails when an item lies outside the annotation language:
/// a marker other than `tag`, `field`, `timestamp`, or a key other
/// than `rename`.
pub fn parse_influx_db_attr(items: &Vec<AttrItem>) -> (r: Result<InfluxAttr, ResolveError>)
    ensures
        match r {
            Ok(a) => parse_items_model(items_model(items@)) == Some(a@),
            Err(e) => parse_items_model(items_model(items@)) is None && e
                == ResolveError::InvalidAnnotation,
        },
{
    let ghost m = items_model(items@);
    let mut influx_attr = InfluxAttr::default();
    let tag_word = String::from_str("tag");
    let field_word = String::from_str("field");
    let timestamp_word = String::from_str("timestamp");
    let rename_key = String::from_str("rename");
    let mut i: usize = 0;
    while i < items.len()
        invariant
            0 <= i <= items.len(),
            m == items_model(items@),
            parse_items_model(m.take(i as int)) == Some(influx_attr@),
            tag_word@ == "tag"@,
            field_word@ == "field"@,
            timestamp_word@ == "timestamp"@,
            rename_key@ == "rename"@,
        decreases items.len() - i,
    {
        proof {
            assert(m.take(i + 1).drop_last() =~= m.take(i as int));
            assert(m.take(i + 1).last() == items@[i as int]@);
        }
        let item = &items[i];
        match item {
            AttrItem::Word(w) => {
                if *w == tag_word {
                    influx_attr.is_tag = true;
                } else if *w == field_word {
                    influx_attr.is_field = true;
                } else if *w == timestamp_word {
                    influx_attr.is_timestamp = true;
                } else {
                    proof {
                        lemma_parse_items_none_absorbs(m, i + 1);
                    }
                    return Err(ResolveError::InvalidAnnotation);
                }
            },
            AttrItem::KeyValue(k, v) => {
                if *k == rename_key {
                    influx_attr.name = Some(v.clone());
                } else {
                    proof {
                        lemma_parse_items_none_absorbs(m, i + 1);
                    }
                    return Err(ResolveError::InvalidAnnotation);
                }
            },
        }
        i = i + 1;
    }
    proof {
        assert(m.take(items@.len() as int) =~= m);
    }
    Ok(influx_attr)
}

/// Left-to-right fold of a site's annotation blocks: blocks not named
/// `influx` are passed over; the occurrences of `influx` blocks merge with
/// the OR/last-wins rule. `Ok(None)` means the site carries no `influx`
/// block at all; `Err` means some `influx` block failed to parse.
pub open spec fn fold_blocks_model(attrs: Seq<AttrBlockModel>) -> Result<
    Option<InfluxAttrModel>,
    (),
>
    decreases attrs.len(),
{
    if attrs.len() == 0 {
        Ok(None)
    } else {
        match fold_blocks_model(attrs.drop_last()) {
            Err(e) => Err(e),
            Ok(acc) => {
                let b = attrs.last();
                if b.name != "influx"@ {
                    Ok(acc)
                } else {
                    match parse_items_model(b.items) {
                        None => Err(()),
                        Some(a) => Ok(
                            Some(
                                match acc {
                                    None => a,
                                    Some(prev) => merge_model(prev, a),
                                },
                            ),
                        ),
                    }
                }
            },
        }
    }
}

/// Once a block fails to parse, the whole site fails.
proof fn lemma_fold_blocks_err_absorbs(attrs: Seq<AttrBlockModel>, i: int)
    requires
        0 <= i <= attrs.len(),
        fold_blocks_model(attrs.take(i)) is Err,
    ensures
        fold_blocks_model(attrs) is Err,
    decreases attrs.len() - i,
{
    if i == attrs.len() {
        assert(attrs.take(i) =~= attrs);
    } else {
        assert(attrs.take(i + 1).drop_last() =~= attrs.take(i));
        lemma_fold_blocks_err_absorbs(attrs, i + 1);
    }
}

/// Collect every `influx` annotation block of one site and fold the parsed
/// occurrences left-to-right with the OR/last-wins merge. `Ok(None)` when
/// the site has no `influx` block; fails when some `influx` block holds an
/// item outside the annotation language.
pub fn parse_influx_db_attrs(attrs: &Vec<AttrBlock>) -> (r: Result<
    Option<InfluxAttr>,
    ResolveError,
>)
    ensures
        match r {
            Ok(opt) => fold_blocks_model(blocks_model(attrs@)) == Ok::<_, ()>(
                match opt {
                    Some(a) => Some(a@),
                    None => None,
                },
            ),
            Err(e) => fold_blocks_model(blocks_model(attrs@)) is Err && e
                == ResolveError::InvalidAnnotation,
        },
{
    let ghost m = blocks_model(attrs@);
    let influx_word = String::from_str("influx");
    let mut acc: Option<InfluxAttr> = None;
    let mut i: usize = 0;
    while i < attrs.len()
        invariant
            0 <= i <= attrs.len(),
            m == blocks_model(attrs@),
            influx_word@ == "influx"@,
            fold_blocks_model(m.take(i as int)) == Ok::<_, ()>(
                match acc {
                    Some(a) => Some(a@),
                    None => None,
                },
            ),
        decreases attrs.len() - i,
    {
        proof {
            assert(m.take(i + 1).drop_last() =~= m.take(i as int));
            assert(m.take(i + 1).last() == attrs@[i as int]@);
        }
        let block = &attrs[i];
        if block.name == influx_word {
            match parse_influx_db_attr(&block.items) {
                Ok(a) => {
                    acc = match acc {
                        Some(prev) => Some(prev.merge(a)),
                        None => Some(a),
                    };
                },
                Err(e) => {
                    proof {
                        lemma_fold_blocks_err_absorbs(m, i + 1);
                    }
                    return Err(e);
                },
            }
        }
        i = i + 1;
    }
    proof {
        assert(m.take(attrs@.len() as int) =~= m);
    }
    Ok(acc)
}

} // verus!
