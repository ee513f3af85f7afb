//! JSON values as trees, and the removal of hidden fields from them.
use crate::fairing::feature_filter::{is_hidden, FeatureFilter};
use crate::text::texts;
use vstd::prelude::*;

verus! {

/// A JSON value. A number is held as its text.
#[derive(Debug, PartialEq, Eq)]
pub enum Json {
    Null,
    Bool(bool),
    Number(String),
    Text(String),
    Array(Vec<Json>),
    Object(Vec<Field>),
}

/// One field of a JSON object.
#[derive(Debug, PartialEq, Eq)]
pub struct Field {
    pub key: String,
    pub value: Json,
}

/// What a `Json` holds, as plain values.
pub enum JsonView {
    Null,
    Bool(bool),
    Number(Seq<char>),
    Text(Seq<char>),
    Array(Seq<JsonView>),
    Object(Seq<FieldView>),
}

/// What a `Field` holds, as plain values.
pub struct FieldView {
    pub key: Seq<char>,
    pub value: JsonView,
}

impl View for Json {
    type V = JsonView;

    open spec fn view(&self) -> JsonView
        decreases self,
    {
        match self {
            Json::Null => JsonView::Null,
            Json::Bool(b) => JsonView::Bool(*b),
            Json::Number(text) => JsonView::Number(text@),
            Json::Text(text) => JsonView::Text(text@),
            Json::Array(items) => JsonView::Array(
                Seq::new(
                    items@.len(),
                    |i: int|
                        if 0 <= i < items@.len() {
                            items@[i]@
                        } else {
                            JsonView::Null
                        },
                ),
            ),
            Json::Object(fields) => JsonView::Object(
                Seq::new(
                    fields@.len(),
                    |i: int|
                        if 0 <= i < fields@.len() {
                            FieldView { key: fields@[i].key@, value: fields@[i].value@ }
                        } else {
                            FieldView { key: Seq::empty(), value: JsonView::Null }
                        },
                ),
            ),
        }
    }
}

/// The plain values of the fields of an object.
pub open spec fn fields_view(fields: Seq<Field>) -> Seq<FieldView> {
    Seq::new(
        fields.len(),
        |i: int|
            if 0 <= i < fields.len() {
                FieldView { key: fields[i].key@, value: fields[i].value@ }
            } else {
                FieldView { key: Seq::empty(), value: JsonView::Null }
            },
    )
}

/// What an object holds is what its fields hold.
pub proof fn lemma_object_view(json: Json)
    requires
        json is Object,
    ensures
        json@ == JsonView::Object(fields_view(json->Object_0@)),
{
    assert(json@->Object_0 =~= fields_view(json->Object_0@));
}

/// The plain values of a list of JSON values.
pub open spec fn items_view(items: Seq<Json>) -> Seq<JsonView> {
    Seq::new(
        items.len(),
        |i: int|
            if 0 <= i < items.len() {
                items[i]@
            } else {
                JsonView::Null
            },
    )
}

/// What an array holds is what its items hold.
pub proof fn lemma_array_view(json: Json)
    requires
        json is Array,
    ensures
        json@ == JsonView::Array(items_view(json->Array_0@)),
{
    assert(json@->Array_0 =~= items_view(json->Array_0@));
}

/// The test that a field passes which is not hidden.
pub open spec fn is_shown(features: Seq<Seq<char>>) -> spec_fn(FieldView) -> bool {
    |field: FieldView| !is_hidden(field.key, features)
}

/// A JSON value without its hidden fields: every object in it, however deep, keeps the
/// fields that are not hidden, in their order, and nothing else changes.
pub open spec fn filtered(json: JsonView, features: Seq<Seq<char>>) -> JsonView
    decreases json,
{
    match json {
        JsonView::Array(items) => JsonView::Array(filtered_items(items, features)),
        JsonView::Object(fields) => JsonView::Object(
            filtered_values(fields, features).filter(is_shown(features)),
        ),
        other => other,
    }
}

/// The items of an array, each without its hidden fields.
pub open spec fn filtered_items(items: Seq<JsonView>, features: Seq<Seq<char>>) -> Seq<JsonView>
    decreases items,
{
    Seq::new(
        items.len(),
        |i: int|
            if 0 <= i < items.len() {
                filtered(items[i], features)
            } else {
                JsonView::Null
            },
    )
}

/// The fields of an object, each with its value without its hidden fields, before the
/// hidden ones among them are taken out.
pub open spec fn filtered_values(fields: Seq<FieldView>, features: Seq<Seq<char>>) -> Seq<FieldView>
    decreases fields,
{
    Seq::new(
        fields.len(),
        |i: int|
            if 0 <= i < fields.len() {
                FieldView { key: fields[i].key, value: filtered(fields[i].value, features) }
            } else {
                FieldView { key: Seq::empty(), value: JsonView::Null }
            },
    )
}

/// A copy of a JSON value without its hidden fields.
pub fn filter(json: &Json, features: &Vec<String>) -> (shown: Json)
    ensures
        shown@ == filtered(json@, texts(features@)),
    decreases json,
{
    match json {
        Json::Null => Json::Null,
        Json::Bool(b) => Json::Bool(*b),
        Json::Number(text) => Json::Number(text.clone()),
        Json::Text(text) => Json::Text(text.clone()),
        Json::Array(items) => {
            let shown = Json::Array(filter_array(items, features));
            proof {
                lemma_array_view(*json);
                lemma_array_view(shown);
            }
            shown
        },
        Json::Object(fields) => {
            let shown = Json::Object(filter_object(fields, features));
            proof {
                lemma_object_view(*json);
                lemma_object_view(shown);
            }
            shown
        },
    }
}

/// Copies of the values of an array, each without its hidden fields.
pub fn filter_array(array: &Vec<Json>, features: &Vec<String>) -> (shown: Vec<Json>)
    ensures
        items_view(shown@) == filtered_items(items_view(array@), texts(features@)),
    decreases array,
{
    let mut shown: Vec<Json> = Vec::new();
    let mut i: usize = 0;
    while i < array.len()
        invariant
            i <= array.len(),
            shown@.len() == i,
            forall|k: int|
                0 <= k < i ==> (#[trigger] shown@[k])@ == filtered(array@[k]@, texts(features@)),
        decreases array.len() - i,
    {
        shown.push(filter(&array[i], features));
        i += 1;
    }
    proof {
        assert(items_view(shown@) =~= filtered_items(items_view(array@), texts(features@)));
    }
    shown
}

/// Copies of the fields of an object that are not hidden, each without its own hidden
/// fields.
pub fn filter_object(object: &Vec<Field>, features: &Vec<String>) -> (shown: Vec<Field>)
    ensures
        fields_view(shown@) == filtered_values(fields_view(object@), texts(features@)).filter(
            is_shown(texts(features@)),
        ),
    decreases object,
{
    let ghost all = filtered_values(fields_view(object@), texts(features@));
    let ghost test = is_shown(texts(features@));
    let mut shown: Vec<Field> = Vec::new();
    let mut i: usize = 0;
    proof {
        reveal(Seq::filter);
        assert(all.subrange(0, 0) =~= Seq::<FieldView>::empty());
        assert(fields_view(shown@) =~= all.subrange(0, 0).filter(test));
    }
    while i < object.len()
        invariant
            i <= object.len(),
            test == is_shown(texts(features@)),
            all == filtered_values(fields_view(object@), texts(features@)),
            fields_view(shown@) == all.subrange(0, i as int).filter(test),
        decreases object.len() - i,
    {
        let ghost before = fields_view(shown@);
        proof {
            reveal(Seq::filter);
            let more = all.subrange(0, i + 1);
            assert(more.drop_last() =~= all.subrange(0, i as int));
            assert(more.last() == all[i as int]);
            assert(all[i as int].key == object@[i as int].key@);
            assert(all[i as int].value == filtered(object@[i as int].value@, texts(features@)));
        }
        if !FeatureFilter::hides(object[i].key.as_str(), features) {
            let value = filter(&object[i].value, features);
            shown.push(Field { key: object[i].key.clone(), value });
            proof {
                assert(fields_view(shown@) =~= before.push(all[i as int]));
            }
        }
        i += 1;
    }
    proof {
        assert(all.subrange(0, i as int) =~= all);
    }
    shown
}

impl FeatureFilter {
    /// The body of a response as it is sent to a request that asks for the given
    /// features: without the fields that are hidden from it.
    pub fn on_response(&self, body: &Json, features: &Vec<String>) -> (shown: Json)
        ensures
            shown@ == filtered(body@, texts(features@)),
    {
        filter(body, features)
    }
}

} // verus!
