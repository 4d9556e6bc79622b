//! JSON values, as far as the library builds them, looks into them or hands them on.
use vstd::prelude::*;

use crate::deep::DeepClone;

verus! {

/// A JSON value. A number is kept as the text it is written with; the members of an object
/// stand in order.
#[derive(Debug, PartialEq, Eq)]
pub enum JsonValue {
    Null,
    Bool(bool),
    Number(String),
    String(String),
    Array(Vec<JsonValue>),
    Object(Vec<(String, JsonValue)>),
}

/// What a [`JsonValue`] stands for.
pub enum JsonView {
    Null,
    Bool(bool),
    Number(Seq<char>),
    String(Seq<char>),
    Array(Seq<JsonView>),
    Object(Seq<(Seq<char>, JsonView)>),
}

/// What a JSON value stands for.
pub open spec fn json_view(value: JsonValue) -> JsonView
    decreases value,
{
    match value {
        JsonValue::Null => JsonView::Null,
        JsonValue::Bool(value) => JsonView::Bool(value),
        JsonValue::Number(text) => JsonView::Number(text@),
        JsonValue::String(text) => JsonView::String(text@),
        JsonValue::Array(items) => JsonView::Array(
            Seq::new(
                items@.len(),
                |i: int|
                    if 0 <= i < items@.len() {
                        json_view(items@[i])
                    } else {
                        JsonView::Null
                    },
            ),
        ),
        JsonValue::Object(members) => JsonView::Object(
            Seq::new(
                members@.len(),
                |i: int|
                    if 0 <= i < members@.len() {
                        (members@[i].0@, json_view(members@[i].1))
                    } else {
                        (Seq::empty(), JsonView::Null)
                    },
            ),
        ),
    }
}

impl DeepView for JsonValue {
    type V = JsonView;

    open spec fn deep_view(&self) -> Self::V {
        json_view(*self)
    }
}

impl JsonView {
    /// The members of an object; `None` for any other value.
    pub open spec fn members(self) -> Option<Seq<(Seq<char>, JsonView)>> {
        match self {
            JsonView::Object(members) => Some(members),
            _ => None,
        }
    }
}

impl JsonValue {
    /// A copy of the members of an object; `None` for any other value.
    pub fn as_object(&self) -> (members: Option<Vec<(String, JsonValue)>>)
        ensures
            members.deep_view() == self.deep_view().members(),
    {
        match self {
            JsonValue::Object(members) => {
                let copies = JsonValue::copy_members(members);
                assert(members.deep_view() =~= self.deep_view()->Object_0);
                Some(copies)
            },
            _ => None,
        }
    }

    fn copy(&self) -> (copy: JsonValue)
        ensures
            json_view(copy) == json_view(*self),
        decreases *self,
    {
        match self {
            JsonValue::Null => JsonValue::Null,
            JsonValue::Bool(value) => JsonValue::Bool(*value),
            JsonValue::Number(text) => JsonValue::Number(text.clone()),
            JsonValue::String(text) => JsonValue::String(text.clone()),
            JsonValue::Array(items) => {
                let copy = JsonValue::Array(JsonValue::copy_items(items));
                proof {
                    assert(copy->Array_0.deep_view().len() == items.deep_view().len());
                    assert forall|i: int| 0 <= i < items.len() implies json_view(copy->Array_0[i])
                        == json_view(items[i]) by {
                        assert(copy->Array_0.deep_view()[i] == items.deep_view()[i]);
                    }
                    assert(json_view(copy)->Array_0 =~= json_view(*self)->Array_0);
                }
                copy
            },
            JsonValue::Object(members) => {
                let copy = JsonValue::Object(JsonValue::copy_members(members));
                proof {
                    assert(copy->Object_0.deep_view().len() == members.deep_view().len());
                    assert forall|i: int| 0 <= i < members.len() implies copy->Object_0[i].0@
                        == members[i].0@ && json_view(copy->Object_0[i].1) == json_view(
                        members[i].1,
                    ) by {
                        assert(copy->Object_0.deep_view()[i] == members.deep_view()[i]);
                    }
                    assert(json_view(copy)->Object_0 =~= json_view(*self)->Object_0);
                }
                copy
            },
        }
    }

    fn copy_items(items: &Vec<JsonValue>) -> (copies: Vec<JsonValue>)
        ensures
            copies.deep_view() == items.deep_view(),
        decreases *items,
    {
        let mut copies: Vec<JsonValue> = Vec::new();
        for i in 0..items.len()
            invariant
                copies.len() == i,
                forall|j: int|
                    0 <= j < i ==> #[trigger] copies[j].deep_view() == items[j].deep_view(),
            decreases items.len() - i,
        {
            copies.push(items[i].copy());
        }
        assert(copies.deep_view() =~= items.deep_view());
        copies
    }

    fn copy_members(members: &Vec<(String, JsonValue)>) -> (copies: Vec<(String, JsonValue)>)
        ensures
            copies.deep_view() == members.deep_view(),
        decreases *members,
    {
        let mut copies: Vec<(String, JsonValue)> = Vec::new();
        for i in 0..members.len()
            invariant
                copies.len() == i,
                forall|j: int|
                    0 <= j < i ==> #[trigger] copies[j].deep_view() == members[j].deep_view(),
            decreases members.len() - i,
        {
            copies.push((members[i].0.clone(), members[i].1.copy()));
        }
        assert(copies.deep_view() =~= members.deep_view());
        copies
    }
}

impl DeepClone for JsonValue {
    fn deep_clone(&self) -> (copy: Self) {
        self.copy()
    }
}

} // verus!
