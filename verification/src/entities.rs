//! The typed shape of the fetch response, its decoding from a parsed JSON
//! tree, and the flattening of entities into (name, number) pairs.

use vstd::prelude::*;
use crate::json::DecodeError;
use crate::json::JsonModel;
use crate::json::field_of;
use crate::json::json_model;
use crate::json::models_of;
use crate::json::value_as_array;
use crate::json::value_as_str;
use crate::json::value_get;

verus! {

/// The contact attached to a phone number record.
#[derive(Debug)]
pub struct Contact {
    pub name: String,
}

/// One phone number record: a number and its contact.
#[derive(Debug)]
pub struct Entity {
    pub number: String,
    pub contact: Contact,
}

/// The payload of the fetch response.
#[derive(Debug)]
pub struct PhoneNumbers {
    pub entities: Vec<Entity>,
}

/// The `data` object wrapping the payload.
#[derive(Debug)]
pub struct Data {
    pub phone_numbers: PhoneNumbers,
}

/// The root of the fetch response.
#[derive(Debug)]
pub struct Root {
    pub data: Data,
}

impl Root {
    /// The (number, name) pairs the response carries, in response order.
    pub open spec fn entity_pairs(&self) -> Seq<(Seq<char>, Seq<char>)> {
        self.data.phone_numbers.entities@.map_values(
            |e: Entity| (e.number@, e.contact.name@),
        )
    }
}

/// The (number, name) pair one entity object denotes, if it has the
/// expected shape: a string `number` field and a `contact` object with a
/// string `name` field.
pub open spec fn spec_entity(j: JsonModel) -> Option<(Seq<char>, Seq<char>)> {
    match field_of(j, "number"@) {
        Some(JsonModel::Str(num)) => match field_of(j, "contact"@) {
            Some(c) => match field_of(c, "name"@) {
                Some(JsonModel::Str(nm)) => Some((num, nm)),
                _ => None,
            },
            None => None,
        },
        _ => None,
    }
}

/// The array at `data.phone_numbers.entities`, if the tree has that shape.
pub open spec fn spec_entity_items(j: JsonModel) -> Option<Seq<JsonModel>> {
    match field_of(j, "data"@) {
        Some(d) => match field_of(d, "phone_numbers"@) {
            Some(p) => match field_of(p, "entities"@) {
                Some(JsonModel::Arr(items)) => Some(items),
                _ => None,
            },
            None => None,
        },
        None => None,
    }
}

/// The (number, name) pairs a fetch response denotes: `Some` exactly when
/// the tree holds an entity array and every element has the entity shape.
pub open spec fn spec_entities(j: JsonModel) -> Option<Seq<(Seq<char>, Seq<char>)>> {
    match spec_entity_items(j) {
        Some(items) => if forall|i: int|
            0 <= i < items.len() ==> spec_entity(#[trigger] items[i]) is Some {
            Some(Seq::new(items.len(), |i: int| spec_entity(items[i]).unwrap()))
        } else {
            None
        },
        None => None,
    }
}

/// Decodes a parsed fetch response into the typed structure, failing
/// exactly when the tree lacks the expected shape.
pub fn parse_root(v: &serde_json::Value) -> (r: Result<Root, DecodeError>)
    ensures
        match r {
            Ok(root) => spec_entities(json_model(*v)) == Some(root.entity_pairs()),
            Err(e) => spec_entities(json_model(*v)) is None && e == DecodeError::Shape,
        },
{
    let d = match value_get(v, "data") {
        Some(x) => x,
        None => { return Err(DecodeError::Shape) },
    };
    let p = match value_get(d, "phone_numbers") {
        Some(x) => x,
        None => { return Err(DecodeError::Shape) },
    };
    let ev = match value_get(p, "entities") {
        Some(x) => x,
        None => { return Err(DecodeError::Shape) },
    };
    let arr = match value_as_array(ev) {
        Some(a) => a,
        None => { return Err(DecodeError::Shape) },
    };
    let ghost items: Seq<JsonModel> = models_of(arr@);
    proof {
        assert(spec_entity_items(json_model(*v)) == Some(items));
    }
    let mut entities: Vec<Entity> = Vec::new();
    let n: usize = arr.len();
    let mut idx: usize = 0;
    while idx < n
        invariant
            n == arr@.len(),
            idx <= n,
            entities@.len() == idx,
            items == models_of(arr@),
            spec_entity_items(json_model(*v)) == Some(items),
            forall|k: int|
                0 <= k < idx ==> spec_entity(items[k]) == Some(
                    ((#[trigger] entities@[k]).number@, entities@[k].contact.name@),
                ),
        decreases n - idx,
    {
        let item = &arr[idx];
        proof {
            assert(json_model(*item) == items[idx as int]);
        }
        let num_v = match value_get(item, "number") {
            Some(x) => x,
            None => {
                proof {
                    lemma_entities_none(json_model(*v), items, idx as int);
                }
                return Err(DecodeError::Shape);
            },
        };
        let num = match value_as_str(num_v) {
            Some(s) => s,
            None => {
                proof {
                    lemma_entities_none(json_model(*v), items, idx as int);
                }
                return Err(DecodeError::Shape);
            },
        };
        let c = match value_get(item, "contact") {
            Some(x) => x,
            None => {
                proof {
                    lemma_entities_none(json_model(*v), items, idx as int);
                }
                return Err(DecodeError::Shape);
            },
        };
        let nm_v = match value_get(c, "name") {
            Some(x) => x,
            None => {
                proof {
                    lemma_entities_none(json_model(*v), items, idx as int);
                }
                return Err(DecodeError::Shape);
            },
        };
        let nm = match value_as_str(nm_v) {
            Some(s) => s,
            None => {
                proof {
                    lemma_entities_none(json_model(*v), items, idx as int);
                }
                return Err(DecodeError::Shape);
            },
        };
        entities.push(Entity { number: num.to_owned(), contact: Contact { name: nm.to_owned() } });
        idx = idx + 1;
    }
    let root = Root { data: Data { phone_numbers: PhoneNumbers { entities } } };
    proof {
        let pairs = Seq::new(items.len(), |i: int| spec_entity(items[i]).unwrap());
        assert forall|i: int| 0 <= i < items.len() implies spec_entity(#[trigger] items[i]) is Some
            && root.entity_pairs()[i] == pairs[i] by {
            assert(spec_entity(items[i]) == Some(
                ((root.data.phone_numbers.entities@[i]).number@,
                root.data.phone_numbers.entities@[i].contact.name@),
            ));
        }
        assert(root.entity_pairs() =~= pairs);
    }
    Ok(root)
}

/// When one element of the entity array lacks the entity shape, the whole
/// response denotes no entity list.
proof fn lemma_entities_none(j: JsonModel, items: Seq<JsonModel>, bad: int)
    requires
        spec_entity_items(j) == Some(items),
        0 <= bad < items.len(),
        spec_entity(items[bad]) is None,
    ensures
        spec_entities(j) is None,
{
    assert(!(forall|i: int| 0 <= i < items.len() ==> spec_entity(#[trigger] items[i]) is Some));
}

/// Walks the entities in response order and hands back one (name, number)
/// pair per entity, fields unchanged.
pub fn flatten(root: &Root) -> (r: Vec<(String, String)>)
    ensures
        r@.len() == root.data.phone_numbers.entities@.len(),
        forall|i: int|
            0 <= i < r@.len() ==> (#[trigger] r@[i]).0@
                == root.data.phone_numbers.entities@[i].contact.name@ && r@[i].1@
                == root.data.phone_numbers.entities@[i].number@,
{
    let mut r: Vec<(String, String)> = Vec::new();
    let n: usize = root.data.phone_numbers.entities.len();
    let mut idx: usize = 0;
    while idx < n
        invariant
            n == root.data.phone_numbers.entities@.len(),
            idx <= n,
            r@.len() == idx,
            forall|i: int|
                0 <= i < idx ==> (#[trigger] r@[i]).0@
                    == root.data.phone_numbers.entities@[i].contact.name@ && r@[i].1@
                    == root.data.phone_numbers.entities@[i].number@,
        decreases n - idx,
    {
        let e = &root.data.phone_numbers.entities[idx];
        r.push((e.contact.name.clone(), e.number.clone()));
        idx = idx + 1;
    }
    r
}

} // verus!
