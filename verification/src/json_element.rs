//! The untyped wire representation of an entity: a JSON-like tagged value.
//!
//! Scalar fields always travel as strings (numbers, booleans and timestamps
//! included); nested objects and arrays appear only for aggregations and
//! associations.  A wire entity is an unordered field map with unique keys,
//! represented as a vector of pairs and modelled as a `Map` in contracts.

use vstd::prelude::*;

use crate::assoc::{assoc_map, keys_unique, lemma_assoc_map_index};

verus! {

/// A wire value, as it arrives from or goes to the transport.
#[derive(Debug)]
pub enum JsonElement {
    Str(String),
    Null,
    Dict(Vec<(String, JsonElement)>),
    Array(Vec<JsonElement>),
}

/// A wire entity: field name to wire value, keys unique, order irrelevant.
pub type RawEntity = Vec<(String, JsonElement)>;

/// The mathematical model of a wire value.
pub enum JsonVal {
    Str(Seq<char>),
    Null,
    Dict(Map<Seq<char>, JsonVal>),
    Array(Seq<JsonVal>),
}

/// Model of a wire value.
pub open spec fn json_view(j: JsonElement) -> JsonVal
    decreases j,
{
    match j {
        JsonElement::Str(s) => JsonVal::Str(s@),
        JsonElement::Null => JsonVal::Null,
        JsonElement::Dict(fields) => JsonVal::Dict(assoc_map(json_pairs_view(fields@))),
        JsonElement::Array(els) => JsonVal::Array(json_seq_view(els@)),
    }
}

/// Pairwise model of a field list.
pub open spec fn json_pairs_view(s: Seq<(String, JsonElement)>) -> Seq<(Seq<char>, JsonVal)>
    decreases s,
{
    if s.len() == 0 {
        Seq::empty()
    } else {
        json_pairs_view(s.drop_last()).push((s.last().0@, json_view(s.last().1)))
    }
}

/// Pointwise model of a value list.
pub open spec fn json_seq_view(s: Seq<JsonElement>) -> Seq<JsonVal>
    decreases s,
{
    if s.len() == 0 {
        Seq::empty()
    } else {
        json_seq_view(s.drop_last()).push(json_view(s.last()))
    }
}

/// Model of a wire entity: the field map it describes.
pub open spec fn raw_entity_view(r: Seq<(String, JsonElement)>) -> Map<Seq<char>, JsonVal> {
    assoc_map(json_pairs_view(r))
}

impl View for JsonElement {
    type V = JsonVal;

    open spec fn view(&self) -> JsonVal {
        json_view(*self)
    }
}

/// Well-formed wire value: every nested object has unique field names.
pub open spec fn json_wf(j: JsonElement) -> bool
    decreases j,
{
    match j {
        JsonElement::Str(_) => true,
        JsonElement::Null => true,
        JsonElement::Dict(fields) => json_fields_wf(fields@),
        JsonElement::Array(els) => forall|i: int|
            0 <= i < els@.len() ==> json_wf(#[trigger] els@[i]),
    }
}

/// Well-formed field list: unique names, well-formed values.
pub open spec fn json_fields_wf(s: Seq<(String, JsonElement)>) -> bool
    decreases s,
{
    &&& keys_unique(json_pairs_view(s))
    &&& forall|i: int| 0 <= i < s.len() ==> json_wf(#[trigger] s[i].1)
}

pub proof fn lemma_json_pairs_view_index(s: Seq<(String, JsonElement)>, i: int)
    requires
        0 <= i < s.len(),
    ensures
        json_pairs_view(s).len() == s.len(),
        json_pairs_view(s)[i] == (s[i].0@, json_view(s[i].1)),
    decreases s.len(),
{
    if i < s.len() - 1 {
        lemma_json_pairs_view_index(s.drop_last(), i);
        assert(s.drop_last()[i] == s[i]);
    } else {
        lemma_json_pairs_view_len(s.drop_last());
    }
}

pub proof fn lemma_json_pairs_view_len(s: Seq<(String, JsonElement)>)
    ensures
        json_pairs_view(s).len() == s.len(),
    decreases s.len(),
{
    if s.len() > 0 {
        lemma_json_pairs_view_len(s.drop_last());
    }
}

pub proof fn lemma_json_seq_view_index(s: Seq<JsonElement>, i: int)
    requires
        0 <= i < s.len(),
    ensures
        json_seq_view(s).len() == s.len(),
        json_seq_view(s)[i] == json_view(s[i]),
    decreases s.len(),
{
    if i < s.len() - 1 {
        lemma_json_seq_view_index(s.drop_last(), i);
        assert(s.drop_last()[i] == s[i]);
    } else {
        lemma_json_seq_view_len(s.drop_last());
    }
}

pub proof fn lemma_json_seq_view_len(s: Seq<JsonElement>)
    ensures
        json_seq_view(s).len() == s.len(),
    decreases s.len(),
{
    if s.len() > 0 {
        lemma_json_seq_view_len(s.drop_last());
    }
}

/// Looks a field up by name; under unique keys this is exactly a lookup in
/// the entity's field map.
pub fn lookup_json_field<'a>(fields: &'a Vec<(String, JsonElement)>, name: &String) -> (r: Option<
    &'a JsonElement,
>)
    requires
        keys_unique(json_pairs_view(fields@)),
    ensures
        match r {
            Some(v) => raw_entity_view(fields@).contains_key(name@)
                && raw_entity_view(fields@).index(name@) == v@ && exists|i: int|
                0 <= i < fields@.len() && #[trigger] fields@[i].1 == *v && json_wf(fields@[i].1)
                    == json_wf(*v),
            None => !raw_entity_view(fields@).contains_key(name@),
        },
{
    let n = fields.len();
    proof {
        lemma_json_pairs_view_len(fields@);
    }
    for j in 0..n
        invariant
            n == fields@.len(),
            json_pairs_view(fields@).len() == n,
            keys_unique(json_pairs_view(fields@)),
            forall|i: int| 0 <= i < j ==> #[trigger] json_pairs_view(fields@)[i].0 != name@,
    {
        proof {
            lemma_json_pairs_view_index(fields@, j as int);
        }
        if fields[j].0 == *name {
            proof {
                lemma_assoc_map_index(json_pairs_view(fields@), j as int);
            }
            return Some(&fields[j].1);
        }
    }
    proof {
        crate::assoc::lemma_assoc_map_contains(json_pairs_view(fields@), name@);
        assert forall|i: int| 0 <= i < json_pairs_view(fields@).len() implies #[trigger] json_pairs_view(fields@)[i].0 != name@ by {
            lemma_json_pairs_view_index(fields@, i);
        }
    }
    None
}

pub proof fn lemma_json_pairs_view_concat(s1: Seq<(String, JsonElement)>, s2: Seq<(String, JsonElement)>)
    ensures
        json_pairs_view(s1 + s2) =~= json_pairs_view(s1) + json_pairs_view(s2),
    decreases s2.len(),
{
    if s2.len() == 0 {
        assert(s1 + s2 =~= s1);
        lemma_json_pairs_view_len(s1);
        lemma_json_pairs_view_len(s2);
    } else {
        lemma_json_pairs_view_concat(s1, s2.drop_last());
        assert((s1 + s2).drop_last() =~= s1 + s2.drop_last());
        assert((s1 + s2).last() == s2.last());
        lemma_json_pairs_view_len(s1 + s2);
        lemma_json_pairs_view_len(s1);
        lemma_json_pairs_view_len(s2);
    }
}

} // verus!
