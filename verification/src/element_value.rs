//! The typed, application-level value of an entity field, and parsed
//! entities: unordered field maps from name to [`ElementValue`].

use vstd::prelude::*;

use crate::assoc::{assoc_map, keys_unique, lemma_assoc_map_index};

verus! {

/// The two-part identifier of an entity whose element kind is `ListElement`:
/// the id of the containing list and the id of the element within it.
#[derive(Debug, Clone)]
pub struct IdTuple {
    pub list_id: String,
    pub element_id: String,
}

impl IdTuple {
    pub fn new(list_id: String, element_id: String) -> (r: IdTuple)
        ensures
            r.list_id == list_id,
            r.element_id == element_id,
    {
        IdTuple { list_id, element_id }
    }
}

/// A typed field value.  A `Date` is the number of milliseconds since the
/// epoch; `Bytes` is the decoded payload of a base64 wire string.
#[derive(Debug)]
pub enum ElementValue {
    Str(String),
    Number(i64),
    Bytes(Vec<u8>),
    Date(u64),
    Bool(bool),
    GeneratedId(String),
    CustomId(String),
    IdTupleId(IdTuple),
    Dict(Vec<(String, ElementValue)>),
    Array(Vec<ElementValue>),
    Null,
}

/// A parsed entity: field name to typed value, keys unique, order
/// irrelevant.
pub type ParsedEntity = Vec<(String, ElementValue)>;

/// The mathematical model of a typed field value.
pub enum ElemVal {
    Str(Seq<char>),
    Number(i64),
    Bytes(Seq<u8>),
    Date(u64),
    Bool(bool),
    GeneratedId(Seq<char>),
    CustomId(Seq<char>),
    IdTupleId(Seq<char>, Seq<char>),
    Dict(Map<Seq<char>, ElemVal>),
    Array(Seq<ElemVal>),
    Null,
}

/// Model of a typed field value.
pub open spec fn elem_view(e: ElementValue) -> ElemVal
    decreases e,
{
    match e {
        ElementValue::Str(s) => ElemVal::Str(s@),
        ElementValue::Number(n) => ElemVal::Number(n),
        ElementValue::Bytes(b) => ElemVal::Bytes(b@),
        ElementValue::Date(d) => ElemVal::Date(d),
        ElementValue::Bool(b) => ElemVal::Bool(b),
        ElementValue::GeneratedId(s) => ElemVal::GeneratedId(s@),
        ElementValue::CustomId(s) => ElemVal::CustomId(s@),
        ElementValue::IdTupleId(t) => ElemVal::IdTupleId(t.list_id@, t.element_id@),
        ElementValue::Dict(fields) => ElemVal::Dict(assoc_map(elem_pairs_view(fields@))),
        ElementValue::Array(els) => ElemVal::Array(elem_seq_view(els@)),
        ElementValue::Null => ElemVal::Null,
    }
}

/// Pairwise model of a field list.
pub open spec fn elem_pairs_view(s: Seq<(String, ElementValue)>) -> Seq<(Seq<char>, ElemVal)>
    decreases s,
{
    if s.len() == 0 {
        Seq::empty()
    } else {
        elem_pairs_view(s.drop_last()).push((s.last().0@, elem_view(s.last().1)))
    }
}

/// Pointwise model of a value list.
pub open spec fn elem_seq_view(s: Seq<ElementValue>) -> Seq<ElemVal>
    decreases s,
{
    if s.len() == 0 {
        Seq::empty()
    } else {
        elem_seq_view(s.drop_last()).push(elem_view(s.last()))
    }
}

/// Model of a parsed entity: the field map it describes.
pub open spec fn parsed_entity_view(r: Seq<(String, ElementValue)>) -> Map<Seq<char>, ElemVal> {
    assoc_map(elem_pairs_view(r))
}

impl View for ElementValue {
    type V = ElemVal;

    open spec fn view(&self) -> ElemVal {
        elem_view(*self)
    }
}

/// Well-formed typed value: every nested entity has unique field names.
pub open spec fn elem_wf(e: ElementValue) -> bool
    decreases e,
{
    match e {
        ElementValue::Dict(fields) => elem_fields_wf(fields@),
        ElementValue::Array(els) => forall|i: int|
            0 <= i < els@.len() ==> elem_wf(#[trigger] els@[i]),
        _ => true,
    }
}

/// Well-formed field list: unique names, well-formed values.
pub open spec fn elem_fields_wf(s: Seq<(String, ElementValue)>) -> bool
    decreases s,
{
    &&& keys_unique(elem_pairs_view(s))
    &&& forall|i: int| 0 <= i < s.len() ==> elem_wf(#[trigger] s[i].1)
}

pub proof fn lemma_elem_pairs_view_index(s: Seq<(String, ElementValue)>, i: int)
    requires
        0 <= i < s.len(),
    ensures
        elem_pairs_view(s).len() == s.len(),
        elem_pairs_view(s)[i] == (s[i].0@, elem_view(s[i].1)),
    decreases s.len(),
{
    if i < s.len() - 1 {
        lemma_elem_pairs_view_index(s.drop_last(), i);
        assert(s.drop_last()[i] == s[i]);
    } else {
        lemma_elem_pairs_view_len(s.drop_last());
    }
}

pub proof fn lemma_elem_pairs_view_len(s: Seq<(String, ElementValue)>)
    ensures
        elem_pairs_view(s).len() == s.len(),
    decreases s.len(),
{
    if s.len() > 0 {
        lemma_elem_pairs_view_len(s.drop_last());
    }
}

pub proof fn lemma_elem_seq_view_index(s: Seq<ElementValue>, i: int)
    requires
        0 <= i < s.len(),
    ensures
        elem_seq_view(s).len() == s.len(),
        elem_seq_view(s)[i] == elem_view(s[i]),
    decreases s.len(),
{
    if i < s.len() - 1 {
        lemma_elem_seq_view_index(s.drop_last(), i);
        assert(s.drop_last()[i] == s[i]);
    } else {
        lemma_elem_seq_view_len(s.drop_last());
    }
}

pub proof fn lemma_elem_seq_view_len(s: Seq<ElementValue>)
    ensures
        elem_seq_view(s).len() == s.len(),
    decreases s.len(),
{
    if s.len() > 0 {
        lemma_elem_seq_view_len(s.drop_last());
    }
}

/// Looks a field up by name; under unique keys this is exactly a lookup in
/// the entity's field map.
pub fn lookup_elem_field<'a>(fields: &'a Vec<(String, ElementValue)>, name: &String) -> (r: Option<
    &'a ElementValue,
>)
    requires
        keys_unique(elem_pairs_view(fields@)),
    ensures
        match r {
            Some(v) => parsed_entity_view(fields@).contains_key(name@)
                && parsed_entity_view(fields@).index(name@) == v@ && exists|i: int|
                0 <= i < fields@.len() && #[trigger] fields@[i].1 == *v && elem_wf(fields@[i].1)
                    == elem_wf(*v),
            None => !parsed_entity_view(fields@).contains_key(name@),
        },
{
    let n = fields.len();
    proof {
        lemma_elem_pairs_view_len(fields@);
    }
    for j in 0..n
        invariant
            n == fields@.len(),
            elem_pairs_view(fields@).len() == n,
            keys_unique(elem_pairs_view(fields@)),
            forall|i: int| 0 <= i < j ==> #[trigger] elem_pairs_view(fields@)[i].0 != name@,
    {
        proof {
            lemma_elem_pairs_view_index(fields@, j as int);
        }
        if fields[j].0 == *name {
            proof {
                lemma_assoc_map_index(elem_pairs_view(fields@), j as int);
            }
            return Some(&fields[j].1);
        }
    }
    proof {
        crate::assoc::lemma_assoc_map_contains(elem_pairs_view(fields@), name@);
        assert forall|i: int|
            0 <= i < elem_pairs_view(fields@).len() implies #[trigger] elem_pairs_view(fields@)[i].0
            != name@ by {
            lemma_elem_pairs_view_index(fields@, i);
        }
    }
    None
}

pub proof fn lemma_elem_pairs_view_concat(s1: Seq<(String, ElementValue)>, s2: Seq<(String, ElementValue)>)
    ensures
        elem_pairs_view(s1 + s2) =~= elem_pairs_view(s1) + elem_pairs_view(s2),
    decreases s2.len(),
{
    if s2.len() == 0 {
        assert(s1 + s2 =~= s1);
        lemma_elem_pairs_view_len(s1);
        lemma_elem_pairs_view_len(s2);
    } else {
        lemma_elem_pairs_view_concat(s1, s2.drop_last());
        assert((s1 + s2).drop_last() =~= s1 + s2.drop_last());
        assert((s1 + s2).last() == s2.last());
        lemma_elem_pairs_view_len(s1 + s2);
        lemma_elem_pairs_view_len(s1);
        lemma_elem_pairs_view_len(s2);
    }
}

} // verus!
