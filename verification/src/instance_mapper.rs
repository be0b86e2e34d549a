//! The entity codec: schema-driven conversion between wire entities and
//! typed entities.
//!
//! `parse` and `serialize` are proved to return exactly what the
//! specification functions in [`crate::mapping`] describe, error for error,
//! and to round-trip: parsing inverts serialising, and serialising inverts
//! parsing on wire entities that carry exactly the declared fields.

use vstd::prelude::*;

use crate::assoc::{
    key_set, keys_unique, lemma_assoc_map_concat, lemma_assoc_map_contains, lemma_assoc_map_dom,
    lemma_assoc_map_finite, lemma_assoc_map_index,
};
use crate::b64::{b64_std_decode, b64_std_encode};
use crate::decimal::{
    lemma_parse_of_render_i64, lemma_parse_of_render_u64, lemma_render_of_parse_i64,
    lemma_render_of_parse_u64, parse_dec_i64, parse_dec_u64_from, render_i64, render_u64,
};
use crate::element_value::{
    elem_fields_wf, elem_pairs_view, elem_seq_view, elem_view, elem_wf, lemma_elem_pairs_view_index,
    lemma_elem_pairs_view_len, lemma_elem_seq_view_index, lemma_elem_seq_view_len,
    lookup_elem_field, parsed_entity_view, ElemVal, ElementValue, IdTuple, ParsedEntity,
};
use crate::json_element::{
    json_fields_wf, json_pairs_view, json_seq_view, json_view, json_wf, lemma_json_pairs_view_index,
    lemma_json_pairs_view_len, lemma_json_seq_view_index, lemma_json_seq_view_len,
    lookup_json_field, raw_entity_view, JsonElement, JsonVal, RawEntity,
};
use crate::mapping::{
    declared_keys, entity_exact, entity_exact_arr, entity_exact_assoc_value, entity_exact_assocs,
    spec_parse_arr, spec_parse_assoc_value, spec_parse_assocs, spec_parse_entity, spec_parse_field,
    spec_parse_id_field, spec_parse_scalar, spec_parse_values, spec_serialize_arr,
    spec_serialize_assoc_value, spec_serialize_assocs, spec_serialize_entity,
    spec_serialize_field, spec_serialize_id_field, spec_serialize_scalar, spec_serialize_values,
    wire_exact, wire_exact_arr, wire_exact_assoc_value, wire_exact_assocs, MapperErrV, ModelMap,
};
use crate::mapping_lemmas::{
    lemma_entity_exact_assocs_at, lemma_entity_exact_assocs_intro, lemma_parse_assocs_err,
    lemma_parse_assocs_ok, lemma_parse_values_err, lemma_parse_values_ok,
    lemma_serialize_assocs_err, lemma_serialize_assocs_ok, lemma_serialize_values_err,
    lemma_serialize_values_ok, lemma_wire_exact_assocs_at, lemma_wire_exact_assocs_intro,
};
use crate::metamodel::{
    AssociationType, Cardinality, ElementType, ModelAssociation, ModelValue, TypeModel, TypeRef,
    ValueType,
};
use crate::strutil::str_chars;
use crate::type_model_provider::TypeModelProvider;

verus! {

/// A codec failure: the schema is missing, a field does not fit it, or the
/// field uses a reserved encoding.
#[derive(Debug)]
pub enum InstanceMapperError {
    TypeNotFound { type_ref: TypeRef },
    InvalidValue { type_ref: TypeRef, field: String },
    NotImplemented { type_ref: TypeRef, field: String },
}

impl View for InstanceMapperError {
    type V = MapperErrV;

    open spec fn view(&self) -> MapperErrV {
        match self {
            InstanceMapperError::TypeNotFound { type_ref } => MapperErrV::TypeNotFound {
                app: type_ref.app@,
                type_: type_ref.type_@,
            },
            InstanceMapperError::InvalidValue { type_ref, field } => MapperErrV::InvalidValue {
                app: type_ref.app@,
                type_: type_ref.type_@,
                field: field@,
            },
            InstanceMapperError::NotImplemented { type_ref, field } => MapperErrV::NotImplemented {
                app: type_ref.app@,
                type_: type_ref.type_@,
                field: field@,
            },
        }
    }
}

fn invalid_value(app: &String, ty: &String, field: &String) -> (e: InstanceMapperError)
    ensures
        e@ == (MapperErrV::InvalidValue { app: app@, type_: ty@, field: field@ }),
{
    InstanceMapperError::InvalidValue {
        type_ref: TypeRef { app: app.clone(), type_: ty.clone() },
        field: field.clone(),
    }
}

/// Parses one non-encrypted, non-null `_id` field.
fn parse_id_field_exec(
    app: &String,
    ty: &String,
    ek: ElementType,
    name: &String,
    mv: ModelValue,
    v: &JsonElement,
) -> (r: Result<ElementValue, InstanceMapperError>)
    ensures
        match r {
            Ok(ev) => spec_parse_id_field(app@, ty@, ek, name@, mv, v@) == Ok::<
                ElemVal,
                MapperErrV,
            >(ev@) && elem_wf(ev) && spec_serialize_id_field(app@, ty@, ek, name@, mv, ev@) == Ok::<
                JsonVal,
                MapperErrV,
            >(v@),
            Err(e) => spec_parse_id_field(app@, ty@, ek, name@, mv, v@) == Err::<
                ElemVal,
                MapperErrV,
            >(e@),
        },
{
    let id_typed = matches!(mv.value_type, ValueType::GeneratedId) || matches!(
        mv.value_type,
        ValueType::CustomId,
    );
    match v {
        JsonElement::Str(s) => {
            if id_typed && (matches!(ek, ElementType::Element) || matches!(
                ek,
                ElementType::Aggregated,
            )) {
                if matches!(mv.value_type, ValueType::GeneratedId) {
                    Ok(ElementValue::GeneratedId(s.clone()))
                } else {
                    Ok(ElementValue::CustomId(s.clone()))
                }
            } else {
                Err(invalid_value(app, ty, name))
            }
        },
        JsonElement::Array(arr) => {
            proof {
                lemma_json_seq_view_len(arr@);
            }
            if id_typed && matches!(ek, ElementType::ListElement) && arr.len() == 2 {
                proof {
                    lemma_json_seq_view_index(arr@, 0);
                    lemma_json_seq_view_index(arr@, 1);
                }
                match (&arr[0], &arr[1]) {
                    (JsonElement::Str(l), JsonElement::Str(e)) => {
                        let ev = ElementValue::IdTupleId(IdTuple::new(l.clone(), e.clone()));
                        proof {
                            assert(json_seq_view(arr@) =~= seq![
                                JsonVal::Str(l@),
                                JsonVal::Str(e@),
                            ]);
                        }
                        Ok(ev)
                    },
                    _ => Err(invalid_value(app, ty, name)),
                }
            } else {
                Err(invalid_value(app, ty, name))
            }
        },
        _ => Err(invalid_value(app, ty, name)),
    }
}

/// Parses one non-encrypted, non-null, non-`_id` scalar field.
fn parse_scalar_exec(
    app: &String,
    ty: &String,
    name: &String,
    mv: ModelValue,
    v: &JsonElement,
) -> (r: Result<ElementValue, InstanceMapperError>)
    ensures
        match r {
            Ok(ev) => spec_parse_scalar(app@, ty@, name@, mv, v@) == Ok::<ElemVal, MapperErrV>(ev@)
                && elem_wf(ev) && spec_serialize_scalar(app@, ty@, name@, mv, ev@) == Ok::<
                JsonVal,
                MapperErrV,
            >(v@),
            Err(e) => spec_parse_scalar(app@, ty@, name@, mv, v@) == Err::<ElemVal, MapperErrV>(
                e@,
            ),
        },
{
    match v {
        JsonElement::Str(s) => match mv.value_type {
            ValueType::Str => Ok(ElementValue::Str(s.clone())),
            ValueType::Number => {
                let cs = str_chars(s.as_str());
                match parse_dec_i64(&cs) {
                    Some(n) => {
                        proof {
                            lemma_render_of_parse_i64(s@, n);
                        }
                        Ok(ElementValue::Number(n))
                    },
                    None => Err(invalid_value(app, ty, name)),
                }
            },
            ValueType::Bytes => match b64_std_decode(s.as_str()) {
                Some(b) => Ok(ElementValue::Bytes(b)),
                None => Err(invalid_value(app, ty, name)),
            },
            ValueType::Date => {
                let cs = str_chars(s.as_str());
                proof {
                    assert(cs@.skip(0) =~= cs@);
                }
                match parse_dec_u64_from(&cs, 0) {
                    Some(n) => {
                        proof {
                            lemma_render_of_parse_u64(s@, n);
                        }
                        Ok(ElementValue::Date(n))
                    },
                    None => Err(invalid_value(app, ty, name)),
                }
            },
            ValueType::Boolean => {
                if *s == "0".to_owned() {
                    Ok(ElementValue::Bool(false))
                } else if *s == "1".to_owned() {
                    Ok(ElementValue::Bool(true))
                } else {
                    Err(invalid_value(app, ty, name))
                }
            },
            ValueType::GeneratedId => Ok(ElementValue::GeneratedId(s.clone())),
            ValueType::CustomId => Ok(ElementValue::CustomId(s.clone())),
            ValueType::CompressedString => Err(
                InstanceMapperError::NotImplemented {
                    type_ref: TypeRef { app: app.clone(), type_: ty.clone() },
                    field: name.clone(),
                },
            ),
        },
        _ => Err(invalid_value(app, ty, name)),
    }
}

/// Parses one declared value field: encrypted fields pass through verbatim,
/// a null wire value of a `ZeroOrOne` field yields `Null` before any
/// conversion, and everything else converts by its declared type.
fn parse_field_exec(
    app: &String,
    ty: &String,
    ek: ElementType,
    name: &String,
    mv: ModelValue,
    v: &JsonElement,
) -> (r: Result<ElementValue, InstanceMapperError>)
    ensures
        match r {
            Ok(ev) => spec_parse_field(app@, ty@, ek, name@, mv, v@) == Ok::<ElemVal, MapperErrV>(
                ev@,
            ) && elem_wf(ev) && spec_serialize_field(app@, ty@, ek, name@, mv, ev@) == Ok::<
                JsonVal,
                MapperErrV,
            >(v@),
            Err(e) => spec_parse_field(app@, ty@, ek, name@, mv, v@) == Err::<ElemVal, MapperErrV>(
                e@,
            ),
        },
{
    if mv.encrypted {
        match v {
            JsonElement::Str(s) => Ok(ElementValue::Str(s.clone())),
            JsonElement::Null => Ok(ElementValue::Null),
            _ => Err(invalid_value(app, ty, name)),
        }
    } else if matches!(mv.cardinality, Cardinality::ZeroOrOne) && matches!(v, JsonElement::Null) {
        Ok(ElementValue::Null)
    } else {
        proof {
            assert(!(mv.cardinality == Cardinality::ZeroOrOne && v@ == JsonVal::Null));
        }
        if *name == "_id".to_owned() {
            parse_id_field_exec(app, ty, ek, name, mv, v)
        } else {
            parse_scalar_exec(app, ty, name, mv, v)
        }
    }
}

/// Provides serialization and deserialization functions for entities.
pub struct InstanceMapper {
    type_model_provider: TypeModelProvider,
}

impl InstanceMapper {
    /// The schema table the codec works against.
    pub closed spec fn models(&self) -> ModelMap {
        self.type_model_provider@
    }

    pub closed spec fn wf(&self) -> bool {
        self.type_model_provider.wf()
    }

    pub fn new(type_model_provider: TypeModelProvider) -> (r: InstanceMapper)
        requires
            type_model_provider.wf(),
        ensures
            r.wf(),
            r.models() == type_model_provider@,
    {
        InstanceMapper { type_model_provider }
    }

    /// Parses one declared association field, dispatching on its kind, its
    /// cardinality and the wire shape.
    fn parse_assoc_value(
        &self,
        app: &String,
        ty: &String,
        name: &String,
        ma: &ModelAssociation,
        v: &JsonElement,
    ) -> (r: Result<ElementValue, InstanceMapperError>)
        requires
            self.wf(),
            json_wf(*v),
        ensures
            match r {
                Ok(ev) => spec_parse_assoc_value(self.models(), app@, ty@, name@, ma@, v@) == Ok::<
                    ElemVal,
                    MapperErrV,
                >(ev@) && elem_wf(ev) && entity_exact_assoc_value(self.models(), app@, ma@, ev@)
                    && (wire_exact_assoc_value(self.models(), app@, ma@, v@)
                    ==> spec_serialize_assoc_value(self.models(), app@, ty@, name@, ma@, ev@)
                    == Ok::<JsonVal, MapperErrV>(v@)),
                Err(e) => spec_parse_assoc_value(self.models(), app@, ty@, name@, ma@, v@) == Err::<
                    ElemVal,
                    MapperErrV,
                >(e@),
            },
        decreases *v, 0int, 0int,
    {
        let one_or_opt = matches!(ma.cardinality, Cardinality::One) || matches!(
            ma.cardinality,
            Cardinality::ZeroOrOne,
        );
        match v {
            JsonElement::Dict(d) => {
                if matches!(ma.association_type, AssociationType::Aggregation) && one_or_opt {
                    match self.parse_fields(app, &ma.ref_type, d) {
                        Ok(p) => Ok(ElementValue::Dict(p)),
                        Err(e) => Err(e),
                    }
                } else {
                    Err(invalid_value(app, ty, name))
                }
            },
            JsonElement::Array(els) => {
                proof {
                    assert(els@.skip(0) =~= els@);
                }
                let is_agg_list = (matches!(ma.association_type, AssociationType::Aggregation)
                    || matches!(ma.association_type, AssociationType::ListElementAssociation))
                    && matches!(ma.cardinality, Cardinality::Any);
                if is_agg_list {
                    match self.parse_arr(app, &ma.ref_type, name, els, 0) {
                        Ok(evs) => Ok(ElementValue::Array(evs)),
                        Err(e) => Err(e),
                    }
                } else if matches!(ma.association_type, AssociationType::ListElementAssociation)
                    && matches!(ma.cardinality, Cardinality::One) {
                    proof {
                        lemma_json_seq_view_len(els@);
                    }
                    if els.len() == 2 {
                        proof {
                            lemma_json_seq_view_index(els@, 0);
                            lemma_json_seq_view_index(els@, 1);
                        }
                        match (&els[0], &els[1]) {
                            (JsonElement::Str(l), JsonElement::Str(e)) => {
                                let ev = ElementValue::IdTupleId(
                                    IdTuple::new(l.clone(), e.clone()),
                                );
                                proof {
                                    assert(json_seq_view(els@) =~= seq![
                                        JsonVal::Str(l@),
                                        JsonVal::Str(e@),
                                    ]);
                                }
                                Ok(ev)
                            },
                            _ => Err(invalid_value(app, &ma.ref_type, name)),
                        }
                    } else {
                        Err(invalid_value(app, &ma.ref_type, name))
                    }
                } else if matches!(ma.association_type, AssociationType::BlobElementAssociation) {
                    match self.parse_arr(app, &ma.ref_type, name, els, 0) {
                        Ok(evs) => Ok(ElementValue::Array(evs)),
                        Err(e) => Err(e),
                    }
                } else {
                    Err(invalid_value(app, ty, name))
                }
            },
            JsonElement::Null => {
                if matches!(ma.cardinality, Cardinality::ZeroOrOne) {
                    Ok(ElementValue::Null)
                } else {
                    Err(invalid_value(app, ty, name))
                }
            },
            JsonElement::Str(s) => {
                if (matches!(ma.association_type, AssociationType::ElementAssociation) || matches!(
                    ma.association_type,
                    AssociationType::ListAssociation,
                )) && one_or_opt {
                    Ok(ElementValue::GeneratedId(s.clone()))
                } else {
                    Err(invalid_value(app, ty, name))
                }
            },
        }
    }

    /// Parses the elements of an aggregated array from `i` on: each element
    /// is either a nested entity or a bare string.
    fn parse_arr(
        &self,
        app: &String,
        ref_ty: &String,
        name: &String,
        els: &Vec<JsonElement>,
        i: usize,
    ) -> (r: Result<Vec<ElementValue>, InstanceMapperError>)
        requires
            self.wf(),
            i <= els@.len(),
            forall|j: int| 0 <= j < els@.len() ==> json_wf(#[trigger] els@[j]),
        ensures
            match r {
                Ok(evs) => spec_parse_arr(
                    self.models(),
                    app@,
                    ref_ty@,
                    name@,
                    json_seq_view(els@.skip(i as int)),
                ) == Ok::<Seq<ElemVal>, MapperErrV>(elem_seq_view(evs@)) && (forall|j: int|
                    0 <= j < evs@.len() ==> elem_wf(#[trigger] evs@[j])) && entity_exact_arr(
                    self.models(),
                    app@,
                    ref_ty@,
                    elem_seq_view(evs@),
                ) && (wire_exact_arr(self.models(), app@, ref_ty@, json_seq_view(els@.skip(i as int)))
                    ==> spec_serialize_arr(
                    self.models(),
                    app@,
                    ref_ty@,
                    name@,
                    elem_seq_view(evs@),
                ) == Ok::<Seq<JsonVal>, MapperErrV>(json_seq_view(els@.skip(i as int)))),
                Err(e) => spec_parse_arr(
                    self.models(),
                    app@,
                    ref_ty@,
                    name@,
                    json_seq_view(els@.skip(i as int)),
                ) == Err::<Seq<ElemVal>, MapperErrV>(e@),
            },
        decreases *els, 1int, els@.len() - i,
    {
        let ghost tail = els@.skip(i as int);
        proof {
            lemma_json_seq_view_len(tail);
        }
        if i == els.len() {
            let evs: Vec<ElementValue> = Vec::new();
            proof {
                assert(elem_seq_view(evs@) =~= Seq::<ElemVal>::empty());
                assert(json_seq_view(tail) =~= Seq::<JsonVal>::empty());
            }
            Ok(evs)
        } else {
            proof {
                lemma_json_seq_view_index(tail, 0);
                assert(tail[0] == els@[i as int]);
                assert(tail.drop_first() =~= els@.skip(i as int + 1));
            }
            let first: Result<ElementValue, InstanceMapperError> = match &els[i] {
                JsonElement::Dict(d) => {
                    match self.parse_fields(app, ref_ty, d) {
                        Ok(p) => Ok(ElementValue::Dict(p)),
                        Err(e) => Err(e),
                    }
                },
                JsonElement::Str(s) => Ok(ElementValue::Str(s.clone())),
                _ => Err(invalid_value(app, ref_ty, name)),
            };
            proof {
                lemma_json_seq_view_len(tail.drop_first());
                assert forall|j: int| 0 <= j < tail.len() implies #[trigger] json_seq_view(tail)[j]
                    == json_view(tail[j]) by {
                    lemma_json_seq_view_index(tail, j);
                }
                assert forall|j: int|
                    0 <= j < tail.drop_first().len() implies #[trigger] json_seq_view(
                    tail.drop_first(),
                )[j] == json_view(tail.drop_first()[j]) by {
                    lemma_json_seq_view_index(tail.drop_first(), j);
                }
                assert(json_seq_view(tail) =~= seq![json_view(els@[i as int])] + json_seq_view(
                    tail.drop_first(),
                ));
                assert(json_seq_view(tail).drop_first() =~= json_seq_view(tail.drop_first()));
                assert(json_seq_view(tail)[0] == json_view(els@[i as int]));
            }
            match first {
                Err(e) => Err(e),
                Ok(ev) => {
                    match self.parse_arr(app, ref_ty, name, els, i + 1) {
                        Err(e) => Err(e),
                        Ok(mut rest) => {
                            let ghost old_rest = rest@;
                            rest.insert(0, ev);
                            proof {
                                lemma_elem_seq_view_len(rest@);
                                lemma_elem_seq_view_len(old_rest);
                                assert forall|j: int| 0 <= j < rest@.len() implies elem_seq_view(
                                    rest@,
                                )[j] == elem_view(rest@[j]) by {
                                    lemma_elem_seq_view_index(rest@, j);
                                }
                                assert forall|j: int| 0 <= j < old_rest.len() implies elem_seq_view(
                                    old_rest,
                                )[j] == elem_view(old_rest[j]) by {
                                    lemma_elem_seq_view_index(old_rest, j);
                                }
                                assert(elem_seq_view(rest@) =~= seq![elem_view(ev)] + elem_seq_view(
                                    old_rest,
                                ));
                                assert(elem_seq_view(rest@).drop_first() =~= elem_seq_view(old_rest));
                                assert(elem_seq_view(rest@)[0] == elem_view(ev));
                                assert(spec_parse_arr(
                                    self.models(),
                                    app@,
                                    ref_ty@,
                                    name@,
                                    json_seq_view(tail),
                                ) == Ok::<Seq<ElemVal>, MapperErrV>(elem_seq_view(rest@)));
                                assert(forall|j: int|
                                    0 <= j < rest@.len() ==> elem_wf(#[trigger] rest@[j]));
                                assert(entity_exact_arr(
                                    self.models(),
                                    app@,
                                    ref_ty@,
                                    elem_seq_view(rest@),
                                ));
                                if wire_exact_arr(self.models(), app@, ref_ty@, json_seq_view(tail)) {
                                    assert(spec_serialize_arr(
                                        self.models(),
                                        app@,
                                        ref_ty@,
                                        name@,
                                        elem_seq_view(rest@),
                                    ) == Ok::<Seq<JsonVal>, MapperErrV>(json_seq_view(tail)));
                                }
                            }
                            Ok(rest)
                        },
                    }
                },
            }
        }
    }

    /// Parses a wire entity against the schema for (`app`, `ty`): every
    /// declared value field, then every declared association field, in
    /// declaration order; undeclared wire fields are ignored.
    #[verifier::rlimit(60)]
    fn parse_fields(
        &self,
        app: &String,
        ty: &String,
        raw: &Vec<(String, JsonElement)>,
    ) -> (r: Result<ParsedEntity, InstanceMapperError>)
        requires
            self.wf(),
            json_fields_wf(raw@),
        ensures
            match r {
                Ok(e) => spec_parse_entity(self.models(), app@, ty@, raw_entity_view(raw@)) == Ok::<
                    Map<Seq<char>, ElemVal>,
                    MapperErrV,
                >(parsed_entity_view(e@)) && elem_fields_wf(e@) && entity_exact(
                    self.models(),
                    app@,
                    ty@,
                    parsed_entity_view(e@),
                ) && (wire_exact(self.models(), app@, ty@, raw_entity_view(raw@))
                    ==> spec_serialize_entity(self.models(), app@, ty@, parsed_entity_view(e@))
                    == Ok::<Map<Seq<char>, JsonVal>, MapperErrV>(raw_entity_view(raw@))),
                Err(err) => spec_parse_entity(self.models(), app@, ty@, raw_entity_view(raw@))
                    == Err::<Map<Seq<char>, ElemVal>, MapperErrV>(err@),
            },
        decreases *raw, 2int, 0int,
    {
        let ghost models = self.models();
        let ghost rawm = raw_entity_view(raw@);
        proof {
            lemma_assoc_map_finite(json_pairs_view(raw@));
        }
        let tm = match self.type_model_provider.get_type_model(app, ty) {
            Some(tm) => tm,
            None => {
                return Err(
                    InstanceMapperError::TypeNotFound {
                        type_ref: TypeRef { app: app.clone(), type_: ty.clone() },
                    },
                );
            },
        };
        proof {
            self.type_model_provider.lemma_models_wf((app@, ty@));
        }
        let ghost tmv = models[(app@, ty@)];
        let ghost ek = tmv.element_type;

        // Value fields.
        let mut vout: Vec<(String, ElementValue)> = Vec::new();
        let nv = tm.values.len();
        for vi in 0..nv
            invariant
                self.wf(),
                json_fields_wf(raw@),
                models == self.models(),
                rawm == raw_entity_view(raw@),
                rawm.dom().finite(),
                models.contains_key((app@, ty@)),
                tmv == models[(app@, ty@)],
                tmv == tm@,
                ek == tmv.element_type,
                crate::metamodel::type_model_wf(tmv),
                nv == tm.values@.len(),
                vout@.len() == vi,
                forall|i: int| 0 <= i < vi ==> #[trigger] vout@[i].0@ == tmv.values[i].0,
                forall|i: int| 0 <= i < vi ==> rawm.contains_key(#[trigger] tmv.values[i].0),
                forall|i: int|
                    0 <= i < vi ==> spec_parse_field(
                        app@,
                        ty@,
                        ek,
                        #[trigger] tmv.values[i].0,
                        tmv.values[i].1,
                        rawm[tmv.values[i].0],
                    ) == Ok::<ElemVal, MapperErrV>(elem_view(vout@[i].1)),
                forall|i: int| 0 <= i < vi ==> elem_wf(#[trigger] vout@[i].1),
                forall|i: int|
                    0 <= i < vi ==> spec_serialize_field(
                        app@,
                        ty@,
                        ek,
                        #[trigger] tmv.values[i].0,
                        tmv.values[i].1,
                        elem_view(vout@[i].1),
                    ) == Ok::<JsonVal, MapperErrV>(rawm[tmv.values[i].0]),
        {
            let name = &tm.values[vi].0;
            let mv = tm.values[vi].1;
            let ghost old_vout = vout@;
            match lookup_json_field(raw, name) {
                None => {
                    proof {
                        lemma_parse_values_err(app@, ty@, ek, tmv.values, rawm, vi as int);
                    }
                    return Err(invalid_value(app, ty, name));
                },
                Some(v) => {
                    match parse_field_exec(app, ty, tm.element_type, name, mv, v) {
                        Err(e) => {
                            proof {
                                lemma_parse_values_err(app@, ty@, ek, tmv.values, rawm, vi as int);
                            }
                            return Err(e);
                        },
                        Ok(ev) => {
                            vout.push((name.clone(), ev));
                            proof {
                                assert(vout@ =~= old_vout.push((tm.values@[vi as int].0, vout@[vi as int].1)));
                            }
                        },
                    }
                },
            }
        }

        let ghost valmap = parsed_entity_view(vout@);
        proof {
            lemma_elem_pairs_view_len(vout@);
            assert forall|i: int| 0 <= i < vout@.len() implies #[trigger] elem_pairs_view(vout@)[i]
                == (tmv.values[i].0, elem_view(vout@[i].1)) by {
                lemma_elem_pairs_view_index(vout@, i);
            }
            assert(keys_unique(elem_pairs_view(vout@)));
            lemma_assoc_map_dom(elem_pairs_view(vout@));
            assert(valmap.dom() =~= key_set(tmv.values)) by {
                assert forall|k: Seq<char>| #[trigger] key_set(
                    elem_pairs_view(vout@),
                ).contains(k) <==> key_set(tmv.values).contains(k) by {
                    if key_set(elem_pairs_view(vout@)).contains(k) {
                        let i = choose|i: int|
                            0 <= i < elem_pairs_view(vout@).len() && elem_pairs_view(vout@)[i].0
                                == k;
                        assert(tmv.values[i].0 == k);
                    }
                    if key_set(tmv.values).contains(k) {
                        let i = choose|i: int| 0 <= i < tmv.values.len() && tmv.values[i].0 == k;
                        assert(elem_pairs_view(vout@)[i].0 == k);
                    }
                }
            }
            assert forall|i: int| 0 <= i < tmv.values.len() implies valmap[#[trigger] tmv.values[i].0]
                == elem_view(vout@[i].1) by {
                lemma_assoc_map_index(elem_pairs_view(vout@), i);
            }
            lemma_parse_values_ok(app@, ty@, ek, tmv.values, rawm, valmap);
        }

        // Association fields.
        let mut aout: Vec<(String, ElementValue)> = Vec::new();
        let na = tm.associations.len();
        for ai in 0..na
            invariant
                self.wf(),
                json_fields_wf(raw@),
                models == self.models(),
                rawm == raw_entity_view(raw@),
                rawm.dom().finite(),
                models.contains_key((app@, ty@)),
                tmv == models[(app@, ty@)],
                tmv == tm@,
                ek == tmv.element_type,
                crate::metamodel::type_model_wf(tmv),
                na == tm.associations@.len(),
                aout@.len() == ai,
                spec_parse_values(app@, ty@, ek, tmv.values, rawm) == Ok::<
                    Map<Seq<char>, ElemVal>,
                    MapperErrV,
                >(valmap),
                forall|i: int| 0 <= i < ai ==> #[trigger] aout@[i].0@ == tmv.associations[i].0,
                forall|i: int| 0 <= i < ai ==> rawm.contains_key(#[trigger] tmv.associations[i].0),
                forall|i: int|
                    0 <= i < ai ==> spec_parse_assoc_value(
                        models,
                        app@,
                        ty@,
                        #[trigger] tmv.associations[i].0,
                        tmv.associations[i].1,
                        rawm[tmv.associations[i].0],
                    ) == Ok::<ElemVal, MapperErrV>(elem_view(aout@[i].1)),
                forall|i: int| 0 <= i < ai ==> elem_wf(#[trigger] aout@[i].1),
                forall|i: int|
                    0 <= i < ai ==> entity_exact_assoc_value(
                        models,
                        app@,
                        tmv.associations[i].1,
                        elem_view(#[trigger] aout@[i].1),
                    ),
                forall|i: int|
                    0 <= i < ai ==> (wire_exact_assoc_value(
                        models,
                        app@,
                        tmv.associations[i].1,
                        rawm[tmv.associations[i].0],
                    ) ==> spec_serialize_assoc_value(
                        models,
                        app@,
                        ty@,
                        #[trigger] tmv.associations[i].0,
                        tmv.associations[i].1,
                        elem_view(aout@[i].1),
                    ) == Ok::<JsonVal, MapperErrV>(rawm[tmv.associations[i].0])),
        {
            let name = &tm.associations[ai].0;
            let ma = &tm.associations[ai].1;
            let ghost old_aout = aout@;
            match lookup_json_field(raw, name) {
                None => {
                    proof {
                        lemma_parse_assocs_err(models, app@, ty@, tmv.associations, rawm, ai as int);
                    }
                    return Err(invalid_value(app, ty, name));
                },
                Some(v) => {
                    proof {
                        let j = choose|j: int|
                            0 <= j < raw@.len() && #[trigger] raw@[j].1 == *v && json_wf(raw@[j].1)
                                == json_wf(*v);
                        assert(json_wf(raw@[j].1));
                    }
                    match self.parse_assoc_value(app, ty, name, ma, v) {
                        Err(e) => {
                            proof {
                                lemma_parse_assocs_err(
                                    models,
                                    app@,
                                    ty@,
                                    tmv.associations,
                                    rawm,
                                    ai as int,
                                );
                            }
                            return Err(e);
                        },
                        Ok(ev) => {
                            aout.push((name.clone(), ev));
                            proof {
                                assert(aout@ =~= old_aout.push(
                                    (tm.associations@[ai as int].0, aout@[ai as int].1),
                                ));
                            }
                        },
                    }
                },
            }
        }

        let ghost amap = parsed_entity_view(aout@);
        proof {
            lemma_elem_pairs_view_len(aout@);
            assert forall|i: int| 0 <= i < aout@.len() implies #[trigger] elem_pairs_view(aout@)[i]
                == (tmv.associations[i].0, elem_view(aout@[i].1)) by {
                lemma_elem_pairs_view_index(aout@, i);
            }
            assert(keys_unique(elem_pairs_view(aout@)));
            lemma_assoc_map_dom(elem_pairs_view(aout@));
            assert(amap.dom() =~= key_set(tmv.associations)) by {
                assert forall|k: Seq<char>| #[trigger] key_set(
                    elem_pairs_view(aout@),
                ).contains(k) <==> key_set(tmv.associations).contains(k) by {
                    if key_set(elem_pairs_view(aout@)).contains(k) {
                        let i = choose|i: int|
                            0 <= i < elem_pairs_view(aout@).len() && elem_pairs_view(aout@)[i].0
                                == k;
                        assert(tmv.associations[i].0 == k);
                    }
                    if key_set(tmv.associations).contains(k) {
                        let i = choose|i: int|
                            0 <= i < tmv.associations.len() && tmv.associations[i].0 == k;
                        assert(elem_pairs_view(aout@)[i].0 == k);
                    }
                }
            }
            assert forall|i: int| 0 <= i < tmv.associations.len() implies amap[#[trigger] tmv.associations[i].0]
                == elem_view(aout@[i].1) by {
                lemma_assoc_map_index(elem_pairs_view(aout@), i);
            }
            lemma_parse_assocs_ok(models, app@, ty@, tmv.associations, rawm, amap);
        }

        // Assemble the entity.
        let ghost vsnap = vout@;
        let mut out = vout;
        let mut atail = aout;
        let ghost asnap = atail@;
        out.append(&mut atail);
        let ghost ent = parsed_entity_view(out@);
        proof {
            assert(out@ == vsnap + asnap);
            crate::element_value::lemma_elem_pairs_view_concat(vsnap, asnap);
            lemma_assoc_map_concat(elem_pairs_view(vsnap), elem_pairs_view(asnap));
            assert(ent =~= valmap.union_prefer_right(amap));
            assert(spec_parse_entity(models, app@, ty@, rawm) == Ok::<
                Map<Seq<char>, ElemVal>,
                MapperErrV,
            >(ent));

            // Well-formedness of the assembled entity.
            lemma_elem_pairs_view_len(out@);
            assert forall|i: int| 0 <= i < out@.len() implies #[trigger] elem_pairs_view(out@)[i]
                == (out@[i].0@, elem_view(out@[i].1)) by {
                lemma_elem_pairs_view_index(out@, i);
            }
            assert(keys_unique(elem_pairs_view(out@))) by {
                assert forall|i: int, j: int|
                    0 <= i < j < elem_pairs_view(out@).len() implies elem_pairs_view(out@)[i].0
                    != elem_pairs_view(out@)[j].0 by {
                    let nvl = vsnap.len() as int;
                    if i < nvl && j >= nvl {
                        assert(key_set(tmv.values).contains(tmv.values[i].0));
                        assert(key_set(tmv.associations).contains(tmv.associations[j - nvl].0));
                    }
                }
            }
            assert(elem_fields_wf(out@));

            // The entity carries exactly the declared fields.
            assert(ent.dom() =~= declared_keys(tmv)) by {
                lemma_assoc_map_dom(elem_pairs_view(out@));
            }
            lemma_assoc_map_finite(elem_pairs_view(out@));
            assert forall|i: int|
                0 <= i < tmv.associations.len() && ent.contains_key(
                    #[trigger] tmv.associations[i].0,
                ) implies entity_exact_assoc_value(
                models,
                app@,
                tmv.associations[i].1,
                ent[tmv.associations[i].0],
            ) by {
                assert(ent[tmv.associations[i].0] == amap[tmv.associations[i].0]) by {
                    assert(!valmap.dom().contains(tmv.associations[i].0)) by {
                        assert(key_set(tmv.associations).contains(tmv.associations[i].0));
                    }
                }
            }
            lemma_entity_exact_assocs_intro(models, app@, tmv.associations, ent);
            assert(entity_exact(models, app@, ty@, ent));

            // Round trip: serialising the parse result restores an exact
            // wire entity.
            if wire_exact(models, app@, ty@, rawm) {
                assert(rawm.dom() == declared_keys(tmv));
                assert forall|i: int| 0 <= i < tmv.values.len() implies ent.contains_key(
                    #[trigger] tmv.values[i].0,
                ) && spec_serialize_field(
                    app@,
                    ty@,
                    ek,
                    tmv.values[i].0,
                    tmv.values[i].1,
                    ent[tmv.values[i].0],
                ) == Ok::<JsonVal, MapperErrV>(rawm[tmv.values[i].0]) by {
                    assert(key_set(tmv.values).contains(tmv.values[i].0));
                    assert(ent[tmv.values[i].0] == valmap[tmv.values[i].0]) by {
                        assert(!key_set(tmv.associations).contains(tmv.values[i].0));
                        assert(!amap.dom().contains(tmv.values[i].0));
                    }
                }
                let vraw = rawm.restrict(key_set(tmv.values));
                assert(vraw.dom() =~= key_set(tmv.values)) by {
                    assert forall|i: int| 0 <= i < tmv.values.len() implies rawm.dom().contains(
                        #[trigger] tmv.values[i].0,
                    ) by {}
                }
                lemma_serialize_values_ok(app@, ty@, ek, tmv.values, ent, vraw);
                assert forall|i: int|
                    0 <= i < tmv.associations.len() implies ent.contains_key(
                    #[trigger] tmv.associations[i].0,
                ) && spec_serialize_assoc_value(
                    models,
                    app@,
                    ty@,
                    tmv.associations[i].0,
                    tmv.associations[i].1,
                    ent[tmv.associations[i].0],
                ) == Ok::<JsonVal, MapperErrV>(rawm[tmv.associations[i].0]) by {
                    assert(key_set(tmv.associations).contains(tmv.associations[i].0));
                    assert(ent[tmv.associations[i].0] == amap[tmv.associations[i].0]) by {
                        assert(!valmap.dom().contains(tmv.associations[i].0));
                    }
                    lemma_wire_exact_assocs_at(models, app@, tmv.associations, rawm, i);
                }
                let araw = rawm.restrict(key_set(tmv.associations));
                assert(araw.dom() =~= key_set(tmv.associations)) by {
                    assert forall|i: int|
                        0 <= i < tmv.associations.len() implies rawm.dom().contains(
                        #[trigger] tmv.associations[i].0,
                    ) by {}
                }
                lemma_serialize_assocs_ok(models, app@, ty@, tmv.associations, ent, araw);
                assert(vraw.union_prefer_right(araw) =~= rawm);
                assert(spec_serialize_entity(models, app@, ty@, ent) == Ok::<
                    Map<Seq<char>, JsonVal>,
                    MapperErrV,
                >(rawm));
            }
        }
        Ok(out)
    }

    /// Serialises one declared association field; the mirror of
    /// `parse_assoc_value`.
    fn serialize_assoc_value(
        &self,
        app: &String,
        ty: &String,
        name: &String,
        ma: &ModelAssociation,
        e: &ElementValue,
    ) -> (r: Result<JsonElement, InstanceMapperError>)
        requires
            self.wf(),
            elem_wf(*e),
        ensures
            match r {
                Ok(jv) => spec_serialize_assoc_value(self.models(), app@, ty@, name@, ma@, e@)
                    == Ok::<JsonVal, MapperErrV>(jv@) && json_wf(jv) && wire_exact_assoc_value(
                    self.models(),
                    app@,
                    ma@,
                    jv@,
                ) && (entity_exact_assoc_value(self.models(), app@, ma@, e@)
                    ==> spec_parse_assoc_value(self.models(), app@, ty@, name@, ma@, jv@) == Ok::<
                    ElemVal,
                    MapperErrV,
                >(e@)),
                Err(err) => spec_serialize_assoc_value(self.models(), app@, ty@, name@, ma@, e@)
                    == Err::<JsonVal, MapperErrV>(err@),
            },
        decreases *e, 0int, 0int,
    {
        let one_or_opt = matches!(ma.cardinality, Cardinality::One) || matches!(
            ma.cardinality,
            Cardinality::ZeroOrOne,
        );
        match e {
            ElementValue::Dict(d) => {
                if matches!(ma.association_type, AssociationType::Aggregation) && one_or_opt {
                    match self.serialize_fields(app, &ma.ref_type, d) {
                        Ok(p) => Ok(JsonElement::Dict(p)),
                        Err(err) => Err(err),
                    }
                } else {
                    Err(invalid_value(app, ty, name))
                }
            },
            ElementValue::Array(els) => {
                proof {
                    assert(els@.skip(0) =~= els@);
                }
                let is_agg_list = (matches!(ma.association_type, AssociationType::Aggregation)
                    || matches!(ma.association_type, AssociationType::ListElementAssociation))
                    && matches!(ma.cardinality, Cardinality::Any);
                if is_agg_list {
                    match self.serialize_arr(app, &ma.ref_type, name, els, 0) {
                        Ok(jvs) => Ok(JsonElement::Array(jvs)),
                        Err(err) => Err(err),
                    }
                } else if matches!(ma.association_type, AssociationType::BlobElementAssociation) {
                    match self.serialize_arr(app, &ma.ref_type, name, els, 0) {
                        Ok(jvs) => Ok(JsonElement::Array(jvs)),
                        Err(err) => Err(err),
                    }
                } else {
                    Err(invalid_value(app, ty, name))
                }
            },
            ElementValue::Null => {
                if matches!(ma.cardinality, Cardinality::ZeroOrOne) {
                    Ok(JsonElement::Null)
                } else {
                    Err(invalid_value(app, ty, name))
                }
            },
            ElementValue::GeneratedId(id) => {
                if (matches!(ma.association_type, AssociationType::ElementAssociation) || matches!(
                    ma.association_type,
                    AssociationType::ListAssociation,
                )) && one_or_opt {
                    Ok(JsonElement::Str(id.clone()))
                } else {
                    Err(invalid_value(app, ty, name))
                }
            },
            ElementValue::IdTupleId(t) => {
                if matches!(ma.association_type, AssociationType::ListElementAssociation)
                    && matches!(ma.cardinality, Cardinality::One) {
                    let mut arr: Vec<JsonElement> = Vec::new();
                    arr.push(JsonElement::Str(t.list_id.clone()));
                    arr.push(JsonElement::Str(t.element_id.clone()));
                    proof {
                        lemma_json_seq_view_len(arr@);
                        lemma_json_seq_view_index(arr@, 0);
                        lemma_json_seq_view_index(arr@, 1);
                        assert(json_seq_view(arr@) =~= seq![
                            JsonVal::Str(t.list_id@),
                            JsonVal::Str(t.element_id@),
                        ]);
                        assert(json_wf(arr@[0]));
                        assert(json_wf(arr@[1]));
                        assert forall|i: int| 0 <= i < arr@.len() implies json_wf(
                            #[trigger] arr@[i],
                        ) by {}
                    }
                    Ok(JsonElement::Array(arr))
                } else {
                    Err(invalid_value(app, ty, name))
                }
            },
            _ => Err(invalid_value(app, ty, name)),
        }
    }

    /// Serialises the elements of an aggregated array from `i` on; the
    /// mirror of `parse_arr`.
    fn serialize_arr(
        &self,
        app: &String,
        ref_ty: &String,
        name: &String,
        els: &Vec<ElementValue>,
        i: usize,
    ) -> (r: Result<Vec<JsonElement>, InstanceMapperError>)
        requires
            self.wf(),
            i <= els@.len(),
            forall|j: int| 0 <= j < els@.len() ==> elem_wf(#[trigger] els@[j]),
        ensures
            match r {
                Ok(jvs) => spec_serialize_arr(
                    self.models(),
                    app@,
                    ref_ty@,
                    name@,
                    elem_seq_view(els@.skip(i as int)),
                ) == Ok::<Seq<JsonVal>, MapperErrV>(json_seq_view(jvs@)) && (forall|j: int|
                    0 <= j < jvs@.len() ==> json_wf(#[trigger] jvs@[j])) && wire_exact_arr(
                    self.models(),
                    app@,
                    ref_ty@,
                    json_seq_view(jvs@),
                ) && (entity_exact_arr(
                    self.models(),
                    app@,
                    ref_ty@,
                    elem_seq_view(els@.skip(i as int)),
                ) ==> spec_parse_arr(self.models(), app@, ref_ty@, name@, json_seq_view(jvs@))
                    == Ok::<Seq<ElemVal>, MapperErrV>(elem_seq_view(els@.skip(i as int)))),
                Err(err) => spec_serialize_arr(
                    self.models(),
                    app@,
                    ref_ty@,
                    name@,
                    elem_seq_view(els@.skip(i as int)),
                ) == Err::<Seq<JsonVal>, MapperErrV>(err@),
            },
        decreases *els, 1int, els@.len() - i,
    {
        let ghost tail = els@.skip(i as int);
        proof {
            lemma_elem_seq_view_len(tail);
        }
        if i == els.len() {
            let jvs: Vec<JsonElement> = Vec::new();
            proof {
                assert(json_seq_view(jvs@) =~= Seq::<JsonVal>::empty());
                assert(elem_seq_view(tail) =~= Seq::<ElemVal>::empty());
            }
            Ok(jvs)
        } else {
            proof {
                lemma_elem_seq_view_index(tail, 0);
                assert(tail[0] == els@[i as int]);
                assert(tail.drop_first() =~= els@.skip(i as int + 1));
                lemma_elem_seq_view_len(tail.drop_first());
                assert forall|j: int| 0 <= j < tail.len() implies #[trigger] elem_seq_view(tail)[j]
                    == elem_view(tail[j]) by {
                    lemma_elem_seq_view_index(tail, j);
                }
                assert forall|j: int|
                    0 <= j < tail.drop_first().len() implies #[trigger] elem_seq_view(
                    tail.drop_first(),
                )[j] == elem_view(tail.drop_first()[j]) by {
                    lemma_elem_seq_view_index(tail.drop_first(), j);
                }
                assert(elem_seq_view(tail) =~= seq![elem_view(els@[i as int])] + elem_seq_view(
                    tail.drop_first(),
                ));
                assert(elem_seq_view(tail).drop_first() =~= elem_seq_view(tail.drop_first()));
                assert(elem_seq_view(tail)[0] == elem_view(els@[i as int]));
            }
            let first: Result<JsonElement, InstanceMapperError> = match &els[i] {
                ElementValue::Dict(d) => {
                    match self.serialize_fields(app, ref_ty, d) {
                        Ok(p) => Ok(JsonElement::Dict(p)),
                        Err(err) => Err(err),
                    }
                },
                ElementValue::Str(v) => Ok(JsonElement::Str(v.clone())),
                _ => Err(invalid_value(app, ref_ty, name)),
            };
            match first {
                Err(err) => Err(err),
                Ok(jv) => {
                    match self.serialize_arr(app, ref_ty, name, els, i + 1) {
                        Err(err) => Err(err),
                        Ok(mut rest) => {
                            let ghost old_rest = rest@;
                            rest.insert(0, jv);
                            proof {
                                lemma_json_seq_view_len(rest@);
                                lemma_json_seq_view_len(old_rest);
                                assert forall|j: int| 0 <= j < rest@.len() implies json_seq_view(
                                    rest@,
                                )[j] == json_view(rest@[j]) by {
                                    lemma_json_seq_view_index(rest@, j);
                                }
                                assert forall|j: int| 0 <= j < old_rest.len() implies json_seq_view(
                                    old_rest,
                                )[j] == json_view(old_rest[j]) by {
                                    lemma_json_seq_view_index(old_rest, j);
                                }
                                assert(json_seq_view(rest@) =~= seq![json_view(rest@[0])]
                                    + json_seq_view(old_rest));
                                assert(json_seq_view(rest@).drop_first() =~= json_seq_view(
                                    old_rest,
                                ));
                            }
                            Ok(rest)
                        },
                    }
                },
            }
        }
    }

    /// Serialises a parsed entity against the schema for (`app`, `ty`); the
    /// mirror of `parse_fields`.
    #[verifier::rlimit(60)]
    fn serialize_fields(
        &self,
        app: &String,
        ty: &String,
        ent: &Vec<(String, ElementValue)>,
    ) -> (r: Result<RawEntity, InstanceMapperError>)
        requires
            self.wf(),
            elem_fields_wf(ent@),
        ensures
            match r {
                Ok(raw) => spec_serialize_entity(self.models(), app@, ty@, parsed_entity_view(ent@))
                    == Ok::<Map<Seq<char>, JsonVal>, MapperErrV>(raw_entity_view(raw@))
                    && json_fields_wf(raw@) && wire_exact(
                    self.models(),
                    app@,
                    ty@,
                    raw_entity_view(raw@),
                ) && (entity_exact(self.models(), app@, ty@, parsed_entity_view(ent@))
                    ==> spec_parse_entity(self.models(), app@, ty@, raw_entity_view(raw@)) == Ok::<
                    Map<Seq<char>, ElemVal>,
                    MapperErrV,
                >(parsed_entity_view(ent@))),
                Err(err) => spec_serialize_entity(
                    self.models(),
                    app@,
                    ty@,
                    parsed_entity_view(ent@),
                ) == Err::<Map<Seq<char>, JsonVal>, MapperErrV>(err@),
            },
        decreases *ent, 2int, 0int,
    {
        let ghost models = self.models();
        let ghost entm = parsed_entity_view(ent@);
        proof {
            lemma_assoc_map_finite(elem_pairs_view(ent@));
        }
        let tm = match self.type_model_provider.get_type_model(app, ty) {
            Some(tm) => tm,
            None => {
                return Err(
                    InstanceMapperError::TypeNotFound {
                        type_ref: TypeRef { app: app.clone(), type_: ty.clone() },
                    },
                );
            },
        };
        proof {
            self.type_model_provider.lemma_models_wf((app@, ty@));
        }
        let ghost tmv = models[(app@, ty@)];
        let ghost ek = tmv.element_type;

        // Value fields.
        let mut vout: Vec<(String, JsonElement)> = Vec::new();
        let nv = tm.values.len();
        for vi in 0..nv
            invariant
                self.wf(),
                elem_fields_wf(ent@),
                models == self.models(),
                entm == parsed_entity_view(ent@),
                entm.dom().finite(),
                models.contains_key((app@, ty@)),
                tmv == models[(app@, ty@)],
                tmv == tm@,
                ek == tmv.element_type,
                crate::metamodel::type_model_wf(tmv),
                nv == tm.values@.len(),
                vout@.len() == vi,
                forall|i: int| 0 <= i < vi ==> #[trigger] vout@[i].0@ == tmv.values[i].0,
                forall|i: int| 0 <= i < vi ==> entm.contains_key(#[trigger] tmv.values[i].0),
                forall|i: int|
                    0 <= i < vi ==> spec_serialize_field(
                        app@,
                        ty@,
                        ek,
                        #[trigger] tmv.values[i].0,
                        tmv.values[i].1,
                        entm[tmv.values[i].0],
                    ) == Ok::<JsonVal, MapperErrV>(json_view(vout@[i].1)),
                forall|i: int| 0 <= i < vi ==> json_wf(#[trigger] vout@[i].1),
                forall|i: int|
                    0 <= i < vi ==> spec_parse_field(
                        app@,
                        ty@,
                        ek,
                        #[trigger] tmv.values[i].0,
                        tmv.values[i].1,
                        json_view(vout@[i].1),
                    ) == Ok::<ElemVal, MapperErrV>(entm[tmv.values[i].0]),
        {
            let name = &tm.values[vi].0;
            let mv = tm.values[vi].1;
            let ghost old_vout = vout@;
            match lookup_elem_field(ent, name) {
                None => {
                    proof {
                        lemma_serialize_values_err(app@, ty@, ek, tmv.values, entm, vi as int);
                    }
                    return Err(invalid_value(app, ty, name));
                },
                Some(e) => {
                    match serialize_field_exec(app, ty, tm.element_type, name, mv, e) {
                        Err(err) => {
                            proof {
                                lemma_serialize_values_err(
                                    app@,
                                    ty@,
                                    ek,
                                    tmv.values,
                                    entm,
                                    vi as int,
                                );
                            }
                            return Err(err);
                        },
                        Ok(jv) => {
                            vout.push((name.clone(), jv));
                            proof {
                                assert(vout@ =~= old_vout.push(
                                    (tm.values@[vi as int].0, vout@[vi as int].1),
                                ));
                            }
                        },
                    }
                },
            }
        }

        let ghost valraw = raw_entity_view(vout@);
        proof {
            lemma_json_pairs_view_len(vout@);
            assert forall|i: int| 0 <= i < vout@.len() implies #[trigger] json_pairs_view(vout@)[i]
                == (tmv.values[i].0, json_view(vout@[i].1)) by {
                lemma_json_pairs_view_index(vout@, i);
            }
            assert(keys_unique(json_pairs_view(vout@)));
            lemma_assoc_map_dom(json_pairs_view(vout@));
            assert(valraw.dom() =~= key_set(tmv.values)) by {
                assert forall|k: Seq<char>| #[trigger] key_set(
                    json_pairs_view(vout@),
                ).contains(k) <==> key_set(tmv.values).contains(k) by {
                    if key_set(json_pairs_view(vout@)).contains(k) {
                        let i = choose|i: int|
                            0 <= i < json_pairs_view(vout@).len() && json_pairs_view(vout@)[i].0
                                == k;
                        assert(tmv.values[i].0 == k);
                    }
                    if key_set(tmv.values).contains(k) {
                        let i = choose|i: int| 0 <= i < tmv.values.len() && tmv.values[i].0 == k;
                        assert(json_pairs_view(vout@)[i].0 == k);
                    }
                }
            }
            assert forall|i: int| 0 <= i < tmv.values.len() implies valraw[#[trigger] tmv.values[i].0]
                == json_view(vout@[i].1) by {
                lemma_assoc_map_index(json_pairs_view(vout@), i);
            }
            lemma_serialize_values_ok(app@, ty@, ek, tmv.values, entm, valraw);
        }

        // Association fields.
        let mut aout: Vec<(String, JsonElement)> = Vec::new();
        let na = tm.associations.len();
        for ai in 0..na
            invariant
                self.wf(),
                elem_fields_wf(ent@),
                models == self.models(),
                entm == parsed_entity_view(ent@),
                entm.dom().finite(),
                models.contains_key((app@, ty@)),
                tmv == models[(app@, ty@)],
                tmv == tm@,
                ek == tmv.element_type,
                crate::metamodel::type_model_wf(tmv),
                na == tm.associations@.len(),
                aout@.len() == ai,
                spec_serialize_values(app@, ty@, ek, tmv.values, entm) == Ok::<
                    Map<Seq<char>, JsonVal>,
                    MapperErrV,
                >(valraw),
                forall|i: int| 0 <= i < ai ==> #[trigger] aout@[i].0@ == tmv.associations[i].0,
                forall|i: int| 0 <= i < ai ==> entm.contains_key(#[trigger] tmv.associations[i].0),
                forall|i: int|
                    0 <= i < ai ==> spec_serialize_assoc_value(
                        models,
                        app@,
                        ty@,
                        #[trigger] tmv.associations[i].0,
                        tmv.associations[i].1,
                        entm[tmv.associations[i].0],
                    ) == Ok::<JsonVal, MapperErrV>(json_view(aout@[i].1)),
                forall|i: int| 0 <= i < ai ==> json_wf(#[trigger] aout@[i].1),
                forall|i: int|
                    0 <= i < ai ==> wire_exact_assoc_value(
                        models,
                        app@,
                        tmv.associations[i].1,
                        json_view(#[trigger] aout@[i].1),
                    ),
                forall|i: int|
                    0 <= i < ai ==> (entity_exact_assoc_value(
                        models,
                        app@,
                        tmv.associations[i].1,
                        entm[tmv.associations[i].0],
                    ) ==> spec_parse_assoc_value(
                        models,
                        app@,
                        ty@,
                        #[trigger] tmv.associations[i].0,
                        tmv.associations[i].1,
                        json_view(aout@[i].1),
                    ) == Ok::<ElemVal, MapperErrV>(entm[tmv.associations[i].0])),
        {
            let name = &tm.associations[ai].0;
            let ma = &tm.associations[ai].1;
            let ghost old_aout = aout@;
            match lookup_elem_field(ent, name) {
                None => {
                    proof {
                        lemma_serialize_assocs_err(
                            models,
                            app@,
                            ty@,
                            tmv.associations,
                            entm,
                            ai as int,
                        );
                    }
                    return Err(invalid_value(app, ty, name));
                },
                Some(e) => {
                    proof {
                        let j = choose|j: int|
                            0 <= j < ent@.len() && #[trigger] ent@[j].1 == *e && elem_wf(ent@[j].1)
                                == elem_wf(*e);
                        assert(elem_wf(ent@[j].1));
                    }
                    match self.serialize_assoc_value(app, ty, name, ma, e) {
                        Err(err) => {
                            proof {
                                lemma_serialize_assocs_err(
                                    models,
                                    app@,
                                    ty@,
                                    tmv.associations,
                                    entm,
                                    ai as int,
                                );
                            }
                            return Err(err);
                        },
                        Ok(jv) => {
                            aout.push((name.clone(), jv));
                            proof {
                                assert(aout@ =~= old_aout.push(
                                    (tm.associations@[ai as int].0, aout@[ai as int].1),
                                ));
                            }
                        },
                    }
                },
            }
        }

        let ghost araw = raw_entity_view(aout@);
        proof {
            lemma_json_pairs_view_len(aout@);
            assert forall|i: int| 0 <= i < aout@.len() implies #[trigger] json_pairs_view(aout@)[i]
                == (tmv.associations[i].0, json_view(aout@[i].1)) by {
                lemma_json_pairs_view_index(aout@, i);
            }
            assert(keys_unique(json_pairs_view(aout@)));
            lemma_assoc_map_dom(json_pairs_view(aout@));
            assert(araw.dom() =~= key_set(tmv.associations)) by {
                assert forall|k: Seq<char>| #[trigger] key_set(
                    json_pairs_view(aout@),
                ).contains(k) <==> key_set(tmv.associations).contains(k) by {
                    if key_set(json_pairs_view(aout@)).contains(k) {
                        let i = choose|i: int|
                            0 <= i < json_pairs_view(aout@).len() && json_pairs_view(aout@)[i].0
                                == k;
                        assert(tmv.associations[i].0 == k);
                    }
                    if key_set(tmv.associations).contains(k) {
                        let i = choose|i: int|
                            0 <= i < tmv.associations.len() && tmv.associations[i].0 == k;
                        assert(json_pairs_view(aout@)[i].0 == k);
                    }
                }
            }
            assert forall|i: int| 0 <= i < tmv.associations.len() implies araw[#[trigger] tmv.associations[i].0]
                == json_view(aout@[i].1) by {
                lemma_assoc_map_index(json_pairs_view(aout@), i);
            }
            lemma_serialize_assocs_ok(models, app@, ty@, tmv.associations, entm, araw);
        }

        // Assemble the wire entity.
        let ghost vsnap = vout@;
        let mut out = vout;
        let mut atail = aout;
        let ghost asnap = atail@;
        out.append(&mut atail);
        let ghost rawm = raw_entity_view(out@);
        proof {
            assert(out@ == vsnap + asnap);
            crate::json_element::lemma_json_pairs_view_concat(vsnap, asnap);
            lemma_assoc_map_concat(json_pairs_view(vsnap), json_pairs_view(asnap));
            assert(rawm =~= valraw.union_prefer_right(araw));
            assert(spec_serialize_entity(models, app@, ty@, entm) == Ok::<
                Map<Seq<char>, JsonVal>,
                MapperErrV,
            >(rawm));

            // Well-formedness of the assembled wire entity.
            lemma_json_pairs_view_len(out@);
            assert forall|i: int| 0 <= i < out@.len() implies #[trigger] json_pairs_view(out@)[i]
                == (out@[i].0@, json_view(out@[i].1)) by {
                lemma_json_pairs_view_index(out@, i);
            }
            assert(keys_unique(json_pairs_view(out@))) by {
                assert forall|i: int, j: int|
                    0 <= i < j < json_pairs_view(out@).len() implies json_pairs_view(out@)[i].0
                    != json_pairs_view(out@)[j].0 by {
                    let nvl = vsnap.len() as int;
                    if i < nvl && j >= nvl {
                        assert(key_set(tmv.values).contains(tmv.values[i].0));
                        assert(key_set(tmv.associations).contains(tmv.associations[j - nvl].0));
                    }
                }
            }
            assert(json_fields_wf(out@));

            // The wire entity carries exactly the declared fields.
            assert(rawm.dom() =~= declared_keys(tmv)) by {
                lemma_assoc_map_dom(json_pairs_view(out@));
            }
            lemma_assoc_map_finite(json_pairs_view(out@));
            assert forall|i: int|
                0 <= i < tmv.associations.len() && rawm.contains_key(
                    #[trigger] tmv.associations[i].0,
                ) implies wire_exact_assoc_value(
                models,
                app@,
                tmv.associations[i].1,
                rawm[tmv.associations[i].0],
            ) by {
                assert(rawm[tmv.associations[i].0] == araw[tmv.associations[i].0]) by {
                    assert(!valraw.dom().contains(tmv.associations[i].0)) by {
                        assert(key_set(tmv.associations).contains(tmv.associations[i].0));
                    }
                }
            }
            lemma_wire_exact_assocs_intro(models, app@, tmv.associations, rawm);
            assert(wire_exact(models, app@, ty@, rawm));

            // Round trip: parsing the serialised entity restores an exact
            // parsed entity.
            if entity_exact(models, app@, ty@, entm) {
                assert(entm.dom() == declared_keys(tmv));
                assert forall|i: int| 0 <= i < tmv.values.len() implies rawm.contains_key(
                    #[trigger] tmv.values[i].0,
                ) && spec_parse_field(
                    app@,
                    ty@,
                    ek,
                    tmv.values[i].0,
                    tmv.values[i].1,
                    rawm[tmv.values[i].0],
                ) == Ok::<ElemVal, MapperErrV>(entm[tmv.values[i].0]) by {
                    assert(key_set(tmv.values).contains(tmv.values[i].0));
                    assert(rawm[tmv.values[i].0] == valraw[tmv.values[i].0]) by {
                        assert(!key_set(tmv.associations).contains(tmv.values[i].0));
                        assert(!araw.dom().contains(tmv.values[i].0));
                    }
                }
                let vent = entm.restrict(key_set(tmv.values));
                assert(vent.dom() =~= key_set(tmv.values)) by {
                    assert forall|i: int| 0 <= i < tmv.values.len() implies entm.dom().contains(
                        #[trigger] tmv.values[i].0,
                    ) by {}
                }
                lemma_parse_values_ok(app@, ty@, ek, tmv.values, rawm, vent);
                assert forall|i: int|
                    0 <= i < tmv.associations.len() implies rawm.contains_key(
                    #[trigger] tmv.associations[i].0,
                ) && spec_parse_assoc_value(
                    models,
                    app@,
                    ty@,
                    tmv.associations[i].0,
                    tmv.associations[i].1,
                    rawm[tmv.associations[i].0],
                ) == Ok::<ElemVal, MapperErrV>(entm[tmv.associations[i].0]) by {
                    assert(key_set(tmv.associations).contains(tmv.associations[i].0));
                    assert(rawm[tmv.associations[i].0] == araw[tmv.associations[i].0]) by {
                        assert(!valraw.dom().contains(tmv.associations[i].0));
                    }
                    lemma_entity_exact_assocs_at(models, app@, tmv.associations, entm, i);
                }
                let aent = entm.restrict(key_set(tmv.associations));
                assert(aent.dom() =~= key_set(tmv.associations)) by {
                    assert forall|i: int|
                        0 <= i < tmv.associations.len() implies entm.dom().contains(
                        #[trigger] tmv.associations[i].0,
                    ) by {}
                }
                lemma_parse_assocs_ok(models, app@, ty@, tmv.associations, rawm, aent);
                assert(vent.union_prefer_right(aent) =~= entm);
                assert(spec_parse_entity(models, app@, ty@, rawm) == Ok::<
                    Map<Seq<char>, ElemVal>,
                    MapperErrV,
                >(entm));
            }
        }
        Ok(out)
    }

    /// Creates an entity from wire data, converting every declared field
    /// by the schema's tables.  The contract pins the result to
    /// `spec_parse_entity`, error for error, and states the round-trip
    /// law: on a wire entity that carries exactly the declared fields,
    /// serialising the parse result restores it.
    pub fn parse(&self, type_ref: &TypeRef, raw_entity: RawEntity) -> (r: Result<
        ParsedEntity,
        InstanceMapperError,
    >)
        requires
            self.wf(),
            json_fields_wf(raw_entity@),
        ensures
            match r {
                Ok(e) => spec_parse_entity(
                    self.models(),
                    type_ref.app@,
                    type_ref.type_@,
                    raw_entity_view(raw_entity@),
                ) == Ok::<Map<Seq<char>, ElemVal>, MapperErrV>(parsed_entity_view(e@))
                    && elem_fields_wf(e@) && entity_exact(
                    self.models(),
                    type_ref.app@,
                    type_ref.type_@,
                    parsed_entity_view(e@),
                ) && (wire_exact(
                    self.models(),
                    type_ref.app@,
                    type_ref.type_@,
                    raw_entity_view(raw_entity@),
                ) ==> spec_serialize_entity(
                    self.models(),
                    type_ref.app@,
                    type_ref.type_@,
                    parsed_entity_view(e@),
                ) == Ok::<Map<Seq<char>, JsonVal>, MapperErrV>(raw_entity_view(raw_entity@))),
                Err(err) => spec_parse_entity(
                    self.models(),
                    type_ref.app@,
                    type_ref.type_@,
                    raw_entity_view(raw_entity@),
                ) == Err::<Map<Seq<char>, ElemVal>, MapperErrV>(err@),
            },
    {
        self.parse_fields(&type_ref.app, &type_ref.type_, &raw_entity)
    }

    /// Transforms an entity into wire data; the mirror of `parse`.  The
    /// contract pins the result to `spec_serialize_entity`, error for
    /// error, and states the round-trip law: on an entity that carries
    /// exactly the declared fields — as every parse result does — parsing
    /// the serialised form restores it.
    pub fn serialize(&self, type_ref: &TypeRef, entity: ParsedEntity) -> (r: Result<
        RawEntity,
        InstanceMapperError,
    >)
        requires
            self.wf(),
            elem_fields_wf(entity@),
        ensures
            match r {
                Ok(raw) => spec_serialize_entity(
                    self.models(),
                    type_ref.app@,
                    type_ref.type_@,
                    parsed_entity_view(entity@),
                ) == Ok::<Map<Seq<char>, JsonVal>, MapperErrV>(raw_entity_view(raw@))
                    && json_fields_wf(raw@) && wire_exact(
                    self.models(),
                    type_ref.app@,
                    type_ref.type_@,
                    raw_entity_view(raw@),
                ) && (entity_exact(
                    self.models(),
                    type_ref.app@,
                    type_ref.type_@,
                    parsed_entity_view(entity@),
                ) ==> spec_parse_entity(
                    self.models(),
                    type_ref.app@,
                    type_ref.type_@,
                    raw_entity_view(raw@),
                ) == Ok::<Map<Seq<char>, ElemVal>, MapperErrV>(parsed_entity_view(entity@))),
                Err(err) => spec_serialize_entity(
                    self.models(),
                    type_ref.app@,
                    type_ref.type_@,
                    parsed_entity_view(entity@),
                ) == Err::<Map<Seq<char>, JsonVal>, MapperErrV>(err@),
            },
    {
        self.serialize_fields(&type_ref.app, &type_ref.type_, &entity)
    }
}

/// Serialises one non-encrypted, non-null `_id` field.
fn serialize_id_field_exec(
    app: &String,
    ty: &String,
    ek: ElementType,
    name: &String,
    mv: ModelValue,
    e: &ElementValue,
) -> (r: Result<JsonElement, InstanceMapperError>)
    ensures
        match r {
            Ok(jv) => spec_serialize_id_field(app@, ty@, ek, name@, mv, e@) == Ok::<
                JsonVal,
                MapperErrV,
            >(jv@) && json_wf(jv) && spec_parse_id_field(app@, ty@, ek, name@, mv, jv@) == Ok::<
                ElemVal,
                MapperErrV,
            >(e@),
            Err(err) => spec_serialize_id_field(app@, ty@, ek, name@, mv, e@) == Err::<
                JsonVal,
                MapperErrV,
            >(err@),
        },
{
    match e {
        ElementValue::GeneratedId(id) => {
            if matches!(mv.value_type, ValueType::GeneratedId) && (matches!(ek, ElementType::Element)
                || matches!(ek, ElementType::Aggregated)) {
                Ok(JsonElement::Str(id.clone()))
            } else {
                Err(invalid_value(app, ty, name))
            }
        },
        ElementValue::CustomId(id) => {
            if matches!(mv.value_type, ValueType::CustomId) && (matches!(ek, ElementType::Element)
                || matches!(ek, ElementType::Aggregated)) {
                Ok(JsonElement::Str(id.clone()))
            } else {
                Err(invalid_value(app, ty, name))
            }
        },
        ElementValue::IdTupleId(t) => {
            let id_typed = matches!(mv.value_type, ValueType::GeneratedId) || matches!(
                mv.value_type,
                ValueType::CustomId,
            );
            if id_typed && matches!(ek, ElementType::ListElement) {
                let mut arr: Vec<JsonElement> = Vec::new();
                arr.push(JsonElement::Str(t.list_id.clone()));
                arr.push(JsonElement::Str(t.element_id.clone()));
                proof {
                    lemma_json_seq_view_len(arr@);
                    lemma_json_seq_view_index(arr@, 0);
                    lemma_json_seq_view_index(arr@, 1);
                    assert(json_seq_view(arr@) =~= seq![
                        JsonVal::Str(t.list_id@),
                        JsonVal::Str(t.element_id@),
                    ]);
                    assert(json_wf(arr@[0]));
                    assert(json_wf(arr@[1]));
                    assert forall|i: int| 0 <= i < arr@.len() implies json_wf(
                        #[trigger] arr@[i],
                    ) by {}
                }
                Ok(JsonElement::Array(arr))
            } else {
                Err(invalid_value(app, ty, name))
            }
        },
        _ => Err(invalid_value(app, ty, name)),
    }
}

/// Serialises one non-encrypted, non-null, non-`_id` scalar field.
fn serialize_scalar_exec(
    app: &String,
    ty: &String,
    name: &String,
    mv: ModelValue,
    e: &ElementValue,
) -> (r: Result<JsonElement, InstanceMapperError>)
    ensures
        match r {
            Ok(jv) => spec_serialize_scalar(app@, ty@, name@, mv, e@) == Ok::<JsonVal, MapperErrV>(
                jv@,
            ) && json_wf(jv) && spec_parse_scalar(app@, ty@, name@, mv, jv@) == Ok::<
                ElemVal,
                MapperErrV,
            >(e@),
            Err(err) => spec_serialize_scalar(app@, ty@, name@, mv, e@) == Err::<
                JsonVal,
                MapperErrV,
            >(err@),
        },
{
    match (mv.value_type, e) {
        (ValueType::Str, ElementValue::Str(v)) => Ok(JsonElement::Str(v.clone())),
        (ValueType::Number, ElementValue::Number(n)) => {
            let cs = render_i64(*n);
            let out = crate::strutil::chars_string(&cs);
            proof {
                lemma_parse_of_render_i64(*n);
            }
            Ok(JsonElement::Str(out))
        },
        (ValueType::Bytes, ElementValue::Bytes(b)) => {
            let out = b64_std_encode(b);
            Ok(JsonElement::Str(out))
        },
        (ValueType::Date, ElementValue::Date(d)) => {
            let cs = render_u64(*d);
            let out = crate::strutil::chars_string(&cs);
            proof {
                lemma_parse_of_render_u64(*d);
            }
            Ok(JsonElement::Str(out))
        },
        (ValueType::Boolean, ElementValue::Bool(b)) => {
            proof {
                reveal_strlit("0");
                reveal_strlit("1");
            }
            let out: String = if *b {
                "1".to_owned()
            } else {
                "0".to_owned()
            };
            Ok(JsonElement::Str(out))
        },
        (ValueType::GeneratedId, ElementValue::GeneratedId(v)) => Ok(JsonElement::Str(v.clone())),
        (ValueType::CustomId, ElementValue::CustomId(v)) => Ok(JsonElement::Str(v.clone())),
        (ValueType::CompressedString, ElementValue::Str(_)) => Err(
            InstanceMapperError::NotImplemented {
                type_ref: TypeRef { app: app.clone(), type_: ty.clone() },
                field: name.clone(),
            },
        ),
        _ => Err(invalid_value(app, ty, name)),
    }
}

/// Serialises one declared value field; the mirror of `parse_field_exec`.
fn serialize_field_exec(
    app: &String,
    ty: &String,
    ek: ElementType,
    name: &String,
    mv: ModelValue,
    e: &ElementValue,
) -> (r: Result<JsonElement, InstanceMapperError>)
    ensures
        match r {
            Ok(jv) => spec_serialize_field(app@, ty@, ek, name@, mv, e@) == Ok::<
                JsonVal,
                MapperErrV,
            >(jv@) && json_wf(jv) && spec_parse_field(app@, ty@, ek, name@, mv, jv@) == Ok::<
                ElemVal,
                MapperErrV,
            >(e@),
            Err(err) => spec_serialize_field(app@, ty@, ek, name@, mv, e@) == Err::<
                JsonVal,
                MapperErrV,
            >(err@),
        },
{
    if mv.encrypted {
        match e {
            ElementValue::Str(v) => Ok(JsonElement::Str(v.clone())),
            ElementValue::Null => Ok(JsonElement::Null),
            _ => Err(invalid_value(app, ty, name)),
        }
    } else if matches!(mv.cardinality, Cardinality::ZeroOrOne) && matches!(e, ElementValue::Null) {
        Ok(JsonElement::Null)
    } else {
        proof {
            assert(!(mv.cardinality == Cardinality::ZeroOrOne && e@ == ElemVal::Null));
        }
        if *name == "_id".to_owned() {
            serialize_id_field_exec(app, ty, ek, name, mv, e)
        } else {
            serialize_scalar_exec(app, ty, name, mv, e)
        }
    }
}

} // verus!
