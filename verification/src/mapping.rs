//! What the entity codec computes: schema-driven conversion between wire
//! values and typed values, stated over the mathematical models.
//!
//! `spec_parse_entity` and `spec_serialize_entity` define field for field,
//! by the schema's (kind, cardinality, shape) tables, what parsing and
//! serialising an entity yield — including exactly which error comes back
//! on which input.  The executable codec in `instance_mapper` is proved to
//! return precisely these results, and to round-trip.

use vstd::prelude::*;

use crate::b64::{b64_std_decode_of, b64_std_of};
use crate::decimal::{dec_of, dec_of_i64, spec_parse_i64, spec_parse_u64};
use crate::element_value::ElemVal;
use crate::json_element::JsonVal;
use crate::assoc::key_set;
use crate::metamodel::{
    AssociationType, Cardinality, ElementType, ModelAssociationV, ModelValue, TypeModelV,
    ValueType,
};

verus! {

broadcast use vstd::map::axiom_map_index_decreases_finite;

/// Model of a codec error.
pub enum MapperErrV {
    /// No schema is registered for the (application, type name) pair.
    TypeNotFound { app: Seq<char>, type_: Seq<char> },
    /// A declared field is missing or its wire shape does not fit the
    /// schema entry.
    InvalidValue { app: Seq<char>, type_: Seq<char>, field: Seq<char> },
    /// The field uses an encoding that is reserved and not yet specified
    /// (compressed strings).
    NotImplemented { app: Seq<char>, type_: Seq<char>, field: Seq<char> },
}

/// The schema table: (application, type name) to schema.
pub type ModelMap = Map<(Seq<char>, Seq<char>), TypeModelV>;

/// Parsing one value field.
///
/// An encrypted field passes through verbatim: only a string (opaque
/// ciphertext) or null is accepted, never converted.  Otherwise a null wire
/// value of a `ZeroOrOne` field yields `Null` before any conversion; the
/// `_id` field branches on the entity's element kind; all other fields
/// convert by their declared value type.
pub open spec fn spec_parse_field(
    app: Seq<char>,
    ty: Seq<char>,
    ek: ElementType,
    name: Seq<char>,
    mv: ModelValue,
    v: JsonVal,
) -> Result<ElemVal, MapperErrV> {
    if mv.encrypted {
        match v {
            JsonVal::Str(s) => Ok(ElemVal::Str(s)),
            JsonVal::Null => Ok(ElemVal::Null),
            _ => Err(MapperErrV::InvalidValue { app, type_: ty, field: name }),
        }
    } else if mv.cardinality == Cardinality::ZeroOrOne && v == JsonVal::Null {
        Ok(ElemVal::Null)
    } else if name == "_id"@ {
        spec_parse_id_field(app, ty, ek, name, mv, v)
    } else {
        spec_parse_scalar(app, ty, name, mv, v)
    }
}

/// The `_id` field ignores its declared scalar shape: `Element` and
/// `Aggregated` entities carry a single id string, `ListElement` entities a
/// two-element string array.
pub open spec fn spec_parse_id_field(
    app: Seq<char>,
    ty: Seq<char>,
    ek: ElementType,
    name: Seq<char>,
    mv: ModelValue,
    v: JsonVal,
) -> Result<ElemVal, MapperErrV> {
    let id_typed = mv.value_type == ValueType::GeneratedId || mv.value_type == ValueType::CustomId;
    match v {
        JsonVal::Str(s) => {
            if id_typed && (ek == ElementType::Element || ek == ElementType::Aggregated) {
                if mv.value_type == ValueType::GeneratedId {
                    Ok(ElemVal::GeneratedId(s))
                } else {
                    Ok(ElemVal::CustomId(s))
                }
            } else {
                Err(MapperErrV::InvalidValue { app, type_: ty, field: name })
            }
        },
        JsonVal::Array(a) => {
            if id_typed && ek == ElementType::ListElement && a.len() == 2 && a[0] is Str && a[1] is Str {
                Ok(ElemVal::IdTupleId(a[0]->Str_0, a[1]->Str_0))
            } else {
                Err(MapperErrV::InvalidValue { app, type_: ty, field: name })
            }
        },
        _ => Err(MapperErrV::InvalidValue { app, type_: ty, field: name }),
    }
}

/// Scalar conversions: number and date from canonical decimal strings,
/// booleans from `"0"`/`"1"`, bytes from standard base64; compressed
/// strings are reserved.
pub open spec fn spec_parse_scalar(
    app: Seq<char>,
    ty: Seq<char>,
    name: Seq<char>,
    mv: ModelValue,
    v: JsonVal,
) -> Result<ElemVal, MapperErrV> {
    let invalid = Err(MapperErrV::InvalidValue { app, type_: ty, field: name });
    match v {
        JsonVal::Str(s) => match mv.value_type {
            ValueType::Str => Ok(ElemVal::Str(s)),
            ValueType::Number => match spec_parse_i64(s) {
                Some(n) => Ok(ElemVal::Number(n)),
                None => invalid,
            },
            ValueType::Bytes => match b64_std_decode_of(s) {
                Some(b) => Ok(ElemVal::Bytes(b)),
                None => invalid,
            },
            ValueType::Date => match spec_parse_u64(s) {
                Some(n) => Ok(ElemVal::Date(n)),
                None => invalid,
            },
            ValueType::Boolean => if s == "0"@ {
                Ok(ElemVal::Bool(false))
            } else if s == "1"@ {
                Ok(ElemVal::Bool(true))
            } else {
                invalid
            },
            ValueType::GeneratedId => Ok(ElemVal::GeneratedId(s)),
            ValueType::CustomId => Ok(ElemVal::CustomId(s)),
            ValueType::CompressedString => Err(
                MapperErrV::NotImplemented { app, type_: ty, field: name },
            ),
        },
        _ => invalid,
    }
}

/// Serialising one value field; the exact mirror of `spec_parse_field`.
pub open spec fn spec_serialize_field(
    app: Seq<char>,
    ty: Seq<char>,
    ek: ElementType,
    name: Seq<char>,
    mv: ModelValue,
    e: ElemVal,
) -> Result<JsonVal, MapperErrV> {
    if mv.encrypted {
        match e {
            ElemVal::Str(s) => Ok(JsonVal::Str(s)),
            ElemVal::Null => Ok(JsonVal::Null),
            _ => Err(MapperErrV::InvalidValue { app, type_: ty, field: name }),
        }
    } else if mv.cardinality == Cardinality::ZeroOrOne && e == ElemVal::Null {
        Ok(JsonVal::Null)
    } else if name == "_id"@ {
        spec_serialize_id_field(app, ty, ek, name, mv, e)
    } else {
        spec_serialize_scalar(app, ty, name, mv, e)
    }
}

pub open spec fn spec_serialize_id_field(
    app: Seq<char>,
    ty: Seq<char>,
    ek: ElementType,
    name: Seq<char>,
    mv: ModelValue,
    e: ElemVal,
) -> Result<JsonVal, MapperErrV> {
    let invalid = Err(MapperErrV::InvalidValue { app, type_: ty, field: name });
    let id_typed = mv.value_type == ValueType::GeneratedId || mv.value_type == ValueType::CustomId;
    match e {
        ElemVal::GeneratedId(s) => {
            if mv.value_type == ValueType::GeneratedId && (ek == ElementType::Element || ek
                == ElementType::Aggregated) {
                Ok(JsonVal::Str(s))
            } else {
                invalid
            }
        },
        ElemVal::CustomId(s) => {
            if mv.value_type == ValueType::CustomId && (ek == ElementType::Element || ek
                == ElementType::Aggregated) {
                Ok(JsonVal::Str(s))
            } else {
                invalid
            }
        },
        ElemVal::IdTupleId(l, el) => {
            if id_typed && ek == ElementType::ListElement {
                Ok(JsonVal::Array(seq![JsonVal::Str(l), JsonVal::Str(el)]))
            } else {
                invalid
            }
        },
        _ => invalid,
    }
}

pub open spec fn spec_serialize_scalar(
    app: Seq<char>,
    ty: Seq<char>,
    name: Seq<char>,
    mv: ModelValue,
    e: ElemVal,
) -> Result<JsonVal, MapperErrV> {
    let invalid = Err(MapperErrV::InvalidValue { app, type_: ty, field: name });
    match (mv.value_type, e) {
        (ValueType::Str, ElemVal::Str(s)) => Ok(JsonVal::Str(s)),
        (ValueType::Number, ElemVal::Number(n)) => Ok(JsonVal::Str(dec_of_i64(n))),
        (ValueType::Bytes, ElemVal::Bytes(b)) => Ok(JsonVal::Str(b64_std_of(b))),
        (ValueType::Date, ElemVal::Date(d)) => Ok(JsonVal::Str(dec_of(d as nat))),
        (ValueType::Boolean, ElemVal::Bool(b)) => Ok(
            JsonVal::Str(if b { "1"@ } else { "0"@ }),
        ),
        (ValueType::GeneratedId, ElemVal::GeneratedId(s)) => Ok(JsonVal::Str(s)),
        (ValueType::CustomId, ElemVal::CustomId(s)) => Ok(JsonVal::Str(s)),
        (ValueType::CompressedString, ElemVal::Str(_)) => Err(
            MapperErrV::NotImplemented { app, type_: ty, field: name },
        ),
        _ => invalid,
    }
}

/// Parsing all declared value fields, in declaration order; a missing field
/// is an `InvalidValue`, and the first failing field decides the error.
pub open spec fn spec_parse_values(
    app: Seq<char>,
    ty: Seq<char>,
    ek: ElementType,
    values: Seq<(Seq<char>, ModelValue)>,
    raw: Map<Seq<char>, JsonVal>,
) -> Result<Map<Seq<char>, ElemVal>, MapperErrV>
    decreases values.len(),
{
    if values.len() == 0 {
        Ok(Map::empty())
    } else {
        let name = values[0].0;
        let mv = values[0].1;
        if !raw.contains_key(name) {
            Err(MapperErrV::InvalidValue { app, type_: ty, field: name })
        } else {
            match spec_parse_field(app, ty, ek, name, mv, raw[name]) {
                Err(e) => Err(e),
                Ok(ev) => match spec_parse_values(app, ty, ek, values.drop_first(), raw) {
                    Err(e) => Err(e),
                    Ok(m) => Ok(m.insert(name, ev)),
                },
            }
        }
    }
}

/// Serialising all declared value fields; the mirror of
/// `spec_parse_values`.
pub open spec fn spec_serialize_values(
    app: Seq<char>,
    ty: Seq<char>,
    ek: ElementType,
    values: Seq<(Seq<char>, ModelValue)>,
    ent: Map<Seq<char>, ElemVal>,
) -> Result<Map<Seq<char>, JsonVal>, MapperErrV>
    decreases values.len(),
{
    if values.len() == 0 {
        Ok(Map::empty())
    } else {
        let name = values[0].0;
        let mv = values[0].1;
        if !ent.contains_key(name) {
            Err(MapperErrV::InvalidValue { app, type_: ty, field: name })
        } else {
            match spec_serialize_field(app, ty, ek, name, mv, ent[name]) {
                Err(e) => Err(e),
                Ok(jv) => match spec_serialize_values(app, ty, ek, values.drop_first(), ent) {
                    Err(e) => Err(e),
                    Ok(m) => Ok(m.insert(name, jv)),
                },
            }
        }
    }
}

/// Parsing a whole entity against the schema registered for (app, ty):
/// every declared value field and association field, nothing else.
pub open spec fn spec_parse_entity(
    models: ModelMap,
    app: Seq<char>,
    ty: Seq<char>,
    raw: Map<Seq<char>, JsonVal>,
) -> Result<Map<Seq<char>, ElemVal>, MapperErrV>
    decreases raw, 2int, 0int,
{
    if !models.contains_key((app, ty)) {
        Err(MapperErrV::TypeNotFound { app, type_: ty })
    } else {
        let tm = models[(app, ty)];
        match spec_parse_values(app, ty, tm.element_type, tm.values, raw) {
            Err(e) => Err(e),
            Ok(m1) => match spec_parse_assocs(models, app, ty, tm.associations, raw) {
                Err(e) => Err(e),
                Ok(m2) => Ok(m1.union_prefer_right(m2)),
            },
        }
    }
}

/// Parsing all declared association fields, in declaration order.
pub open spec fn spec_parse_assocs(
    models: ModelMap,
    app: Seq<char>,
    ty: Seq<char>,
    assocs: Seq<(Seq<char>, ModelAssociationV)>,
    raw: Map<Seq<char>, JsonVal>,
) -> Result<Map<Seq<char>, ElemVal>, MapperErrV>
    decreases raw, 1int, assocs.len(),
        when raw.dom().finite()
{
    if assocs.len() == 0 {
        Ok(Map::empty())
    } else {
        let name = assocs[0].0;
        let ma = assocs[0].1;
        if !raw.contains_key(name) {
            Err(MapperErrV::InvalidValue { app, type_: ty, field: name })
        } else {
            match spec_parse_assoc_value(models, app, ty, name, ma, raw[name]) {
                Err(e) => Err(e),
                Ok(ev) => match spec_parse_assocs(models, app, ty, assocs.drop_first(), raw) {
                    Err(e) => Err(e),
                    Ok(m) => Ok(m.insert(name, ev)),
                },
            }
        }
    }
}

/// Parsing one association field, by (kind, cardinality, wire shape).  An
/// unrecognised combination is a typed `InvalidValue`, so schema drift
/// surfaces instead of being masked.
pub open spec fn spec_parse_assoc_value(
    models: ModelMap,
    app: Seq<char>,
    ty: Seq<char>,
    name: Seq<char>,
    ma: ModelAssociationV,
    v: JsonVal,
) -> Result<ElemVal, MapperErrV>
    decreases v, 0int, 0int,
{
    let one_or_opt = ma.cardinality == Cardinality::One || ma.cardinality == Cardinality::ZeroOrOne;
    if ma.association_type == AssociationType::Aggregation && one_or_opt && v is Dict {
        match spec_parse_entity(models, app, ma.ref_type, v->Dict_0) {
            Err(e) => Err(e),
            Ok(m) => Ok(ElemVal::Dict(m)),
        }
    } else if (ma.association_type == AssociationType::Aggregation || ma.association_type
        == AssociationType::ListElementAssociation) && ma.cardinality == Cardinality::Any
        && v is Array {
        match spec_parse_arr(models, app, ma.ref_type, name, v->Array_0) {
            Err(e) => Err(e),
            Ok(s) => Ok(ElemVal::Array(s)),
        }
    } else if ma.cardinality == Cardinality::ZeroOrOne && v is Null {
        Ok(ElemVal::Null)
    } else if (ma.association_type == AssociationType::ElementAssociation || ma.association_type
        == AssociationType::ListAssociation) && one_or_opt && v is Str {
        Ok(ElemVal::GeneratedId(v->Str_0))
    } else if ma.association_type == AssociationType::ListElementAssociation && ma.cardinality
        == Cardinality::One && v is Array {
        let a = v->Array_0;
        if a.len() == 2 && a[0] is Str && a[1] is Str {
            Ok(ElemVal::IdTupleId(a[0]->Str_0, a[1]->Str_0))
        } else {
            Err(MapperErrV::InvalidValue { app, type_: ma.ref_type, field: name })
        }
    } else if ma.association_type == AssociationType::BlobElementAssociation && v is Array {
        match spec_parse_arr(models, app, ma.ref_type, name, v->Array_0) {
            Err(e) => Err(e),
            Ok(s) => Ok(ElemVal::Array(s)),
        }
    } else {
        Err(MapperErrV::InvalidValue { app, type_: ty, field: name })
    }
}

/// Parsing an aggregated array: each element is either a nested entity or a
/// bare string.
pub open spec fn spec_parse_arr(
    models: ModelMap,
    app: Seq<char>,
    ref_ty: Seq<char>,
    name: Seq<char>,
    els: Seq<JsonVal>,
) -> Result<Seq<ElemVal>, MapperErrV>
    decreases els, 0int, 1int,
{
    if els.len() == 0 {
        Ok(Seq::empty())
    } else {
        match els[0] {
            JsonVal::Dict(d) => match spec_parse_entity(models, app, ref_ty, d) {
                Err(e) => Err(e),
                Ok(m) => match spec_parse_arr(models, app, ref_ty, name, els.drop_first()) {
                    Err(e) => Err(e),
                    Ok(rest) => Ok(seq![ElemVal::Dict(m)] + rest),
                },
            },
            JsonVal::Str(s) => match spec_parse_arr(models, app, ref_ty, name, els.drop_first()) {
                Err(e) => Err(e),
                Ok(rest) => Ok(seq![ElemVal::Str(s)] + rest),
            },
            _ => Err(MapperErrV::InvalidValue { app, type_: ref_ty, field: name }),
        }
    }
}

/// Serialising a whole entity; the mirror of `spec_parse_entity`.
pub open spec fn spec_serialize_entity(
    models: ModelMap,
    app: Seq<char>,
    ty: Seq<char>,
    ent: Map<Seq<char>, ElemVal>,
) -> Result<Map<Seq<char>, JsonVal>, MapperErrV>
    decreases ent, 2int, 0int,
{
    if !models.contains_key((app, ty)) {
        Err(MapperErrV::TypeNotFound { app, type_: ty })
    } else {
        let tm = models[(app, ty)];
        match spec_serialize_values(app, ty, tm.element_type, tm.values, ent) {
            Err(e) => Err(e),
            Ok(m1) => match spec_serialize_assocs(models, app, ty, tm.associations, ent) {
                Err(e) => Err(e),
                Ok(m2) => Ok(m1.union_prefer_right(m2)),
            },
        }
    }
}

/// Serialising all declared association fields.
pub open spec fn spec_serialize_assocs(
    models: ModelMap,
    app: Seq<char>,
    ty: Seq<char>,
    assocs: Seq<(Seq<char>, ModelAssociationV)>,
    ent: Map<Seq<char>, ElemVal>,
) -> Result<Map<Seq<char>, JsonVal>, MapperErrV>
    decreases ent, 1int, assocs.len(),
        when ent.dom().finite()
{
    if assocs.len() == 0 {
        Ok(Map::empty())
    } else {
        let name = assocs[0].0;
        let ma = assocs[0].1;
        if !ent.contains_key(name) {
            Err(MapperErrV::InvalidValue { app, type_: ty, field: name })
        } else {
            match spec_serialize_assoc_value(models, app, ty, name, ma, ent[name]) {
                Err(e) => Err(e),
                Ok(jv) => match spec_serialize_assocs(models, app, ty, assocs.drop_first(), ent) {
                    Err(e) => Err(e),
                    Ok(m) => Ok(m.insert(name, jv)),
                },
            }
        }
    }
}

/// Serialising one association field; the mirror of
/// `spec_parse_assoc_value`.
pub open spec fn spec_serialize_assoc_value(
    models: ModelMap,
    app: Seq<char>,
    ty: Seq<char>,
    name: Seq<char>,
    ma: ModelAssociationV,
    e: ElemVal,
) -> Result<JsonVal, MapperErrV>
    decreases e, 0int, 0int,
{
    let one_or_opt = ma.cardinality == Cardinality::One || ma.cardinality == Cardinality::ZeroOrOne;
    if ma.association_type == AssociationType::Aggregation && one_or_opt && e is Dict {
        match spec_serialize_entity(models, app, ma.ref_type, e->Dict_0) {
            Err(err) => Err(err),
            Ok(m) => Ok(JsonVal::Dict(m)),
        }
    } else if (ma.association_type == AssociationType::Aggregation || ma.association_type
        == AssociationType::ListElementAssociation) && ma.cardinality == Cardinality::Any
        && e is Array {
        match spec_serialize_arr(models, app, ma.ref_type, name, e->Array_0) {
            Err(err) => Err(err),
            Ok(s) => Ok(JsonVal::Array(s)),
        }
    } else if ma.cardinality == Cardinality::ZeroOrOne && e is Null {
        Ok(JsonVal::Null)
    } else if (ma.association_type == AssociationType::ElementAssociation || ma.association_type
        == AssociationType::ListAssociation) && one_or_opt && e is GeneratedId {
        Ok(JsonVal::Str(e->GeneratedId_0))
    } else if ma.association_type == AssociationType::ListElementAssociation && ma.cardinality
        == Cardinality::One && e is IdTupleId {
        Ok(JsonVal::Array(seq![JsonVal::Str(e->IdTupleId_0), JsonVal::Str(e->IdTupleId_1)]))
    } else if ma.association_type == AssociationType::BlobElementAssociation && e is Array {
        match spec_serialize_arr(models, app, ma.ref_type, name, e->Array_0) {
            Err(err) => Err(err),
            Ok(s) => Ok(JsonVal::Array(s)),
        }
    } else {
        Err(MapperErrV::InvalidValue { app, type_: ty, field: name })
    }
}

/// Serialising an aggregated array; the mirror of `spec_parse_arr`.
pub open spec fn spec_serialize_arr(
    models: ModelMap,
    app: Seq<char>,
    ref_ty: Seq<char>,
    name: Seq<char>,
    els: Seq<ElemVal>,
) -> Result<Seq<JsonVal>, MapperErrV>
    decreases els, 0int, 1int,
{
    if els.len() == 0 {
        Ok(Seq::empty())
    } else {
        match els[0] {
            ElemVal::Dict(d) => match spec_serialize_entity(models, app, ref_ty, d) {
                Err(e) => Err(e),
                Ok(m) => match spec_serialize_arr(models, app, ref_ty, name, els.drop_first()) {
                    Err(e) => Err(e),
                    Ok(rest) => Ok(seq![JsonVal::Dict(m)] + rest),
                },
            },
            ElemVal::Str(s) => match spec_serialize_arr(
                models,
                app,
                ref_ty,
                name,
                els.drop_first(),
            ) {
                Err(e) => Err(e),
                Ok(rest) => Ok(seq![JsonVal::Str(s)] + rest),
            },
            _ => Err(MapperErrV::InvalidValue { app, type_: ref_ty, field: name }),
        }
    }
}

/// The field names a schema declares.
pub open spec fn declared_keys(tm: TypeModelV) -> Set<Seq<char>> {
    key_set(tm.values).union(key_set(tm.associations))
}

/// The wire entity carries exactly the declared fields, at every level the
/// parser descends into.  Parsing ignores undeclared fields, so the
/// round-trip law `serialize(parse(raw)) == raw` holds exactly on such
/// entities.
pub open spec fn wire_exact(
    models: ModelMap,
    app: Seq<char>,
    ty: Seq<char>,
    raw: Map<Seq<char>, JsonVal>,
) -> bool
    decreases raw, 2int, 0int,
{
    models.contains_key((app, ty)) ==> {
        &&& raw.dom() == declared_keys(models[(app, ty)])
        &&& wire_exact_assocs(models, app, models[(app, ty)].associations, raw)
    }
}

pub open spec fn wire_exact_assocs(
    models: ModelMap,
    app: Seq<char>,
    assocs: Seq<(Seq<char>, ModelAssociationV)>,
    raw: Map<Seq<char>, JsonVal>,
) -> bool
    decreases raw, 1int, assocs.len(),
        when raw.dom().finite()
{
    assocs.len() == 0 || {
        &&& (raw.contains_key(assocs[0].0) ==> wire_exact_assoc_value(
            models,
            app,
            assocs[0].1,
            raw[assocs[0].0],
        ))
        &&& wire_exact_assocs(models, app, assocs.drop_first(), raw)
    }
}

pub open spec fn wire_exact_assoc_value(
    models: ModelMap,
    app: Seq<char>,
    ma: ModelAssociationV,
    v: JsonVal,
) -> bool
    decreases v, 0int, 0int,
{
    let one_or_opt = ma.cardinality == Cardinality::One || ma.cardinality == Cardinality::ZeroOrOne;
    if ma.association_type == AssociationType::Aggregation && one_or_opt && v is Dict {
        wire_exact(models, app, ma.ref_type, v->Dict_0)
    } else if (ma.association_type == AssociationType::Aggregation || ma.association_type
        == AssociationType::ListElementAssociation) && ma.cardinality == Cardinality::Any
        && v is Array {
        wire_exact_arr(models, app, ma.ref_type, v->Array_0)
    } else if ma.association_type == AssociationType::BlobElementAssociation && v is Array {
        wire_exact_arr(models, app, ma.ref_type, v->Array_0)
    } else {
        true
    }
}

pub open spec fn wire_exact_arr(
    models: ModelMap,
    app: Seq<char>,
    ref_ty: Seq<char>,
    els: Seq<JsonVal>,
) -> bool
    decreases els, 0int, 1int,
{
    els.len() == 0 || {
        &&& (els[0] is Dict ==> wire_exact(models, app, ref_ty, els[0]->Dict_0))
        &&& wire_exact_arr(models, app, ref_ty, els.drop_first())
    }
}

/// The parsed entity carries exactly the declared fields, at every level
/// the serialiser descends into; parse output always satisfies this.
pub open spec fn entity_exact(
    models: ModelMap,
    app: Seq<char>,
    ty: Seq<char>,
    ent: Map<Seq<char>, ElemVal>,
) -> bool
    decreases ent, 2int, 0int,
{
    models.contains_key((app, ty)) ==> {
        &&& ent.dom() == declared_keys(models[(app, ty)])
        &&& entity_exact_assocs(models, app, models[(app, ty)].associations, ent)
    }
}

pub open spec fn entity_exact_assocs(
    models: ModelMap,
    app: Seq<char>,
    assocs: Seq<(Seq<char>, ModelAssociationV)>,
    ent: Map<Seq<char>, ElemVal>,
) -> bool
    decreases ent, 1int, assocs.len(),
        when ent.dom().finite()
{
    assocs.len() == 0 || {
        &&& (ent.contains_key(assocs[0].0) ==> entity_exact_assoc_value(
            models,
            app,
            assocs[0].1,
            ent[assocs[0].0],
        ))
        &&& entity_exact_assocs(models, app, assocs.drop_first(), ent)
    }
}

pub open spec fn entity_exact_assoc_value(
    models: ModelMap,
    app: Seq<char>,
    ma: ModelAssociationV,
    e: ElemVal,
) -> bool
    decreases e, 0int, 0int,
{
    let one_or_opt = ma.cardinality == Cardinality::One || ma.cardinality == Cardinality::ZeroOrOne;
    if ma.association_type == AssociationType::Aggregation && one_or_opt && e is Dict {
        entity_exact(models, app, ma.ref_type, e->Dict_0)
    } else if (ma.association_type == AssociationType::Aggregation || ma.association_type
        == AssociationType::ListElementAssociation) && ma.cardinality == Cardinality::Any
        && e is Array {
        entity_exact_arr(models, app, ma.ref_type, e->Array_0)
    } else if ma.association_type == AssociationType::BlobElementAssociation && e is Array {
        entity_exact_arr(models, app, ma.ref_type, e->Array_0)
    } else {
        true
    }
}

pub open spec fn entity_exact_arr(
    models: ModelMap,
    app: Seq<char>,
    ref_ty: Seq<char>,
    els: Seq<ElemVal>,
) -> bool
    decreases els, 0int, 1int,
{
    els.len() == 0 || {
        &&& (els[0] is Dict ==> entity_exact(models, app, ref_ty, els[0]->Dict_0))
        &&& entity_exact_arr(models, app, ref_ty, els.drop_first())
    }
}

} // verus!
