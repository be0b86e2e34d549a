//! Laws of the entity codec, stated and proved over the specification
//! functions that `InstanceMapper::parse` and `InstanceMapper::serialize`
//! are proved to implement.  The round-trip laws themselves are part of
//! the `ensures` of those two functions.

use vstd::prelude::*;

use crate::element_value::ElemVal;
use crate::json_element::JsonVal;
use crate::mapping::{spec_parse_field, spec_parse_id_field, MapperErrV};
use crate::metamodel::{Cardinality, ElementType, ModelValue, ValueType};

verus! {

/// Cardinality null law: for every field with cardinality `ZeroOrOne`, a
/// wire `Null` parses to `Null`, regardless of the declared value type and
/// of the encryption flag.
pub proof fn lemma_cardinality_null(
    app: Seq<char>,
    ty: Seq<char>,
    ek: ElementType,
    name: Seq<char>,
    mv: ModelValue,
)
    requires
        mv.cardinality == Cardinality::ZeroOrOne,
    ensures
        spec_parse_field(app, ty, ek, name, mv, JsonVal::Null) == Ok::<ElemVal, MapperErrV>(
            ElemVal::Null,
        ),
{
}

/// Identifier shape law, for an id-typed `_id` field reaching the
/// identifier branch (not encrypted, and not an optional null): a
/// `ListElement` entity accepts exactly a two-element string array, an
/// `Element` or `Aggregated` entity exactly a string; everything else is
/// an `InvalidValue` naming the field.
pub proof fn lemma_identifier_shape(
    app: Seq<char>,
    ty: Seq<char>,
    ek: ElementType,
    name: Seq<char>,
    mv: ModelValue,
    v: JsonVal,
)
    requires
        mv.value_type == ValueType::GeneratedId || mv.value_type == ValueType::CustomId,
    ensures
        ek == ElementType::ListElement ==> (spec_parse_id_field(app, ty, ek, name, mv, v) is Ok
            <==> (v matches JsonVal::Array(a) && a.len() == 2 && a[0] is Str && a[1] is Str)),
        (ek == ElementType::Element || ek == ElementType::Aggregated) ==> (spec_parse_id_field(
            app,
            ty,
            ek,
            name,
            mv,
            v,
        ) is Ok <==> v is Str),
        spec_parse_id_field(app, ty, ek, name, mv, v) is Err ==> spec_parse_id_field(
            app,
            ty,
            ek,
            name,
            mv,
            v,
        ) == Err::<ElemVal, MapperErrV>(MapperErrV::InvalidValue { app, type_: ty, field: name }),
{
}

/// Encrypted passthrough law: an encrypted field never undergoes scalar
/// conversion.  A wire string passes through verbatim as opaque
/// ciphertext, a wire null stays null, and every other wire shape fails
/// with `InvalidValue`.
pub proof fn lemma_encrypted_passthrough(
    app: Seq<char>,
    ty: Seq<char>,
    ek: ElementType,
    name: Seq<char>,
    mv: ModelValue,
    v: JsonVal,
)
    requires
        mv.encrypted,
    ensures
        v matches JsonVal::Str(s) ==> spec_parse_field(app, ty, ek, name, mv, v) == Ok::<
            ElemVal,
            MapperErrV,
        >(ElemVal::Str(s)),
        v is Null ==> spec_parse_field(app, ty, ek, name, mv, v) == Ok::<ElemVal, MapperErrV>(
            ElemVal::Null,
        ),
        !(v is Str || v is Null) ==> spec_parse_field(app, ty, ek, name, mv, v) == Err::<
            ElemVal,
            MapperErrV,
        >(MapperErrV::InvalidValue { app, type_: ty, field: name }),
{
}

} // verus!
