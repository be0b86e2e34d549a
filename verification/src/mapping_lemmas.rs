//! Assembly lemmas for the codec specification: from per-field facts to the
//! recursive field-list functions of `mapping`, and back.  The executable
//! codec collects one fact per declared field in its loops; these lemmas
//! turn them into statements about whole entities.

use vstd::prelude::*;

use crate::assoc::{key_set, keys_unique};
use crate::element_value::ElemVal;
use crate::json_element::JsonVal;
use crate::mapping::{
    entity_exact_assoc_value, entity_exact_assocs, spec_parse_assoc_value, spec_parse_assocs,
    spec_parse_field, spec_parse_values, spec_serialize_assoc_value, spec_serialize_assocs,
    spec_serialize_field, spec_serialize_values, wire_exact_assoc_value, wire_exact_assocs,
    MapperErrV, ModelMap,
};
use crate::metamodel::{ElementType, ModelAssociationV, ModelValue};

verus! {

/// If every declared value field is present and parses, the values phase
/// succeeds with exactly the map of per-field results.
pub proof fn lemma_parse_values_ok(
    app: Seq<char>,
    ty: Seq<char>,
    ek: ElementType,
    vals: Seq<(Seq<char>, ModelValue)>,
    raw: Map<Seq<char>, JsonVal>,
    out: Map<Seq<char>, ElemVal>,
)
    requires
        keys_unique(vals),
        forall|i: int| 0 <= i < vals.len() ==> raw.contains_key(#[trigger] vals[i].0),
        forall|i: int|
            0 <= i < vals.len() ==> spec_parse_field(
                app,
                ty,
                ek,
                #[trigger] vals[i].0,
                vals[i].1,
                raw[vals[i].0],
            ) is Ok,
        out.dom() == key_set(vals),
        forall|i: int|
            0 <= i < vals.len() ==> out[#[trigger] vals[i].0] == spec_parse_field(
                app,
                ty,
                ek,
                vals[i].0,
                vals[i].1,
                raw[vals[i].0],
            )->Ok_0,
    ensures
        spec_parse_values(app, ty, ek, vals, raw) == Ok::<Map<Seq<char>, ElemVal>, MapperErrV>(
            out,
        ),
    decreases vals.len(),
{
    if vals.len() == 0 {
        assert(out =~= Map::<Seq<char>, ElemVal>::empty()) by {
            assert(key_set(vals) =~= Set::<Seq<char>>::empty());
        }
    } else {
        let k0 = vals[0].0;
        let e0 = spec_parse_field(app, ty, ek, vals[0].0, vals[0].1, raw[vals[0].0])->Ok_0;
        let rest = vals.drop_first();
        let out2 = out.remove(k0);
        assert(forall|i: int| 0 <= i < rest.len() ==> rest[i] == vals[i + 1]);
        assert(out2.dom() =~= key_set(rest)) by {
            assert forall|k: Seq<char>| #[trigger] key_set(rest).contains(k) implies out2.dom().contains(
                k,
            ) by {
                let i = choose|i: int| 0 <= i < rest.len() && rest[i].0 == k;
                assert(vals[i + 1].0 == k);
            }
            assert forall|k: Seq<char>| #[trigger] out2.dom().contains(k) implies key_set(
                rest,
            ).contains(k) by {
                let i = choose|i: int| 0 <= i < vals.len() && vals[i].0 == k;
                assert(i != 0);
                assert(rest[i - 1].0 == k);
            }
        }
        assert forall|i: int| 0 <= i < rest.len() implies out2[#[trigger] rest[i].0]
            == spec_parse_field(app, ty, ek, rest[i].0, rest[i].1, raw[rest[i].0])->Ok_0 by {
            assert(rest[i] == vals[i + 1]);
            assert(vals[i + 1].0 != k0);
        }
        lemma_parse_values_ok(app, ty, ek, rest, raw, out2);
        assert(key_set(vals).contains(k0));
        assert(out2.insert(k0, e0) =~= out);
    }
}

/// If the fields before `k` parse and field `k` is missing or fails, the
/// values phase fails with field `k`'s error.
pub proof fn lemma_parse_values_err(
    app: Seq<char>,
    ty: Seq<char>,
    ek: ElementType,
    vals: Seq<(Seq<char>, ModelValue)>,
    raw: Map<Seq<char>, JsonVal>,
    k: int,
)
    requires
        0 <= k < vals.len(),
        forall|i: int| 0 <= i < k ==> raw.contains_key(#[trigger] vals[i].0),
        forall|i: int|
            0 <= i < k ==> spec_parse_field(
                app,
                ty,
                ek,
                #[trigger] vals[i].0,
                vals[i].1,
                raw[vals[i].0],
            ) is Ok,
        raw.contains_key(vals[k].0) ==> spec_parse_field(
            app,
            ty,
            ek,
            vals[k].0,
            vals[k].1,
            raw[vals[k].0],
        ) is Err,
    ensures
        !raw.contains_key(vals[k].0) ==> spec_parse_values(app, ty, ek, vals, raw) == Err::<
            Map<Seq<char>, ElemVal>,
            MapperErrV,
        >(MapperErrV::InvalidValue { app, type_: ty, field: vals[k].0 }),
        raw.contains_key(vals[k].0) ==> spec_parse_values(app, ty, ek, vals, raw) == Err::<
            Map<Seq<char>, ElemVal>,
            MapperErrV,
        >(spec_parse_field(app, ty, ek, vals[k].0, vals[k].1, raw[vals[k].0])->Err_0),
    decreases k,
{
    if k > 0 {
        let rest = vals.drop_first();
        assert(forall|i: int| 0 <= i < rest.len() ==> rest[i] == vals[i + 1]);
        lemma_parse_values_err(app, ty, ek, rest, raw, k - 1);
    }
}

/// If every declared association field is present and parses, the
/// association phase succeeds with exactly the map of per-field results.
pub proof fn lemma_parse_assocs_ok(
    models: ModelMap,
    app: Seq<char>,
    ty: Seq<char>,
    assocs: Seq<(Seq<char>, ModelAssociationV)>,
    raw: Map<Seq<char>, JsonVal>,
    out: Map<Seq<char>, ElemVal>,
)
    requires
        raw.dom().finite(),
        keys_unique(assocs),
        forall|i: int| 0 <= i < assocs.len() ==> raw.contains_key(#[trigger] assocs[i].0),
        forall|i: int|
            0 <= i < assocs.len() ==> spec_parse_assoc_value(
                models,
                app,
                ty,
                #[trigger] assocs[i].0,
                assocs[i].1,
                raw[assocs[i].0],
            ) is Ok,
        out.dom() == key_set(assocs),
        forall|i: int|
            0 <= i < assocs.len() ==> out[#[trigger] assocs[i].0] == spec_parse_assoc_value(
                models,
                app,
                ty,
                assocs[i].0,
                assocs[i].1,
                raw[assocs[i].0],
            )->Ok_0,
    ensures
        spec_parse_assocs(models, app, ty, assocs, raw) == Ok::<
            Map<Seq<char>, ElemVal>,
            MapperErrV,
        >(out),
    decreases assocs.len(),
{
    if assocs.len() == 0 {
        assert(out =~= Map::<Seq<char>, ElemVal>::empty()) by {
            assert(key_set(assocs) =~= Set::<Seq<char>>::empty());
        }
    } else {
        let k0 = assocs[0].0;
        let e0 = spec_parse_assoc_value(models, app, ty, assocs[0].0, assocs[0].1, raw[assocs[0].0])->Ok_0;
        let rest = assocs.drop_first();
        let out2 = out.remove(k0);
        assert(forall|i: int| 0 <= i < rest.len() ==> rest[i] == assocs[i + 1]);
        assert(out2.dom() =~= key_set(rest)) by {
            assert forall|k: Seq<char>| #[trigger] key_set(rest).contains(k) implies out2.dom().contains(
                k,
            ) by {
                let i = choose|i: int| 0 <= i < rest.len() && rest[i].0 == k;
                assert(assocs[i + 1].0 == k);
            }
            assert forall|k: Seq<char>| #[trigger] out2.dom().contains(k) implies key_set(
                rest,
            ).contains(k) by {
                let i = choose|i: int| 0 <= i < assocs.len() && assocs[i].0 == k;
                assert(i != 0);
                assert(rest[i - 1].0 == k);
            }
        }
        assert forall|i: int| 0 <= i < rest.len() implies out2[#[trigger] rest[i].0]
            == spec_parse_assoc_value(models, app, ty, rest[i].0, rest[i].1, raw[rest[i].0])->Ok_0
            by {
            assert(rest[i] == assocs[i + 1]);
            assert(assocs[i + 1].0 != k0);
        }
        lemma_parse_assocs_ok(models, app, ty, rest, raw, out2);
        assert(key_set(assocs).contains(k0));
        assert(out2.insert(k0, e0) =~= out);
    }
}

/// If the association fields before `k` parse and field `k` is missing or
/// fails, the association phase fails with field `k`'s error.
pub proof fn lemma_parse_assocs_err(
    models: ModelMap,
    app: Seq<char>,
    ty: Seq<char>,
    assocs: Seq<(Seq<char>, ModelAssociationV)>,
    raw: Map<Seq<char>, JsonVal>,
    k: int,
)
    requires
        raw.dom().finite(),
        0 <= k < assocs.len(),
        forall|i: int| 0 <= i < k ==> raw.contains_key(#[trigger] assocs[i].0),
        forall|i: int|
            0 <= i < k ==> spec_parse_assoc_value(
                models,
                app,
                ty,
                #[trigger] assocs[i].0,
                assocs[i].1,
                raw[assocs[i].0],
            ) is Ok,
        raw.contains_key(assocs[k].0) ==> spec_parse_assoc_value(
            models,
            app,
            ty,
            assocs[k].0,
            assocs[k].1,
            raw[assocs[k].0],
        ) is Err,
    ensures
        !raw.contains_key(assocs[k].0) ==> spec_parse_assocs(models, app, ty, assocs, raw) == Err::<
            Map<Seq<char>, ElemVal>,
            MapperErrV,
        >(MapperErrV::InvalidValue { app, type_: ty, field: assocs[k].0 }),
        raw.contains_key(assocs[k].0) ==> spec_parse_assocs(models, app, ty, assocs, raw) == Err::<
            Map<Seq<char>, ElemVal>,
            MapperErrV,
        >(
            spec_parse_assoc_value(models, app, ty, assocs[k].0, assocs[k].1, raw[assocs[k].0])->Err_0,
        ),
    decreases k,
{
    if k > 0 {
        let rest = assocs.drop_first();
        assert(forall|i: int| 0 <= i < rest.len() ==> rest[i] == assocs[i + 1]);
        lemma_parse_assocs_err(models, app, ty, rest, raw, k - 1);
    }
}

/// If every declared value field is present and serialises, the values
/// phase succeeds with exactly the map of per-field results.
pub proof fn lemma_serialize_values_ok(
    app: Seq<char>,
    ty: Seq<char>,
    ek: ElementType,
    vals: Seq<(Seq<char>, ModelValue)>,
    ent: Map<Seq<char>, ElemVal>,
    out: Map<Seq<char>, JsonVal>,
)
    requires
        keys_unique(vals),
        forall|i: int| 0 <= i < vals.len() ==> ent.contains_key(#[trigger] vals[i].0),
        forall|i: int|
            0 <= i < vals.len() ==> spec_serialize_field(
                app,
                ty,
                ek,
                #[trigger] vals[i].0,
                vals[i].1,
                ent[vals[i].0],
            ) is Ok,
        out.dom() == key_set(vals),
        forall|i: int|
            0 <= i < vals.len() ==> out[#[trigger] vals[i].0] == spec_serialize_field(
                app,
                ty,
                ek,
                vals[i].0,
                vals[i].1,
                ent[vals[i].0],
            )->Ok_0,
    ensures
        spec_serialize_values(app, ty, ek, vals, ent) == Ok::<Map<Seq<char>, JsonVal>, MapperErrV>(
            out,
        ),
    decreases vals.len(),
{
    if vals.len() == 0 {
        assert(out =~= Map::<Seq<char>, JsonVal>::empty()) by {
            assert(key_set(vals) =~= Set::<Seq<char>>::empty());
        }
    } else {
        let k0 = vals[0].0;
        let e0 = spec_serialize_field(app, ty, ek, vals[0].0, vals[0].1, ent[vals[0].0])->Ok_0;
        let rest = vals.drop_first();
        let out2 = out.remove(k0);
        assert(forall|i: int| 0 <= i < rest.len() ==> rest[i] == vals[i + 1]);
        assert(out2.dom() =~= key_set(rest)) by {
            assert forall|k: Seq<char>| #[trigger] key_set(rest).contains(k) implies out2.dom().contains(
                k,
            ) by {
                let i = choose|i: int| 0 <= i < rest.len() && rest[i].0 == k;
                assert(vals[i + 1].0 == k);
            }
            assert forall|k: Seq<char>| #[trigger] out2.dom().contains(k) implies key_set(
                rest,
            ).contains(k) by {
                let i = choose|i: int| 0 <= i < vals.len() && vals[i].0 == k;
                assert(i != 0);
                assert(rest[i - 1].0 == k);
            }
        }
        assert forall|i: int| 0 <= i < rest.len() implies out2[#[trigger] rest[i].0]
            == spec_serialize_field(app, ty, ek, rest[i].0, rest[i].1, ent[rest[i].0])->Ok_0 by {
            assert(rest[i] == vals[i + 1]);
            assert(vals[i + 1].0 != k0);
        }
        lemma_serialize_values_ok(app, ty, ek, rest, ent, out2);
        assert(key_set(vals).contains(k0));
        assert(out2.insert(k0, e0) =~= out);
    }
}

/// If the fields before `k` serialise and field `k` is missing or fails,
/// the values phase fails with field `k`'s error.
pub proof fn lemma_serialize_values_err(
    app: Seq<char>,
    ty: Seq<char>,
    ek: ElementType,
    vals: Seq<(Seq<char>, ModelValue)>,
    ent: Map<Seq<char>, ElemVal>,
    k: int,
)
    requires
        0 <= k < vals.len(),
        forall|i: int| 0 <= i < k ==> ent.contains_key(#[trigger] vals[i].0),
        forall|i: int|
            0 <= i < k ==> spec_serialize_field(
                app,
                ty,
                ek,
                #[trigger] vals[i].0,
                vals[i].1,
                ent[vals[i].0],
            ) is Ok,
        ent.contains_key(vals[k].0) ==> spec_serialize_field(
            app,
            ty,
            ek,
            vals[k].0,
            vals[k].1,
            ent[vals[k].0],
        ) is Err,
    ensures
        !ent.contains_key(vals[k].0) ==> spec_serialize_values(app, ty, ek, vals, ent) == Err::<
            Map<Seq<char>, JsonVal>,
            MapperErrV,
        >(MapperErrV::InvalidValue { app, type_: ty, field: vals[k].0 }),
        ent.contains_key(vals[k].0) ==> spec_serialize_values(app, ty, ek, vals, ent) == Err::<
            Map<Seq<char>, JsonVal>,
            MapperErrV,
        >(spec_serialize_field(app, ty, ek, vals[k].0, vals[k].1, ent[vals[k].0])->Err_0),
    decreases k,
{
    if k > 0 {
        let rest = vals.drop_first();
        assert(forall|i: int| 0 <= i < rest.len() ==> rest[i] == vals[i + 1]);
        lemma_serialize_values_err(app, ty, ek, rest, ent, k - 1);
    }
}

/// If every declared association field is present and serialises, the
/// association phase succeeds with exactly the map of per-field results.
pub proof fn lemma_serialize_assocs_ok(
    models: ModelMap,
    app: Seq<char>,
    ty: Seq<char>,
    assocs: Seq<(Seq<char>, ModelAssociationV)>,
    ent: Map<Seq<char>, ElemVal>,
    out: Map<Seq<char>, JsonVal>,
)
    requires
        ent.dom().finite(),
        keys_unique(assocs),
        forall|i: int| 0 <= i < assocs.len() ==> ent.contains_key(#[trigger] assocs[i].0),
        forall|i: int|
            0 <= i < assocs.len() ==> spec_serialize_assoc_value(
                models,
                app,
                ty,
                #[trigger] assocs[i].0,
                assocs[i].1,
                ent[assocs[i].0],
            ) is Ok,
        out.dom() == key_set(assocs),
        forall|i: int|
            0 <= i < assocs.len() ==> out[#[trigger] assocs[i].0] == spec_serialize_assoc_value(
                models,
                app,
                ty,
                assocs[i].0,
                assocs[i].1,
                ent[assocs[i].0],
            )->Ok_0,
    ensures
        spec_serialize_assocs(models, app, ty, assocs, ent) == Ok::<
            Map<Seq<char>, JsonVal>,
            MapperErrV,
        >(out),
    decreases assocs.len(),
{
    if assocs.len() == 0 {
        assert(out =~= Map::<Seq<char>, JsonVal>::empty()) by {
            assert(key_set(assocs) =~= Set::<Seq<char>>::empty());
        }
    } else {
        let k0 = assocs[0].0;
        let e0 = spec_serialize_assoc_value(
            models,
            app,
            ty,
            assocs[0].0,
            assocs[0].1,
            ent[assocs[0].0],
        )->Ok_0;
        let rest = assocs.drop_first();
        let out2 = out.remove(k0);
        assert(forall|i: int| 0 <= i < rest.len() ==> rest[i] == assocs[i + 1]);
        assert(out2.dom() =~= key_set(rest)) by {
            assert forall|k: Seq<char>| #[trigger] key_set(rest).contains(k) implies out2.dom().contains(
                k,
            ) by {
                let i = choose|i: int| 0 <= i < rest.len() && rest[i].0 == k;
                assert(assocs[i + 1].0 == k);
            }
            assert forall|k: Seq<char>| #[trigger] out2.dom().contains(k) implies key_set(
                rest,
            ).contains(k) by {
                let i = choose|i: int| 0 <= i < assocs.len() && assocs[i].0 == k;
                assert(i != 0);
                assert(rest[i - 1].0 == k);
            }
        }
        assert forall|i: int| 0 <= i < rest.len() implies out2[#[trigger] rest[i].0]
            == spec_serialize_assoc_value(models, app, ty, rest[i].0, rest[i].1, ent[rest[i].0])->Ok_0
            by {
            assert(rest[i] == assocs[i + 1]);
            assert(assocs[i + 1].0 != k0);
        }
        lemma_serialize_assocs_ok(models, app, ty, rest, ent, out2);
        assert(key_set(assocs).contains(k0));
        assert(out2.insert(k0, e0) =~= out);
    }
}

/// If the association fields before `k` serialise and field `k` is missing
/// or fails, the association phase fails with field `k`'s error.
pub proof fn lemma_serialize_assocs_err(
    models: ModelMap,
    app: Seq<char>,
    ty: Seq<char>,
    assocs: Seq<(Seq<char>, ModelAssociationV)>,
    ent: Map<Seq<char>, ElemVal>,
    k: int,
)
    requires
        ent.dom().finite(),
        0 <= k < assocs.len(),
        forall|i: int| 0 <= i < k ==> ent.contains_key(#[trigger] assocs[i].0),
        forall|i: int|
            0 <= i < k ==> spec_serialize_assoc_value(
                models,
                app,
                ty,
                #[trigger] assocs[i].0,
                assocs[i].1,
                ent[assocs[i].0],
            ) is Ok,
        ent.contains_key(assocs[k].0) ==> spec_serialize_assoc_value(
            models,
            app,
            ty,
            assocs[k].0,
            assocs[k].1,
            ent[assocs[k].0],
        ) is Err,
    ensures
        !ent.contains_key(assocs[k].0) ==> spec_serialize_assocs(models, app, ty, assocs, ent)
            == Err::<Map<Seq<char>, JsonVal>, MapperErrV>(
            MapperErrV::InvalidValue { app, type_: ty, field: assocs[k].0 },
        ),
        ent.contains_key(assocs[k].0) ==> spec_serialize_assocs(models, app, ty, assocs, ent)
            == Err::<Map<Seq<char>, JsonVal>, MapperErrV>(
            spec_serialize_assoc_value(
                models,
                app,
                ty,
                assocs[k].0,
                assocs[k].1,
                ent[assocs[k].0],
            )->Err_0,
        ),
    decreases k,
{
    if k > 0 {
        let rest = assocs.drop_first();
        assert(forall|i: int| 0 <= i < rest.len() ==> rest[i] == assocs[i + 1]);
        lemma_serialize_assocs_err(models, app, ty, rest, ent, k - 1);
    }
}

/// Field-wise use of wire exactness.
pub proof fn lemma_wire_exact_assocs_at(
    models: ModelMap,
    app: Seq<char>,
    assocs: Seq<(Seq<char>, ModelAssociationV)>,
    raw: Map<Seq<char>, JsonVal>,
    i: int,
)
    requires
        raw.dom().finite(),
        wire_exact_assocs(models, app, assocs, raw),
        0 <= i < assocs.len(),
        raw.contains_key(assocs[i].0),
    ensures
        wire_exact_assoc_value(models, app, assocs[i].1, raw[assocs[i].0]),
    decreases i,
{
    if i > 0 {
        let rest = assocs.drop_first();
        assert(rest[i - 1] == assocs[i]);
        lemma_wire_exact_assocs_at(models, app, rest, raw, i - 1);
    }
}

/// Field-wise use of entity exactness.
pub proof fn lemma_entity_exact_assocs_at(
    models: ModelMap,
    app: Seq<char>,
    assocs: Seq<(Seq<char>, ModelAssociationV)>,
    ent: Map<Seq<char>, ElemVal>,
    i: int,
)
    requires
        ent.dom().finite(),
        entity_exact_assocs(models, app, assocs, ent),
        0 <= i < assocs.len(),
        ent.contains_key(assocs[i].0),
    ensures
        entity_exact_assoc_value(models, app, assocs[i].1, ent[assocs[i].0]),
    decreases i,
{
    if i > 0 {
        let rest = assocs.drop_first();
        assert(rest[i - 1] == assocs[i]);
        lemma_entity_exact_assocs_at(models, app, rest, ent, i - 1);
    }
}

/// Field-wise introduction of wire exactness.
pub proof fn lemma_wire_exact_assocs_intro(
    models: ModelMap,
    app: Seq<char>,
    assocs: Seq<(Seq<char>, ModelAssociationV)>,
    raw: Map<Seq<char>, JsonVal>,
)
    requires
        raw.dom().finite(),
        forall|i: int|
            0 <= i < assocs.len() && raw.contains_key(#[trigger] assocs[i].0)
                ==> wire_exact_assoc_value(models, app, assocs[i].1, raw[assocs[i].0]),
    ensures
        wire_exact_assocs(models, app, assocs, raw),
    decreases assocs.len(),
{
    if assocs.len() > 0 {
        let rest = assocs.drop_first();
        assert(forall|i: int| 0 <= i < rest.len() ==> rest[i] == assocs[i + 1]);
        lemma_wire_exact_assocs_intro(models, app, rest, raw);
    }
}

/// Field-wise introduction of entity exactness.
pub proof fn lemma_entity_exact_assocs_intro(
    models: ModelMap,
    app: Seq<char>,
    assocs: Seq<(Seq<char>, ModelAssociationV)>,
    ent: Map<Seq<char>, ElemVal>,
)
    requires
        ent.dom().finite(),
        forall|i: int|
            0 <= i < assocs.len() && ent.contains_key(#[trigger] assocs[i].0)
                ==> entity_exact_assoc_value(models, app, assocs[i].1, ent[assocs[i].0]),
    ensures
        entity_exact_assocs(models, app, assocs, ent),
    decreases assocs.len(),
{
    if assocs.len() > 0 {
        let rest = assocs.drop_first();
        assert(forall|i: int| 0 <= i < rest.len() ==> rest[i] == assocs[i + 1]);
        lemma_entity_exact_assocs_intro(models, app, rest, ent);
    }
}

} // verus!
