//! Read-only table of schemas, keyed by (application, type name).
//!
//! The provider must guarantee that the schema graph is non-cyclic through
//! aggregation edges; the codec relies on the wire value shrinking, not on
//! cycle detection, so this is a precondition on the schema set, not an
//! enforced invariant.

use vstd::prelude::*;

use crate::assoc::{assoc_map, keys_unique, lemma_assoc_map_contains, lemma_assoc_map_index};
use crate::metamodel::{type_model_wf, TypeModel, TypeModelV};

verus! {

/// Supplies the schema for an (application, type name) pair.
pub struct TypeModelProvider {
    models: Vec<TypeModel>,
}

/// The key sequence of a model list.
pub open spec fn model_pairs(s: Seq<TypeModel>) -> Seq<((Seq<char>, Seq<char>), TypeModelV)> {
    Seq::new(s.len(), |i: int| ((s[i].app@, s[i].name@), s[i]@))
}

/// Each schema is well formed and no (application, type name) pair appears
/// twice.
pub open spec fn models_wf(s: Seq<TypeModel>) -> bool {
    &&& keys_unique(model_pairs(s))
    &&& forall|i: int| 0 <= i < s.len() ==> type_model_wf(#[trigger] s[i]@)
}

impl TypeModelProvider {
    /// Model: the map from (application, type name) to schema.
    pub closed spec fn view(&self) -> Map<(Seq<char>, Seq<char>), TypeModelV> {
        assoc_map(model_pairs(self.models@))
    }

    pub closed spec fn wf(&self) -> bool {
        models_wf(self.models@)
    }

    /// Every schema in the table is well formed.
    pub proof fn lemma_models_wf(&self, key: (Seq<char>, Seq<char>))
        requires
            self.wf(),
            self@.contains_key(key),
        ensures
            type_model_wf(self@[key]),
            self@[key].app == key.0,
            self@[key].name == key.1,
    {
        lemma_assoc_map_contains(model_pairs(self.models@), key);
        let i = choose|i: int|
            0 <= i < model_pairs(self.models@).len() && model_pairs(self.models@)[i].0 == key;
        lemma_assoc_map_index(model_pairs(self.models@), i);
    }

    pub fn new(models: Vec<TypeModel>) -> (r: TypeModelProvider)
        requires
            models_wf(models@),
        ensures
            r.wf(),
            r@ == assoc_map(model_pairs(models@)),
    {
        TypeModelProvider { models }
    }

    /// Returns the schema registered for the pair, if any.
    pub fn get_type_model(&self, app: &String, entity: &String) -> (r: Option<&TypeModel>)
        requires
            self.wf(),
        ensures
            match r {
                Some(tm) => self@.contains_key((app@, entity@)) && self@[(app@, entity@)]
                    == tm@,
                None => !self@.contains_key((app@, entity@)),
            },
    {
        let n = self.models.len();
        for j in 0..n
            invariant
                n == self.models@.len(),
                models_wf(self.models@),
                forall|i: int|
                    0 <= i < j ==> #[trigger] model_pairs(self.models@)[i].0 != (app@, entity@),
        {
            if self.models[j].app == *app && self.models[j].name == *entity {
                proof {
                    lemma_assoc_map_index(model_pairs(self.models@), j as int);
                }
                return Some(&self.models[j]);
            }
        }
        proof {
            lemma_assoc_map_contains(model_pairs(self.models@), (app@, entity@));
        }
        None
    }
}

} // verus!
