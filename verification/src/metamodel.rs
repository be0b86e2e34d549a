//! The declarative schema of an entity type: its value fields, its
//! associations, their cardinalities and encryption flags.

use vstd::prelude::*;

use crate::assoc::{key_set, keys_unique};

verus! {

/// Identifies a schema entry: an (application, type name) pair.
#[derive(Debug, Clone)]
pub struct TypeRef {
    pub app: String,
    pub type_: String,
}

impl TypeRef {
    pub fn new(app: String, type_: String) -> (r: TypeRef)
        ensures
            r.app == app,
            r.type_ == type_,
    {
        TypeRef { app, type_ }
    }
}

/// Determines the identifier shape of an entity: a single id string for
/// `Element` and `Aggregated`, a two-part id for `ListElement`.
#[derive(Debug, Clone, Copy, PartialEq, Eq, Structural)]
pub enum ElementType {
    Element,
    ListElement,
    Aggregated,
}

/// The declared wire encoding of a value field.
#[derive(Debug, Clone, Copy, PartialEq, Eq, Structural)]
pub enum ValueType {
    Str,
    Number,
    Bytes,
    Date,
    Boolean,
    GeneratedId,
    CustomId,
    CompressedString,
}

/// How many values a field carries: exactly one, at most one, or a list.
#[derive(Debug, Clone, Copy, PartialEq, Eq, Structural)]
pub enum Cardinality {
    One,
    ZeroOrOne,
    Any,
}

/// The kind of an association field.
#[derive(Debug, Clone, Copy, PartialEq, Eq, Structural)]
pub enum AssociationType {
    Aggregation,
    ElementAssociation,
    ListAssociation,
    ListElementAssociation,
    BlobElementAssociation,
}

/// Schema entry for one value field.
#[derive(Debug, Clone, Copy)]
pub struct ModelValue {
    pub value_type: ValueType,
    pub cardinality: Cardinality,
    pub encrypted: bool,
}

/// Schema entry for one association field; `ref_type` names the associated
/// type within the same application.
#[derive(Debug, Clone)]
pub struct ModelAssociation {
    pub association_type: AssociationType,
    pub cardinality: Cardinality,
    pub ref_type: String,
}

/// Model of an association entry.
pub struct ModelAssociationV {
    pub association_type: AssociationType,
    pub cardinality: Cardinality,
    pub ref_type: Seq<char>,
}

impl View for ModelAssociation {
    type V = ModelAssociationV;

    open spec fn view(&self) -> ModelAssociationV {
        ModelAssociationV {
            association_type: self.association_type,
            cardinality: self.cardinality,
            ref_type: self.ref_type@,
        }
    }
}

/// The schema of one entity type.
#[derive(Debug)]
pub struct TypeModel {
    pub app: String,
    pub name: String,
    pub element_type: ElementType,
    pub version: String,
    pub values: Vec<(String, ModelValue)>,
    pub associations: Vec<(String, ModelAssociation)>,
}

/// Model of a schema.
pub struct TypeModelV {
    pub app: Seq<char>,
    pub name: Seq<char>,
    pub element_type: ElementType,
    pub version: Seq<char>,
    pub values: Seq<(Seq<char>, ModelValue)>,
    pub associations: Seq<(Seq<char>, ModelAssociationV)>,
}

impl View for TypeModel {
    type V = TypeModelV;

    open spec fn view(&self) -> TypeModelV {
        TypeModelV {
            app: self.app@,
            name: self.name@,
            element_type: self.element_type,
            version: self.version@,
            values: Seq::new(self.values@.len(), |i: int| (self.values@[i].0@, self.values@[i].1)),
            associations: Seq::new(
                self.associations@.len(),
                |i: int| (self.associations@[i].0@, self.associations@[i].1@),
            ),
        }
    }
}

impl TypeModel {
    /// The schema entry this model belongs to.
    pub fn type_ref(&self) -> (r: TypeRef)
        ensures
            r.app == self.app,
            r.type_ == self.name,
    {
        TypeRef { app: self.app.clone(), type_: self.name.clone() }
    }
}

/// A well-formed schema declares each field once, and no name both as a
/// value and as an association.
pub open spec fn type_model_wf(tm: TypeModelV) -> bool {
    &&& keys_unique(tm.values)
    &&& keys_unique(tm.associations)
    &&& key_set(tm.values).disjoint(key_set(tm.associations))
}

} // verus!
