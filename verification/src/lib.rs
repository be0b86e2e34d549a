//! Client-side session-establishment core of an end-to-end-encrypted
//! collaboration SDK: a schema-driven entity codec that converts between an
//! untyped wire representation and typed entities, and a session
//! authentication engine that derives and checks passphrase-based secrets
//! and keeps a race-free view of the signed-in user.

pub mod assoc;
pub mod b64;
pub mod cache_storage;
pub mod codec_laws;
pub mod crypto;
pub mod decimal;
pub mod element_value;
pub mod entities;
pub mod instance_mapper;
pub mod json_element;
pub mod login_controller;
pub mod login_facade;
pub mod login_listener;
pub mod mapping;
pub mod mapping_lemmas;
pub mod metamodel;
pub mod strutil;
pub mod type_model_provider;
pub mod user_facade;
