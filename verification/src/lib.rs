//! A verified core for describing request/response data shapes once and
//! getting, for free: conversion between typed values and a JSON-style wire
//! form, a structural validation pipeline, a recursively built schema
//! registry, and a binding layer that turns incoming parameters and bodies
//! into typed arguments and typed results into responses.

pub mod auth;
pub mod base;
pub mod codec;
pub mod error;
pub mod multipart;
pub mod openapi;
pub mod param;
pub mod payload;
pub mod registry;
pub mod rename;
pub mod serde_decl;
pub mod strfmt;
pub mod types;
pub mod validation;
pub mod value;
