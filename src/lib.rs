//! Normalisation of geocoding service responses into row-aligned attribute
//! tables, point geometry and spatial references.
//!
//! Response text is parsed into a JSON model ([`json`]); the schema-driven
//! mapper ([`table`]) writes attribute objects into a typed table by row;
//! the endpoint adapters ([`candidates`], [`batch`], [`reverse`],
//! [`suggest`]) decode their response shapes strictly, falling back to the
//! service's error envelope ([`envelope`]); [`custom`] maps a response into
//! a table that the caller allocated.
pub mod json;
pub mod table;
pub mod geometry;
pub mod envelope;
pub mod candidates;
pub mod batch;
pub mod reverse;
pub mod suggest;
pub mod custom;
pub mod iso3166;
pub mod records;
