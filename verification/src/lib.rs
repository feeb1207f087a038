//! A football match-harvesting and persistence pipeline. Pluggable
//! sources (hunters) turn one pass over an external site into structured
//! match records; pluggable sinks (processors) print them or persist them
//! into a sqlite storage file with schema versioning and idempotent
//! upserts. Record normalization, all parsing decisions of the HTML
//! extraction engine, and every rule between the outside calls are
//! verified; the calls themselves stand behind small trusted wrappers.

pub mod error;
pub mod hunters;
pub mod models;
pub mod processors;
pub mod strutil;
