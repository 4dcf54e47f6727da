//! Locale-aware formatter configuration and engine caching.
//!
//! The crate has two halves. The resolver half interprets a formatter name
//! together with free-form `(name, value)` argument pairs into a closed
//! [`resolver::Formatter`] kind carrying a fully defaulted configuration, and
//! derives from that kind the trait bound and the code shape that generated
//! call sites must use. The cache half resolves a (kind, locale,
//! configuration) triple into a formatter engine built by the `icu` crate,
//! constructing each engine at most once and handing out stable indices into
//! an append-only arena, so that references to an engine stay valid for as
//! long as the cache lives.

mod text;
pub mod arena;
pub mod cache;
pub mod codegen;
pub mod icu_bindings;
pub mod resolver;
