//! Convention rules for REST API code, checked on a syntax tree that the
//! host hands over: builder chains must declare a summary and must answer
//! errors with Problem Details, and DTOs under `api/rest` must keep serde
//! names in snake_case.
//!
//! The engine's pieces, each with its contract: `naming` classifies token
//! styles, `meta` extracts annotation values, `scope` gates rules by path,
//! `chain` reconstructs builder chains, `rules` holds the detectors,
//! `driver` runs a registry of rules over a file, and `harness` holds
//! fixtures to their marker comments.

pub mod chain;
pub mod driver;
pub mod fixtures;
pub mod harness;
pub mod meta;
pub mod naming;
pub mod rules;
pub mod scope;
pub mod syntax;
pub mod text;
