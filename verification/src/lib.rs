//! Authorization core for a social-platform backend.
//!
//! The crate decides, for every mutating or sensitive operation, whether an
//! acting identity may act on a target identity.  Three mechanisms compose
//! into that decision: a fine-grained group permission model ([`perm`]), a
//! per-session capability tier ([`token`]), and a pairwise relationship
//! state machine ([`relationship`]).  [`guard`] combines them into a single
//! allow/deny verdict.

pub mod error;
pub mod perm;
pub mod token;
pub mod profile;
pub mod relationship;
pub mod guard;
pub mod visibility;
pub mod text;
pub mod metadata;
pub mod images;
pub mod queries;
