//! Interactive web-project generator, split into a verified core.
//!
//! The library renders every template text, resolves a menu choice to an
//! archetype, lays out each archetype's generation recipe as an explicit
//! step list, performs the package-manifest text edit, and models the
//! effect of a recipe on a filesystem.  A thin unverified shell around it
//! does the prompting, the real file writes and the tool launches.

pub mod archetype;
pub mod fsmodel;
pub mod laws;
pub mod manifest;
pub mod plan;
pub mod templates;
