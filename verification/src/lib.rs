//! Access mediation for filesystem requests made by an embedded script runtime.
//!
//! Every request passes through a [`mediator::PermissionsContainer`], which
//! asks a [`permission_set::PermissionSet`] whether a grant exists and answers
//! with the path to use or with a denial. Open requests first go through the
//! [`path_resolver`], which says whether the path can be checked as written
//! or must be made canonical before.
pub mod checked_path;
pub mod error;
pub mod grant_table;
pub mod laws;
pub mod mediator;
pub mod path_resolver;
pub mod permission_set;
