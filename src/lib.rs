//! Relationship lifecycle engine for a dating application: validation of
//! relationship metadata, creation of a relationship with its memberships,
//! confirmation and status derivation, membership-based deletion rights, and
//! password authentication.
use vstd::prelude::*;

pub mod auth;
pub mod lifecycle;
pub mod validate;

pub use auth::{authenticate, authentication_verdict, prepare_user, AuthError, CreateUserData};
pub use lifecycle::{
    authorize_deletion, expect_one_row, LifecycleError, Membership, Relationship,
    RelationshipRecord, RelationshipStatus,
};
pub use validate::{CreateRelationship, ValidationError};

verus! {

} // verus!
