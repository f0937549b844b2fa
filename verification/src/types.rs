//! Identifiers shared by every module.
use vstd::prelude::*;

verus! {

/// Our own primary key for a user.
#[derive(Clone, Copy, Debug, PartialEq, Eq, Structural)]
pub struct UserId(pub i64);

/// GitHub's numeric id for the same human.
#[derive(Clone, Copy, Debug, PartialEq, Eq, Structural)]
pub struct GitHubId(pub i64);

/// The opaque token a browser presents in the session cookie.
#[derive(Clone, Debug, PartialEq, Eq)]
pub struct SessionId(pub String);

} // verus!
