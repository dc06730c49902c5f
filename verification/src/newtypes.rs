//! Row identifiers, one type per table.

use vstd::prelude::*;

verus! {

/// Identifier of an instance row.
#[derive(Clone, Copy, Debug, PartialEq, Eq, Structural)]
pub struct InstanceId(pub i32);

/// Identifier of an article row.
#[derive(Clone, Copy, Debug, PartialEq, Eq, Structural)]
pub struct ArticleId(pub i32);

/// Identifier of a person row.
#[derive(Clone, Copy, Debug, PartialEq, Eq, Structural)]
pub struct PersonId(pub i32);

/// Identifier of a comment row.
#[derive(Clone, Copy, Debug, PartialEq, Eq, Structural)]
pub struct CommentId(pub i32);

} // verus!
