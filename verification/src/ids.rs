use vstd::prelude::*;

verus! {

/// Identifier of a book.
#[derive(Debug, Clone, Copy, PartialEq, Eq, Structural, Hash, PartialOrd, Ord)]
pub struct BookId(pub usize);

/// Identifier of a person (author, illustrator, ...).
#[derive(Debug, Clone, Copy, PartialEq, Eq, Structural, Hash, PartialOrd, Ord)]
pub struct PersonId(pub usize);

/// Identifier of a tag.
#[derive(Debug, Clone, Copy, PartialEq, Eq, Structural, Hash, PartialOrd, Ord)]
pub struct TagId(pub usize);

/// Identifier of the link between a book and a tag.
#[derive(Debug, Clone, Copy, PartialEq, Eq, Structural, Hash, PartialOrd, Ord)]
pub struct BookTagId(pub usize);

/// Identifier of a stored image.
#[derive(Debug, Clone, Copy, PartialEq, Eq, Structural, Hash, PartialOrd, Ord)]
pub struct ImageId(pub usize);

/// Identifier of a member.
#[derive(Debug, Clone, Copy, PartialEq, Eq, Structural, Hash, PartialOrd, Ord)]
pub struct MemberId(pub usize);

/// Identifier of an edit.
#[derive(Debug, Clone, Copy, PartialEq, Eq, Structural, Hash, PartialOrd, Ord)]
pub struct EditId(pub usize);

/// Identifier of a vote on an edit.
#[derive(Debug, Clone, Copy, PartialEq, Eq, Structural, Hash, PartialOrd, Ord)]
pub struct EditVoteId(pub usize);

/// Identifier of a group of external searches.
#[derive(Debug, Clone, Copy, PartialEq, Eq, Structural, Hash, PartialOrd, Ord)]
pub struct SearchGroupId(pub usize);

/// Identifier of a collection.
#[derive(Debug, Clone, Copy, PartialEq, Eq, Structural, Hash, PartialOrd, Ord)]
pub struct CollectionId(pub usize);

/// One of two values.
#[derive(Debug, Clone, PartialEq, Eq)]
pub enum Either<L, R> {
    Left(L),
    Right(R),
}

/// Where a piece of metadata comes from: the agent that found it and the
/// value that agent knows it by.
#[derive(Debug, Clone, PartialEq, Eq)]
pub struct Source {
    pub agent: String,
    pub value: String,
}

} // verus!
