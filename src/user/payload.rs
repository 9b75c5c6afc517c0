//! Values that requests to the user service carry.
use vstd::prelude::*;
use vstd::string::*;

use crate::query::{ParamValue, Scalar};

verus! {

/// The kind of like asked for.
#[derive(Debug, Clone, Copy, PartialEq, Eq, Structural)]
pub enum LikeKind {
    Book,
    BookTag,
}

impl LikeKind {
    /// The name under which the value is sent.
    pub open spec fn wire_name(self) -> Seq<char> {
        match self {
            LikeKind::Book => "book"@,
            LikeKind::BookTag => "book_tag"@,
        }
    }

    /// The name under which the value is sent.
    pub fn as_str(&self) -> (r: &'static str)
        ensures
            r@ == self.wire_name(),
    {
        match self {
            LikeKind::Book => "book",
            LikeKind::BookTag => "book_tag",
        }
    }

    /// The value as a request parameter.
    pub fn to_param(&self) -> (r: ParamValue)
        ensures
            r matches ParamValue::One(Scalar::Text(t)) && t@ == self.wire_name(),
    {
        ParamValue::One(Scalar::Text(String::from_str(self.as_str())))
    }
}

/// The order of a like listing.
#[derive(Debug, Clone, Copy, PartialEq, Eq, Structural)]
pub enum LikeSortBy {
    CreatedAtDesc,
    CreatedAtAsc,
    Random,
}

impl LikeSortBy {
    /// The name under which the value is sent.
    pub open spec fn wire_name(self) -> Seq<char> {
        match self {
            LikeSortBy::CreatedAtDesc => "created-at-desc"@,
            LikeSortBy::CreatedAtAsc => "created-at-asc"@,
            LikeSortBy::Random => "random"@,
        }
    }

    /// The name under which the value is sent.
    pub fn as_str(&self) -> (r: &'static str)
        ensures
            r@ == self.wire_name(),
    {
        match self {
            LikeSortBy::CreatedAtDesc => "created-at-desc",
            LikeSortBy::CreatedAtAsc => "created-at-asc",
            LikeSortBy::Random => "random",
        }
    }

    /// The value as a request parameter.
    pub fn to_param(&self) -> (r: ParamValue)
        ensures
            r matches ParamValue::One(Scalar::Text(t)) && t@ == self.wire_name(),
    {
        ParamValue::One(Scalar::Text(String::from_str(self.as_str())))
    }
}

} // verus!
