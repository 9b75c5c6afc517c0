//! Values that requests to the first library service carry.
use vstd::prelude::*;
use vstd::string::*;

use crate::query::{ParamValue, Scalar};

verus! {

/// The type of book asked for.
#[derive(Debug, Clone, Copy, PartialEq, Eq, Structural)]
pub enum BookType {
    Manga,
    Doujinshi,
    GameCg,
    ArtistCg,
}

impl BookType {
    /// The name under which the value is sent.
    pub open spec fn wire_name(self) -> Seq<char> {
        match self {
            BookType::Manga => "manga"@,
            BookType::Doujinshi => "doujinshi"@,
            BookType::GameCg => "game cg"@,
            BookType::ArtistCg => "artist cg"@,
        }
    }

    /// The name under which the value is sent.
    pub fn as_str(&self) -> (r: &'static str)
        ensures
            r@ == self.wire_name(),
    {
        match self {
            BookType::Manga => "manga",
            BookType::Doujinshi => "doujinshi",
            BookType::GameCg => "game cg",
            BookType::ArtistCg => "artist cg",
        }
    }

    /// The value as a request parameter.
    pub fn to_param(&self) -> (r: ParamValue)
        ensures
            r matches ParamValue::One(Scalar::Text(t)) && t@ == self.wire_name(),
    {
        ParamValue::One(Scalar::Text(String::from_str(self.as_str())))
    }
}

/// The order of a book listing.
#[derive(Debug, Clone, Copy, PartialEq, Eq, Structural)]
pub enum BookSortBy {
    CreatedAtDesc,
    CreatedAtAsc,
    Random,
}

impl BookSortBy {
    /// The name under which the value is sent.
    pub open spec fn wire_name(self) -> Seq<char> {
        match self {
            BookSortBy::CreatedAtDesc => "created_desc"@,
            BookSortBy::CreatedAtAsc => "created_asc"@,
            BookSortBy::Random => "random"@,
        }
    }

    /// The name under which the value is sent.
    pub fn as_str(&self) -> (r: &'static str)
        ensures
            r@ == self.wire_name(),
    {
        match self {
            BookSortBy::CreatedAtDesc => "created_desc",
            BookSortBy::CreatedAtAsc => "created_asc",
            BookSortBy::Random => "random",
        }
    }

    /// The value as a request parameter.
    pub fn to_param(&self) -> (r: ParamValue)
        ensures
            r matches ParamValue::One(Scalar::Text(t)) && t@ == self.wire_name(),
    {
        ParamValue::One(Scalar::Text(String::from_str(self.as_str())))
    }
}

/// The order of a book listing, where a random order is not offered.
#[derive(Debug, Clone, Copy, PartialEq, Eq, Structural)]
pub enum BookSortByWithoutRandom {
    CreatedAtDesc,
    CreatedAtAsc,
}

impl BookSortByWithoutRandom {
    /// The name under which the value is sent.
    pub open spec fn wire_name(self) -> Seq<char> {
        match self {
            BookSortByWithoutRandom::CreatedAtDesc => "created_desc"@,
            BookSortByWithoutRandom::CreatedAtAsc => "created_asc"@,
        }
    }

    /// The name under which the value is sent.
    pub fn as_str(&self) -> (r: &'static str)
        ensures
            r@ == self.wire_name(),
    {
        match self {
            BookSortByWithoutRandom::CreatedAtDesc => "created_desc",
            BookSortByWithoutRandom::CreatedAtAsc => "created_asc",
        }
    }

    /// The value as a request parameter.
    pub fn to_param(&self) -> (r: ParamValue)
        ensures
            r matches ParamValue::One(Scalar::Text(t)) && t@ == self.wire_name(),
    {
        ParamValue::One(Scalar::Text(String::from_str(self.as_str())))
    }
}

} // verus!
