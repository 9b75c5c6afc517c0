//! Values that requests to the library service carry.
use vstd::prelude::*;
use vstd::string::*;

use crate::query::{ParamValue, Scalar};

verus! {

/// The kind of book asked for.
#[derive(Debug, Clone, Copy, PartialEq, Eq, Structural)]
pub enum BookKind {
    Manga,
    Doujinshi,
    GameCg,
    ArtistCg,
}

impl BookKind {
    /// The name under which the value is sent.
    pub open spec fn wire_name(self) -> Seq<char> {
        match self {
            BookKind::Manga => "manga"@,
            BookKind::Doujinshi => "doujinshi"@,
            BookKind::GameCg => "game-cg"@,
            BookKind::ArtistCg => "artist-cg"@,
        }
    }

    /// The name under which the value is sent.
    pub fn as_str(&self) -> (r: &'static str)
        ensures
            r@ == self.wire_name(),
    {
        match self {
            BookKind::Manga => "manga",
            BookKind::Doujinshi => "doujinshi",
            BookKind::GameCg => "game-cg",
            BookKind::ArtistCg => "artist-cg",
        }
    }

    /// The value as a request parameter.
    pub fn to_param(&self) -> (r: ParamValue)
        ensures
            r matches ParamValue::One(Scalar::Text(t)) && t@ == self.wire_name(),
    {
        ParamValue::One(Scalar::Text(String::from_str(self.as_str())))
    }
}

/// The order of a book listing.
#[derive(Debug, Clone, Copy, PartialEq, Eq, Structural)]
pub enum BookSortBy {
    IdDesc,
    IdAsc,
    Random,
}

impl BookSortBy {
    /// The name under which the value is sent.
    pub open spec fn wire_name(self) -> Seq<char> {
        match self {
            BookSortBy::IdDesc => "id-desc"@,
            BookSortBy::IdAsc => "id-asc"@,
            BookSortBy::Random => "random"@,
        }
    }

    /// The name under which the value is sent.
    pub fn as_str(&self) -> (r: &'static str)
        ensures
            r@ == self.wire_name(),
    {
        match self {
            BookSortBy::IdDesc => "id-desc",
            BookSortBy::IdAsc => "id-asc",
            BookSortBy::Random => "random",
        }
    }

    /// The value as a request parameter.
    pub fn to_param(&self) -> (r: ParamValue)
        ensures
            r matches ParamValue::One(Scalar::Text(t)) && t@ == self.wire_name(),
    {
        ParamValue::One(Scalar::Text(String::from_str(self.as_str())))
    }
}

} // verus!
