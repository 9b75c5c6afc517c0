//! Values that the first library service returns.
use vstd::prelude::*;
use vstd::string::*;

use crate::query::{ParamValue, Scalar};

verus! {

/// The type of a book, as the first library service reports it.
#[derive(Debug, Clone, Copy, PartialEq, Eq, Structural)]
pub enum BookType {
    Manga,
    Doujinshi,
    GameCg,
    ArtistCg,
}

impl BookType {
    /// The name under which the value is sent.
    pub open spec fn wire_name(self) -> Seq<char> {
        match self {
            BookType::Manga => "manga"@,
            BookType::Doujinshi => "doujinshi"@,
            BookType::GameCg => "game cg"@,
            BookType::ArtistCg => "artist cg"@,
        }
    }

    /// The name under which the value is sent.
    pub fn as_str(&self) -> (r: &'static str)
        ensures
            r@ == self.wire_name(),
    {
        match self {
            BookType::Manga => "manga",
            BookType::Doujinshi => "doujinshi",
            BookType::GameCg => "game cg",
            BookType::ArtistCg => "artist cg",
        }
    }

    /// The value as a request parameter.
    pub fn to_param(&self) -> (r: ParamValue)
        ensures
            r matches ParamValue::One(Scalar::Text(t)) && t@ == self.wire_name(),
    {
        ParamValue::One(Scalar::Text(String::from_str(self.as_str())))
    }
}

} // verus!
