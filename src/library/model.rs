//! Values that the library service returns.
use vstd::prelude::*;
use vstd::string::*;

use crate::query::{ParamValue, Scalar};

verus! {

/// The kind of a book, as the library service reports it.
#[derive(Debug, Clone, Copy, PartialEq, Eq, Structural)]
pub enum BookKind {
    Manga,
    Doujinshi,
    GameCg,
    ArtistCg,
}

impl BookKind {
    /// The name under which the value is sent.
    pub open spec fn wire_name(self) -> Seq<char> {
        match self {
            BookKind::Manga => "manga"@,
            BookKind::Doujinshi => "doujinshi"@,
            BookKind::GameCg => "game_cg"@,
            BookKind::ArtistCg => "artist_cg"@,
        }
    }

    /// The name under which the value is sent.
    pub fn as_str(&self) -> (r: &'static str)
        ensures
            r@ == self.wire_name(),
    {
        match self {
            BookKind::Manga => "manga",
            BookKind::Doujinshi => "doujinshi",
            BookKind::GameCg => "game_cg",
            BookKind::ArtistCg => "artist_cg",
        }
    }

    /// The value as a request parameter.
    pub fn to_param(&self) -> (r: ParamValue)
        ensures
            r matches ParamValue::One(Scalar::Text(t)) && t@ == self.wire_name(),
    {
        ParamValue::One(Scalar::Text(String::from_str(self.as_str())))
    }
}

} // verus!
