//! The user service.
use vstd::prelude::*;

pub mod payload;

verus! {

/// The user service at `base_url`.
pub struct User<'a> {
    pub base_url: &'a str,
}

impl<'a> User<'a> {
    pub fn new(base_url: &'a str) -> (r: Self)
        ensures
            r.base_url@ == base_url@,
    {
        Self { base_url }
    }
}

} // verus!
