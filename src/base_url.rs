//! Where each Madome service is reached.
use vstd::prelude::*;
use vstd::string::*;

verus! {

/// The base URL of each service.
pub struct MadomeBaseUrl {
    pub auth: String,
    pub user: String,
    pub library: String,
}

/// The public services.
pub const STABLE_BASE_URL: &'static str = "https://api.madome.app";

/// The beta services.
pub const BETA_BASE_URL: &'static str = "https://beta.api.madome.app";

/// The test services.
pub const NIGHTLY_BASE_URL: &'static str = "https://test.api.madome.app";

/// The authentication service inside the cluster.
pub const INTERNAL_AUTH_URL: &'static str = "http://madome-auth:3112";

/// The user service inside the cluster.
pub const INTERNAL_USER_URL: &'static str = "http://madome-user:3112";

/// The library service inside the cluster.
pub const INTERNAL_LIBRARY_URL: &'static str = "http://madome-library:3112";

impl MadomeBaseUrl {
    /// Every service at one base URL.
    pub open spec fn all_at(&self, base: Seq<char>) -> bool {
        self.auth@ == base && self.user@ == base && self.library@ == base
    }

    fn at(base: &str) -> (r: Self)
        ensures
            r.all_at(base@),
    {
        Self {
            auth: String::from_str(base),
            user: String::from_str(base),
            library: String::from_str(base),
        }
    }

    pub fn stable() -> (r: Self)
        ensures
            r.all_at(STABLE_BASE_URL@),
    {
        Self::at(STABLE_BASE_URL)
    }

    pub fn beta() -> (r: Self)
        ensures
            r.all_at(BETA_BASE_URL@),
    {
        Self::at(BETA_BASE_URL)
    }

    pub fn nightly() -> (r: Self)
        ensures
            r.all_at(NIGHTLY_BASE_URL@),
    {
        Self::at(NIGHTLY_BASE_URL)
    }

    pub fn internal() -> (r: Self)
        ensures
            r.auth@ == INTERNAL_AUTH_URL@,
            r.user@ == INTERNAL_USER_URL@,
            r.library@ == INTERNAL_LIBRARY_URL@,
    {
        Self {
            auth: String::from_str(INTERNAL_AUTH_URL),
            user: String::from_str(INTERNAL_USER_URL),
            library: String::from_str(INTERNAL_LIBRARY_URL),
        }
    }
}

} // verus!
