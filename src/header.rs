//! Request headers that the Madome services agree on.
//!
//! Headers are modelled as name/value pairs whose names are in lower case,
//! as HTTP header maps keep them.
use vstd::prelude::*;

use crate::text::same_text;

verus! {

/// Marks requests sent by the end-to-end tests.
pub const MADOME_E2E_TEST: &'static str = "x-madome-e2e-test";

/// Set by the gateway on requests that come from users rather than from
/// another internal service.
pub const MADOME_PUBLIC_ACCESS_HEADER: &'static str = "x-madome-public-access";

/// Asks for the service's response as it is, unconverted.
pub const MADOME_TAKE_ORIGIN_RESPONSE: &'static str = "x-madome-take-origin-response";

/// Whether a header named `name` is present.
pub open spec fn has_header(headers: Seq<(String, String)>, name: Seq<char>) -> bool {
    exists|i: int| 0 <= i < headers.len() && (#[trigger] headers[i]).0@ == name
}

/// Whether a header named `name` is present.
pub fn header_present(headers: &Vec<(String, String)>, name: &str) -> (r: bool)
    ensures
        r == has_header(headers@, name@),
{
    let mut i: usize = 0;
    while i < headers.len()
        invariant
            i <= headers@.len(),
            forall|k: int| 0 <= k < i ==> (#[trigger] headers@[k]).0@ != name@,
        decreases headers@.len() - i,
    {
        if same_text(headers[i].0.as_str(), name) {
            assert(headers@[i as int].0@ == name@);
            return true;
        }
        i += 1;
    }
    false
}

/// Whether the request asks for the unconverted response.
pub fn take_origin_response(headers: &Vec<(String, String)>) -> (r: bool)
    ensures
        r == has_header(headers@, MADOME_TAKE_ORIGIN_RESPONSE@),
{
    header_present(headers, MADOME_TAKE_ORIGIN_RESPONSE)
}

} // verus!
