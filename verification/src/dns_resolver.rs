//! What the DNS preflight of an attempt asks for: the host of the URL.

use vstd::prelude::*;
use vstd::string::*;

use crate::text::{field, split_on};

verus! {

/// The host of a URL of the form `scheme://host/...`: its third field
/// between slashes. A text with fewer than two slashes has the empty host.
pub open spec fn host_of(url: Seq<char>) -> Seq<char> {
    field(url, '/', 2)
}

/// The host whose address is looked up before a request to `url` is sent.
pub fn host(url: &str) -> (name: String)
    ensures
        name@ == host_of(url@),
{
    let fields = split_on(url, '/');
    if fields.len() > 2 {
        fields[2].clone()
    } else {
        String::new()
    }
}

} // verus!
