//! The parameters of one request.
use vstd::prelude::*;

verus! {

/// What a client asks for: the source URL, optional target dimensions, an
/// optional output format (an extension such as "png") and an optional
/// cache lifetime in seconds.
#[derive(Clone, Debug)]
pub struct RequestContext {
    pub url: String,
    pub width: Option<u32>,
    pub height: Option<u32>,
    pub format: Option<String>,
    pub cache_max_age: Option<u32>,
}

} // verus!
