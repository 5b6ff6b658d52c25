//! Shared basic types: the query-parameter list and the API version markers.

use vstd::prelude::*;

verus! {

/// Query parameters: an ordered list of (name, value) pairs, the wire
/// representation handed to the HTTP layer as a query string.
pub type Params = Vec<(String, String)>;

/// The view of a parameter list: the sequence of pair views.
pub open spec fn params_view(p: Seq<(String, String)>) -> Seq<(Seq<char>, Seq<char>)> {
    p.map(|i: int, e: (String, String)| (e.0@, e.1@))
}

/// Marker trait for the API version a client speaks. It yields the version
/// token used in versioned URL paths.
pub trait Version {
    /// The version's path token, at the spec level.
    spec fn spec_version(&self) -> Seq<char>;

    /// The version's path token, as inserted in `/api/{version}/` paths.
    fn version(&self) -> (r: &str)
        ensures
            r@ == self.spec_version(),
    ;
}

/// Marker for objects implementing the API V0.
#[derive(Clone, Copy)]
pub struct V0;

/// Marker for objects implementing the API V2.
#[derive(Clone, Copy)]
pub struct V2;

impl Version for V0 {
    open spec fn spec_version(&self) -> Seq<char> {
        "v0"@
    }

    fn version(&self) -> (r: &str) {
        "v0"
    }
}

impl Version for V2 {
    open spec fn spec_version(&self) -> Seq<char> {
        "v2"@
    }

    fn version(&self) -> (r: &str) {
        "v2"
    }
}

} // verus!
