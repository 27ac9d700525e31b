//! Display URIs of token classes.

use crate::ids::TokenId;
use vstd::prelude::*;

verus! {

/// Holds the one URI pattern that serves every token class.  Clients put the
/// class identifier into the pattern themselves.
pub struct MetadataStore {
    base_uri: String,
}

impl View for MetadataStore {
    type V = Seq<char>;

    closed spec fn view(&self) -> Seq<char> {
        self.base_uri@
    }
}

impl MetadataStore {
    /// A store that answers `base_uri` for every class.
    pub fn new(base_uri: String) -> (store: MetadataStore)
        ensures
            store@ == base_uri@,
    {
        MetadataStore { base_uri }
    }

    /// The URI of class `id`: the pattern, whatever the class.
    pub fn uri(&self, id: &TokenId) -> (uri: String)
        ensures
            uri@ == self@,
    {
        self.base_uri.clone()
    }
}

} // verus!
