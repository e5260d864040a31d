//! The one value the publishing workflow hands back into this core: the
//! permanent link of a published post, recorded against its job.

use vstd::prelude::*;

verus! {

/// A published post: its identifier and its permanent link.
pub struct PostPermalink {
    pub id: String,
    pub permalink: String,
}

impl PostPermalink {
    /// Pairs a post identifier with its permanent link.
    pub fn new(id: String, permalink: String) -> (r: Self)
        ensures
            r.id@ == id@,
            r.permalink@ == permalink@,
    {
        PostPermalink { id, permalink }
    }
}

} // verus!
