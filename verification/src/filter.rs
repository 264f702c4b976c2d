//! The type filter: the pure rule that decides whether a fetched post's
//! media type can be displayed, or must be skipped and fetched again.

use vstd::prelude::*;
use crate::model::Ext;

verus! {

/// Which media types the viewer can display: animated video and
/// vector/interactive content are rejected, everything else is accepted.
pub open spec fn accepts(ext: Ext) -> bool {
    !(ext is Webm || ext is Swf)
}

/// Pure decision rule over the closed set of media types.
pub struct TypeFilter;

impl TypeFilter {
    /// Returns true exactly when the viewer can display this media type.
    pub fn accept(ext: &Ext) -> (r: bool)
        ensures
            r == accepts(*ext),
    {
        match ext {
            Ext::Webm => false,
            Ext::Swf => false,
            _ => true,
        }
    }
}

} // verus!
