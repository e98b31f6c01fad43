//! Value types exchanged with the server-side insert endpoints.  The
//! endpoints themselves are I/O and live in the embedder.

use vstd::prelude::*;

verus! {

/// The ids a server-side item insert returns: the new item's id and one
/// id per inserted variant, in order.
#[derive(Debug, Clone)]
pub struct ItemIds {
    pub item_id: i64,
    pub variant_ids: Vec<i64>,
}

} // verus!
