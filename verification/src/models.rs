use vstd::prelude::*;

verus! {

/// One row of the source table: an identifier (used for diagnostics, never
/// for filenames), a source-provided name, and an optional binary payload.
/// An absent payload is a valid state distinct from an empty blob.
pub struct ImageRecord {
    pub id: i32,
    pub image_name: String,
    pub original_image: Option<Vec<u8>>,
}

} // verus!
