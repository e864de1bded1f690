//! Laws relating compression and extraction.

use vstd::prelude::*;

use crate::archive::{ExtractModel, compressed_to, extract_model, has_nul};

verus! {

/// Round trip: an archive built from `(name, data)` extracts back to exactly
/// that entry, for every contents `data` and every name free of NUL bytes.
/// (A name holding a NUL byte extracts to the `IoError` outcome instead,
/// since it cannot become a null-terminated text buffer.)
pub proof fn lemma_round_trip(name: Seq<u8>, data: Seq<u8>, bytes: Seq<u8>)
    requires
        compressed_to(name, data, bytes),
        !has_nul(name),
    ensures
        extract_model(bytes) == (ExtractModel::Entry { name, data }),
{
}

/// Determinism of content: two archives built from the same `(name, data)`
/// extract to the same outcome, even where their raw bytes differ (metadata
/// such as timestamps may vary between builds).
pub proof fn lemma_deterministic_content(name: Seq<u8>, data: Seq<u8>, b1: Seq<u8>, b2: Seq<u8>)
    requires
        compressed_to(name, data, b1),
        compressed_to(name, data, b2),
    ensures
        extract_model(b1) == extract_model(b2),
{
}

} // verus!

