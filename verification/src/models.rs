//! Names that the indexing models share.

use vstd::prelude::*;

verus! {

/// The id of a source.
pub type SourceId = String;

/// The id of an index.
pub type IndexId = String;

/// A position in a source, in the encoding of the source.
pub type Offset = Vec<u8>;

} // verus!
