//! Bold typeface.
use vstd::prelude::*;

verus! {

/// Packed glyph pattern data. The bold typeface holds no glyph records yet:
/// its index resolves nothing and no word index is valid.
pub const DATA: [u32; 0] = [];

} // verus!
