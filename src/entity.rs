use vstd::prelude::*;

use std::ops::Range;

verus! {

/// Handle to an entity that was added to the engine: its index, the index ranges of its
/// two tessellated parts, and an optional label.
pub struct EntityToken<'a> {
    pub index: usize,
    pub stroke_range: Range<u32>,
    pub fill_range: Range<u32>,
    pub label: Option<&'a str>,
}

impl<'a> EntityToken<'a> {
    pub fn new(index: usize, stroke_range: Range<u32>, fill_range: Range<u32>) -> (t: EntityToken<'a>)
        ensures
            t.index == index,
            t.stroke_range == stroke_range,
            t.fill_range == fill_range,
            t.label.is_none(),
    {
        EntityToken { index, stroke_range, fill_range, label: None }
    }
}

/// Tags every vertex of a tessellated path with the id of the primitive that draws it.
pub struct WithId(pub i32);

/// Builds background vertices from tessellated positions alone.
pub struct Custom;

} // verus!
