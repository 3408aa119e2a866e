//! The screen as an area.

use vstd::prelude::*;
use crate::utils::Rect;

verus! {

/// The whole screen of a terminal that is `dimensions.0` columns wide and
/// `dimensions.1` rows high.
pub fn size(dimensions: (u16, u16)) -> (screen: Rect)
    ensures
        screen == (Rect { x: 0, y: 0, width: dimensions.0, height: dimensions.1 }),
{
    Rect { x: 0, y: 0, width: dimensions.0, height: dimensions.1 }
}

} // verus!
