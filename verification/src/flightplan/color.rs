//! The colours that points of interest are drawn in.

use vstd::prelude::*;

verus! {

/// The colours, as ARGB words read with sign. Points of interest take them
/// in turn, and begin again after the last.
pub const POI_COLORS: [i32; 11] = [
    -7589836,
    -7581644,
    -6537400,
    -4699067,
    -4631765,
    -3316660,
    -2600147,
    -1022921,
    -51356,
    -49820,
    -47804,
];

/// The colour of the point of interest at `index`.
pub open spec fn spec_poi_color(index: nat) -> i32 {
    POI_COLORS[(index % 11) as int]
}

/// The colour of the point of interest at `index`.
pub fn poi_color(index: usize) -> (color: i32)
    ensures
        color == spec_poi_color(index as nat),
{
    POI_COLORS[index % 11]
}

} // verus!
