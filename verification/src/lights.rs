//! Per-frame light records. A single fixed layout serves ambient,
//! directional, point and spot lights; the kind is derived from the stored
//! fields, never stored itself. Each field is a group of four 32-bit words,
//! one word per scalar of the corresponding uniform vector, so the record can
//! be uploaded to the light arena unchanged.

use vstd::prelude::*;

verus! {

/// The most lights one frame may push; the light arena is sized for exactly
/// this many records.
pub const MAX_LIGHTS: u64 = 4;

/// One light record, already transformed into view space by the caller.
///
/// Layout: `color_max_angle` holds the color and the outer-cutoff scalar,
/// `position_range` the view-space position and the range (a range word
/// encoding a value at most zero marks a global ambient/directional light),
/// `direction_min_angle` the view-space direction and the inner cutoff.
#[derive(Clone, Copy, Debug, Eq, PartialEq)]
pub struct Light {
    pub color_max_angle: [u32; 4],
    pub position_range: [u32; 4],
    pub direction_min_angle: [u32; 4],
}

impl Light {
    /// The twelve words of the record in upload order: color group, then
    /// position group, then direction group.
    pub open spec fn spec_uniforms(self) -> Seq<u32> {
        self.color_max_angle@ + self.position_range@ + self.direction_min_angle@
    }

    /// Flattens the record for upload into the light arena.
    pub fn get_light_uniforms(&self) -> (r: [u32; 12])
        ensures
            r@ == self.spec_uniforms(),
    {
        let r = [
            self.color_max_angle[0],
            self.color_max_angle[1],
            self.color_max_angle[2],
            self.color_max_angle[3],
            self.position_range[0],
            self.position_range[1],
            self.position_range[2],
            self.position_range[3],
            self.direction_min_angle[0],
            self.direction_min_angle[1],
            self.direction_min_angle[2],
            self.direction_min_angle[3],
        ];
        proof {
            assert(r@ =~= self.spec_uniforms());
        }
        r
    }
}

} // verus!
