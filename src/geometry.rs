use vstd::prelude::*;

verus! {

/// `embedded_graphics::prelude::Point`: a plain pair of `i32` coordinates
/// with public fields, visible to proofs as such.
#[verifier::external_type_specification]
pub struct ExPoint(embedded_graphics::prelude::Point);

/// `embedded_graphics::prelude::Size`: a width and a height in `u32`, with
/// public fields.
#[verifier::external_type_specification]
pub struct ExSize(embedded_graphics::prelude::Size);

/// `embedded_graphics::primitives::Rectangle`: its top-left corner and its
/// size, both public fields.
#[verifier::external_type_specification]
pub struct ExRectangle(embedded_graphics::primitives::Rectangle);

/// Relies on `Rectangle::with_corners`: the top-left corner is the
/// componentwise minimum of the two corners, and each side spans both
/// corners inclusively (`|a - b| + 1`). The differences are computed in
/// `i32` and the sides in `u32`, so both must fit.
pub assume_specification[ embedded_graphics::primitives::Rectangle::with_corners ](
    corner_1: embedded_graphics::prelude::Point,
    corner_2: embedded_graphics::prelude::Point,
) -> (r: embedded_graphics::primitives::Rectangle)
    requires
        i32::MIN <= corner_1.x - corner_2.x <= i32::MAX,
        i32::MIN <= corner_1.y - corner_2.y <= i32::MAX,
    ensures
        r.top_left.x == if corner_1.x <= corner_2.x { corner_1.x } else { corner_2.x },
        r.top_left.y == if corner_1.y <= corner_2.y { corner_1.y } else { corner_2.y },
        r.size.width == if corner_1.x <= corner_2.x {
            corner_2.x - corner_1.x + 1
        } else {
            corner_1.x - corner_2.x + 1
        },
        r.size.height == if corner_1.y <= corner_2.y {
            corner_2.y - corner_1.y + 1
        } else {
            corner_1.y - corner_2.y + 1
        },
;

} // verus!
