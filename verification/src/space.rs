//! Coordinate-space tag types. Geometry elsewhere in the pipeline is
//! parameterized by one of these zero-sized markers so that values from
//! different spaces cannot be mixed by accident.

use vstd::prelude::*;

verus! {

/// A tag type that can say its own name, for diagnostics.
pub trait PrintableType {
    /// The name of the coordinate space.
    fn space_name() -> &'static str;
}

/// Marker for two-dimensional values that belong to no particular space.
#[derive(Copy, Clone)]
pub struct Any2D;

/// The space in which models are positioned relative to each other and the
/// camera. X right, Y up, Z towards the screen (left-handed).
#[derive(Copy, Clone)]
pub struct WorldSpace;

/// Like world space but with the origin at the camera; also known as view
/// space.
#[derive(Copy, Clone)]
pub struct CameraSpace;

/// Post-projection, pre-divide space: the view volume is `-w <= x,y,z <= w`
/// per point. Also known as projection space.
#[derive(Copy, Clone)]
pub struct ClipSpace;

/// Normalized device coordinates: clip space after dividing by `w`; every
/// axis ranges over `[-1, 1]`.
#[derive(Copy, Clone)]
pub struct NDC;

/// Pixel coordinates: x in `[0, width]`, y in `[0, height]`, depth in the
/// buffer range, with the origin in the upper left corner.
#[derive(Copy, Clone)]
pub struct ScreenSpace;

/// The spaces a geometric primitive can be tagged with.
pub trait CoordinateSystem: Copy + Clone + PrintableType {
}

impl PrintableType for Any2D {
    fn space_name() -> (r: &'static str)
        ensures
            r@ == "Any2D"@,
    {
        "Any2D"
    }
}

impl CoordinateSystem for Any2D {
}

impl PrintableType for WorldSpace {
    fn space_name() -> (r: &'static str)
        ensures
            r@ == "WorldSpace"@,
    {
        "WorldSpace"
    }
}

impl CoordinateSystem for WorldSpace {
}

impl PrintableType for CameraSpace {
    fn space_name() -> (r: &'static str)
        ensures
            r@ == "CameraSpace"@,
    {
        "CameraSpace"
    }
}

impl CoordinateSystem for CameraSpace {
}

impl PrintableType for ClipSpace {
    fn space_name() -> (r: &'static str)
        ensures
            r@ == "ClipSpace"@,
    {
        "ClipSpace"
    }
}

impl CoordinateSystem for ClipSpace {
}

impl PrintableType for NDC {
    fn space_name() -> (r: &'static str)
        ensures
            r@ == "NDC"@,
    {
        "NDC"
    }
}

impl CoordinateSystem for NDC {
}

impl PrintableType for ScreenSpace {
    fn space_name() -> (r: &'static str)
        ensures
            r@ == "ScreenSpace"@,
    {
        "ScreenSpace"
    }
}

impl CoordinateSystem for ScreenSpace {
}

} // verus!
