use vstd::prelude::*;

verus! {

/// A scale factor `k0` is held as a count of ten-thousandths.
pub const SCALE_DENOMINATOR: u32 = 10000;

/// The named transverse Mercator grids.
#[derive(Clone, Copy, Debug, PartialEq, Eq, Structural)]
pub enum Grid {
    /// Taiwan's national grid: central meridian 121 degrees east.
    Twd97,
    /// A 2-degree zone on a meridian the caller picks.
    Zone2,
    /// A 3-degree zone on a meridian the caller picks.
    Zone3,
    /// A 6-degree zone on a meridian the caller picks.
    Zone6,
}

/// What a grid fixes: `k0 = scale_e4 / SCALE_DENOMINATOR`, the false easting
/// in metres, and the central meridian in degrees east where the grid fixes
/// one (`None`: the caller gives it). The false northing is always zero.
#[derive(Clone, Copy, Debug, PartialEq, Eq, Structural)]
pub struct GridParams {
    pub scale_e4: u32,
    pub false_easting: u32,
    pub center_degrees: Option<i32>,
}

/// `k0` of a grid, in ten-thousandths.
pub open spec fn grid_scale_e4(g: Grid) -> int {
    match g {
        Grid::Twd97 => 9999,
        Grid::Zone2 => 9999,
        Grid::Zone3 => 10000,
        Grid::Zone6 => 9996,
    }
}

/// False easting of a grid, in metres.
pub open spec fn grid_false_easting(g: Grid) -> int {
    match g {
        Grid::Twd97 => 250000,
        Grid::Zone2 => 250000,
        Grid::Zone3 => 350000,
        Grid::Zone6 => 500000,
    }
}

/// Central meridian that a grid fixes, in degrees east.
pub open spec fn grid_center(g: Grid) -> Option<int> {
    match g {
        Grid::Twd97 => Some(121),
        _ => None,
    }
}

/// The parameters of a grid.
pub fn grid_params(g: Grid) -> (p: GridParams)
    ensures
        p.scale_e4 == grid_scale_e4(g),
        p.false_easting == grid_false_easting(g),
        p.center_degrees matches Some(c) ==> grid_center(g) == Some(c as int),
        p.center_degrees is None <==> grid_center(g) is None,
        0 < p.scale_e4 <= SCALE_DENOMINATOR,
{
    match g {
        Grid::Twd97 => GridParams { scale_e4: 9999, false_easting: 250000, center_degrees: Some(121) },
        Grid::Zone2 => GridParams { scale_e4: 9999, false_easting: 250000, center_degrees: None },
        Grid::Zone3 => GridParams { scale_e4: 10000, false_easting: 350000, center_degrees: None },
        Grid::Zone6 => GridParams { scale_e4: 9996, false_easting: 500000, center_degrees: None },
    }
}

/// The two projection primitives: geodetic to planar, and planar to geodetic.
#[derive(Clone, Copy, Debug, PartialEq, Eq, Structural)]
pub enum Primitive {
    Forward,
    Inverse,
}

/// The direction a preset is named for.
#[derive(Clone, Copy, Debug, PartialEq, Eq, Structural)]
pub enum Conversion {
    /// Longitude and latitude to grid easting and northing.
    ToGrid,
    /// Grid easting and northing to longitude and latitude.
    ToWgs84,
}

/// How the presets named for `ToWgs84` are wired. As first published they
/// run the forward primitive, so they do not invert anything; `Corrected`
/// runs the inverse primitive.
#[derive(Clone, Copy, Debug, PartialEq, Eq, Structural)]
pub enum Wiring {
    Published,
    Corrected,
}

/// The primitive that a preset named for `c` runs under wiring `w`.
pub open spec fn spec_primitive_for(c: Conversion, w: Wiring) -> Primitive {
    match (c, w) {
        (Conversion::ToWgs84, Wiring::Corrected) => Primitive::Inverse,
        _ => Primitive::Forward,
    }
}

/// The primitive that a preset named for `c` runs under wiring `w`.
pub fn primitive_for(c: Conversion, w: Wiring) -> (r: Primitive)
    ensures
        r == spec_primitive_for(c, w),
        c == Conversion::ToGrid ==> r == Primitive::Forward,
        c == Conversion::ToWgs84 ==> (r == Primitive::Inverse <==> w == Wiring::Corrected),
{
    match c {
        Conversion::ToGrid => Primitive::Forward,
        Conversion::ToWgs84 => match w {
            Wiring::Published => Primitive::Forward,
            Wiring::Corrected => Primitive::Inverse,
        },
    }
}

/// TWD97 is the 2-degree zone on the meridian 121 degrees east: the same
/// scale factor 0.9999 and false easting 250000 m, with that meridian fixed.
pub proof fn twd97_is_zone2_on_121()
    ensures
        grid_scale_e4(Grid::Twd97) == grid_scale_e4(Grid::Zone2) == 9999,
        grid_false_easting(Grid::Twd97) == grid_false_easting(Grid::Zone2) == 250000,
        grid_center(Grid::Twd97) == Some(121int),
        grid_center(Grid::Zone2) is None,
{
}

} // verus!
