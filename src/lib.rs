//! Parameters of the transverse Mercator grids on the WGS84 ellipsoid.
//!
//! The projection series themselves run in double precision; this crate
//! holds, as exact integers, what each named grid fixes: its scale factor
//! `k0`, its false easting, and its central meridian where the grid has one.
use vstd::prelude::*;

pub mod grid;

pub use grid::{
    grid_params, primitive_for, Conversion, Grid, GridParams, Primitive, Wiring, SCALE_DENOMINATOR,
};
