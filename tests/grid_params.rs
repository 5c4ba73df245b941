use mercator::{grid_params, primitive_for, Conversion, Grid, Primitive, Wiring, SCALE_DENOMINATOR};

#[test]
fn twd97_parameters() {
    let p = grid_params(Grid::Twd97);
    assert_eq!(p.scale_e4, 9999);
    assert_eq!(p.false_easting, 250000);
    assert_eq!(p.center_degrees, Some(121));
}

#[test]
fn twd97_matches_zone2_on_121() {
    let t = grid_params(Grid::Twd97);
    let z = grid_params(Grid::Zone2);
    assert_eq!(t.scale_e4, z.scale_e4);
    assert_eq!(t.false_easting, z.false_easting);
    assert_eq!(z.center_degrees, None);
}

#[test]
fn zone_parameters() {
    let z3 = grid_params(Grid::Zone3);
    assert_eq!((z3.scale_e4, z3.false_easting, z3.center_degrees), (10000, 350000, None));
    let z6 = grid_params(Grid::Zone6);
    assert_eq!((z6.scale_e4, z6.false_easting, z6.center_degrees), (9996, 500000, None));
}

#[test]
fn scale_factor_as_float() {
    let k0 = |g: Grid| grid_params(g).scale_e4 as f64 / SCALE_DENOMINATOR as f64;
    assert_eq!(k0(Grid::Twd97), 0.9999);
    assert_eq!(k0(Grid::Zone3), 1.0);
    assert_eq!(k0(Grid::Zone6), 0.9996);
}

#[test]
fn to_grid_always_forward() {
    assert_eq!(primitive_for(Conversion::ToGrid, Wiring::Published), Primitive::Forward);
    assert_eq!(primitive_for(Conversion::ToGrid, Wiring::Corrected), Primitive::Forward);
}

#[test]
fn to_wgs84_published_runs_forward() {
    assert_eq!(primitive_for(Conversion::ToWgs84, Wiring::Published), Primitive::Forward);
}

#[test]
fn to_wgs84_corrected_runs_inverse() {
    assert_eq!(primitive_for(Conversion::ToWgs84, Wiring::Corrected), Primitive::Inverse);
}
