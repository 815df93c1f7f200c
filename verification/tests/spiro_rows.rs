use monoxide_ttf::spiro::{
    band_offset, constraint_rows, count, cyclic_start, prepare_types, solver_size, start_rows,
    CpTy, Error,
};

#[test]
fn constraint_count_of_open_path() {
    let tys = [CpTy::Open, CpTy::G2, CpTy::G2, CpTy::EndOpen];
    // one for the open start, two between smooth points, one at the end
    assert_eq!(count(&tys, 3), 4);
    assert_eq!(count(&tys, 1), 1);
    assert_eq!(count(&tys, 0), 0);
}

#[test]
fn constraint_count_of_closed_smooth_path() {
    let tys = [CpTy::G4, CpTy::G4, CpTy::G4, CpTy::G4];
    assert_eq!(count(&tys, 3), 12);
}

#[test]
fn prepare_types_rejects_short_paths() {
    let mut tys = vec![CpTy::G2];
    assert_eq!(prepare_types(&mut tys, false), Err(Error::NotEnoughCps));
    assert_eq!(tys, vec![CpTy::G2]);
    let mut none: Vec<CpTy> = vec![];
    assert_eq!(prepare_types(&mut none, true), Err(Error::NotEnoughCps));
}

#[test]
fn prepare_types_opens_open_paths() {
    let mut tys = vec![CpTy::Corner, CpTy::G2, CpTy::G2, CpTy::Corner];
    assert_eq!(prepare_types(&mut tys, false), Ok(3));
    assert_eq!(tys, vec![CpTy::Open, CpTy::G2, CpTy::G2, CpTy::EndOpen]);
}

#[test]
fn prepare_types_keeps_closed_paths() {
    let mut tys = vec![CpTy::G4, CpTy::Flat, CpTy::Curl];
    assert_eq!(prepare_types(&mut tys, true), Ok(3));
    assert_eq!(tys, vec![CpTy::G4, CpTy::Flat, CpTy::Curl]);
    let mut open = vec![CpTy::Open, CpTy::G2, CpTy::EndOpen];
    assert_eq!(prepare_types(&mut open, true), Ok(2));
}

#[test]
fn start_rows_of_smooth_start() {
    let tys = [CpTy::G4, CpTy::G4, CpTy::G4, CpTy::G4];
    assert_eq!(start_rows(&tys, 3, 12), (0, 0, 10));
    let tys = [CpTy::G2, CpTy::G2, CpTy::G2];
    assert_eq!(start_rows(&tys, 2, 4), (0, 0, 3));
    let tys = [CpTy::Open, CpTy::G2, CpTy::G2, CpTy::EndOpen];
    assert_eq!(start_rows(&tys, 3, 4), (0, 0, 0));
}

#[test]
fn start_rows_of_flat_start_skips_to_first_smooth_point() {
    // (Flat, Curl) adds no constraint, (Curl, G4) four, and the G4 reaches
    // two rows back.
    let tys = [CpTy::Flat, CpTy::Curl, CpTy::G4, CpTy::Flat];
    assert_eq!(start_rows(&tys, 3, 8), (2, 4, 2));
    assert_eq!(cyclic_start(&tys, 3, 8), (2, 4, 2));
}

#[test]
fn start_rows_of_flat_start_without_smooth_point() {
    let tys = [CpTy::Flat, CpTy::Curl, CpTy::Flat, CpTy::Curl, CpTy::Flat];
    assert_eq!(count(&tys, 4), 8);
    assert_eq!(start_rows(&tys, 4, 8), (0, 0, 0));
}

#[test]
fn constraint_rows_between_smooth_points() {
    let (rows, next) = constraint_rows(CpTy::G4, CpTy::G4, 10, 12);
    assert_eq!(rows.th_left, Some(10));
    assert_eq!(rows.k0_left, Some(11));
    assert_eq!(rows.k1_left, Some(0));
    assert_eq!(rows.k2_left, Some(1));
    assert_eq!(rows.th_right, Some(2));
    assert_eq!(rows.k0_right, Some(3));
    assert_eq!(rows.k1_right, Some(4));
    assert_eq!(rows.k2_right, Some(5));
    assert_eq!(next, 2);
}

#[test]
fn constraint_rows_of_open_start() {
    let (rows, next) = constraint_rows(CpTy::Open, CpTy::G2, 0, 4);
    assert_eq!(rows.th_left, None);
    assert_eq!(rows.k0_left, None);
    assert_eq!(rows.k1_left, None);
    assert_eq!(rows.k2_left, None);
    assert_eq!(rows.th_right, Some(0));
    assert_eq!(rows.k0_right, Some(1));
    assert_eq!(rows.k1_right, None);
    assert_eq!(rows.k2_right, None);
    assert_eq!(next, 0);
}

#[test]
fn constraint_rows_on_both_ends_of_corner_segment() {
    // a corner followed by a flat point: four unknowns, two fixed on the
    // left, and the flat point's angle and curvature cross to the right
    let (rows, next) = constraint_rows(CpTy::Corner, CpTy::Flat, 3, 10);
    assert_eq!(rows.th_left, None);
    assert_eq!(rows.k0_left, None);
    assert_eq!(rows.k1_left, Some(3));
    assert_eq!(rows.k2_left, Some(4));
    assert_eq!(rows.k1_right, None);
    assert_eq!(rows.k2_right, None);
    assert_eq!(rows.th_right, Some(5));
    assert_eq!(rows.k0_right, Some(6));
    assert_eq!(next, 5);
}

#[test]
fn band_offsets() {
    assert_eq!(band_offset(0, 3, 4), 2);
    assert_eq!(band_offset(2, 1, 6), 6);
    assert_eq!(band_offset(1, 8, 12), 10);
    assert_eq!(band_offset(1, 20, 12), 10);
}

#[test]
fn solver_sizes() {
    assert_eq!(solver_size(CpTy::Open, 4), 5);
    assert_eq!(solver_size(CpTy::G4, 12), 36);
    assert_eq!(solver_size(CpTy::Corner, 7), 7);
    assert_eq!(solver_size(CpTy::Flat, 1), 5);
}

#[test]
fn crossing_rows_are_shared() {
    // a G4 point between two segments, with the rows wrapping around
    let (first, next) = constraint_rows(CpTy::Flat, CpTy::G4, 2, 9);
    let (second, _) = constraint_rows(CpTy::G4, CpTy::Curl, next, 9);
    assert_eq!(second.th_left, first.th_right);
    assert_eq!(second.k0_left, first.k0_right);
    assert_eq!(second.k1_left.map(|r| r % 9), first.k1_right);
    assert_eq!(second.k2_left.map(|r| r % 9), first.k2_right);
    assert_eq!(first.k2_right, Some(0));
    assert_eq!(second.k2_left, Some(9));
}
