use simple_gl::grid::quad_indices;

#[test]
fn one_cell_is_one_quad() {
    assert_eq!(quad_indices(1, 1), vec![0, 1, 3, 2]);
}

#[test]
fn two_cells_in_a_row() {
    assert_eq!(quad_indices(2, 1), vec![0, 1, 4, 3, 1, 2, 5, 4]);
}

#[test]
fn two_rows_of_one_cell() {
    assert_eq!(quad_indices(1, 2), vec![0, 1, 3, 2, 2, 3, 5, 4]);
}

#[test]
fn a_grid_without_cells_has_no_indices() {
    assert_eq!(quad_indices(0, 0), Vec::<u32>::new());
    assert_eq!(quad_indices(3, 0), Vec::<u32>::new());
    assert_eq!(quad_indices(0, 3), Vec::<u32>::new());
}

#[test]
fn every_cell_of_a_grid_has_its_four_corners() {
    let xcount = 50usize;
    let ycount = 50usize;
    let index = quad_indices(xcount, ycount);
    assert_eq!(index.len(), 4 * xcount * ycount);
    let xwidth = xcount + 1;
    for iy in 0..ycount {
        for ix in 0..xcount {
            let at = 4 * (iy * xcount + ix);
            assert_eq!(index[at] as usize, ix + iy * xwidth);
            assert_eq!(index[at + 1] as usize, ix + 1 + iy * xwidth);
            assert_eq!(index[at + 2] as usize, ix + 1 + (iy + 1) * xwidth);
            assert_eq!(index[at + 3] as usize, ix + (iy + 1) * xwidth);
        }
    }
    assert_eq!(*index.iter().max().unwrap() as usize, (xcount + 1) * (ycount + 1) - 1);
}
