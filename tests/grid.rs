use color_mosaic::grid::{cell_bounds, cell_owners};

#[test]
fn bounds_of_uneven_cells() {
    assert_eq!(cell_bounds(0, 10, 3), (0, 3));
    assert_eq!(cell_bounds(1, 10, 3), (3, 6));
    assert_eq!(cell_bounds(2, 10, 3), (6, 10));
}

#[test]
fn bounds_of_even_cells() {
    assert_eq!(cell_bounds(0, 800, 20), (0, 40));
    assert_eq!(cell_bounds(19, 800, 20), (760, 800));
}

#[test]
fn bounds_with_more_cells_than_pixels() {
    assert_eq!(cell_bounds(0, 3, 5), (0, 0));
    assert_eq!(cell_bounds(1, 3, 5), (0, 1));
    assert_eq!(cell_bounds(4, 3, 5), (2, 3));
}

#[test]
fn bounds_do_not_overflow_on_large_sizes() {
    let p = usize::MAX;
    assert_eq!(cell_bounds(1, p, 2), (p / 2, p));
}

#[test]
fn owners_cover_every_pixel_once() {
    assert_eq!(cell_owners(10, 3), vec![0, 0, 0, 1, 1, 1, 2, 2, 2, 2]);
    assert_eq!(cell_owners(3, 5), vec![1, 3, 4]);
    assert_eq!(cell_owners(0, 4), Vec::<usize>::new());
}

#[test]
fn cells_partition_each_axis() {
    for pixels in 0..40usize {
        for cells in 1..12usize {
            let mut covered = vec![0u32; pixels];
            for c in 0..cells {
                let (lo, hi) = cell_bounds(c, pixels, cells);
                for x in lo..hi {
                    covered[x] += 1;
                }
            }
            assert!(covered.iter().all(|&n| n == 1));
        }
    }
}
