use color_mosaic::raster::{Image, Rgb};

#[test]
fn blank_image_is_black() {
    let img = Image::blank(3, 2);
    assert_eq!(img.width, 3);
    assert_eq!(img.height, 2);
    assert_eq!(img.rows.len(), 2);
    for y in 0..2 {
        for x in 0..3 {
            assert_eq!(img.get_pixel(x, y), Rgb { r: 0, g: 0, b: 0 });
        }
    }
}

#[test]
fn from_rows_checks_row_lengths() {
    let p = Rgb { r: 1, g: 2, b: 3 };
    let q = Rgb { r: 4, g: 5, b: 6 };
    let img = Image::from_rows(2, vec![vec![p, q], vec![q, p]]).unwrap();
    assert_eq!(img.height, 2);
    assert_eq!(img.get_pixel(1, 0), q);
    assert_eq!(img.get_pixel(1, 1), p);
    assert!(Image::from_rows(2, vec![vec![p, q], vec![q]]).is_none());
    assert_eq!(Image::from_rows(5, vec![]).unwrap().height, 0);
}
