use color_mosaic::raster::{Image, Rgb};
use color_mosaic::sample::{pixels_at, sample_pixels, SampleError};
use rand::rngs::StdRng;
use rand::SeedableRng;

fn rgb(r: u8, g: u8, b: u8) -> Rgb {
    Rgb { r, g, b }
}

fn corners() -> Image {
    Image::from_rows(2, vec![
        vec![rgb(255, 0, 0), rgb(0, 255, 0)],
        vec![rgb(0, 0, 255), rgb(255, 255, 255)],
    ])
    .unwrap()
}

#[test]
fn corner_image_samples_are_corner_colors() {
    let img = corners();
    let mut rng = StdRng::seed_from_u64(7);
    let samples = sample_pixels(&img, 1000, &mut rng).unwrap();
    assert_eq!(samples.len(), 1000);
    let all = [rgb(255, 0, 0), rgb(0, 255, 0), rgb(0, 0, 255), rgb(255, 255, 255)];
    assert!(samples.iter().all(|s| all.contains(s)));
    for c in all.iter() {
        assert!(samples.contains(c));
    }
}

#[test]
fn sample_count_is_exact() {
    let img = corners();
    let mut rng = StdRng::seed_from_u64(8);
    for k in [0usize, 1, 2, 17, 500] {
        assert_eq!(sample_pixels(&img, k, &mut rng).unwrap().len(), k);
    }
}

#[test]
fn sampling_leaves_image_unchanged() {
    let img = corners();
    let before = img.clone();
    let mut rng = StdRng::seed_from_u64(9);
    let _ = sample_pixels(&img, 100, &mut rng).unwrap();
    assert_eq!(img.rows, before.rows);
    assert_eq!((img.width, img.height), (before.width, before.height));
}

#[test]
fn empty_image_cannot_be_sampled() {
    let mut rng = StdRng::seed_from_u64(10);
    let img = Image::blank(0, 3);
    assert_eq!(sample_pixels(&img, 5, &mut rng).unwrap_err(), SampleError::EmptyImage);
    assert_eq!(sample_pixels(&img, 0, &mut rng).unwrap(), Vec::new());
}

#[test]
fn pixels_at_reads_given_positions() {
    let img = corners();
    let got = pixels_at(&img, &vec![(1, 0), (0, 1), (1, 1), (1, 0)]);
    assert_eq!(got, vec![rgb(0, 255, 0), rgb(0, 0, 255), rgb(255, 255, 255), rgb(0, 255, 0)]);
}

#[test]
fn samples_reach_far_pixels() {
    let row: Vec<Rgb> = (0..=255u8).map(|i| rgb(i, 0, 0)).collect();
    let img = Image::from_rows(256, vec![row]).unwrap();
    let mut rng = StdRng::seed_from_u64(11);
    let samples = sample_pixels(&img, 2000, &mut rng).unwrap();
    assert!(samples.iter().any(|s| s.r > 128));
}
