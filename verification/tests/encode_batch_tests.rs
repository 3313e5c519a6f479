use enhancer::batch::ImageBatcher;
use enhancer::encode::{decode_pixel, encode_image};
use enhancer::img::RgbBuf;

fn uniform_rgb(w: usize, h: usize, rgb: [u8; 3]) -> RgbBuf {
    let mut pixels = Vec::with_capacity(3 * w * h);
    for _ in 0..(w * h) {
        pixels.extend_from_slice(&rgb);
    }
    RgbBuf { width: w, height: h, pixels }
}

#[test]
fn white_pixel_round_trips_within_epsilon() {
    let img = uniform_rgb(1, 1, [255, 255, 255]);
    let e = encode_image(&img);
    let (l, a, b) = (e.data[0], e.data[1], e.data[2]);
    // Pure white sits at the top of the lightness scale with no chrominance.
    assert!((99..=100).contains(&l));
    assert!(a.abs() <= 1 && b.abs() <= 1);
    let (r, g, bl) = decode_pixel(l, a, b);
    assert!(r >= 250 && g >= 250 && bl >= 250);
}

#[test]
fn encoder_matches_the_lab_conversion() {
    let img = uniform_rgb(1, 1, [10, 200, 30]);
    let e = encode_image(&img);
    let lab = lab::Lab::from_rgb(&[10, 200, 30]);
    assert_eq!(e.data[0], lab.l as i16);
    assert_eq!(e.data[1], lab.a as i16);
    assert_eq!(e.data[2], lab.b as i16);
}

#[test]
fn planes_are_channel_major_and_column_indexed() {
    // 2 x 2 image, distinct colors; pixel (x, y) sits at 3 * (y * 2 + x).
    let pixels = vec![
        250, 0, 0, // (0, 0)
        0, 250, 0, // (1, 0)
        0, 0, 250, // (0, 1)
        200, 200, 0, // (1, 1)
    ];
    let img = RgbBuf { width: 2, height: 2, pixels };
    let e = encode_image(&img);
    assert_eq!(e.data.len(), 12);
    let colors: [[u8; 3]; 4] = [[250, 0, 0], [0, 250, 0], [0, 0, 250], [200, 200, 0]];
    for x in 0..2usize {
        for y in 0..2usize {
            let lab = lab::Lab::from_rgb(&colors[y * 2 + x]);
            // Plane c, then [x][y]: index c * 4 + x * 2 + y.
            assert_eq!(e.data[x * 2 + y], lab.l as i16);
            assert_eq!(e.data[4 + x * 2 + y], lab.a as i16);
            assert_eq!(e.data[8 + x * 2 + y], lab.b as i16);
        }
    }
}

#[test]
fn batching_three_samples_keeps_order_and_leading_dimension() {
    let colors: [[u8; 3]; 3] = [[255, 0, 0], [0, 255, 0], [0, 0, 255]];
    let mut items = Vec::new();
    for c in colors.iter() {
        let truth = uniform_rgb(224, 224, *c);
        let degraded = uniform_rgb(224, 224, [c[0] / 2, c[1] / 2, c[2] / 2]);
        items.push((truth, degraded));
    }
    let batcher = ImageBatcher::new();
    let b = batcher.batch(&items);
    assert_eq!(b.count, 3);
    assert_eq!(b.truth.len(), 3 * 150528);
    assert_eq!(b.transformed.len(), 3 * 150528);
    for (i, c) in colors.iter().enumerate() {
        let lab_t = lab::Lab::from_rgb(c);
        let lab_d = lab::Lab::from_rgb(&[c[0] / 2, c[1] / 2, c[2] / 2]);
        let off = i * 150528;
        // First element of the L plane of sample i.
        assert_eq!(b.truth[off], lab_t.l as i16);
        assert_eq!(b.transformed[off], lab_d.l as i16);
        // First element of the a and b planes of sample i.
        assert_eq!(b.truth[off + 50176], lab_t.a as i16);
        assert_eq!(b.truth[off + 2 * 50176], lab_t.b as i16);
    }
}

#[test]
fn batching_nothing_gives_an_empty_batch() {
    let batcher = ImageBatcher::new();
    let b = batcher.batch(&Vec::new());
    assert_eq!(b.count, 0);
    assert_eq!(b.truth.len(), 0);
    assert_eq!(b.transformed.len(), 0);
}
