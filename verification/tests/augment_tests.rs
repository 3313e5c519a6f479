use enhancer::augment::{sample_params, transform, DegradeParams};
use enhancer::img::RgbaBuf;

fn patterned(w: usize, h: usize) -> RgbaBuf {
    let mut pixels = Vec::with_capacity(4 * w * h);
    for y in 0..h {
        for x in 0..w {
            pixels.push((x % 256) as u8);
            pixels.push((y % 256) as u8);
            pixels.push(((x + y) % 256) as u8);
            pixels.push(255);
        }
    }
    RgbaBuf { width: w, height: h, pixels }
}

fn uniform(w: usize, h: usize, rgba: [u8; 4]) -> RgbaBuf {
    let mut pixels = Vec::with_capacity(4 * w * h);
    for _ in 0..(w * h) {
        pixels.extend_from_slice(&rgba);
    }
    RgbaBuf { width: w, height: h, pixels }
}

fn neutral() -> DegradeParams {
    DegradeParams::baseline()
}

#[test]
fn large_image_gives_one_224_pair() {
    let img = patterned(448, 500);
    let (truth, degraded) = transform(&img, &neutral()).expect("accepted");
    assert_eq!((truth.width, truth.height), (224, 224));
    assert_eq!((degraded.width, degraded.height), (224, 224));
    assert_eq!(truth.pixels.len(), 4 * 224 * 224);
    assert_eq!(degraded.pixels.len(), 4 * 224 * 224);
}

#[test]
fn small_image_rejected_and_later_inputs_unaffected() {
    let small = patterned(447, 448);
    assert!(transform(&small, &neutral()).is_none());
    let tall_but_narrow = patterned(448, 447);
    assert!(transform(&tall_but_narrow, &neutral()).is_none());
    let good = patterned(448, 448);
    assert!(transform(&good, &neutral()).is_some());
}

#[test]
fn neutral_params_leave_degraded_identical_to_truth() {
    let img = patterned(448, 448);
    let (truth, degraded) = transform(&img, &neutral()).expect("accepted");
    assert_eq!(truth.pixels, degraded.pixels);
}

#[test]
fn truth_is_the_unmodified_center_crop() {
    let img = patterned(450, 460);
    let (truth, _) = transform(&img, &neutral()).expect("accepted");
    let x0 = 450 / 2 - 112;
    let y0 = 460 / 2 - 112;
    for &(x, y) in &[(0usize, 0usize), (223, 0), (0, 223), (223, 223), (100, 57)] {
        for c in 0..4 {
            assert_eq!(truth.get(x, y, c), img.get(x0 + x, y0 + y, c));
        }
    }
}

#[test]
fn brightness_scales_and_clamps() {
    let img = uniform(448, 448, [100, 100, 100, 7]);
    let prm = DegradeParams { hue_angle: 0, brightness_pm: 2000, desat_pm: 0, contrast_pm: 1000, blur_sigma: 0 };
    let (_, degraded) = transform(&img, &prm).expect("accepted");
    assert_eq!(degraded.get(0, 0, 0), 200);
    assert_eq!(degraded.get(0, 0, 1), 200);
    assert_eq!(degraded.get(0, 0, 2), 200);
    assert_eq!(degraded.get(0, 0, 3), 7);

    let hot = uniform(448, 448, [200, 3, 0, 255]);
    let (_, clamped) = transform(&hot, &prm).expect("accepted");
    assert_eq!(clamped.get(5, 5, 0), 255);
    assert_eq!(clamped.get(5, 5, 1), 6);
}

#[test]
fn desaturation_blends_toward_luma_average() {
    let img = uniform(448, 448, [200, 0, 0, 255]);
    let prm = DegradeParams { hue_angle: 0, brightness_pm: 1000, desat_pm: 500, contrast_pm: 1000, blur_sigma: 0 };
    let (_, degraded) = transform(&img, &prm).expect("accepted");
    // avg = (200 + 0 + 0) / 3 = 66; channels move halfway toward it.
    assert_eq!(degraded.get(10, 10, 0), 133);
    assert_eq!(degraded.get(10, 10, 1), 33);
    assert_eq!(degraded.get(10, 10, 2), 33);
}

#[test]
fn contrast_pulls_toward_midpoint() {
    let img = uniform(448, 448, [0, 128, 255, 255]);
    let prm = DegradeParams { hue_angle: 0, brightness_pm: 1000, desat_pm: 0, contrast_pm: 800, blur_sigma: 0 };
    let (_, degraded) = transform(&img, &prm).expect("accepted");
    assert_eq!(degraded.get(10, 10, 0), 25);
    assert_eq!(degraded.get(10, 10, 1), 128);
    assert_eq!(degraded.get(10, 10, 2), 229);
}

#[test]
fn hue_rotation_changes_a_colored_image() {
    let img = uniform(448, 448, [255, 0, 0, 255]);
    let prm = DegradeParams { hue_angle: 90, brightness_pm: 1000, desat_pm: 0, contrast_pm: 1000, blur_sigma: 0 };
    let (truth, degraded) = transform(&img, &prm).expect("accepted");
    assert_eq!(truth.pixels.len(), degraded.pixels.len());
    assert_ne!(truth.pixels, degraded.pixels);
}

#[test]
fn blur_smooths_a_checkerboard() {
    let mut img = patterned(448, 448);
    for y in 0..448usize {
        for x in 0..448usize {
            let v = if (x + y) % 2 == 0 { 255 } else { 0 };
            let base = 4 * (y * 448 + x);
            img.pixels[base] = v;
            img.pixels[base + 1] = v;
            img.pixels[base + 2] = v;
        }
    }
    let prm = DegradeParams { hue_angle: 0, brightness_pm: 1000, desat_pm: 0, contrast_pm: 1000, blur_sigma: 1 };
    let (truth, degraded) = transform(&img, &prm).expect("accepted");
    assert_ne!(truth.pixels, degraded.pixels);
}

#[test]
fn sampled_params_stay_in_their_documented_ranges() {
    for _ in 0..50 {
        let p = sample_params();
        assert!((-50..50).contains(&p.hue_angle));
        assert!((500..2000).contains(&p.brightness_pm));
        assert_eq!(p.desat_pm, 500);
        assert_eq!(p.contrast_pm, 800);
        assert_eq!(p.blur_sigma, 1);
    }
}
