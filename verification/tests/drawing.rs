use captcha_gen::{draw_interference_ellipse, get_image, CaptchaBuilder};
use imageproc::noise::{gaussian_noise_mut, salt_and_pepper_noise_mut};

#[test]
fn zero_ellipses_leave_canvas_bit_identical() {
    let mut canvas = get_image(60, 40);
    let before = canvas.pixels().clone();
    draw_interference_ellipse(0, &mut canvas);
    assert_eq!(&before, canvas.pixels());
    assert_eq!(canvas.width(), 60);
    assert_eq!(canvas.height(), 40);
}

#[test]
fn zero_ellipses_need_no_minimum_canvas() {
    let mut canvas = get_image(5, 5);
    let before = canvas.pixels().clone();
    draw_interference_ellipse(0, &mut canvas);
    assert_eq!(&before, canvas.pixels());
}

#[test]
fn one_ellipse_changes_the_canvas() {
    let mut canvas = get_image(60, 40);
    let before = canvas.pixels().clone();
    draw_interference_ellipse(1, &mut canvas);
    assert_eq!(canvas.pixels().len(), before.len());
    assert_ne!(&before, canvas.pixels(), "an in-bounds outline must touch pixels");
}

#[test]
fn background_canvas_is_uniformly_filled() {
    let canvas = get_image(2, 3);
    assert_eq!(canvas.pixels().len(), 2 * 3 * 3);
    for pixel in canvas.pixels().chunks(3) {
        assert_eq!(pixel, [224, 238, 253]);
    }
}

#[test]
fn noise_passes_perturb_the_canvas() {
    let prepared = CaptchaBuilder::new()
        .length(4)
        .width(200)
        .height(70)
        .complexity(5)
        .prepare();
    let noise = prepared.noise().expect("complexity 5 must ask for noise");
    let before = prepared.canvas().pixels().clone();
    let mut img = image::ImageBuffer::<image::Rgb<u8>, Vec<u8>>::from_raw(
        prepared.canvas().width(),
        prepared.canvas().height(),
        before.clone(),
    )
    .expect("well-formed canvas");
    gaussian_noise_mut(
        &mut img,
        noise.mean as f64,
        noise.stddev as f64,
        noise.gaussian_seed,
    );
    salt_and_pepper_noise_mut(
        &mut img,
        noise.rate_per_mille as f64 / 1000.0,
        noise.salt_pepper_seed,
    );
    let after = img.into_raw();
    assert_eq!(after.len(), before.len());
    assert_ne!(after, before, "noise at complexity 5 must move some channel");
}
