use base64::Engine;
use captcha_gen::{
    decimal_string, get_captcha, get_color, get_image, get_rnd, join_strings, palette_color,
    split_chars, to_base64_str, CaptchaBuilder, Color,
};

#[test]
fn generated_challenges_count_and_range() {
    for n in [1usize, 3, 7] {
        let parts = get_captcha(n);
        assert_eq!(parts.len(), n);
        for part in &parts {
            assert_eq!(part.chars().count(), 1);
            let value: usize = part.parse().expect("a decimal number");
            assert!(value <= n);
        }
    }
    let parts = get_captcha(12);
    assert_eq!(parts.len(), 12);
    for part in &parts {
        let value: usize = part.parse().expect("a decimal number");
        assert!(value <= 12);
    }
}

#[test]
fn decimal_strings_are_exact() {
    assert_eq!(decimal_string(0), "0");
    assert_eq!(decimal_string(7), "7");
    assert_eq!(decimal_string(10), "10");
    assert_eq!(decimal_string(12345), "12345");
}

#[test]
fn join_and_split_round_values() {
    let parts = vec!["7".to_owned(), "k".to_owned(), "2".to_owned()];
    assert_eq!(join_strings(&parts), "7k2");
    let split = split_chars(&"7k2".to_owned());
    assert_eq!(split, parts);
}

#[test]
fn random_draws_stay_in_bounds() {
    assert_eq!(get_rnd(0), 0);
    for _ in 0..200 {
        assert!(get_rnd(5) <= 5);
    }
}

#[test]
fn random_color_comes_from_the_palette() {
    let palette: Vec<Color> = (0..5usize).map(palette_color).collect();
    assert_eq!(palette[0], Color { red: 214, green: 14, blue: 50 });
    assert_eq!(palette[4], Color { red: 242, green: 140, blue: 71 });
    for _ in 0..50 {
        assert!(palette.contains(&get_color()));
    }
}

#[test]
fn encoding_yields_a_jpeg_data_uri() {
    let canvas = get_image(60, 40);
    let uri = to_base64_str(&canvas, 40).expect("a 60 by 40 canvas encodes");
    let payload = uri
        .strip_prefix("data:image/jpeg;base64,")
        .expect("the data-URI header comes first");
    let bytes = base64::engine::general_purpose::STANDARD
        .decode(payload)
        .expect("the remainder is valid base64");
    assert!(bytes.len() >= 2, "a JPEG stream is never this short");
    assert_eq!(&bytes[0..2], [0xFF, 0xD8], "JPEG streams open with the SOI marker");
}

#[test]
fn encoding_is_a_function_of_its_inputs() {
    let canvas = get_image(33, 31);
    let first = to_base64_str(&canvas, 40).expect("encodes");
    let second = to_base64_str(&canvas, 40).expect("encodes");
    assert_eq!(first, second);
    let other_quality = to_base64_str(&canvas, 90).expect("encodes");
    assert_ne!(first, other_quality, "quality must reach the encoder");
}

#[test]
fn encoding_fails_beyond_jpeg_dimensions() {
    let canvas = get_image(70000, 1);
    assert!(to_base64_str(&canvas, 40).is_err(), "JPEG cannot hold a 70000-pixel width");
}

#[test]
fn it_generates_captcha_using_builder() {
    let mut prepared = CaptchaBuilder::new()
        .length(4)
        .width(200)
        .height(70)
        .complexity(5)
        .compression(40)
        .prepare();
    prepared.add_interference();
    if let Some(noise) = prepared.noise() {
        let mut img = image::ImageBuffer::<image::Rgb<u8>, Vec<u8>>::from_raw(
            prepared.canvas().width(),
            prepared.canvas().height(),
            prepared.canvas().pixels().clone(),
        )
        .expect("well-formed canvas");
        imageproc::noise::gaussian_noise_mut(
            &mut img,
            noise.mean as f64,
            noise.stddev as f64,
            noise.gaussian_seed,
        );
        imageproc::noise::salt_and_pepper_noise_mut(
            &mut img,
            noise.rate_per_mille as f64 / 1000.0,
            noise.salt_pepper_seed,
        );
        assert!(prepared.replace_pixels(img.into_raw()));
    }
    let captcha = prepared.finish();
    let base_img = captcha.to_base64().expect("the finished canvas encodes");
    println!("text: {}", captcha.text);
    println!("base_img: {:#?}", base_img);
    assert!(base_img.starts_with("data:image/jpeg;base64,"));
}
