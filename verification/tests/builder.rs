use captcha_gen::{CaptchaBuilder, Color, NoiseParams};

fn challenge_chars_in_range(text: &str, max_digit: char) {
    for c in text.chars() {
        assert!(('0'..=max_digit).contains(&c), "character {c} out of range");
    }
}

#[test]
fn default_build_is_five_chars_on_130_by_40() {
    let prepared = CaptchaBuilder::new().prepare();
    assert_eq!(prepared.text().chars().count(), 5);
    challenge_chars_in_range(prepared.text(), '5');
    assert_eq!(prepared.canvas().width(), 130);
    assert_eq!(prepared.canvas().height(), 40);
    assert!(prepared.noise().is_none());
    let captcha = prepared.finish();
    assert_eq!(captcha.compression, 40);
    assert_eq!(captcha.image.width(), 130);
    assert_eq!(captcha.image.height(), 40);
}

#[test]
fn scenario_length_four_with_noise() {
    let prepared = CaptchaBuilder::new()
        .length(4)
        .width(200)
        .height(70)
        .complexity(5)
        .prepare();
    assert_eq!(prepared.text().chars().count(), 4);
    challenge_chars_in_range(prepared.text(), '4');
    assert_eq!(prepared.canvas().width(), 200);
    assert_eq!(prepared.canvas().height(), 70);
    let noise = prepared.noise().expect("complexity 5 must ask for noise");
    assert_eq!(
        noise,
        NoiseParams {
            mean: 4,
            stddev: 20,
            gaussian_seed: 20,
            rate_per_mille: 8,
            salt_pepper_seed: 2,
        }
    );
}

#[test]
fn explicit_text_overrides_earlier_length() {
    let prepared = CaptchaBuilder::new().length(3).text("7k2".to_owned()).prepare();
    assert_eq!(prepared.text().as_str(), "7k2");
    let captcha = prepared.finish();
    assert_eq!(captcha.text, "7k2");
    assert_eq!(captcha.compression, 40);
}

#[test]
fn complexity_is_clamped_to_bounds() {
    let low = CaptchaBuilder::new().complexity(0).prepare();
    assert!(low.noise().is_none(), "clamped complexity 1 means no noise");

    let high = CaptchaBuilder::new().complexity(99).prepare();
    let noise = high.noise().expect("clamped complexity 10 means noise");
    assert_eq!(noise.mean, 9);
    assert_eq!(noise.stddev, 45);
    assert_eq!(noise.gaussian_seed, 45);
    assert_eq!(noise.rate_per_mille, 18);
    assert_eq!(noise.salt_pepper_seed, 5);

    let mid = CaptchaBuilder::new().complexity(7).prepare();
    assert_eq!(mid.noise().expect("complexity 7 means noise").mean, 6);
}

#[test]
fn complexity_one_leaves_pixels_untouched() {
    let mut prepared = CaptchaBuilder::new().complexity(1).prepare();
    prepared.add_interference();
    let before = prepared.canvas().pixels().clone();
    // The noise stage applies nothing when no parameters are handed out.
    assert!(prepared.noise().is_none());
    let after = prepared.finish();
    assert_eq!(&before, after.image.pixels());
}

#[test]
fn builder_rejects_degenerate_configurations() {
    assert!(CaptchaBuilder::new().is_buildable());
    assert!(CaptchaBuilder::new().length(4).width(200).height(70).is_buildable());
    assert!(!CaptchaBuilder::new().width(10).is_buildable());
    assert!(!CaptchaBuilder::new().height(10).is_buildable());
    assert!(!CaptchaBuilder::new().text(String::new()).is_buildable());
}

#[test]
fn glyph_plan_follows_layout_rules() {
    let prepared = CaptchaBuilder::new().length(4).width(200).height(70).prepare();
    let glyphs = prepared.glyphs();
    assert_eq!(glyphs.len(), 4);
    let slot = (200 - 10) / 4;
    let palette = [
        Color { red: 214, green: 14, blue: 50 },
        Color { red: 240, green: 181, blue: 41 },
        Color { red: 176, green: 203, blue: 40 },
        Color { red: 105, green: 137, blue: 194 },
        Color { red: 242, green: 140, blue: 71 },
    ];
    for (i, glyph) in glyphs.iter().enumerate() {
        assert_eq!(glyph.x, 5 + i as u32 * slot);
        assert_eq!(glyph.y, 70 / 2 - 15);
        assert_eq!((glyph.scale_x, glyph.scale_y), (45, 42));
        assert_eq!(glyph.text.chars().count(), 1);
        assert!(palette.contains(&glyph.color));
    }

    let two = CaptchaBuilder::new().length(2).prepare();
    assert_eq!((two.glyphs()[0].scale_x, two.glyphs()[0].scale_y), (53, 50));
    let six = CaptchaBuilder::new().length(6).width(300).prepare();
    assert_eq!((six.glyphs()[0].scale_x, six.glyphs()[0].scale_y), (38, 35));
}

#[test]
fn replace_pixels_checks_length() {
    let mut prepared = CaptchaBuilder::new().prepare();
    let before = prepared.canvas().pixels().clone();
    assert!(!prepared.replace_pixels(vec![0u8; 7]));
    assert_eq!(&before, prepared.canvas().pixels());

    let flipped: Vec<u8> = before.iter().map(|b| 255 - b).collect();
    assert!(prepared.replace_pixels(flipped.clone()));
    assert_eq!(&flipped, prepared.canvas().pixels());
}
