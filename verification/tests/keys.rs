use image_optimizer::decimal::push_decimal;
use image_optimizer::resize::key;
use image_optimizer::Resize;

fn plain() -> Resize {
    Resize {
        webp: None,
        quality: None,
        width: None,
        height: None,
        cx: None,
        cy: None,
        cwidth: None,
        cheight: None,
    }
}

fn numeral(n: u16) -> String {
    let mut out = String::new();
    push_decimal(&mut out, n);
    out
}

#[test]
fn numerals_of_edge_values() {
    assert_eq!(numeral(0), "0");
    assert_eq!(numeral(7), "7");
    assert_eq!(numeral(10), "10");
    assert_eq!(numeral(99), "99");
    assert_eq!(numeral(100), "100");
    assert_eq!(numeral(1009), "1009");
    assert_eq!(numeral(65535), "65535");
}

#[test]
fn numeral_is_appended_to_what_is_there() {
    let mut out = String::from("w");
    push_decimal(&mut out, 4020);
    assert_eq!(out, "w4020");
}

#[test]
fn numerals_agree_with_std_for_every_value() {
    for n in 0..=u16::MAX {
        assert_eq!(numeral(n), format!("{}", n));
    }
}

#[test]
fn empty_request_has_empty_text() {
    assert_eq!(plain().to_string(), "");
}

#[test]
fn every_field_in_fixed_order() {
    let resize = Resize {
        webp: Some(true),
        quality: Some(80),
        width: Some(100),
        height: Some(200),
        cx: Some(1),
        cy: Some(2),
        cwidth: Some(30),
        cheight: Some(40),
    };
    assert_eq!(resize.to_string(), "webpq80w100h200cx1cy2cw30ch40");
}

#[test]
fn single_fields() {
    assert_eq!(Resize { quality: Some(85), ..plain() }.to_string(), "q85");
    assert_eq!(Resize { width: Some(100), ..plain() }.to_string(), "w100");
    assert_eq!(Resize { height: Some(100), ..plain() }.to_string(), "h100");
    assert_eq!(Resize { cx: Some(50), ..plain() }.to_string(), "cx50");
    assert_eq!(Resize { cy: Some(50), ..plain() }.to_string(), "cy50");
    assert_eq!(Resize { cwidth: Some(100), ..plain() }.to_string(), "cw100");
    assert_eq!(Resize { cheight: Some(100), ..plain() }.to_string(), "ch100");
}

#[test]
fn zero_is_written_and_absent_is_not() {
    assert_eq!(Resize { width: Some(0), ..plain() }.to_string(), "w0");
    assert_eq!(Resize { cx: Some(0), cy: Some(0), ..plain() }.to_string(), "cx0cy0");
}

#[test]
fn largest_values() {
    let resize = Resize {
        webp: None,
        quality: Some(255),
        width: Some(65535),
        height: Some(65535),
        cx: Some(65535),
        cy: Some(65535),
        cwidth: Some(65535),
        cheight: Some(65535),
    };
    assert_eq!(resize.to_string(), "q255w65535h65535cx65535cy65535cw65535ch65535");
}

#[test]
fn webp_tag_carries_its_value() {
    assert_eq!(Resize { webp: Some(true), ..plain() }.to_string(), "webp");
    assert_eq!(Resize { webp: Some(false), ..plain() }.to_string(), "webp0");
    assert_eq!(plain().to_string(), "");
    assert_eq!(Resize { webp: Some(true), quality: Some(80), ..plain() }.to_string(), "webpq80");
    assert_eq!(Resize { webp: Some(false), quality: Some(80), ..plain() }.to_string(), "webp0q80");
    assert_eq!(Resize { webp: Some(false), width: Some(0), ..plain() }.to_string(), "webp0w0");
}

#[test]
fn key_is_text_then_identifier() {
    let resize = Resize { quality: Some(80), width: Some(100), height: Some(100), ..plain() };
    assert_eq!(key("sample.jpg", &resize), "q80w100h100sample.jpg");
    assert_eq!(key("sample.jpg", &plain()), "sample.jpg");
    assert_eq!(key("", &Resize { cx: Some(3), ..plain() }), "cx3");
}

#[test]
fn keys_differ_when_a_field_differs() {
    let base = Resize {
        webp: Some(true),
        quality: Some(1),
        width: Some(1),
        height: Some(1),
        cx: Some(1),
        cy: Some(1),
        cwidth: Some(1),
        cheight: Some(1),
    };
    let variants = [
        Resize { webp: None, ..base },
        Resize { webp: Some(false), ..base },
        Resize { quality: Some(11), ..base },
        Resize { quality: None, ..base },
        Resize { width: Some(11), ..base },
        Resize { width: None, ..base },
        Resize { height: Some(11), ..base },
        Resize { height: None, ..base },
        Resize { cx: Some(11), ..base },
        Resize { cx: None, ..base },
        Resize { cy: Some(11), ..base },
        Resize { cy: None, ..base },
        Resize { cwidth: Some(11), ..base },
        Resize { cwidth: None, ..base },
        Resize { cheight: Some(11), ..base },
        Resize { cheight: None, ..base },
    ];
    for (i, a) in variants.iter().enumerate() {
        assert_ne!(key("a.jpg", a), key("a.jpg", &base));
        for b in variants.iter().skip(i + 1) {
            assert_ne!(key("a.jpg", a), key("a.jpg", b));
        }
    }
}

#[test]
fn digit_runs_do_not_bleed_between_fields() {
    let a = Resize { width: Some(1), height: Some(23), ..plain() };
    let b = Resize { width: Some(12), height: Some(3), ..plain() };
    assert_eq!(a.to_string(), "w1h23");
    assert_eq!(b.to_string(), "w12h3");
    assert_ne!(key("a.jpg", &a), key("a.jpg", &b));
    let c = Resize { width: Some(5), ..plain() };
    let d = Resize { cwidth: Some(5), ..plain() };
    assert_ne!(key("a.jpg", &c), key("a.jpg", &d));
}

#[test]
fn requests_that_differ_in_the_webp_value_only_have_two_keys() {
    let on = Resize { webp: Some(true), quality: Some(80), ..plain() };
    let off = Resize { webp: Some(false), quality: Some(80), ..plain() };
    let absent = Resize { quality: Some(80), ..plain() };
    assert_eq!(key("a.jpg", &on), "webpq80a.jpg");
    assert_eq!(key("a.jpg", &off), "webp0q80a.jpg");
    assert_eq!(key("a.jpg", &absent), "q80a.jpg");
    assert_ne!(key("a.jpg", &on), key("a.jpg", &off));
    assert_ne!(key("a.jpg", &on), key("a.jpg", &absent));
    assert_ne!(key("a.jpg", &off), key("a.jpg", &absent));
    let bare_on = Resize { webp: Some(true), ..plain() };
    let bare_off = Resize { webp: Some(false), ..plain() };
    assert_ne!(key("0.jpg", &bare_on), key("0.jpg", &bare_off));
    assert_ne!(key("", &bare_on), key("", &bare_off));
}

#[test]
fn different_identifiers_can_share_a_key() {
    let narrow = Resize { width: Some(1), ..plain() };
    let wide = Resize { width: Some(10), ..plain() };
    assert_eq!(key("0.jpg", &narrow), key(".jpg", &wide));
}

#[test]
fn quality_is_part_of_the_key_without_webp() {
    let low = Resize { quality: Some(10), ..plain() };
    let high = Resize { quality: Some(99), ..plain() };
    assert_eq!(key("a.png", &low), "q10a.png");
    assert_eq!(key("a.png", &high), "q99a.png");
}

#[test]
fn requests_compare_by_their_fields() {
    let a = Resize { width: Some(1), ..plain() };
    let b = Resize { width: Some(1), ..plain() };
    assert_eq!(a, b);
    assert_ne!(a, plain());
    let copy = a;
    assert_eq!(copy, a);
}
