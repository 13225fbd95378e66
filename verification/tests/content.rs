use image_optimizer::content::{extension_of, parse_content_type, select_encoding, wants_webp};
use image_optimizer::content::DEFAULT_QUALITY;
use image_optimizer::plan::{plan, UNBOUNDED_FIT};
use image_optimizer::{Container, Encoding, Plan, Rect, Resize};

fn bare() -> Resize {
    Resize {
        webp: None,
        quality: None,
        width: None,
        height: None,
        cx: None,
        cy: None,
        cwidth: None,
        cheight: None,
    }
}

#[test]
fn extension_follows_the_last_dot() {
    assert_eq!(extension_of("a.png"), "png");
    assert_eq!(extension_of("sample.jpg"), "jpg");
    assert_eq!(extension_of("archive.tar.gz"), "gz");
    assert_eq!(extension_of(".hidden"), "hidden");
    assert_eq!(extension_of("photo.JPG"), "JPG");
}

#[test]
fn extension_defaults_to_jpg_without_a_dot() {
    assert_eq!(extension_of("abc"), "jpg");
    assert_eq!(extension_of(""), "jpg");
}

#[test]
fn extension_after_a_trailing_dot_is_empty() {
    assert_eq!(extension_of("a."), "");
    assert_eq!(extension_of("."), "");
    assert_eq!(extension_of("a.png."), "");
}

#[test]
fn extension_of_names_beyond_ascii() {
    assert_eq!(extension_of("caf\u{e9}.png"), "png");
    assert_eq!(extension_of("a.\u{e9}t\u{e9}"), "\u{e9}t\u{e9}");
    assert_eq!(extension_of("\u{1f600}.gif"), "gif");
}

#[test]
fn webp_is_wanted_only_when_true() {
    assert!(wants_webp(&Resize { webp: Some(true), ..bare() }));
    assert!(!wants_webp(&Resize { webp: Some(false), ..bare() }));
    assert!(!wants_webp(&bare()));
}

#[test]
fn content_type_is_webp_when_asked_for() {
    let resize = Resize { webp: Some(true), quality: Some(80), ..bare() };
    assert_eq!(parse_content_type(&resize, "a.jpg"), "image/webp");
    assert_eq!(parse_content_type(&resize, "a"), "image/webp");
}

#[test]
fn content_type_takes_the_extension_as_it_stands() {
    assert_eq!(parse_content_type(&bare(), "a.png"), "image/png");
    assert_eq!(parse_content_type(&bare(), "a.jpg"), "image/jpg");
    assert_eq!(parse_content_type(&bare(), "a.gif"), "image/gif");
    assert_eq!(parse_content_type(&bare(), "a.bmp"), "image/bmp");
    assert_eq!(parse_content_type(&bare(), "a.PNG"), "image/PNG");
    assert_eq!(parse_content_type(&bare(), "a."), "image/");
    assert_eq!(parse_content_type(&Resize { webp: Some(false), ..bare() }, "a.png"), "image/png");
}

#[test]
fn content_type_defaults_to_jpg() {
    assert_eq!(parse_content_type(&bare(), "abc"), "image/jpg");
}

#[test]
fn container_follows_the_extension() {
    assert_eq!(select_encoding(&bare(), "a.jpg"), Encoding::Plain(Container::Jpeg));
    assert_eq!(select_encoding(&bare(), "a.png"), Encoding::Plain(Container::Png));
    assert_eq!(select_encoding(&bare(), "a.gif"), Encoding::Plain(Container::Gif));
}

#[test]
fn container_falls_back_to_jpeg() {
    assert_eq!(select_encoding(&bare(), "a.bmp"), Encoding::Plain(Container::Jpeg));
    assert_eq!(select_encoding(&bare(), "a.PNG"), Encoding::Plain(Container::Jpeg));
    assert_eq!(select_encoding(&bare(), "a"), Encoding::Plain(Container::Jpeg));
    assert_eq!(select_encoding(&bare(), "a."), Encoding::Plain(Container::Jpeg));
    assert_eq!(select_encoding(&bare(), "png"), Encoding::Plain(Container::Jpeg));
}

#[test]
fn webp_encoding_carries_the_quality() {
    let asked = Resize { webp: Some(true), quality: Some(80), ..bare() };
    assert_eq!(select_encoding(&asked, "a.jpg"), Encoding::WebP { quality: 80 });
    let silent = Resize { webp: Some(true), ..bare() };
    assert_eq!(select_encoding(&silent, "a.png"), Encoding::WebP { quality: 85 });
    assert_eq!(DEFAULT_QUALITY, 85);
}

#[test]
fn quality_does_not_reach_a_plain_container() {
    let low = Resize { quality: Some(10), ..bare() };
    let high = Resize { quality: Some(99), ..bare() };
    assert_eq!(select_encoding(&low, "a.png"), select_encoding(&high, "a.png"));
    assert_eq!(plan(&low, "a.png"), plan(&high, "a.png"));
    let off = Resize { webp: Some(false), quality: Some(10), ..bare() };
    assert_eq!(select_encoding(&off, "a.png"), Encoding::Plain(Container::Png));
}

#[test]
fn plan_of_an_empty_request_does_nothing_but_encode() {
    assert_eq!(
        plan(&bare(), "a.png"),
        Plan { fit: None, crop: None, encoding: Encoding::Plain(Container::Png) }
    );
}

#[test]
fn plan_fits_with_an_open_axis() {
    assert_eq!(UNBOUNDED_FIT, 65535);
    assert_eq!(plan(&Resize { width: Some(100), ..bare() }, "a.jpg").fit, Some((100, 65535)));
    assert_eq!(plan(&Resize { height: Some(40), ..bare() }, "a.jpg").fit, Some((65535, 40)));
    assert_eq!(
        plan(&Resize { width: Some(100), height: Some(40), ..bare() }, "a.jpg").fit,
        Some((100, 40))
    );
    assert_eq!(plan(&Resize { width: Some(0), ..bare() }, "a.jpg").fit, Some((0, 65535)));
    assert_eq!(plan(&Resize { width: Some(100), ..bare() }, "a.jpg").crop, None);
}

#[test]
fn plan_crops_with_defaults() {
    let whole = Rect { x: 0, y: 0, width: u32::MAX, height: u32::MAX };
    assert_eq!(plan(&Resize { cx: Some(5), ..bare() }, "a.jpg").crop, Some(Rect { x: 5, ..whole }));
    assert_eq!(plan(&Resize { cy: Some(6), ..bare() }, "a.jpg").crop, Some(Rect { y: 6, ..whole }));
    assert_eq!(
        plan(&Resize { cwidth: Some(7), ..bare() }, "a.jpg").crop,
        Some(Rect { width: 7, ..whole })
    );
    assert_eq!(
        plan(&Resize { cheight: Some(8), ..bare() }, "a.jpg").crop,
        Some(Rect { height: 8, ..whole })
    );
    assert_eq!(
        plan(&Resize { cx: Some(50), cy: Some(50), cwidth: Some(100), cheight: Some(100), ..bare() }, "a.jpg")
            .crop,
        Some(Rect { x: 50, y: 50, width: 100, height: 100 })
    );
    assert_eq!(plan(&Resize { cx: Some(5), ..bare() }, "a.jpg").fit, None);
}
