use mi::chan::{next_spinner_index, StreamDisplay, Event, SPINNER};
use mi::copy::osc52_sequence;
use mi::credits::TokenCounts;
use mi::image::{decode_image, image_stem, media_extension, reference_data_url, reference_mime, unique_path, ImageError, ImageItem, missing_b64_message};
use mi::term::TermOp;
use mi::text::{join, push_decimal, push_decimal_two, push_signed_decimal, str_eq, trim_str};
use mi::xdg::{config_dir, config_path, session_path, skills_dir};

#[test]
fn osc52_carries_base64() {
    assert_eq!(osc52_sequence("hi"), "\x1b]52;c;aGk=\x07");
    assert_eq!(osc52_sequence(""), "\x1b]52;c;\x07");
}

#[test]
fn tokens_saturate() {
    let mut t = TokenCounts::default();
    t.save_tokens(1, 2, 3);
    t.save_tokens(10, 20, 30);
    assert_eq!(t, TokenCounts { input_tokens: 11, output_tokens: 22, cache_tokens: 33 });
    t.save_tokens(u64::MAX, 0, 0);
    assert_eq!(t.input_tokens, u64::MAX);
    let mut a = TokenCounts::default();
    let mut b = TokenCounts::default();
    a.save_tokens(u64::MAX - 1, 1, 1);
    a.save_tokens(5, 2, 2);
    b.save_tokens(5, 2, 2);
    b.save_tokens(u64::MAX - 1, 1, 1);
    assert_eq!(a, b);
}

#[test]
fn reference_images() {
    assert_eq!(reference_mime("a/b.PNG"), "image/png");
    assert_eq!(reference_mime("x.jpeg"), "image/jpeg");
    assert_eq!(reference_mime("x.JPG"), "image/jpeg");
    assert_eq!(reference_mime("x.webp"), "image/webp");
    assert_eq!(reference_mime("x.gif"), "image/gif");
    assert_eq!(reference_mime("x.svg"), "image/svg+xml");
    assert_eq!(reference_mime("x.tar.bz2"), "application/octet-stream");
    assert_eq!(reference_mime(".png"), "application/octet-stream");
    assert_eq!(reference_mime("noext"), "application/octet-stream");
    assert_eq!(reference_data_url("p.png", b"hi"), "data:image/png;base64,aGk=");
}

#[test]
fn returned_images() {
    assert_eq!(media_extension("image/png"), "png");
    assert_eq!(media_extension("image/jpeg"), "jpg");
    assert_eq!(media_extension("image/webp"), "webp");
    assert_eq!(media_extension("image/gif"), "gif");
    assert_eq!(media_extension("image/avif"), "bin");
    assert_eq!(image_stem(1, 0), "generated");
    assert_eq!(image_stem(3, 0), "generated_01");
    assert_eq!(image_stem(12, 9), "generated_10");
    assert_eq!(missing_b64_message(4), "missing b64_json in data[4]");
}

#[test]
fn returned_images_decode() {
    let ok = ImageItem { b64_json: Some("aGk=".to_string()), media_type: None };
    let d = decode_image(&ok, 1, 2).ok().unwrap();
    assert_eq!(d.bytes, b"hi".to_vec());
    assert_eq!(d.media_type, "image/jpeg");
    assert_eq!(d.ext, "jpg");
    assert_eq!(d.stem, "generated_02");
    let png = ImageItem { b64_json: Some("aGk=".to_string()), media_type: Some("image/png".to_string()) };
    assert_eq!(decode_image(&png, 0, 1).ok().unwrap().ext, "png");
    let missing = ImageItem { b64_json: None, media_type: None };
    assert!(matches!(decode_image(&missing, 3, 5), Err(ImageError::MissingB64(3))));
    let bad = ImageItem { b64_json: Some("!!".to_string()), media_type: None };
    assert!(matches!(decode_image(&bad, 0, 1), Err(ImageError::Decode(_))));
}

fn occupy(dir: &std::path::Path, name: &str) -> tempfile::NamedTempFile {
    tempfile::Builder::new().prefix(name).suffix("").rand_bytes(0).tempfile_in(dir).unwrap()
}

#[test]
fn unique_paths_skip_taken_names() {
    let dir = tempfile::tempdir().unwrap();
    let d = dir.path().to_str().unwrap().to_string();
    let first = unique_path(&d, "generated", "png").unwrap();
    assert_eq!(first, format!("{d}/generated.png"));
    let _a = occupy(dir.path(), "generated.png");
    let second = unique_path(&d, "generated", "png").unwrap();
    assert_eq!(second, format!("{d}/generated_1.png"));
    let _b = occupy(dir.path(), "generated_1.png");
    assert_eq!(unique_path(&d, "generated", "png").unwrap(), format!("{d}/generated_2.png"));
}

#[test]
fn paths_join_like_path_join() {
    assert_eq!(join("./output", "a.png"), "./output/a.png");
    assert_eq!(join("dir/", "a"), "dir/a");
    assert_eq!(join("", "a"), "a");
    assert_eq!(join("dir", "/abs"), "/abs");
    assert_eq!(
        std::path::Path::new("./output").join("a.png").to_str().unwrap(),
        join("./output", "a.png")
    );
}

#[test]
fn config_locations() {
    assert_eq!(config_dir(None, "/home/u"), "/home/u/.config/mi");
    assert_eq!(config_dir(Some("/x"), "/home/u"), "/x/mi");
    assert_eq!(config_path(None, "/home/u"), "/home/u/.config/mi/config.json");
    assert_eq!(skills_dir("/home/u"), "/home/u/.agents/skills");
    assert_eq!(session_path(None, "/home/u"), "/home/u/.local/state/mi/session.json");
    assert_eq!(session_path(Some("/s/"), "/home/u"), "/s/mi/session.json");
}

#[test]
fn text_helpers() {
    assert_eq!(trim_str(" \t a b \u{3000}"), "a b");
    assert_eq!(trim_str("  "), "");
    assert_eq!(trim_str("x"), "x");
    assert_eq!(" \u{85}q\u{a0} ".trim(), trim_str(" \u{85}q\u{a0} "));
    let mut s = String::new();
    push_decimal(&mut s, 0);
    s.push(' ');
    push_decimal(&mut s, 1234567890123);
    s.push(' ');
    push_signed_decimal(&mut s, -42);
    s.push(' ');
    push_signed_decimal(&mut s, i64::MIN);
    s.push(' ');
    push_decimal_two(&mut s, 7);
    s.push(' ');
    push_decimal_two(&mut s, 123);
    assert_eq!(s, "0 1234567890123 -42 -9223372036854775808 07 123");
    assert!(str_eq("ab", "ab"));
    assert!(!str_eq("ab", "abc"));
}

fn printed(ops: &[TermOp]) -> String {
    let mut s = String::new();
    for op in ops {
        if let TermOp::Print(p) = op {
            s.push_str(p);
        }
    }
    s
}

#[test]
fn display_renders_events() {
    let mut d = StreamDisplay::new();
    let open = d.opening();
    assert_eq!(open.len(), 4);
    let (ops, stop) = d.render(&Event::Cursor(SPINNER[1].to_string()));
    assert!(!stop);
    assert_eq!(printed(&ops), "⠙ STREAMING...");
    let (ops, stop) = d.render(&Event::Token("a\nb".to_string()));
    assert!(!stop);
    assert_eq!(printed(&ops), "a\r\n\r\n⠙ STREAMING...b");
    assert_eq!(ops.len(), 2 + 12 + 2);
    let (ops, stop) = d.render(&Event::Stop);
    assert!(stop);
    assert_eq!(printed(&ops), "STOP\r\n");
}

#[test]
fn spinner_steps() {
    assert_eq!(next_spinner_index(0), 1);
    assert_eq!(next_spinner_index(9), 0);
}

#[test]
fn first_free_path_asks_in_order() {
    let taken = |p: &str| p == "out/a.png" || p == "out/a_1.png";
    assert_eq!(mi::image::first_free_path("out", "a", "png", &taken), Some("out/a_2.png".to_string()));
    let none_taken = |_: &str| false;
    assert_eq!(mi::image::first_free_path("out", "a", "png", &none_taken), Some("out/a.png".to_string()));
}
