use blaeckfetch::image_proto::{
    detect, image_sequence, probe, push_base64, shows_inline_images, Capabilities, RenderMode,
};

fn caps(inline_images: bool, interactive: bool, capture: bool) -> Capabilities {
    Capabilities { inline_images, interactive, capture }
}

fn base64(bytes: &[u8]) -> String {
    let mut out = String::new();
    push_base64(&mut out, bytes);
    out
}

#[test]
fn configuration_wins_over_the_probe() {
    for c in [caps(true, true, false), caps(false, true, false), caps(false, false, true)] {
        assert_eq!(detect(Some("image"), c), RenderMode::Image);
        assert_eq!(detect(Some("ascii"), c), RenderMode::Ascii);
        assert_eq!(detect(Some("inline"), c), RenderMode::Inline);
    }
}

#[test]
fn auto_and_unknown_names_leave_it_to_the_probe() {
    for name in [Some("auto"), Some(""), Some("IMAGE"), Some("kitty"), None] {
        assert_eq!(detect(name, caps(true, true, false)), RenderMode::Image);
        assert_eq!(detect(name, caps(false, true, false)), RenderMode::Ascii);
        assert_eq!(detect(name, caps(false, false, false)), RenderMode::Inline);
        assert_eq!(detect(name, caps(false, true, true)), RenderMode::Inline);
    }
}

#[test]
fn probe_prefers_images_then_half_blocks() {
    assert_eq!(probe(caps(true, true, false)), RenderMode::Image);
    assert_eq!(probe(caps(true, false, false)), RenderMode::Image);
    assert_eq!(probe(caps(true, true, true)), RenderMode::Image);
    assert_eq!(probe(caps(false, true, false)), RenderMode::Ascii);
    assert_eq!(probe(caps(false, false, false)), RenderMode::Inline);
    assert_eq!(probe(caps(false, true, true)), RenderMode::Inline);
    assert_eq!(probe(caps(false, false, true)), RenderMode::Inline);
}

#[test]
fn terminals_that_show_inline_images() {
    assert!(shows_inline_images(Some("iTerm.app"), None));
    assert!(shows_inline_images(Some("WezTerm"), None));
    assert!(shows_inline_images(None, Some("iTerm2")));
    assert!(shows_inline_images(Some("tmux"), Some("iTerm2")));
    assert!(!shows_inline_images(None, None));
    assert!(!shows_inline_images(Some("Apple_Terminal"), None));
    assert!(!shows_inline_images(Some("iterm.app"), None));
    assert!(!shows_inline_images(Some("iTerm2"), Some("iTerm.app")));
    assert!(!shows_inline_images(Some(""), Some("")));
}

#[test]
fn base64_of_known_texts() {
    assert_eq!(base64(b""), "");
    assert_eq!(base64(b"f"), "Zg==");
    assert_eq!(base64(b"fo"), "Zm8=");
    assert_eq!(base64(b"foo"), "Zm9v");
    assert_eq!(base64(b"foob"), "Zm9vYg==");
    assert_eq!(base64(b"fooba"), "Zm9vYmE=");
    assert_eq!(base64(b"foobar"), "Zm9vYmFy");
    assert_eq!(base64(b"Man"), "TWFu");
    assert_eq!(base64(&[0, 0, 0]), "AAAA");
    assert_eq!(base64(&[255, 255, 255]), "////");
    assert_eq!(base64(&[251, 239, 190]), "++++");
    assert_eq!(base64(&[255]), "/w==");
    assert_eq!(base64(&[255, 255]), "//8=");
    assert_eq!(base64(&[0]), "AA==");
}

#[test]
fn base64_uses_the_whole_alphabet() {
    let all: Vec<u8> = (0u8..=255).collect();
    let out = base64(&all);
    assert_eq!(out.len(), 344);
    assert!(out.ends_with("/w=="));
    assert!(out.starts_with("AAECAwQFBgcICQoLDA0ODxAREhMUFRYXGBkaGxwdHh8gISIjJCUmJygpKissLS4v"));
    for c in "ABCDEFGHIJKLMNOPQRSTUVWXYZabcdefghijklmnopqrstuvwxyz0123456789+/".chars() {
        assert!(out.contains(c), "{}", c);
    }
}

#[test]
fn base64_appends() {
    let mut out = String::from("data:");
    push_base64(&mut out, b"hi");
    assert_eq!(out, "data:aGk=");
}

#[test]
fn image_sequence_places_and_sizes_the_image() {
    assert_eq!(
        image_sequence(b"foo", 66, 18, 4, 3),
        "\x1b[4;3H\x1b]1337;File=inline=1;width=66;height=18;preserveAspectRatio=0:Zm9v\x07"
    );
    assert_eq!(
        image_sequence(b"", 0, 0, 65538, 65536),
        "\x1b[65538;65536H\x1b]1337;File=inline=1;width=0;height=0;preserveAspectRatio=0:\x07"
    );
}
