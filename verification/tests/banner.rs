use termenu::banner::Banner;

#[test]
fn test_render_banner() {
    Banner::render("Hello Rust");
}

#[test]
fn banner_is_drawn_in_six_rows() {
    let art = Banner::render("Hi").expect("a figure for plain letters");
    assert_ne!(art, "Hi");
    assert_eq!(art.matches('\n').count(), 6);
    assert!(art.contains('_') || art.contains('|'));
}

#[test]
fn banner_is_the_same_each_time() {
    assert_eq!(Banner::render("Termenu"), Banner::render("Termenu"));
}

#[test]
fn banner_of_empty_text_is_a_notice() {
    assert_eq!(
        Banner::render(""),
        Err("Failed to render banner for text: ''".to_string())
    );
}

#[test]
fn banner_of_unknown_letters_is_a_notice() {
    assert_eq!(
        Banner::render("\u{4e2d}"),
        Err("Failed to render banner for text: '\u{4e2d}'".to_string())
    );
}
