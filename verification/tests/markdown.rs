use ibis_core::markdown::{markdown_style, render_comment_markdown};
use ibis_core::markdown::{OrderedMarker, UnorderedMarker};

#[test]
fn emphasis_is_rendered_as_html() {
    assert_eq!(render_comment_markdown("*hi*"), "<p><em>hi</em></p>\n");
}

#[test]
fn links_are_rendered_and_images_are_not() {
    assert_eq!(
        render_comment_markdown("[wiki](https://example.com/)"),
        "<p><a href=\"https://example.com/\">wiki</a></p>\n"
    );
    let html = render_comment_markdown("![cat](https://example.com/cat.png)");
    assert!(!html.contains("<img"));
}

#[test]
fn strikethrough_and_headings_are_rendered() {
    assert_eq!(render_comment_markdown("~~old~~"), "<p><s>old</s></p>\n");
    assert_eq!(render_comment_markdown("# Title"), "<h1>Title</h1>\n");
}

#[test]
fn html_in_a_comment_is_escaped() {
    let html = render_comment_markdown("<script>alert(1)</script>");
    assert!(!html.contains("<script>"));
}

#[test]
fn the_same_text_renders_to_the_same_html() {
    let text = "a *b* `c`\n\n- d\n- e\n";
    assert_eq!(render_comment_markdown(text), render_comment_markdown(text));
}

#[test]
fn the_style_of_the_wiki() {
    let style = markdown_style();
    assert_eq!(style.max_width, Some(80));
    assert_eq!(style.fixed_zero_padding, Some(0));
    assert_eq!(style.fixed_number, None);
    assert_eq!(style.fixed_ordered_list_marker, Some(OrderedMarker::Period));
    assert_eq!(style.fixed_unordered_list_marker, Some(UnorderedMarker::Hyphen));
    assert_eq!(style.fixed_indentation, Some("    "));
    assert_eq!(style.fixed_emphasis_marker, Some("*"));
    assert_eq!(style.fixed_strong_marker, Some("**"));
}
