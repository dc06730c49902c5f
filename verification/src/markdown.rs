//! Rendering of what users write, and the style in which the wiki keeps its
//! Markdown.

use markdown_it::plugins::cmark::{block, inline as span};
use markdown_it::plugins::extra;
use markdown_it::MarkdownIt;
use vstd::prelude::*;

verus! {

/// The HTML that the `markdown_it` parser, set up with the rules for comments,
/// renders for a text.
pub uninterp spec fn comment_markup(text: Seq<char>) -> Seq<char>;

/// Renders the text of a comment as HTML.
///
/// Builds a `markdown_it::MarkdownIt` with the inline rules newline, escape,
/// backticks, emphasis, link, autolink and entity, the block rules code, fence,
/// blockquote, hr, list, reference, heading, lheading and paragraph, and the
/// extras strikethrough, tables and typographer; images are left out. Links
/// are rendered by `markdown_it`'s stock `link` rule: a link rule of the
/// wiki's own, which marks links that lead outside, is no part of this
/// library, so the HTML carries plain anchors. It then calls `parse` on the
/// text and `render` on the tree. The contract names the outcome: the same
/// text always renders to the same HTML.
#[verifier::external_body]
pub fn render_comment_markdown(text: &str) -> (html: String)
    ensures
        html@ == comment_markup(text@),
{
    let rules: [fn(&mut MarkdownIt); 19] = [
        span::newline::add, span::escape::add, span::backticks::add,
        span::emphasis::add, span::link::add, span::autolink::add, span::entity::add,
        block::code::add, block::fence::add, block::blockquote::add, block::hr::add,
        block::list::add, block::reference::add, block::heading::add, block::lheading::add,
        block::paragraph::add, extra::strikethrough::add, extra::tables::add,
        extra::typographer::add,
    ];
    let mut parser = MarkdownIt::new();
    rules.iter().for_each(|rule| rule(&mut parser));
    parser.parse(text).render()
}

/// The mark after the number of an ordered list item.
#[derive(Clone, Copy, Debug, PartialEq, Eq, Structural)]
pub enum OrderedMarker {
    Period,
    Parenthesis,
}

/// The mark before an unordered list item.
#[derive(Clone, Copy, Debug, PartialEq, Eq, Structural)]
pub enum UnorderedMarker {
    Asterisk,
    Plus,
    Hyphen,
}

/// How Markdown is laid out when it is formatted: `None` leaves a point as
/// the author wrote it.
#[derive(Clone, Copy, Debug)]
pub struct MarkdownStyle {
    pub max_width: Option<usize>,
    pub fixed_zero_padding: Option<usize>,
    pub fixed_number: Option<usize>,
    pub fixed_ordered_list_marker: Option<OrderedMarker>,
    pub fixed_unordered_list_marker: Option<UnorderedMarker>,
    pub fixed_indentation: Option<&'static str>,
    pub fixed_emphasis_marker: Option<&'static str>,
    pub fixed_strong_marker: Option<&'static str>,
}

/// The mathematical value of a [`MarkdownStyle`].
pub struct MarkdownStyleData {
    pub max_width: Option<usize>,
    pub fixed_zero_padding: Option<usize>,
    pub fixed_number: Option<usize>,
    pub fixed_ordered_list_marker: Option<OrderedMarker>,
    pub fixed_unordered_list_marker: Option<UnorderedMarker>,
    pub fixed_indentation: Option<Seq<char>>,
    pub fixed_emphasis_marker: Option<Seq<char>>,
    pub fixed_strong_marker: Option<Seq<char>>,
}

/// The view of an optional string slice.
pub open spec fn opt_str(s: Option<&'static str>) -> Option<Seq<char>> {
    match s {
        Some(t) => Some(t@),
        None => None,
    }
}

impl View for MarkdownStyle {
    type V = MarkdownStyleData;

    open spec fn view(&self) -> MarkdownStyleData {
        MarkdownStyleData {
            max_width: self.max_width,
            fixed_zero_padding: self.fixed_zero_padding,
            fixed_number: self.fixed_number,
            fixed_ordered_list_marker: self.fixed_ordered_list_marker,
            fixed_unordered_list_marker: self.fixed_unordered_list_marker,
            fixed_indentation: opt_str(self.fixed_indentation),
            fixed_emphasis_marker: opt_str(self.fixed_emphasis_marker),
            fixed_strong_marker: opt_str(self.fixed_strong_marker),
        }
    }
}

/// The style in which the wiki keeps its Markdown: lines of at most 80
/// columns, ordered lists with their own numbers, unpadded and followed by a
/// period, unordered lists with a hyphen, four spaces of indentation, `*` for
/// emphasis and `**` for strong emphasis.
pub open spec fn wiki_style() -> MarkdownStyleData {
    MarkdownStyleData {
        max_width: Some(80usize),
        fixed_zero_padding: Some(0usize),
        fixed_number: None,
        fixed_ordered_list_marker: Some(OrderedMarker::Period),
        fixed_unordered_list_marker: Some(UnorderedMarker::Hyphen),
        fixed_indentation: Some("    "@),
        fixed_emphasis_marker: Some("*"@),
        fixed_strong_marker: Some("**"@),
    }
}

/// The style in which the wiki keeps its Markdown, for the formatter that
/// the caller runs.
pub fn markdown_style() -> (style: MarkdownStyle)
    ensures
        style@ == wiki_style(),
{
    MarkdownStyle {
        max_width: Some(80),
        fixed_zero_padding: Some(0),
        fixed_number: None,
        fixed_ordered_list_marker: Some(OrderedMarker::Period),
        fixed_unordered_list_marker: Some(UnorderedMarker::Hyphen),
        fixed_indentation: Some("    "),
        fixed_emphasis_marker: Some("*"),
        fixed_strong_marker: Some("**"),
    }
}

} // verus!
