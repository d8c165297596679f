//! Markdown to HTML conversion with a live-update decision core.
//!
//! The conversion engine is a block scanner ([`parser`]), which splits a
//! text into headings and paragraphs and tokenizes their inline markup, and
//! a renderer ([`renderer`]) from the parsed document to HTML. The
//! live-update pipeline ([`watcher`], [`websocket`], [`events`]) decides what
//! a change to a watched file leads to, and fans the outcome out to the
//! connections that are attached.

pub mod data;
pub mod events;
pub mod parser;
pub mod renderer;
pub mod text;
pub mod watcher;
pub mod websocket;

use crate::data::{Block, BlockView, Document, Element, ElementView};
use crate::parser::{parse_document, parse_markdown};
use crate::renderer::document_html;
use vstd::prelude::*;
use vstd::string::StringExecFns;

verus! {

/// The answer to a request for a conversion.
#[derive(Debug, Clone, PartialEq, Eq)]
pub struct MarkdownResponse {
    pub html: String,
    pub success: bool,
    pub message: String,
}

/// Converts a Markdown text to HTML. The conversion always succeeds.
pub fn convert_markdown(content: &str) -> (response: MarkdownResponse)
    ensures
        response.success,
        response.html@ == document_html(parse_document(content@)),
        response.message@ == "Conversion successful"@,
{
    match parse_markdown(content) {
        Ok(document) => MarkdownResponse {
            html: document.to_html(),
            success: true,
            message: String::from_str("Conversion successful"),
        },
        Err(reason) => {
            let mut message = String::from_str("Parse error: ");
            message.append(reason.as_str());
            MarkdownResponse { html: String::new(), success: false, message }
        },
    }
}

/// The blocks of the sample document: a title and a paragraph with one
/// element of each style.
pub open spec fn sample_document() -> Seq<BlockView> {
    seq![
        BlockView::Title {
            level: 1,
            content: seq![ElementView::PlainText("Sample Document"@)],
        },
        BlockView::Paragraph(
            seq![
                ElementView::PlainText("This is a "@),
                ElementView::Bold("bold"@),
                ElementView::PlainText(" and "@),
                ElementView::Italic("italic"@),
                ElementView::PlainText(" text example."@),
            ],
        ),
    ]
}

/// A small document that shows each kind of element.
pub fn create_sample_document() -> (document: Document)
    ensures
        document@ == sample_document(),
{
    let mut title: Vec<Element> = Vec::new();
    title.push(Element::PlainText(String::from_str("Sample Document")));
    let mut paragraph: Vec<Element> = Vec::new();
    paragraph.push(Element::PlainText(String::from_str("This is a ")));
    paragraph.push(Element::Bold(String::from_str("bold")));
    paragraph.push(Element::PlainText(String::from_str(" and ")));
    paragraph.push(Element::Italic(String::from_str("italic")));
    paragraph.push(Element::PlainText(String::from_str(" text example.")));
    let mut blocks: Vec<Block> = Vec::new();
    blocks.push(Block::Title { level: 1, content: title });
    blocks.push(Block::Paragraph(paragraph));
    let document = Document { blocks };
    proof {
        assert(title.deep_view() =~= seq![ElementView::PlainText("Sample Document"@)]);
        assert(paragraph.deep_view() =~= seq![
            ElementView::PlainText("This is a "@),
            ElementView::Bold("bold"@),
            ElementView::PlainText(" and "@),
            ElementView::Italic("italic"@),
            ElementView::PlainText(" text example."@),
        ]);
        assert(document@ =~= sample_document());
    }
    document
}

} // verus!
