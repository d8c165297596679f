//! The content model: a document is a sequence of blocks, and a block holds
//! a sequence of inline elements.

use vstd::prelude::*;

verus! {

/// An inline span: the smallest styled unit of text.
#[derive(Debug, Clone, PartialEq, Eq)]
pub enum Element {
    PlainText(String),
    Bold(String),
    Italic(String),
}

/// A block-level unit: a heading, a paragraph, or a block of code.
#[derive(Debug, Clone, PartialEq, Eq)]
pub enum Block {
    Title { level: u8, content: Vec<Element> },
    Paragraph(Vec<Element>),
    CodeBlock(String),
}

/// A whole document: its blocks in the order in which they appear.
#[derive(Debug, Clone, PartialEq, Eq)]
pub struct Document {
    pub blocks: Vec<Block>,
}

/// The mathematical value of an [`Element`].
pub enum ElementView {
    PlainText(Seq<char>),
    Bold(Seq<char>),
    Italic(Seq<char>),
}

/// The mathematical value of a [`Block`].
pub enum BlockView {
    Title { level: u8, content: Seq<ElementView> },
    Paragraph(Seq<ElementView>),
    CodeBlock(Seq<char>),
}

impl View for Element {
    type V = ElementView;

    open spec fn view(&self) -> ElementView {
        match self {
            Element::PlainText(t) => ElementView::PlainText(t@),
            Element::Bold(t) => ElementView::Bold(t@),
            Element::Italic(t) => ElementView::Italic(t@),
        }
    }
}

impl DeepView for Element {
    type V = ElementView;

    open spec fn deep_view(&self) -> ElementView {
        self@
    }
}

impl View for Block {
    type V = BlockView;

    open spec fn view(&self) -> BlockView {
        match self {
            Block::Title { level, content } => BlockView::Title {
                level: *level,
                content: content.deep_view(),
            },
            Block::Paragraph(content) => BlockView::Paragraph(content.deep_view()),
            Block::CodeBlock(code) => BlockView::CodeBlock(code@),
        }
    }
}

impl DeepView for Block {
    type V = BlockView;

    open spec fn deep_view(&self) -> BlockView {
        self@
    }
}

impl View for Document {
    type V = Seq<BlockView>;

    open spec fn view(&self) -> Seq<BlockView> {
        self.blocks.deep_view()
    }
}

impl BlockView {
    /// A heading has a level from 1 to 6 and at least one element; a
    /// paragraph has at least one element.
    pub open spec fn well_formed(self) -> bool {
        match self {
            BlockView::Title { level, content } => 1 <= level <= 6 && content.len() > 0,
            BlockView::Paragraph(content) => content.len() > 0,
            BlockView::CodeBlock(_) => true,
        }
    }

    /// Whether the block is one that scanning can produce: a well-formed
    /// heading or paragraph.
    pub open spec fn is_scanned(self) -> bool {
        self.well_formed() && !(self is CodeBlock)
    }
}

impl Document {
    /// A document without blocks.
    pub fn new() -> (doc: Document)
        ensures
            doc@ == Seq::<BlockView>::empty(),
    {
        let doc = Document { blocks: Vec::new() };
        assert(doc@ =~= Seq::<BlockView>::empty());
        doc
    }
}

} // verus!
