//! The renderer: a total function from a document to HTML. Text is escaped
//! before it is put between tags.

use crate::data::{Block, BlockView, Document, Element, ElementView};
use crate::text::str_chars;
use vstd::prelude::*;
use vstd::string::StringExecFns;

verus! {

/// What stands for a character in HTML text: an entity for each of
/// `&`, `<`, `>`, `"` and `'`, and the character itself otherwise.
pub open spec fn escape_char(c: char) -> Seq<char> {
    if c == '&' {
        "&amp;"@
    } else if c == '<' {
        "&lt;"@
    } else if c == '>' {
        "&gt;"@
    } else if c == '"' {
        "&quot;"@
    } else if c == '\'' {
        "&#39;"@
    } else {
        seq![c]
    }
}

/// A text with each of its characters escaped.
pub open spec fn escape_text(text: Seq<char>) -> Seq<char>
    decreases text.len(),
{
    if text.len() == 0 {
        Seq::empty()
    } else {
        escape_text(text.drop_last()) + escape_char(text.last())
    }
}

/// The HTML of an element: its escaped text, inside `<strong>` where it is
/// bold and inside `<em>` where it is italic.
pub open spec fn element_html(element: ElementView) -> Seq<char> {
    match element {
        ElementView::PlainText(text) => escape_text(text),
        ElementView::Bold(text) => "<strong>"@ + escape_text(text) + "</strong>"@,
        ElementView::Italic(text) => "<em>"@ + escape_text(text) + "</em>"@,
    }
}

/// The HTML of a sequence of elements: that of each, one after the other.
pub open spec fn elements_html(elements: Seq<ElementView>) -> Seq<char>
    decreases elements.len(),
{
    if elements.len() == 0 {
        Seq::empty()
    } else {
        elements_html(elements.drop_last()) + element_html(elements.last())
    }
}

/// The character of a decimal digit.
pub open spec fn digit_char(digit: nat) -> char {
    (48 + digit) as char
}

/// A number written in decimal.
pub open spec fn decimal(n: nat) -> Seq<char>
    decreases n,
{
    if n < 10 {
        seq![digit_char(n)]
    } else {
        decimal(n / 10).push(digit_char(n % 10))
    }
}

/// The HTML of a block. A title of level `n` stands inside `<hn>`, a
/// paragraph inside `<p>`, and code, escaped, inside `<pre><code>`.
pub open spec fn block_html(block: BlockView) -> Seq<char> {
    match block {
        BlockView::Title { level, content } => "<h"@ + decimal(level as nat) + ">"@
            + elements_html(content) + "</h"@ + decimal(level as nat) + ">"@,
        BlockView::Paragraph(content) => "<p>"@ + elements_html(content) + "</p>"@,
        BlockView::CodeBlock(code) => "<pre><code>"@ + escape_text(code) + "</code></pre>"@,
    }
}

/// The HTML of a document: that of its blocks, with a line feed between
/// each two.
pub open spec fn document_html(blocks: Seq<BlockView>) -> Seq<char>
    decreases blocks.len(),
{
    if blocks.len() == 0 {
        Seq::empty()
    } else if blocks.len() == 1 {
        block_html(blocks[0])
    } else {
        document_html(blocks.drop_last()) + seq!['\n'] + block_html(blocks.last())
    }
}

/// Whether a character can open or close a tag or an attribute value.
pub open spec fn is_markup_char(c: char) -> bool {
    c == '<' || c == '>' || c == '"' || c == '\''
}

/// What stands for a character holds no character that can open or close a
/// tag or an attribute value.
pub proof fn lemma_escape_char_is_safe(c: char)
    ensures
        forall|i: int| 0 <= i < escape_char(c).len() ==> !is_markup_char(#[trigger] escape_char(c)[i]),
{
    reveal_strlit("&amp;");
    reveal_strlit("&lt;");
    reveal_strlit("&gt;");
    reveal_strlit("&quot;");
    reveal_strlit("&#39;");
}

/// An escaped text holds no character that can open or close a tag or an
/// attribute value, whatever the text.
pub proof fn lemma_escape_text_is_safe(text: Seq<char>)
    ensures
        forall|i: int| 0 <= i < escape_text(text).len() ==> !is_markup_char(#[trigger] escape_text(text)[i]),
    decreases text.len(),
{
    if text.len() > 0 {
        lemma_escape_text_is_safe(text.drop_last());
        lemma_escape_char_is_safe(text.last());
        let head = escape_text(text.drop_last());
        let tail = escape_char(text.last());
        assert forall|i: int| 0 <= i < escape_text(text).len() implies !is_markup_char(
            #[trigger] escape_text(text)[i],
        ) by {
            if i < head.len() {
                assert(escape_text(text)[i] == head[i]);
            } else {
                assert(escape_text(text)[i] == tail[i - head.len()]);
            }
        }
    }
}

/// Escapes a text for HTML.
pub fn escape_html(text: &str) -> (escaped: String)
    ensures
        escaped@ == escape_text(text@),
{
    let chars = str_chars(text);
    let mut escaped = String::new();
    let mut i: usize = 0;
    while i < chars.len()
        invariant
            i <= chars@.len(),
            chars@ == text@,
            escaped@ == escape_text(chars@.take(i as int)),
        decreases chars@.len() - i,
    {
        let c = chars[i];
        proof {
            assert(chars@.take(i + 1).drop_last() =~= chars@.take(i as int));
            assert(chars@.take(i + 1).last() == c);
        }
        if c == '&' {
            escaped.append("&amp;");
        } else if c == '<' {
            escaped.append("&lt;");
        } else if c == '>' {
            escaped.append("&gt;");
        } else if c == '"' {
            escaped.append("&quot;");
        } else if c == '\'' {
            escaped.append("&#39;");
        } else {
            escaped.push(c);
        }
        i += 1;
    }
    assert(chars@.take(i as int) =~= text@);
    escaped
}

/// Renders one element.
pub fn render_element(element: &Element) -> (html: String)
    ensures
        html@ == element_html(element@),
{
    match element {
        Element::PlainText(text) => escape_html(text.as_str()),
        Element::Bold(text) => {
            let mut html = String::from_str("<strong>");
            html.append(escape_html(text.as_str()).as_str());
            html.append("</strong>");
            html
        },
        Element::Italic(text) => {
            let mut html = String::from_str("<em>");
            html.append(escape_html(text.as_str()).as_str());
            html.append("</em>");
            html
        },
    }
}

/// Renders a sequence of elements, one after the other.
pub fn render_elements(elements: &Vec<Element>) -> (html: String)
    ensures
        html@ == elements_html(elements.deep_view()),
{
    let mut html = String::new();
    let mut i: usize = 0;
    while i < elements.len()
        invariant
            i <= elements@.len(),
            html@ == elements_html(elements.deep_view().take(i as int)),
        decreases elements@.len() - i,
    {
        proof {
            let views = elements.deep_view();
            assert(views.take(i + 1).drop_last() =~= views.take(i as int));
            assert(views.take(i + 1).last() == elements@[i as int]@);
        }
        html.append(render_element(&elements[i]).as_str());
        i += 1;
    }
    assert(elements.deep_view().take(i as int) =~= elements.deep_view());
    html
}

/// Writes a number in decimal.
pub fn decimal_string(n: u8) -> (digits: String)
    ensures
        digits@ == decimal(n as nat),
{
    let mut digits = String::new();
    if n >= 100 {
        digits.push((48u8 + n / 100) as char);
    }
    if n >= 10 {
        digits.push((48u8 + (n / 10) % 10) as char);
    }
    digits.push((48u8 + n % 10) as char);
    proof {
        reveal_with_fuel(decimal, 3);
        assert(digits@ =~= decimal(n as nat));
    }
    digits
}

/// Renders one block.
pub fn render_block(block: &Block) -> (html: String)
    ensures
        html@ == block_html(block@),
{
    match block {
        Block::Title { level, content } => {
            let digits = decimal_string(*level);
            let mut html = String::from_str("<h");
            html.append(digits.as_str());
            html.append(">");
            html.append(render_elements(content).as_str());
            html.append("</h");
            html.append(digits.as_str());
            html.append(">");
            html
        },
        Block::Paragraph(content) => {
            let mut html = String::from_str("<p>");
            html.append(render_elements(content).as_str());
            html.append("</p>");
            html
        },
        Block::CodeBlock(code) => {
            let mut html = String::from_str("<pre><code>");
            html.append(escape_html(code.as_str()).as_str());
            html.append("</code></pre>");
            html
        },
    }
}

impl Document {
    /// Renders the document: the HTML of its blocks, one per line.
    pub fn to_html(&self) -> (html: String)
        ensures
            html@ == document_html(self@),
    {
        let mut html = String::new();
        let mut i: usize = 0;
        while i < self.blocks.len()
            invariant
                i <= self.blocks@.len(),
                html@ == document_html(self@.take(i as int)),
            decreases self.blocks@.len() - i,
        {
            proof {
                assert(self@.take(i + 1).drop_last() =~= self@.take(i as int));
                assert(self@.take(i + 1).last() == self.blocks@[i as int]@);
            }
            if i > 0 {
                html.push('\n');
            }
            html.append(render_block(&self.blocks[i]).as_str());
            i += 1;
        }
        assert(self@.take(i as int) =~= self@);
        html
    }
}

/// Rendering depends on the value of a document alone: two documents with
/// the same blocks have the same HTML, and so has one document rendered
/// twice.
pub proof fn lemma_render_deterministic(a: Document, b: Document)
    requires
        a@ == b@,
    ensures
        document_html(a@) == document_html(b@),
{
}

} // verus!
