use markdawn::data::{Block, Document, Element};
use markdawn::parser::parse_markdown;
use markdawn::renderer::{
    decimal_string, escape_html, render_block, render_element, render_elements,
};
use markdawn::{convert_markdown, create_sample_document};

#[test]
fn bold_element_renders_strong() {
    assert_eq!(render_element(&Element::Bold("bold".to_string())), "<strong>bold</strong>");
}

#[test]
fn italic_element_renders_em() {
    assert_eq!(render_element(&Element::Italic("it".to_string())), "<em>it</em>");
}

#[test]
fn plain_element_renders_its_text() {
    assert_eq!(render_element(&Element::PlainText("just text".to_string())), "just text");
}

#[test]
fn text_is_escaped() {
    assert_eq!(
        escape_html("<script>alert(\"x\" & 'y')</script>"),
        "&lt;script&gt;alert(&quot;x&quot; &amp; &#39;y&#39;)&lt;/script&gt;"
    );
    assert_eq!(escape_html(""), "");
    assert_eq!(escape_html("a&amp;b"), "a&amp;amp;b");
    assert_eq!(escape_html("naïve ☃"), "naïve ☃");
}

#[test]
fn element_text_is_escaped() {
    assert_eq!(render_element(&Element::PlainText("a<b".to_string())), "a&lt;b");
    assert_eq!(
        render_element(&Element::Bold("<i>".to_string())),
        "<strong>&lt;i&gt;</strong>"
    );
    assert_eq!(render_element(&Element::Italic("R&D".to_string())), "<em>R&amp;D</em>");
}

#[test]
fn elements_render_one_after_the_other() {
    let elements = vec![
        Element::PlainText("a ".to_string()),
        Element::Bold("b".to_string()),
        Element::Italic("c".to_string()),
    ];
    assert_eq!(render_elements(&elements), "a <strong>b</strong><em>c</em>");
    assert_eq!(render_elements(&Vec::new()), "");
}

#[test]
fn decimal_strings() {
    assert_eq!(decimal_string(0), "0");
    assert_eq!(decimal_string(6), "6");
    assert_eq!(decimal_string(10), "10");
    assert_eq!(decimal_string(99), "99");
    assert_eq!(decimal_string(100), "100");
    assert_eq!(decimal_string(205), "205");
    assert_eq!(decimal_string(255), "255");
    for n in 0..=255u8 {
        assert_eq!(decimal_string(n), n.to_string());
    }
}

#[test]
fn title_renders_its_level() {
    for level in 1..=6u8 {
        let block = Block::Title { level, content: vec![Element::PlainText("t".to_string())] };
        assert_eq!(render_block(&block), format!("<h{}>t</h{}>", level, level));
    }
    let block = Block::Title { level: 120, content: Vec::new() };
    assert_eq!(render_block(&block), "<h120></h120>");
}

#[test]
fn paragraph_renders_p() {
    let block = Block::Paragraph(vec![
        Element::PlainText("x ".to_string()),
        Element::Bold("y".to_string()),
    ]);
    assert_eq!(render_block(&block), "<p>x <strong>y</strong></p>");
}

#[test]
fn code_block_renders_pre_code() {
    let block = Block::CodeBlock("if a < b { c(\"d\") }".to_string());
    assert_eq!(
        render_block(&block),
        "<pre><code>if a &lt; b { c(&quot;d&quot;) }</code></pre>"
    );
}

#[test]
fn blocks_are_joined_by_line_feeds() {
    let doc = Document {
        blocks: vec![
            Block::Title { level: 2, content: vec![Element::PlainText("T".to_string())] },
            Block::Paragraph(vec![Element::PlainText("p".to_string())]),
            Block::CodeBlock("c".to_string()),
        ],
    };
    assert_eq!(doc.to_html(), "<h2>T</h2>\n<p>p</p>\n<pre><code>c</code></pre>");
}

#[test]
fn single_block_has_no_line_feed() {
    let doc = Document { blocks: vec![Block::Paragraph(vec![Element::PlainText("p".to_string())])] };
    assert_eq!(doc.to_html(), "<p>p</p>");
}

#[test]
fn rendering_twice_gives_the_same_html() {
    let doc = parse_markdown("# T\n\na **b** *c* <d> & e\n\n####### f").unwrap();
    let first = doc.to_html();
    let second = doc.to_html();
    assert_eq!(first, second);
    assert_eq!(first.as_bytes(), second.as_bytes());
    assert_eq!(doc.clone().to_html(), first);
    assert_eq!(
        first,
        "<h1>T</h1>\n<p>a <strong>b</strong> <em>c</em> &lt;d&gt; &amp; e</p>\n<p>####### f</p>"
    );
}

#[test]
fn sample_document_renders() {
    let doc = create_sample_document();
    assert_eq!(doc.blocks.len(), 2);
    assert_eq!(
        doc.blocks[0],
        Block::Title { level: 1, content: vec![Element::PlainText("Sample Document".to_string())] }
    );
    assert_eq!(
        doc.to_html(),
        "<h1>Sample Document</h1>\n<p>This is a <strong>bold</strong> and <em>italic</em> text example.</p>"
    );
}

#[test]
fn conversion_succeeds() {
    let response = convert_markdown("# Hi\n\n**b** and <tag>");
    assert!(response.success);
    assert_eq!(response.message, "Conversion successful");
    assert_eq!(response.html, "<h1>Hi</h1>\n<p><strong>b</strong> and &lt;tag&gt;</p>");
}

#[test]
fn conversion_of_empty_text() {
    let response = convert_markdown("");
    assert!(response.success);
    assert_eq!(response.html, "<p></p>");
}

#[test]
fn conversion_never_fails() {
    for text in ["*", "**", "***", "*a", "**a", "a*", "#######", "# *", "\n\n", "<>&\"'", "\u{0}"] {
        let response = convert_markdown(text);
        assert!(response.success, "{:?}", text);
        assert_eq!(response.html, parse_markdown(text).unwrap().to_html());
    }
}
