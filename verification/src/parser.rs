//! The block scanner and the inline tokenizer.

use crate::data::{Block, BlockView, Document, Element, ElementView};
use crate::text::{collect_chars, str_chars, trim_bounds, trimmed};
use vstd::prelude::*;
use vstd::slice::slice_subrange;
use vstd::string::StringExecFns;

verus! {

/// Whether `pattern` stands in `s` at index `i`.
pub open spec fn matches_at(s: Seq<char>, i: int, pattern: Seq<char>) -> bool {
    0 <= i && i + pattern.len() <= s.len() && s.subrange(i, i + pattern.len()) == pattern
}

/// The first index at or after `from` at which `pattern` stands in `s`.
pub open spec fn first_match(s: Seq<char>, from: int, pattern: Seq<char>) -> Option<int>
    decreases s.len() + 1 - from,
{
    if 0 <= from && from + pattern.len() <= s.len() {
        if matches_at(s, from, pattern) {
            Some(from)
        } else {
            first_match(s, from + 1, pattern)
        }
    } else {
        None
    }
}

/// What `first_match` returns is the least match at or after `from`.
pub proof fn lemma_first_match(s: Seq<char>, from: int, pattern: Seq<char>)
    requires
        0 <= from,
    ensures
        match first_match(s, from, pattern) {
            Some(i) => from <= i && matches_at(s, i, pattern) && forall|j: int|
                from <= j < i ==> !matches_at(s, j, pattern),
            None => forall|j: int| from <= j ==> !matches_at(s, j, pattern),
        },
    decreases s.len() + 1 - from,
{
    if from + pattern.len() <= s.len() && !matches_at(s, from, pattern) {
        lemma_first_match(s, from + 1, pattern);
    }
}

/// Searches `chars` from `start_pos` on for the first place where `pattern`
/// stands: the least index from `start_pos` on at which it does, or nothing
/// where it stands at none.
pub fn find_closing_pattern(chars: &[char], start_pos: usize, pattern: &str) -> (found: Option<
    usize,
>)
    ensures
        match found {
            Some(i) => {
                &&& first_match(chars@, start_pos as int, pattern@) == Some(i as int)
                &&& start_pos <= i
                &&& matches_at(chars@, i as int, pattern@)
                &&& forall|j: int| start_pos <= j < i ==> !matches_at(chars@, j, pattern@)
            },
            None => {
                &&& first_match(chars@, start_pos as int, pattern@) is None
                &&& forall|j: int| start_pos <= j ==> !matches_at(chars@, j, pattern@)
            },
        },
{
    let pat = str_chars(pattern);
    proof {
        lemma_first_match(chars@, start_pos as int, pattern@);
    }
    let len = chars.len();
    let pat_len = pat.len();
    if pat_len > len || start_pos > len - pat_len {
        return None;
    }
    let last = len - pat_len;
    let mut i: usize = start_pos;
    while i <= last
        invariant
            start_pos <= i <= last + 1,
            last == len - pat_len,
            len == chars@.len(),
            pat_len == pat@.len(),
            pat@ == pattern@,
            first_match(chars@, start_pos as int, pattern@) == first_match(
                chars@,
                i as int,
                pattern@,
            ),
        decreases last + 1 - i,
    {
        let mut k: usize = 0;
        while k < pat_len && chars[i + k] == pat[k]
            invariant
                k <= pat_len,
                i + pat_len <= len,
                len == chars@.len(),
                pat_len == pat@.len(),
                forall|j: int| 0 <= j < k ==> chars@[i + j] == pat@[j],
            decreases pat_len - k,
        {
            k += 1;
        }
        if k == pat_len {
            proof {
                assert(chars@.subrange(i as int, i + pat_len) =~= pat@);
                lemma_first_match(chars@, start_pos as int, pattern@);
            }
            return Some(i);
        }
        assert(!matches_at(chars@, i as int, pattern@)) by {
            if matches_at(chars@, i as int, pattern@) {
                assert(chars@.subrange(i as int, i + pat_len)[k as int] == pat@[k as int]);
            }
        }
        i += 1;
    }
    None
}

/// The end of the run of characters other than `*` that starts at `from`.
pub open spec fn plain_run_end(s: Seq<char>, from: int) -> int
    decreases s.len() - from,
{
    if 0 <= from < s.len() && s[from] != '*' {
        plain_run_end(s, from + 1)
    } else {
        from
    }
}

/// A run of plain text ends within the text, and is not empty where it
/// starts on a character other than `*`.
pub proof fn lemma_plain_run_end(s: Seq<char>, from: int)
    requires
        0 <= from <= s.len(),
    ensures
        from <= plain_run_end(s, from) <= s.len(),
        from < s.len() && s[from] != '*' ==> from < plain_run_end(s, from),
    decreases s.len() - from,
{
    if from < s.len() && s[from] != '*' {
        lemma_plain_run_end(s, from + 1);
    }
}

/// The marker of bold text.
pub open spec fn bold_marker() -> Seq<char> {
    seq!['*', '*']
}

/// The marker of italic text.
pub open spec fn italic_marker() -> Seq<char> {
    seq!['*']
}

/// The literal asterisk that an opening marker without a closing one turns
/// into.
pub open spec fn literal_star() -> ElementView {
    ElementView::PlainText(seq!['*'])
}

/// The element that starts at `pos`, and the position behind it. Bold is
/// tried before italic; an opening marker that is never closed is a literal
/// `*`; anything else is the longest run of characters other than `*`.
pub open spec fn next_element(s: Seq<char>, pos: int) -> (ElementView, int) {
    if s[pos] == '*' && pos + 1 < s.len() && s[pos + 1] == '*' {
        match first_match(s, pos + 2, bold_marker()) {
            Some(end) => (ElementView::Bold(s.subrange(pos + 2, end)), end + 2),
            None => (literal_star(), pos + 1),
        }
    } else if s[pos] == '*' {
        match first_match(s, pos + 1, italic_marker()) {
            Some(end) => (ElementView::Italic(s.subrange(pos + 1, end)), end + 1),
            None => (literal_star(), pos + 1),
        }
    } else {
        let end = plain_run_end(s, pos);
        (ElementView::PlainText(s.subrange(pos, end)), end)
    }
}

/// Every element takes at least one character and ends within the text.
pub proof fn lemma_next_element_advances(s: Seq<char>, pos: int)
    requires
        0 <= pos < s.len(),
    ensures
        pos < next_element(s, pos).1 <= s.len(),
{
    lemma_first_match(s, pos + 2, bold_marker());
    lemma_first_match(s, pos + 1, italic_marker());
    lemma_plain_run_end(s, pos);
}

/// The elements of `s` from `pos` on.
pub open spec fn elements_from(s: Seq<char>, pos: int) -> Seq<ElementView>
    decreases s.len() - pos,
{
    if 0 <= pos < s.len() {
        let (element, next) = next_element(s, pos);
        proof {
            lemma_next_element_advances(s, pos);
        }
        seq![element] + elements_from(s, next)
    } else {
        Seq::empty()
    }
}

/// The inline elements of a text: what the tokenizer finds in it, or, where
/// it finds nothing, the whole text as one plain element.
pub open spec fn inline_elements(s: Seq<char>) -> Seq<ElementView> {
    let found = elements_from(s, 0);
    if found.len() == 0 {
        seq![ElementView::PlainText(s)]
    } else {
        found
    }
}

/// A text always has at least one inline element.
pub proof fn lemma_inline_elements_nonempty(s: Seq<char>)
    ensures
        inline_elements(s).len() > 0,
{
}

/// The text that an element was read from: its own text, between the
/// markers of its style.
pub open spec fn element_source(element: ElementView) -> Seq<char> {
    match element {
        ElementView::PlainText(text) => text,
        ElementView::Bold(text) => bold_marker() + text + bold_marker(),
        ElementView::Italic(text) => italic_marker() + text + italic_marker(),
    }
}

/// The text that a sequence of elements was read from.
pub open spec fn elements_source(elements: Seq<ElementView>) -> Seq<char>
    decreases elements.len(),
{
    if elements.len() == 0 {
        Seq::empty()
    } else {
        element_source(elements[0]) + elements_source(elements.drop_first())
    }
}

/// The element that starts at `pos` was read from the text between `pos`
/// and the position behind the element.
pub proof fn lemma_next_element_source(s: Seq<char>, pos: int)
    requires
        0 <= pos < s.len(),
    ensures
        element_source(next_element(s, pos).0) == s.subrange(pos, next_element(s, pos).1),
{
    lemma_first_match(s, pos + 2, bold_marker());
    lemma_first_match(s, pos + 1, italic_marker());
    lemma_plain_run_end(s, pos);
    let (element, next) = next_element(s, pos);
    if s[pos] == '*' && pos + 1 < s.len() && s[pos + 1] == '*' {
        match first_match(s, pos + 2, bold_marker()) {
            Some(end) => {
                assert(s.subrange(pos, pos + 2) =~= bold_marker());
                assert(s.subrange(end, end + 2) == bold_marker());
                assert(s.subrange(pos, pos + 2) + s.subrange(pos + 2, end) + s.subrange(
                    end,
                    end + 2,
                ) =~= s.subrange(pos, end + 2));
            },
            None => {
                assert(s.subrange(pos, pos + 1) =~= seq!['*']);
            },
        }
    } else if s[pos] == '*' {
        match first_match(s, pos + 1, italic_marker()) {
            Some(end) => {
                assert(s.subrange(pos, pos + 1) =~= italic_marker());
                assert(s.subrange(end, end + 1) == italic_marker());
                assert(s.subrange(pos, pos + 1) + s.subrange(pos + 1, end) + s.subrange(
                    end,
                    end + 1,
                ) =~= s.subrange(pos, end + 1));
            },
            None => {
                assert(s.subrange(pos, pos + 1) =~= seq!['*']);
            },
        }
    }
}

/// The elements from `pos` on were read from the text from `pos` on: put
/// back between their markers and joined, they give that text again.
pub proof fn lemma_elements_cover_text(s: Seq<char>, pos: int)
    requires
        0 <= pos <= s.len(),
    ensures
        elements_source(elements_from(s, pos)) == s.subrange(pos, s.len() as int),
    decreases s.len() - pos,
{
    if pos < s.len() {
        let (element, next) = next_element(s, pos);
        lemma_next_element_advances(s, pos);
        lemma_next_element_source(s, pos);
        lemma_elements_cover_text(s, next);
        let rest = elements_from(s, next);
        assert((seq![element] + rest)[0] == element);
        assert((seq![element] + rest).drop_first() =~= rest);
        assert(s.subrange(pos, next) + s.subrange(next, s.len() as int) =~= s.subrange(
            pos,
            s.len() as int,
        ));
    } else {
        assert(s.subrange(pos, s.len() as int) =~= Seq::<char>::empty());
    }
}

/// Nothing of a text is lost: its inline elements, put back between their
/// markers and joined, give the text again.
pub proof fn lemma_inline_elements_cover_text(s: Seq<char>)
    ensures
        elements_source(inline_elements(s)) == s,
{
    lemma_elements_cover_text(s, 0);
    assert(s.subrange(0, s.len() as int) =~= s);
    if elements_from(s, 0).len() == 0 {
        let only = seq![ElementView::PlainText(s)];
        assert(only.drop_first() =~= Seq::<ElementView>::empty());
        assert(elements_source(only) =~= s);
    }
}

/// Reads the element that starts at `pos`, and returns it with the
/// position behind it.
fn read_element(chars: &[char], pos: usize) -> (read: (Element, usize))
    requires
        pos < chars@.len(),
    ensures
        read.0@ == next_element(chars@, pos as int).0,
        read.1 == next_element(chars@, pos as int).1,
        pos < read.1 <= chars@.len(),
{
    let len = chars.len();
    proof {
        lemma_next_element_advances(chars@, pos as int);
        lemma_first_match(chars@, pos + 2, bold_marker());
        lemma_first_match(chars@, pos + 1, italic_marker());
        reveal_strlit("**");
        reveal_strlit("*");
        assert("**"@ =~= bold_marker());
        assert("*"@ =~= italic_marker());
    }
    if chars[pos] == '*' && pos + 1 < len && chars[pos + 1] == '*' {
        match find_closing_pattern(chars, pos + 2, "**") {
            Some(end_pos) => (Element::Bold(collect_chars(chars, pos + 2, end_pos)), end_pos + 2),
            None => (Element::PlainText(String::from_str("*")), pos + 1),
        }
    } else if chars[pos] == '*' {
        match find_closing_pattern(chars, pos + 1, "*") {
            Some(end_pos) => (
                Element::Italic(collect_chars(chars, pos + 1, end_pos)),
                end_pos + 1,
            ),
            None => (Element::PlainText(String::from_str("*")), pos + 1),
        }
    } else {
        let mut end_pos: usize = pos;
        while end_pos < len && chars[end_pos] != '*'
            invariant
                pos <= end_pos <= len == chars@.len(),
                plain_run_end(chars@, pos as int) == plain_run_end(chars@, end_pos as int),
            decreases len - end_pos,
        {
            end_pos += 1;
        }
        (Element::PlainText(collect_chars(chars, pos, end_pos)), end_pos)
    }
}

/// Splits a text into plain, bold and italic elements.
pub fn parse_inline(text: &str) -> (elements: Vec<Element>)
    ensures
        elements.deep_view() == inline_elements(text@),
        elements@.len() > 0,
{
    let chars = str_chars(text);
    let len = chars.len();
    let mut elements: Vec<Element> = Vec::new();
    let mut current_pos: usize = 0;
    while current_pos < len
        invariant
            current_pos <= len == chars@.len(),
            elements.deep_view() + elements_from(chars@, current_pos as int) == elements_from(
                chars@,
                0,
            ),
        decreases len - current_pos,
    {
        let ghost before = elements.deep_view();
        let (element, next) = read_element(chars.as_slice(), current_pos);
        elements.push(element);
        proof {
            assert(elements.deep_view() =~= before.push(element@));
            assert(before.push(element@) + elements_from(chars@, next as int) =~= before
                + elements_from(chars@, current_pos as int));
        }
        current_pos = next;
    }
    if elements.len() == 0 {
        elements.push(Element::PlainText(String::from_str(text)));
        assert(elements.deep_view() =~= seq![ElementView::PlainText(text@)]);
    } else {
        assert(elements.deep_view() =~= elements_from(chars@, 0));
    }
    elements
}

/// What a line of the source is, once trimmed.
#[derive(Debug, Clone, PartialEq, Eq)]
pub enum LineType {
    Title { level: u8, content: String },
    PlainText(String),
    Empty,
}

/// The mathematical value of a [`LineType`].
pub enum LineView {
    Title { level: u8, content: Seq<char> },
    PlainText(Seq<char>),
    Empty,
}

impl View for LineType {
    type V = LineView;

    open spec fn view(&self) -> LineView {
        match self {
            LineType::Title { level, content } => LineView::Title {
                level: *level,
                content: content@,
            },
            LineType::PlainText(text) => LineView::PlainText(text@),
            LineType::Empty => LineView::Empty,
        }
    }
}

/// The end of the run of `#` characters that starts at `from`.
pub open spec fn hash_run_end(s: Seq<char>, from: int) -> int
    decreases s.len() - from,
{
    if 0 <= from < s.len() && s[from] == '#' {
        hash_run_end(s, from + 1)
    } else {
        from
    }
}

/// A run of `#` characters ends within the text.
pub proof fn lemma_hash_run_end(s: Seq<char>, from: int)
    requires
        0 <= from <= s.len(),
    ensures
        from <= hash_run_end(s, from) <= s.len(),
    decreases s.len() - from,
{
    if from < s.len() && s[from] == '#' {
        lemma_hash_run_end(s, from + 1);
    }
}

/// The class of a line. A line that is blank once trimmed is empty. One
/// that starts with one to six `#` is a title of that level, whose content
/// is what follows them, trimmed. Any other line, one with seven or more
/// leading `#` among them, is plain text.
pub open spec fn classify_line(line: Seq<char>) -> LineView {
    let text = trimmed(line);
    let level = hash_run_end(text, 0);
    if text.len() == 0 {
        LineView::Empty
    } else if 1 <= level <= 6 {
        LineView::Title { level: level as u8, content: trimmed(text.subrange(level, text.len() as int)) }
    } else {
        LineView::PlainText(text)
    }
}

/// Trims a line and classifies it.
pub fn parse_line(line: &str) -> (kind: LineType)
    ensures
        kind@ == classify_line(line@),
{
    let chars = str_chars(line);
    let (from, to) = trim_bounds(chars.as_slice());
    let text = slice_subrange(chars.as_slice(), from, to);
    let len = text.len();
    if len == 0 {
        return LineType::Empty;
    }
    let mut level: usize = 0;
    while level < len && level < 7 && text[level] == '#'
        invariant
            level <= len == text@.len(),
            level <= 7,
            hash_run_end(text@, 0) == hash_run_end(text@, level as int),
        decreases len - level,
    {
        level += 1;
    }
    proof {
        lemma_hash_run_end(text@, level as int);
    }
    if 1 <= level && level <= 6 {
        let rest = slice_subrange(text, level, len);
        let (rest_from, rest_to) = trim_bounds(rest);
        let content = collect_chars(rest, rest_from, rest_to);
        LineType::Title { level: level as u8, content }
    } else {
        let content = collect_chars(text, 0, len);
        assert(text@.subrange(0, len as int) =~= text@);
        LineType::PlainText(content)
    }
}

/// The end of the line that starts at `from`: the index of the next line
/// feed, or the length of the text.
pub open spec fn line_end(s: Seq<char>, from: int) -> int
    decreases s.len() - from,
{
    if 0 <= from < s.len() && s[from] != '\n' {
        line_end(s, from + 1)
    } else {
        from
    }
}

/// A line ends within the text.
pub proof fn lemma_line_end(s: Seq<char>, from: int)
    requires
        0 <= from <= s.len(),
    ensures
        from <= line_end(s, from) <= s.len(),
    decreases s.len() - from,
{
    if from < s.len() && s[from] != '\n' {
        lemma_line_end(s, from + 1);
    }
}

/// The lines of `s` from `pos` on. Lines end at a line feed, which belongs
/// to no line; a line feed at the very end starts no further line.
pub open spec fn lines_from(s: Seq<char>, pos: int) -> Seq<Seq<char>>
    decreases s.len() + 1 - pos,
{
    if 0 <= pos < s.len() {
        let end = line_end(s, pos);
        proof {
            lemma_line_end(s, pos);
        }
        seq![s.subrange(pos, end)] + lines_from(s, end + 1)
    } else {
        Seq::empty()
    }
}

/// The paragraph that the accumulated text makes, if there is any.
pub open spec fn flush(pending: Option<Seq<char>>) -> Seq<BlockView> {
    match pending {
        Some(text) => seq![BlockView::Paragraph(inline_elements(text))],
        None => Seq::empty(),
    }
}

/// The blocks of a sequence of lines, given the text of the paragraph that
/// is being accumulated. An empty line or a title ends the paragraph; a title
/// is a block of its own; a line of plain text is joined to the paragraph
/// with nothing in between.
pub open spec fn scan_lines(lines: Seq<Seq<char>>, pending: Option<Seq<char>>) -> Seq<BlockView>
    decreases lines.len(),
{
    if lines.len() == 0 {
        flush(pending)
    } else {
        let rest = lines.drop_first();
        match classify_line(lines[0]) {
            LineView::Empty => flush(pending) + scan_lines(rest, None),
            LineView::Title { level, content } => flush(pending) + seq![
                BlockView::Title { level, content: inline_elements(content) },
            ] + scan_lines(rest, None),
            LineView::PlainText(text) => scan_lines(
                rest,
                Some(
                    match pending {
                        Some(joined) => joined + text,
                        None => text,
                    },
                ),
            ),
        }
    }
}

/// The block of a document made from an empty text: one paragraph that
/// holds one empty plain element.
pub open spec fn empty_document() -> Seq<BlockView> {
    seq![BlockView::Paragraph(seq![ElementView::PlainText(Seq::empty())])]
}

/// The blocks of a text. An empty text gives one paragraph that holds one
/// empty plain element; any other text gives the blocks of its lines.
pub open spec fn parse_document(text: Seq<char>) -> Seq<BlockView> {
    if text.len() == 0 {
        empty_document()
    } else {
        scan_lines(lines_from(text, 0), None)
    }
}

/// Whether every block is a heading of level 1 to 6 or a paragraph, each
/// with at least one element.
pub open spec fn all_scanned(blocks: Seq<BlockView>) -> bool {
    forall|i: int| 0 <= i < blocks.len() ==> (#[trigger] blocks[i]).is_scanned()
}

/// Scanning lines gives only headings of level 1 to 6 and paragraphs, none
/// of them without elements.
pub proof fn lemma_scan_lines_scanned(lines: Seq<Seq<char>>, pending: Option<Seq<char>>)
    ensures
        all_scanned(scan_lines(lines, pending)),
    decreases lines.len(),
{
    if lines.len() > 0 {
        let line = trimmed(lines[0]);
        lemma_hash_run_end(line, 0);
        lemma_scan_lines_scanned(lines.drop_first(), None);
        match classify_line(lines[0]) {
            LineView::PlainText(text) => {
                lemma_scan_lines_scanned(
                    lines.drop_first(),
                    Some(
                        match pending {
                            Some(joined) => joined + text,
                            None => text,
                        },
                    ),
                );
            },
            _ => {},
        }
    }
}

/// Whatever the text, its document holds only headings of level 1 to 6 and
/// paragraphs, and none of them is without elements.
pub proof fn lemma_parse_document_scanned(text: Seq<char>)
    ensures
        all_scanned(parse_document(text)),
{
    lemma_scan_lines_scanned(lines_from(text, 0), None);
}

/// The text of the paragraph that is being accumulated.
pub open spec fn pending_text(pending: Option<String>) -> Option<Seq<char>> {
    match pending {
        Some(text) => Some(text@),
        None => None,
    }
}

/// Ends the paragraph that is being accumulated, if there is one: its text
/// is split into elements, and the paragraph is added to `blocks`.
fn flush_paragraph(blocks: &mut Vec<Block>, pending: Option<String>)
    ensures
        final(blocks).deep_view() == old(blocks).deep_view() + flush(pending_text(pending)),
{
    let ghost before = blocks.deep_view();
    match pending {
        Some(text) => {
            let block = Block::Paragraph(parse_inline(text.as_str()));
            blocks.push(block);
            assert(blocks.deep_view() =~= before + seq![BlockView::Paragraph(inline_elements(text@))]);
        },
        None => {
            assert(blocks.deep_view() =~= before + Seq::<BlockView>::empty());
        },
    }
}

/// Scans a text line by line into the blocks of a document. Scanning never
/// fails: markup that is not closed stays in the text as it is.
pub fn parse_markdown(text: &str) -> (result: Result<Document, String>)
    ensures
        result matches Ok(doc) && doc@ == parse_document(text@) && all_scanned(doc@),
{
    let chars = str_chars(text);
    let len = chars.len();
    let mut blocks: Vec<Block> = Vec::new();
    proof {
        lemma_parse_document_scanned(text@);
    }
    if len == 0 {
        let mut elements: Vec<Element> = Vec::new();
        elements.push(Element::PlainText(String::new()));
        assert(elements.deep_view() =~= seq![ElementView::PlainText(Seq::empty())]);
        blocks.push(Block::Paragraph(elements));
        assert(blocks.deep_view() =~= empty_document());
        return Ok(Document { blocks });
    }
    let mut current_paragraph: Option<String> = None;
    let mut pos: usize = 0;
    assert(blocks.deep_view() =~= Seq::<BlockView>::empty());
    while pos < len
        invariant
            pos <= len == chars@.len(),
            blocks.deep_view() + scan_lines(
                lines_from(chars@, pos as int),
                pending_text(current_paragraph),
            ) == scan_lines(lines_from(chars@, 0), None),
        decreases len - pos,
    {
        let mut end: usize = pos;
        while end < len && chars[end] != '\n'
            invariant
                pos <= end <= len == chars@.len(),
                line_end(chars@, pos as int) == line_end(chars@, end as int),
            decreases len - end,
        {
            end += 1;
        }
        let next: usize = if end < len {
            end + 1
        } else {
            len
        };
        let ghost before = blocks.deep_view();
        let ghost pending = pending_text(current_paragraph);
        let ghost lines = lines_from(chars@, pos as int);
        let ghost rest = lines_from(chars@, next as int);
        proof {
            assert(lines_from(chars@, end + 1) == rest);
            assert(lines[0] == chars@.subrange(pos as int, end as int));
            assert(lines.drop_first() =~= rest);
        }
        let line = collect_chars(chars.as_slice(), pos, end);
        match parse_line(line.as_str()) {
            LineType::Empty => {
                flush_paragraph(&mut blocks, current_paragraph);
                current_paragraph = None;
                assert(blocks.deep_view() + scan_lines(rest, None) =~= before + scan_lines(
                    lines,
                    pending,
                ));
            },
            LineType::Title { level, content } => {
                flush_paragraph(&mut blocks, current_paragraph);
                current_paragraph = None;
                let ghost flushed = blocks.deep_view();
                let title = Block::Title { level, content: parse_inline(content.as_str()) };
                blocks.push(title);
                assert(blocks.deep_view() =~= flushed + seq![title@]);
                assert(blocks.deep_view() + scan_lines(rest, None) =~= before + scan_lines(
                    lines,
                    pending,
                ));
            },
            LineType::PlainText(content) => {
                let joined = match current_paragraph {
                    Some(paragraph) => paragraph.concat(content.as_str()),
                    None => content,
                };
                current_paragraph = Some(joined);
            },
        }
        pos = next;
    }
    flush_paragraph(&mut blocks, current_paragraph);
    Ok(Document { blocks })
}

} // verus!
