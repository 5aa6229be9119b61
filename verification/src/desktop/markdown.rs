//! The markdown subset that the desktop client displays: fenced code blocks,
//! three heading levels, quotes, bullets, and paragraphs with bold text,
//! links and inline code.

use crate::text::{
    chars_of, count_leading_space, find_chars_from, find_first, has_prefix, is_space, leading_space,
    lemma_find_from, lemma_leading_space, lines_of, slice_subrange, split_lines,
    starts_with_chars, string_of, trailing_space, trim_chars, trim_seq, trim_start_seq,
};
use vstd::prelude::*;

verus! {

/// A piece of a paragraph, as displayed.
pub enum InlineSpan {
    Plain(String),
    Bold(String),
    /// The text of a link; its target is not displayed.
    Link(String),
    Code(String),
}

/// The content of an `InlineSpan`.
pub enum SpanView {
    Plain(Seq<char>),
    Bold(Seq<char>),
    Link(Seq<char>),
    Code(Seq<char>),
}

impl View for InlineSpan {
    type V = SpanView;

    open spec fn view(&self) -> SpanView {
        match self {
            InlineSpan::Plain(s) => SpanView::Plain(s@),
            InlineSpan::Bold(s) => SpanView::Bold(s@),
            InlineSpan::Link(s) => SpanView::Link(s@),
            InlineSpan::Code(s) => SpanView::Code(s@),
        }
    }
}

/// A displayed block of a markdown document.
pub enum MarkdownBlock {
    /// The content of a fenced code block, each line ended by `\n`.
    CodeBlock(String),
    /// Vertical space for a blank line.
    Space,
    Heading1(String),
    Heading2(String),
    Heading3(String),
    Quote(String),
    /// A bullet: the count of leading white-space characters and the text after `- `.
    Bullet(usize, String),
    Paragraph(Vec<InlineSpan>),
}

/// The content of a `MarkdownBlock`.
pub enum BlockView {
    CodeBlock(Seq<char>),
    Space,
    Heading1(Seq<char>),
    Heading2(Seq<char>),
    Heading3(Seq<char>),
    Quote(Seq<char>),
    Bullet(nat, Seq<char>),
    Paragraph(Seq<SpanView>),
}

/// The views of a sequence of spans.
pub open spec fn spans_view(s: Seq<InlineSpan>) -> Seq<SpanView> {
    s.map_values(|x: InlineSpan| x@)
}

impl View for MarkdownBlock {
    type V = BlockView;

    open spec fn view(&self) -> BlockView {
        match self {
            MarkdownBlock::CodeBlock(s) => BlockView::CodeBlock(s@),
            MarkdownBlock::Space => BlockView::Space,
            MarkdownBlock::Heading1(s) => BlockView::Heading1(s@),
            MarkdownBlock::Heading2(s) => BlockView::Heading2(s@),
            MarkdownBlock::Heading3(s) => BlockView::Heading3(s@),
            MarkdownBlock::Quote(s) => BlockView::Quote(s@),
            MarkdownBlock::Bullet(n, s) => BlockView::Bullet(*n as nat, s@),
            MarkdownBlock::Paragraph(v) => BlockView::Paragraph(spans_view(v@)),
        }
    }
}

/// The views of a sequence of blocks.
pub open spec fn blocks_view(s: Seq<MarkdownBlock>) -> Seq<BlockView> {
    s.map_values(|x: MarkdownBlock| x@)
}

pub open spec fn bold_marker() -> Seq<char> {
    seq!['*', '*']
}

pub open spec fn link_middle() -> Seq<char> {
    seq![']', '(']
}

/// The plain text before position `k`, if any.
pub open spec fn plain_before(s: Seq<char>, k: int) -> Seq<SpanView> {
    if k > 0 {
        seq![SpanView::Plain(s.take(k))]
    } else {
        seq![]
    }
}

/// The text before the first `**`, if any.
pub open spec fn bold_prefix(s: Seq<char>) -> Seq<SpanView> {
    match find_first(s, bold_marker()) {
        Some(bs) => plain_before(s, bs),
        None => seq![],
    }
}

/// The positions of the first `**` and of the next `**` after it (relative
/// to the end of the first), when both exist.
pub open spec fn bold_split(s: Seq<char>) -> Option<(int, int)> {
    match find_first(s, bold_marker()) {
        Some(bs) => if 0 <= bs && bs + 2 <= s.len() {
            match find_first(s.skip(bs + 2), bold_marker()) {
                Some(be) => if 0 <= be && bs + 2 + be + 2 <= s.len() {
                    Some((bs, be))
                } else {
                    None
                },
                None => None,
            }
        } else {
            None
        },
        None => None,
    }
}

/// The positions of the first `[`, of the `](` after it, and of the `)`
/// after that (each relative to the previous one), when all exist.
pub open spec fn link_split(s: Seq<char>) -> Option<(int, int, int)> {
    match find_first(s, seq!['[']) {
        Some(ls) => if 0 <= ls <= s.len() {
            match find_first(s.skip(ls), link_middle()) {
                Some(m) => if 1 <= m && ls + m <= s.len() {
                    match find_first(s.skip(ls + m), seq![')']) {
                        Some(e) => if 0 <= e && ls + m + e + 1 <= s.len() {
                            Some((ls, m, e))
                        } else {
                            None
                        },
                        None => None,
                    }
                } else {
                    None
                },
                None => None,
            }
        } else {
            None
        },
        None => None,
    }
}

/// The text before the first backquote, if any.
pub open spec fn code_prefix(s: Seq<char>) -> Seq<SpanView> {
    match find_first(s, seq!['`']) {
        Some(cs) => plain_before(s, cs),
        None => seq![],
    }
}

/// The positions of the first backquote and of the next one after it
/// (relative to the first), when both exist.
pub open spec fn code_split(s: Seq<char>) -> Option<(int, int)> {
    match find_first(s, seq!['`']) {
        Some(cs) => if 0 <= cs && cs + 1 <= s.len() {
            match find_first(s.skip(cs + 1), seq!['`']) {
                Some(ce) => if 0 <= ce && cs + 1 + ce + 1 <= s.len() {
                    Some((cs, ce))
                } else {
                    None
                },
                None => None,
            }
        } else {
            None
        },
        None => None,
    }
}

/// The spans of a paragraph line. At each step the first `**` is looked
/// for: the text before it is emitted, and if a closing `**` follows, the
/// bold text. Otherwise the first `[` followed by `](` and then `)` makes a
/// link, with the text before it. Otherwise the text before the first
/// backquote is emitted, and if a closing backquote follows, the code. When
/// nothing closes, the rest is emitted as plain text.
pub open spec fn inline_spans(s: Seq<char>) -> Seq<SpanView>
    decreases s.len(),
{
    if s.len() == 0 {
        seq![]
    } else {
        match bold_split(s) {
            Some((bs, be)) => bold_prefix(s) + seq![SpanView::Bold(s.subrange(bs + 2, bs + 2 + be))]
                + inline_spans(s.skip(bs + 2 + be + 2)),
            None => match link_split(s) {
                Some((ls, m, e)) => bold_prefix(s) + plain_before(s, ls) + seq![
                    SpanView::Link(s.subrange(ls + 1, ls + m)),
                ] + inline_spans(s.skip(ls + m + e + 1)),
                None => match code_split(s) {
                    Some((cs, ce)) => bold_prefix(s) + code_prefix(s) + seq![
                        SpanView::Code(s.subrange(cs + 1, cs + 1 + ce)),
                    ] + inline_spans(s.skip(cs + 1 + ce + 1)),
                    None => bold_prefix(s) + code_prefix(s) + seq![SpanView::Plain(s)],
                },
            },
        }
    }
}

pub open spec fn fence() -> Seq<char> {
    seq!['`', '`', '`']
}

/// The block that a line outside code blocks is displayed as.
pub open spec fn line_block(line: Seq<char>) -> BlockView {
    if trim_seq(line).len() == 0 {
        BlockView::Space
    } else if has_prefix(line, seq!['#', ' ']) {
        BlockView::Heading1(line.skip(2))
    } else if has_prefix(line, seq!['#', '#', ' ']) {
        BlockView::Heading2(line.skip(3))
    } else if has_prefix(line, seq!['#', '#', '#', ' ']) {
        BlockView::Heading3(line.skip(4))
    } else if has_prefix(line, seq!['>', ' ']) {
        BlockView::Quote(line.skip(2))
    } else if has_prefix(trim_start_seq(line), seq!['-', ' ']) {
        BlockView::Bullet(leading_space(line), trim_start_seq(line).skip(2))
    } else {
        BlockView::Paragraph(inline_spans(line))
    }
}

/// The heading block of level `level` (1 to 3) with text `text`.
pub open spec fn heading_of_level(level: int, text: Seq<char>) -> BlockView {
    if level == 1 {
        BlockView::Heading1(text)
    } else if level == 2 {
        BlockView::Heading2(text)
    } else {
        BlockView::Heading3(text)
    }
}

/// A line made only of white space ends in white space all the way to its
/// first character.
proof fn lemma_all_trailing_space(s: Seq<char>)
    requires
        s.len() > 0,
        trailing_space(s) == s.len(),
    ensures
        is_space(s[0]),
    decreases s.len(),
{
    if s.len() > 1 {
        assert(s.drop_last()[0] == s[0]);
        lemma_all_trailing_space(s.drop_last());
    }
}

proof fn lemma_trailing_space_bound(s: Seq<char>)
    ensures
        trailing_space(s) <= s.len(),
    decreases s.len(),
{
    if s.len() > 0 && is_space(s.last()) {
        lemma_trailing_space_bound(s.drop_last());
    }
}

/// A line of one to three `#`, a space and some text is a heading whose
/// level is the number of `#` and whose text is what follows the space.
pub proof fn lemma_heading_level(level: int, text: Seq<char>)
    requires
        1 <= level <= 3,
    ensures
        line_block(Seq::new(level as nat, |i: int| '#') + seq![' '] + text) == heading_of_level(level, text),
{
    let marks = Seq::new(level as nat, |i: int| '#');
    let line = marks + seq![' '] + text;
    assert(line[0] == '#');
    assert(line[level] == ' ');
    assert(!is_space('#'));
    assert(leading_space(line) == 0);
    assert(trim_start_seq(line) =~= line);
    lemma_trailing_space_bound(line);
    if trailing_space(line) == line.len() {
        lemma_all_trailing_space(line);
    }
    assert(trim_seq(line).len() > 0);
    if level == 1 {
        assert(line.subrange(0, 2) =~= seq!['#', ' ']);
        assert(line.skip(2) =~= text);
    } else if level == 2 {
        assert(line[1] == '#');
        assert(line.subrange(0, 2) != seq!['#', ' ']);
        assert(line.subrange(0, 3) =~= seq!['#', '#', ' ']);
        assert(line.skip(3) =~= text);
    } else {
        assert(line[1] == '#');
        assert(line[2] == '#');
        assert(line.subrange(0, 2) != seq!['#', ' ']);
        assert(line.subrange(0, 3) != seq!['#', '#', ' ']);
        assert(line.subrange(0, 4) =~= seq!['#', '#', '#', ' ']);
        assert(line.skip(4) =~= text);
    }
}

/// A line of `> ` and some text is a quote of that text.
pub proof fn lemma_quote_line(text: Seq<char>)
    ensures
        line_block(seq!['>', ' '] + text) == BlockView::Quote(text),
{
    let line = seq!['>', ' '] + text;
    assert(line[0] == '>');
    assert(!is_space('>'));
    assert(leading_space(line) == 0);
    assert(trim_start_seq(line) =~= line);
    lemma_trailing_space_bound(line);
    if trailing_space(line) == line.len() {
        lemma_all_trailing_space(line);
    }
    assert(!has_prefix(line, seq!['#', ' '])) by {
        assert(line.subrange(0, 2)[0] == '>');
        assert(seq!['#', ' '][0] == '#');
    }
    assert(!has_prefix(line, seq!['#', '#', ' '])) by {
        if line.len() >= 3 {
            assert(line.subrange(0, 3)[0] == '>');
            assert(seq!['#', '#', ' '][0] == '#');
        }
    }
    assert(!has_prefix(line, seq!['#', '#', '#', ' '])) by {
        if line.len() >= 4 {
            assert(line.subrange(0, 4)[0] == '>');
            assert(seq!['#', '#', '#', ' '][0] == '#');
        }
    }
    assert(line.subrange(0, 2) =~= seq!['>', ' ']);
    assert(line.skip(2) =~= text);
}

/// A line of white space only shows as vertical space.
pub proof fn lemma_blank_line(line: Seq<char>)
    requires
        forall|i: int| 0 <= i < line.len() ==> is_space(#[trigger] line[i]),
    ensures
        line_block(line) == BlockView::Space,
{
    lemma_leading_space_all(line);
    assert(trim_start_seq(line).len() == 0);
}

proof fn lemma_leading_space_all(s: Seq<char>)
    requires
        forall|i: int| 0 <= i < s.len() ==> is_space(#[trigger] s[i]),
    ensures
        leading_space(s) == s.len(),
    decreases s.len(),
{
    if s.len() > 0 {
        assert(is_space(s[0]));
        assert forall|i: int| 0 <= i < s.drop_first().len() implies is_space(#[trigger] s.drop_first()[i]) by {
            assert(s.drop_first()[i] == s[i + 1]);
        }
        lemma_leading_space_all(s.drop_first());
    }
}

/// The blocks of lines `i..` of a document, given whether a code block is
/// open and the code gathered so far. A fence line toggles the code block,
/// and closing a block with content displays it; lines inside a code block
/// are gathered, each ended by `\n`; a code block left open is not displayed.
pub open spec fn blocks_from(lines: Seq<Seq<char>>, i: int, in_code: bool, code: Seq<char>) -> Seq<
    BlockView,
>
    decreases lines.len() - i,
{
    if i < 0 || i >= lines.len() {
        seq![]
    } else {
        let line = lines[i];
        if has_prefix(line, fence()) {
            let closes = in_code && code.len() > 0;
            let emitted = if closes {
                seq![BlockView::CodeBlock(code)]
            } else {
                seq![]
            };
            emitted + blocks_from(lines, i + 1, !in_code, if closes { seq![] } else { code })
        } else if in_code {
            blocks_from(lines, i + 1, in_code, code + line + seq!['\n'])
        } else {
            seq![line_block(line)] + blocks_from(lines, i + 1, in_code, code)
        }
    }
}

/// The blocks of a document.
pub open spec fn markdown_blocks(content: Seq<char>) -> Seq<BlockView> {
    blocks_from(split_lines(content), 0, false, seq![])
}


fn find_in(s: &[char], p: &[char]) -> (r: Option<usize>)
    ensures
        r matches Some(i) ==> find_first(s@, p@) == Some(i as int) && i + p@.len() <= s@.len(),
        r is None ==> find_first(s@, p@) is None,
{
    proof {
        lemma_find_from(s@, p@, 0);
    }
    find_chars_from(s, p, 0)
}

fn push_span(out: &mut Vec<InlineSpan>, span: InlineSpan)
    ensures
        spans_view(final(out)@) == spans_view(old(out)@).push(span@),
{
    out.push(span);
    assert(spans_view(out@) =~= spans_view(old(out)@).push(span@));
}

fn push_plain_before(out: &mut Vec<InlineSpan>, s: &[char], k: usize)
    requires
        k <= s@.len(),
    ensures
        spans_view(final(out)@) == spans_view(old(out)@) + plain_before(s@, k as int),
{
    if k > 0 {
        let piece = slice_subrange(s, 0, k);
        let text = string_of(piece.as_slice());
        assert(s@.subrange(0, k as int) =~= s@.take(k as int));
        push_span(out, InlineSpan::Plain(text));
        assert(spans_view(out@) =~= spans_view(old(out)@) + plain_before(s@, k as int));
    } else {
        assert(spans_view(out@) =~= spans_view(old(out)@) + plain_before(s@, k as int));
    }
}

/// One step of `parse_inline`: emits the spans of the first construct of
/// `s` and returns what is left, or `None` when the line is done.
#[verifier::spinoff_prover]
#[verifier::rlimit(50)]
fn inline_step(
    s: &[char],
    out: &mut Vec<InlineSpan>,
    star: &[char; 2],
    open_bracket: &[char; 1],
    middle: &[char; 2],
    close_paren: &[char; 1],
    tick: &[char; 1],
) -> (next: Option<Vec<char>>)
    requires
        s@.len() > 0,
        star@ == bold_marker(),
        middle@ == link_middle(),
        open_bracket@ == seq!['['],
        close_paren@ == seq![')'],
        tick@ == seq!['`'],
    ensures
        next matches Some(n) ==> n@.len() < s@.len() && spans_view(final(out)@) + inline_spans(n@)
            == spans_view(old(out)@) + inline_spans(s@),
        next is None ==> spans_view(final(out)@) == spans_view(old(out)@) + inline_spans(s@),
{
    let ghost before = spans_view(out@);
    assert(star@.len() == 2 && tick@.len() == 1 && middle@.len() == 2 && close_paren@.len() == 1);
    let n = s.len();
    assert(n == s@.len());
    let fb = find_in(s, star);
    match fb {
        Some(bs) => push_plain_before(out, s, bs),
        None => {
            assert(spans_view(out@) =~= before + bold_prefix(s@));
        },
    }
    assert(spans_view(out@) == before + bold_prefix(s@));
    if let Some(bs) = fb {
        let after = slice_subrange(s, bs + 2, s.len());
        assert(after@ =~= s@.skip(bs + 2));
        let bc = find_in(after.as_slice(), star);
        if let Some(be) = bc {
            assert(bold_split(s@) == Some((bs as int, be as int)));
            let inner = slice_subrange(s, bs + 2, bs + 2 + be);
            push_span(out, InlineSpan::Bold(string_of(inner.as_slice())));
            let next = slice_subrange(s, bs + 2 + be + 2, s.len());
            assert(next@ =~= s@.skip(bs + 2 + be + 2));
            assert(spans_view(out@) + inline_spans(next@) =~= before + inline_spans(s@));
            return Some(next);
        }
        assert(bold_split(s@) is None);
    } else {
        assert(bold_split(s@) is None);
    }
    let ghost after_bold = spans_view(out@);
    let fl = find_in(s, open_bracket);
    if let Some(ls) = fl {
        let from_ls = slice_subrange(s, ls, s.len());
        assert(from_ls@ =~= s@.skip(ls as int));
        let lm = find_in(from_ls.as_slice(), middle);
        if let Some(m) = lm {
            proof {
                lemma_find_from(s@, seq!['['], 0);
                lemma_find_from(s@.skip(ls as int), link_middle(), 0);
                assert(s@.skip(ls as int)[0] == '[');
                if m == 0 {
                    assert(s@.skip(ls as int).subrange(0, 2)[0] == ']');
                }
            }
            let from_m = slice_subrange(s, ls + m, s.len());
            assert(from_m@ =~= s@.skip(ls + m));
            let le = find_in(from_m.as_slice(), close_paren);
            if let Some(e) = le {
                assert(link_split(s@) == Some((ls as int, m as int, e as int)));
                push_plain_before(out, s, ls);
                let text = slice_subrange(s, ls + 1, ls + m);
                push_span(out, InlineSpan::Link(string_of(text.as_slice())));
                let next = slice_subrange(s, ls + m + e + 1, s.len());
                assert(next@ =~= s@.skip(ls + m + e + 1));
                assert(spans_view(out@) + inline_spans(next@) =~= before + inline_spans(s@));
                return Some(next);
            }
            assert(link_split(s@) is None);
        } else {
            assert(link_split(s@) is None);
        }
    } else {
        assert(link_split(s@) is None);
    }
    let fc = find_in(s, tick);
    match fc {
        Some(cs) => push_plain_before(out, s, cs),
        None => {
            assert(spans_view(out@) =~= after_bold + code_prefix(s@));
        },
    }
    assert(spans_view(out@) == before + bold_prefix(s@) + code_prefix(s@));
    if let Some(cs) = fc {
        let after = slice_subrange(s, cs + 1, s.len());
        assert(after@ =~= s@.skip(cs + 1));
        let cc = find_in(after.as_slice(), tick);
        if let Some(ce) = cc {
            assert(code_split(s@) == Some((cs as int, ce as int)));
            let inner = slice_subrange(s, cs + 1, cs + 1 + ce);
            push_span(out, InlineSpan::Code(string_of(inner.as_slice())));
            let next = slice_subrange(s, cs + 1 + ce + 1, s.len());
            assert(next@ =~= s@.skip(cs + 1 + ce + 1));
            assert(spans_view(out@) + inline_spans(next@) =~= before + inline_spans(s@));
            return Some(next);
        }
        assert(code_split(s@) is None);
    } else {
        assert(code_split(s@) is None);
    }
    push_span(out, InlineSpan::Plain(string_of(s)));
    assert(spans_view(out@) =~= before + inline_spans(s@));
    None
}

/// Splits a paragraph line into the spans that are displayed.
pub fn parse_inline(line: &[char]) -> (spans: Vec<InlineSpan>)
    ensures
        spans_view(spans@) == inline_spans(line@),
{
    let mut out: Vec<InlineSpan> = Vec::new();
    let mut rem = slice_subrange(line, 0, line.len());
    assert(rem@ =~= line@);
    assert(spans_view(out@) =~= seq![]);
    let star = ['*', '*'];
    let open_bracket = ['['];
    let middle = [']', '('];
    let close_paren = [')'];
    let tick = ['`'];
    assert(star@ =~= bold_marker());
    assert(middle@ =~= link_middle());
    assert(open_bracket@ =~= seq!['[']);
    assert(close_paren@ =~= seq![')']);
    assert(tick@ =~= seq!['`']);
    while rem.len() > 0
        invariant
            spans_view(out@) + inline_spans(rem@) == inline_spans(line@),
            star@ == bold_marker(),
            middle@ == link_middle(),
            open_bracket@ == seq!['['],
            close_paren@ == seq![')'],
            tick@ == seq!['`'],
        decreases rem@.len(),
    {
        match inline_step(rem.as_slice(), &mut out, &star, &open_bracket, &middle, &close_paren, &tick) {
            Some(next) => {
                rem = next;
            },
            None => {
                assert(spans_view(out@) =~= inline_spans(line@));
                return out;
            },
        }
    }
    assert(inline_spans(rem@) =~= seq![]);
    assert(spans_view(out@) =~= inline_spans(line@));
    out
}

fn push_block(out: &mut Vec<MarkdownBlock>, b: MarkdownBlock)
    ensures
        blocks_view(final(out)@) == blocks_view(old(out)@).push(b@),
{
    out.push(b);
    assert(blocks_view(out@) =~= blocks_view(old(out)@).push(b@));
}

fn text_from(s: &[char], k: usize) -> (t: String)
    requires
        k <= s@.len(),
    ensures
        t@ == s@.skip(k as int),
{
    let v = slice_subrange(s, k, s.len());
    assert(v@ =~= s@.skip(k as int));
    string_of(v.as_slice())
}

/// The block that a line outside code blocks is displayed as.
pub fn classify_line(line: &[char]) -> (b: MarkdownBlock)
    ensures
        b@ == line_block(line@),
{
    let trimmed = trim_chars(line);
    if trimmed.len() == 0 {
        return MarkdownBlock::Space;
    }
    let h1 = ['#', ' '];
    let h2 = ['#', '#', ' '];
    let h3 = ['#', '#', '#', ' '];
    let quote = ['>', ' '];
    let bullet = ['-', ' '];
    assert(h1@ =~= seq!['#', ' ']);
    assert(h2@ =~= seq!['#', '#', ' ']);
    assert(h3@ =~= seq!['#', '#', '#', ' ']);
    assert(quote@ =~= seq!['>', ' ']);
    assert(bullet@ =~= seq!['-', ' ']);
    if starts_with_chars(line, &h1) {
        return MarkdownBlock::Heading1(text_from(line, 2));
    }
    if starts_with_chars(line, &h2) {
        return MarkdownBlock::Heading2(text_from(line, 3));
    }
    if starts_with_chars(line, &h3) {
        return MarkdownBlock::Heading3(text_from(line, 4));
    }
    if starts_with_chars(line, &quote) {
        return MarkdownBlock::Quote(text_from(line, 2));
    }
    proof {
        lemma_leading_space(line@);
    }
    let lead = count_leading_space(line);
    let rest = slice_subrange(line, lead, line.len());
    assert(rest@ =~= trim_start_seq(line@));
    if starts_with_chars(rest.as_slice(), &bullet) {
        return MarkdownBlock::Bullet(lead, text_from(rest.as_slice(), 2));
    }
    MarkdownBlock::Paragraph(parse_inline(line))
}

/// The blocks of a markdown document, as the desktop client displays them.
pub fn parse_markdown(content: &str) -> (blocks: Vec<MarkdownBlock>)
    ensures
        blocks_view(blocks@) == markdown_blocks(content@),
{
    let chars = chars_of(content);
    let lines = lines_of(chars.as_slice());
    let ghost ls = split_lines(content@);
    let mut out: Vec<MarkdownBlock> = Vec::new();
    let mut in_code = false;
    let mut code: Vec<char> = Vec::new();
    let fence_marker = ['`', '`', '`'];
    assert(fence_marker@ =~= fence());
    assert(blocks_view(out@) =~= seq![]);
    assert(code@ =~= seq![]);
    let n = lines.len();
    let mut i: usize = 0;
    while i < n
        invariant
            n == lines@.len(),
            n == ls.len(),
            ls == split_lines(content@),
            forall|k: int| 0 <= k < lines@.len() ==> (#[trigger] lines@[k])@ == ls[k],
            fence_marker@ == fence(),
            i <= n,
            blocks_view(out@) + blocks_from(ls, i as int, in_code, code@) == markdown_blocks(content@),
        decreases n - i,
    {
        let line = &lines[i];
        let ghost before = blocks_view(out@);
        assert(line@ == ls[i as int]);
        if starts_with_chars(line.as_slice(), &fence_marker) {
            if in_code && code.len() > 0 {
                let text = string_of(code.as_slice());
                push_block(&mut out, MarkdownBlock::CodeBlock(text));
                code = Vec::new();
                assert(code@ =~= seq![]);
            } else {
                assert(blocks_view(out@) =~= before + seq![]);
            }
            in_code = !in_code;
        } else if in_code {
            let mut k: usize = 0;
            let ghost code0 = code@;
            while k < line.len()
                invariant
                    k <= line@.len(),
                    code@ == code0 + line@.take(k as int),
                decreases line@.len() - k,
            {
                code.push(line[k]);
                k = k + 1;
                assert(code@ =~= code0 + line@.take(k as int));
            }
            code.push('\n');
            assert(code@ =~= code0 + line@ + seq!['\n']);
        } else {
            let b = classify_line(line.as_slice());
            push_block(&mut out, b);
        }
        i = i + 1;
    }
    assert(blocks_view(out@) =~= markdown_blocks(content@));
    out
}

} // verus!
