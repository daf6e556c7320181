//! Markdown notes turned into styled lines: pulldown-cmark reads the text
//! into events, and the library lays the events out as lines of spans.
use pulldown_cmark::{Event, Options, Parser, TagEnd};
use vstd::prelude::*;
use crate::text::{is_blank, owned, to_chars, trim};

verus! {

/// The kinds of markdown element the layout tells apart.
#[derive(Clone, Copy, Debug, PartialEq, Eq, Structural)]
pub enum MdTag {
    Strong,
    Emphasis,
    Heading,
    CodeBlock,
    Paragraph,
    Item,
    Other,
}

/// One event of a markdown reading.
#[derive(Clone, Debug)]
pub enum MdEvent {
    Text(String),
    Code(String),
    SoftBreak,
    HardBreak,
    Rule,
    Start(MdTag),
    End(MdTag),
    Other,
}

/// The value of an event, its text taken as a character sequence.
pub enum MdEventView {
    Text(Seq<char>),
    Code(Seq<char>),
    SoftBreak,
    HardBreak,
    Rule,
    Start(MdTag),
    End(MdTag),
    Other,
}

impl View for MdEvent {
    type V = MdEventView;

    open spec fn view(&self) -> MdEventView {
        match self {
            MdEvent::Text(t) => MdEventView::Text(t@),
            MdEvent::Code(t) => MdEventView::Code(t@),
            MdEvent::SoftBreak => MdEventView::SoftBreak,
            MdEvent::HardBreak => MdEventView::HardBreak,
            MdEvent::Rule => MdEventView::Rule,
            MdEvent::Start(t) => MdEventView::Start(*t),
            MdEvent::End(t) => MdEventView::End(*t),
            MdEvent::Other => MdEventView::Other,
        }
    }
}

pub open spec fn event_views(events: Seq<MdEvent>) -> Seq<MdEventView> {
    events.map_values(|e: MdEvent| e@)
}

/// The events pulldown-cmark reads from a text, with strikethrough enabled.
pub uninterp spec fn markdown_parse(md: Seq<char>) -> Seq<MdEventView>;

/// Calls pulldown-cmark's `Parser::new_ext` with strikethrough enabled and
/// collects its events. Claimed: the events are `markdown_parse` of the
/// text; a start tag is named by the kind of its end.
#[verifier::external_body]
fn markdown_events(md: &str) -> (r: Vec<MdEvent>)
    ensures
        event_views(r@) == markdown_parse(md@),
{
    let kind = |tag| match tag {
        TagEnd::Strong => MdTag::Strong, TagEnd::Emphasis => MdTag::Emphasis,
        TagEnd::Heading(_) => MdTag::Heading, TagEnd::CodeBlock => MdTag::CodeBlock,
        TagEnd::Paragraph => MdTag::Paragraph, TagEnd::Item => MdTag::Item, _ => MdTag::Other,
    };
    Parser::new_ext(md, Options::ENABLE_STRIKETHROUGH).map(|event| match event {
        Event::Text(t) => MdEvent::Text(t.to_string()),
        Event::Code(t) => MdEvent::Code(t.to_string()),
        Event::SoftBreak => MdEvent::SoftBreak, Event::HardBreak => MdEvent::HardBreak,
        Event::Rule => MdEvent::Rule,
        Event::Start(tag) => MdEvent::Start(kind(tag.to_end())),
        Event::End(tag) => MdEvent::End(kind(tag)),
        _ => MdEvent::Other,
    }).collect()
}

/// A run of text with its look.
#[derive(Clone, Debug)]
pub struct MdSpan {
    pub text: String,
    pub bold: bool,
    pub italic: bool,
    pub reversed: bool,
}

/// The value of a span.
pub struct SpanView {
    pub text: Seq<char>,
    pub bold: bool,
    pub italic: bool,
    pub reversed: bool,
}

impl View for MdSpan {
    type V = SpanView;

    open spec fn view(&self) -> SpanView {
        SpanView { text: self.text@, bold: self.bold, italic: self.italic, reversed: self.reversed }
    }
}

/// A laid-out line: its spans, in order.
#[derive(Clone, Debug)]
pub struct MdLine {
    pub spans: Vec<MdSpan>,
}

pub open spec fn span_views(spans: Seq<MdSpan>) -> Seq<SpanView> {
    spans.map_values(|s: MdSpan| s@)
}

pub open spec fn line_views(lines: Seq<MdLine>) -> Seq<Seq<SpanView>> {
    lines.map_values(|l: MdLine| span_views(l.spans@))
}

/// The open elements while laying out: strong, emphasis, code, heading.
#[derive(Clone, Copy, Debug, PartialEq, Eq, Structural)]
pub struct StyleState {
    pub strong: bool,
    pub emphasis: bool,
    pub code: bool,
    pub heading: bool,
}

/// The span that shows `text` in the style `st`: bold in strong text and
/// headings, italic in emphasis, reversed in code.
pub open spec fn styled(text: Seq<char>, st: StyleState) -> SpanView {
    SpanView { text, bold: st.strong || st.heading, italic: st.emphasis, reversed: st.code }
}

/// `lines` with `text` added to the last line, unless it is empty.
pub open spec fn with_text(lines: Seq<Seq<SpanView>>, text: Seq<char>, st: StyleState) -> Seq<
    Seq<SpanView>,
> {
    if text.len() == 0 {
        lines
    } else if lines.len() == 0 {
        seq![seq![styled(text, st)]]
    } else {
        lines.update(lines.len() - 1, lines.last().push(styled(text, st)))
    }
}

/// `lines` with a new empty line, unless the last line is already empty.
pub open spec fn with_newline(lines: Seq<Seq<SpanView>>) -> Seq<Seq<SpanView>> {
    if lines.len() == 0 || lines.last().len() > 0 {
        lines.push(Seq::<SpanView>::empty())
    } else {
        lines
    }
}

/// The lines and style after one event.
pub open spec fn md_step(lines: Seq<Seq<SpanView>>, st: StyleState, e: MdEventView) -> (
    Seq<Seq<SpanView>>,
    StyleState,
) {
    match e {
        MdEventView::Text(t) => (with_text(lines, t, st), st),
        MdEventView::Code(t) => (with_text(lines, t, StyleState { code: true, ..st }), st),
        MdEventView::SoftBreak => (with_text(lines, " "@, st), st),
        MdEventView::HardBreak => (with_newline(lines), st),
        MdEventView::Rule => (with_newline(with_text(with_newline(lines), "---"@, st)), st),
        MdEventView::Start(tag) => match tag {
            MdTag::Strong => (lines, StyleState { strong: true, ..st }),
            MdTag::Emphasis => (lines, StyleState { emphasis: true, ..st }),
            MdTag::Heading => (with_newline(lines), StyleState { heading: true, ..st }),
            MdTag::CodeBlock => (with_newline(lines), StyleState { code: true, ..st }),
            MdTag::Paragraph => (with_newline(lines), st),
            MdTag::Item => (with_text(lines, "• "@, st), st),
            MdTag::Other => (lines, st),
        },
        MdEventView::End(tag) => match tag {
            MdTag::Strong => (lines, StyleState { strong: false, ..st }),
            MdTag::Emphasis => (lines, StyleState { emphasis: false, ..st }),
            MdTag::Heading => (with_newline(lines), StyleState { heading: false, ..st }),
            MdTag::CodeBlock => (with_newline(lines), StyleState { code: false, ..st }),
            MdTag::Paragraph => (with_newline(lines), st),
            MdTag::Item => (with_newline(lines), st),
            MdTag::Other => (lines, st),
        },
        MdEventView::Other => (lines, st),
    }
}

/// The lines and style after the events `es`, in order.
pub open spec fn md_fold(lines: Seq<Seq<SpanView>>, st: StyleState, es: Seq<MdEventView>) -> (
    Seq<Seq<SpanView>>,
    StyleState,
)
    decreases es.len(),
{
    if es.len() == 0 {
        (lines, st)
    } else {
        let next = md_step(lines, st, es[0]);
        md_fold(next.0, next.1, es.drop_first())
    }
}

/// `lines` without trailing empty lines, keeping at least one line.
pub open spec fn trimmed_lines(lines: Seq<Seq<SpanView>>) -> Seq<Seq<SpanView>>
    decreases lines.len(),
{
    if lines.len() > 1 && lines.last().len() == 0 {
        trimmed_lines(lines.drop_last())
    } else {
        lines
    }
}

/// The layout of a sequence of events: from one empty line and no style,
/// each event applied in turn, then the trailing empty lines dropped.
pub open spec fn layout(es: Seq<MdEventView>) -> Seq<Seq<SpanView>> {
    let start = StyleState { strong: false, emphasis: false, code: false, heading: false };
    trimmed_lines(md_fold(seq![Seq::<SpanView>::empty()], start, es).0)
}


fn push_text(lines: &mut Vec<MdLine>, text: String, st: StyleState)
    ensures
        line_views(final(lines)@) == with_text(line_views(old(lines)@), text@, st),
{
    if text.as_str().is_empty() {
        return;
    }
    let ghost before = line_views(lines@);
    let span = MdSpan { text, bold: st.strong || st.heading, italic: st.emphasis, reversed: st.code };
    if lines.len() == 0 {
        let mut spans: Vec<MdSpan> = Vec::new();
        spans.push(span);
        lines.push(MdLine { spans });
        assert(line_views(lines@) =~= seq![seq![styled(text@, st)]]) by {
            assert(span_views(lines@[0].spans@) =~= seq![styled(text@, st)]);
        }
        return;
    }
    let mut line = match lines.pop() {
        Some(l) => l,
        None => MdLine { spans: Vec::new() },
    };
    let ghost last = span_views(line.spans@);
    line.spans.push(span);
    assert(span_views(line.spans@) =~= last.push(styled(text@, st)));
    lines.push(line);
    assert(line_views(lines@) =~= before.update(before.len() - 1, before.last().push(styled(text@, st))));
}

fn newline(lines: &mut Vec<MdLine>)
    ensures
        line_views(final(lines)@) == with_newline(line_views(old(lines)@)),
{
    let ghost before = line_views(lines@);
    if lines.len() == 0 || lines[lines.len() - 1].spans.len() > 0 {
        lines.push(MdLine { spans: Vec::new() });
        assert(line_views(lines@) =~= before.push(Seq::<SpanView>::empty())) by {
            assert(span_views(lines@.last().spans@) =~= Seq::<SpanView>::empty());
        }
    }
}

proof fn lemma_fold_step(lines: Seq<Seq<SpanView>>, st: StyleState, es: Seq<MdEventView>, i: int)
    requires
        0 <= i < es.len(),
    ensures
        md_fold(lines, st, es.skip(i)) == md_fold(
            md_step(lines, st, es[i]).0,
            md_step(lines, st, es[i]).1,
            es.skip(i + 1),
        ),
{
    assert(es.skip(i).drop_first() =~= es.skip(i + 1));
}

/// Lays out markdown events as styled lines.
pub fn render_events(events: &[MdEvent]) -> (r: Vec<MdLine>)
    ensures
        line_views(r@) == layout(event_views(events@)),
{
    let ghost es = event_views(events@);
    let ghost start = StyleState { strong: false, emphasis: false, code: false, heading: false };
    let mut lines: Vec<MdLine> = Vec::new();
    lines.push(MdLine { spans: Vec::new() });
    let mut st = StyleState { strong: false, emphasis: false, code: false, heading: false };
    assert(line_views(lines@) =~= seq![Seq::<SpanView>::empty()]) by {
        assert(span_views(lines@[0].spans@) =~= Seq::<SpanView>::empty());
    }
    assert(es.skip(0) =~= es);
    let mut i: usize = 0;
    while i < events.len()
        invariant
            i <= events@.len(),
            es == event_views(events@),
            md_fold(line_views(lines@), st, es.skip(i as int)) == md_fold(
                seq![Seq::<SpanView>::empty()],
                start,
                es,
            ),
        decreases events@.len() - i,
    {
        proof {
            lemma_fold_step(line_views(lines@), st, es, i as int);
        }
        match &events[i] {
            MdEvent::Text(t) => push_text(&mut lines, t.clone(), st),
            MdEvent::Code(t) => push_text(&mut lines, t.clone(), StyleState { code: true, ..st }),
            MdEvent::SoftBreak => push_text(&mut lines, owned(" "), st),
            MdEvent::HardBreak => newline(&mut lines),
            MdEvent::Rule => {
                newline(&mut lines);
                push_text(&mut lines, owned("---"), st);
                newline(&mut lines);
            },
            MdEvent::Start(tag) => match tag {
                MdTag::Strong => st.strong = true,
                MdTag::Emphasis => st.emphasis = true,
                MdTag::Heading => {
                    st.heading = true;
                    newline(&mut lines);
                },
                MdTag::CodeBlock => {
                    st.code = true;
                    newline(&mut lines);
                },
                MdTag::Paragraph => newline(&mut lines),
                MdTag::Item => push_text(&mut lines, owned("• "), st),
                MdTag::Other => {},
            },
            MdEvent::End(tag) => match tag {
                MdTag::Strong => st.strong = false,
                MdTag::Emphasis => st.emphasis = false,
                MdTag::Heading => {
                    st.heading = false;
                    newline(&mut lines);
                },
                MdTag::CodeBlock => {
                    st.code = false;
                    newline(&mut lines);
                },
                MdTag::Paragraph => newline(&mut lines),
                MdTag::Item => newline(&mut lines),
                MdTag::Other => {},
            },
            MdEvent::Other => {},
        }
        i = i + 1;
    }
    assert(es.skip(events@.len() as int) =~= Seq::<MdEventView>::empty());
    let ghost full = line_views(lines@);
    while lines.len() > 1 && lines[lines.len() - 1].spans.len() == 0
        invariant
            trimmed_lines(line_views(lines@)) == trimmed_lines(full),
        decreases lines@.len(),
    {
        let ghost before = line_views(lines@);
        let _ = lines.pop();
        assert(line_views(lines@) =~= before.drop_last());
    }
    lines
}

/// Lays out a markdown text as styled lines.
pub fn render_markdown(md: &str) -> (r: Vec<MdLine>)
    ensures
        line_views(r@) == layout(markdown_parse(md@)),
{
    let events = markdown_events(md);
    render_events(events.as_slice())
}


proof fn lemma_fold_keeps_a_line(lines: Seq<Seq<SpanView>>, st: StyleState, es: Seq<MdEventView>)
    requires
        lines.len() >= 1,
    ensures
        md_fold(lines, st, es).0.len() >= 1,
    decreases es.len(),
{
    if es.len() > 0 {
        let next = md_step(lines, st, es[0]);
        lemma_fold_keeps_a_line(next.0, next.1, es.drop_first());
    }
}

proof fn lemma_trimmed_shape(lines: Seq<Seq<SpanView>>)
    requires
        lines.len() >= 1,
    ensures
        trimmed_lines(lines).len() >= 1,
        trimmed_lines(lines).len() == 1 || trimmed_lines(lines).last().len() > 0,
    decreases lines.len(),
{
    if lines.len() > 1 && lines.last().len() == 0 {
        lemma_trimmed_shape(lines.drop_last());
    }
}

/// A laid-out note has at least one line, and it never ends in an empty line
/// unless that line is all there is.
pub proof fn law_layout_shape(es: Seq<MdEventView>)
    ensures
        layout(es).len() >= 1,
        layout(es).len() == 1 || layout(es).last().len() > 0,
{
    let start = StyleState { strong: false, emphasis: false, code: false, heading: false };
    lemma_fold_keeps_a_line(seq![Seq::<SpanView>::empty()], start, es);
    lemma_trimmed_shape(md_fold(seq![Seq::<SpanView>::empty()], start, es).0);
}


/// The preview of a note in the notes editor: `None` when the note is blank
/// (the editor shows a placeholder), its layout otherwise.
pub fn rendered_description(description: &str) -> (r: Option<Vec<MdLine>>)
    ensures
        r is None <==> trim(description@).len() == 0,
        r matches Some(lines) ==> line_views(lines@) == layout(markdown_parse(description@)),
{
    if is_blank(to_chars(description).as_slice()) {
        None
    } else {
        Some(render_markdown(description))
    }
}


/// Text that comes right after the start of a code block is laid out in
/// code style: as a reversed span on a line of its own, at the end of the
/// lines, whatever came before.
pub proof fn law_code_block_text_is_code(
    lines: Seq<Seq<SpanView>>,
    st: StyleState,
    t: Seq<char>,
)
    requires
        t.len() > 0,
    ensures
        ({
            let opened = md_step(lines, st, MdEventView::Start(MdTag::CodeBlock));
            let after = md_step(opened.0, opened.1, MdEventView::Text(t));
            &&& after.0.len() >= 1
            &&& after.0.last().len() >= 1
            &&& after.0.last().last().text == t
            &&& after.0.last().last().reversed
            &&& after.1.code
        }),
{
}

/// A fenced code block is laid out as one line holding its text, in code
/// style.
pub proof fn law_code_block_layout(t: Seq<char>)
    requires
        t.len() > 0,
    ensures
        layout(
            seq![
                MdEventView::Start(MdTag::CodeBlock),
                MdEventView::Text(t),
                MdEventView::End(MdTag::CodeBlock),
            ],
        ) == seq![seq![SpanView { text: t, bold: false, italic: false, reversed: true }]],
{
    let start = StyleState { strong: false, emphasis: false, code: false, heading: false };
    let es = seq![
        MdEventView::Start(MdTag::CodeBlock),
        MdEventView::Text(t),
        MdEventView::End(MdTag::CodeBlock),
    ];
    let l0 = seq![Seq::<SpanView>::empty()];
    let s1 = md_step(l0, start, es[0]);
    let s2 = md_step(s1.0, s1.1, es[1]);
    let s3 = md_step(s2.0, s2.1, es[2]);
    assert(es.drop_first().drop_first().drop_first() =~= Seq::<MdEventView>::empty());
    assert(md_fold(s3.0, s3.1, es.drop_first().drop_first().drop_first()) == s3);
    assert(md_fold(s2.0, s2.1, es.drop_first().drop_first()) == s3);
    assert(md_fold(s1.0, s1.1, es.drop_first()) == s3);
    assert(md_fold(l0, start, es) == s3);
    let line = seq![SpanView { text: t, bold: false, italic: false, reversed: true }];
    assert(s2.0 =~= seq![line]);
    assert(s3.0 =~= seq![line, Seq::<SpanView>::empty()]);
    assert(s3.0.drop_last() =~= seq![line]);
    assert(trimmed_lines(s3.0.drop_last()) == seq![line]);
}


/// Text right after the start of an element takes that element's look:
/// bold in strong text and headings, italic in emphasis, reversed in code;
/// after the element ends, the look it gave is gone (unless another open
/// element gives it).
pub proof fn law_element_looks(
    lines: Seq<Seq<SpanView>>,
    st: StyleState,
    t: Seq<char>,
    tag: MdTag,
)
    requires
        t.len() > 0,
    ensures
        ({
            let opened = md_step(lines, st, MdEventView::Start(tag));
            let span = md_step(opened.0, opened.1, MdEventView::Text(t)).0.last().last();
            &&& span.text == t
            &&& tag == MdTag::Strong ==> span.bold
            &&& tag == MdTag::Heading ==> span.bold
            &&& tag == MdTag::Emphasis ==> span.italic
            &&& tag == MdTag::CodeBlock ==> span.reversed
        }),
        ({
            let closed = md_step(lines, st, MdEventView::End(tag));
            let span = md_step(closed.0, closed.1, MdEventView::Text(t)).0.last().last();
            &&& tag == MdTag::Strong && !st.heading ==> !span.bold
            &&& tag == MdTag::Heading && !st.strong ==> !span.bold
            &&& tag == MdTag::Emphasis ==> !span.italic
            &&& tag == MdTag::CodeBlock ==> !span.reversed
        }),
{
}

} // verus!
