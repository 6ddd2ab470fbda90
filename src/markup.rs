//! The body as a sequence of element events, and its output through xml-rs.
//!
//! A leaf element is an `Open` followed by a `Text` and is never closed; a
//! container element is an `Open`, its children, and a `Close`.

use vstd::prelude::*;
use vstd::utf8::encode_utf8;
use xml::writer::{EmitterConfig, EventWriter, XmlEvent};

verus! {

#[verifier::external_type_specification]
#[verifier::external_body]
#[verifier::reject_recursive_types(W)]
pub struct ExEventWriter<W>(EventWriter<W>);

#[verifier::external_type_specification]
#[verifier::external_body]
pub struct ExEmitterError(xml::writer::Error);

/// What the sink of an xml-rs writer holds.
pub uninterp spec fn sink_bytes(w: EventWriter<Vec<u8>>) -> Seq<u8>;

/// The writer was made by `new_writer`: no indentation, no declaration,
/// start tags closed at once, no element-name checks.
pub uninterp spec fn plain_writer(w: EventWriter<Vec<u8>>) -> bool;

/// xml-rs's escaping of one character of text content.
pub open spec fn escape_char(c: char) -> Seq<char> {
    if c == '<' {
        seq!['&', 'l', 't', ';']
    } else if c == '>' {
        seq!['&', 'g', 't', ';']
    } else if c == '&' {
        seq!['&', 'a', 'm', 'p', ';']
    } else {
        seq![c]
    }
}

/// xml-rs's escaping of text content: `<`, `>` and `&` become entities.
pub open spec fn escape_text(s: Seq<char>) -> Seq<char>
    decreases s.len(),
{
    if s.len() == 0 {
        seq![]
    } else {
        escape_text(s.drop_last()) + escape_char(s.last())
    }
}

pub open spec fn start_tag(name: Seq<char>) -> Seq<char> {
    seq!['<'] + name + seq!['>']
}

pub open spec fn end_tag(name: Seq<char>) -> Seq<char> {
    seq!['<', '/'] + name + seq!['>']
}

/// One element event, as a value of specification.
pub enum Piece {
    Open(Seq<char>),
    Text(Seq<char>),
    Close(Seq<char>),
}

/// The text that one event adds to the output.
pub open spec fn piece_text(p: Piece) -> Seq<char> {
    match p {
        Piece::Open(n) => start_tag(n),
        Piece::Text(t) => escape_text(t),
        Piece::Close(n) => end_tag(n),
    }
}

/// The text of a sequence of events.
pub open spec fn render(ps: Seq<Piece>) -> Seq<char>
    decreases ps.len(),
{
    if ps.len() == 0 {
        seq![]
    } else {
        render(ps.drop_last()) + piece_text(ps.last())
    }
}

/// One element event.
pub enum Event {
    /// The start tag of an element.
    Open(String),
    /// Text content.
    Text(String),
    /// The end tag of a container.
    Close(String),
}

impl View for Event {
    type V = Piece;

    open spec fn view(&self) -> Piece {
        match self {
            Event::Open(n) => Piece::Open(n@),
            Event::Text(t) => Piece::Text(t@),
            Event::Close(n) => Piece::Close(n@),
        }
    }
}

pub open spec fn pieces(es: Seq<Event>) -> Seq<Piece> {
    Seq::new(es.len(), |i: int| es[i]@)
}

/// A start tag followed by text: a leaf element, left unclosed.
pub open spec fn leaf(name: Seq<char>, value: Seq<char>) -> Seq<Piece> {
    seq![Piece::Open(name), Piece::Text(value)]
}

/// Appends one event.
pub fn push_event(out: &mut Vec<Event>, e: Event)
    ensures
        pieces(final(out)@) == pieces(old(out)@).push(e@),
{
    let ghost v = e@;
    out.push(e);
    assert(pieces(out@) =~= pieces(old(out)@).push(v));
}

/// Appends the start tag of `name`.
pub fn push_open(out: &mut Vec<Event>, name: &str)
    ensures
        pieces(final(out)@) == pieces(old(out)@).push(Piece::Open(name@)),
{
    push_event(out, Event::Open(name.to_owned()));
}

/// Appends the end tag of `name`.
pub fn push_close(out: &mut Vec<Event>, name: &str)
    ensures
        pieces(final(out)@) == pieces(old(out)@).push(Piece::Close(name@)),
{
    push_event(out, Event::Close(name.to_owned()));
}

/// Appends the leaf element `name` holding `value`.
pub fn push_leaf(out: &mut Vec<Event>, name: &str, value: &str)
    ensures
        pieces(final(out)@) == pieces(old(out)@) + leaf(name@, value@),
{
    push_event(out, Event::Open(name.to_owned()));
    push_event(out, Event::Text(value.to_owned()));
    assert(pieces(out@) =~= pieces(old(out)@) + leaf(name@, value@));
}

/// Relies on xml-rs's `EmitterConfig::create_writer`: a writer that appends to
/// `sink`, with the options that `plain_writer` names.
#[verifier::external_body]
fn new_writer(sink: Vec<u8>) -> (w: EventWriter<Vec<u8>>)
    ensures
        sink_bytes(w) == sink@,
        plain_writer(w),
{
    EmitterConfig::new()
        .perform_indent(false)
        .write_document_declaration(false)
        .normalize_empty_elements(false)
        .cdata_to_characters(false)
        .keep_element_names_stack(false)
        .autopad_comments(false)
        .create_writer(sink)
}

/// Relies on xml-rs's `EventWriter::write` of `XmlEvent::start_element(name)`:
/// it appends `<name>`. With the options of `new_writer` the emitter raises no
/// error of its own (no declaration, no name checks), and a `Vec<u8>` sink
/// takes every write.
#[verifier::external_body]
fn write_start(w: &mut EventWriter<Vec<u8>>, name: &str) -> (r: Result<(), xml::writer::Error>)
    requires
        plain_writer(*old(w)),
    ensures
        plain_writer(*final(w)),
        r is Ok,
        sink_bytes(*final(w)) == sink_bytes(*old(w)) + encode_utf8(start_tag(name@)),
{
    w.write(XmlEvent::start_element(name))
}

/// Relies on xml-rs's `EventWriter::write` of `XmlEvent::characters(text)`:
/// it appends the text with `<`, `>` and `&` escaped, and cannot fail on a
/// `Vec<u8>` sink.
#[verifier::external_body]
fn write_text(w: &mut EventWriter<Vec<u8>>, text: &str) -> (r: Result<(), xml::writer::Error>)
    requires
        plain_writer(*old(w)),
    ensures
        plain_writer(*final(w)),
        r is Ok,
        sink_bytes(*final(w)) == sink_bytes(*old(w)) + encode_utf8(escape_text(text@)),
{
    w.write(XmlEvent::characters(text))
}

/// Relies on xml-rs's `EventWriter::write` of `XmlEvent::end_element().name(name)`:
/// it appends `</name>`. The name is given and names are not checked, so
/// only the sink could fail, which a `Vec<u8>` does not.
#[verifier::external_body]
fn write_end(w: &mut EventWriter<Vec<u8>>, name: &str) -> (r: Result<(), xml::writer::Error>)
    requires
        plain_writer(*old(w)),
    ensures
        plain_writer(*final(w)),
        r is Ok,
        sink_bytes(*final(w)) == sink_bytes(*old(w)) + encode_utf8(end_tag(name@)),
{
    w.write(XmlEvent::end_element().name(name))
}

/// Relies on xml-rs's `EventWriter::into_inner`: it hands back the sink.
#[verifier::external_body]
fn writer_into_inner(w: EventWriter<Vec<u8>>) -> (r: Vec<u8>)
    ensures
        r@ == sink_bytes(w),
{
    w.into_inner()
}

/// The UTF-8 encoding of a concatenation is the concatenation of the encodings.
pub proof fn lemma_utf8_concat(a: Seq<char>, b: Seq<char>)
    ensures
        encode_utf8(a + b) == encode_utf8(a) + encode_utf8(b),
    decreases a.len(),
{
    if a.len() == 0 {
        assert(a + b =~= b);
        assert(encode_utf8(a) + encode_utf8(b) =~= encode_utf8(b));
    } else {
        assert((a + b).drop_first() =~= a.drop_first() + b);
        lemma_utf8_concat(a.drop_first(), b);
        assert(encode_utf8(a + b) =~= encode_utf8(a) + encode_utf8(b));
    }
}

/// Writes `events` through xml-rs after the bytes of `head`.
pub fn write_events(head: Vec<u8>, events: &Vec<Event>) -> (r: Result<Vec<u8>, xml::writer::Error>)
    ensures
        r matches Ok(b) && b@ == head@ + encode_utf8(render(pieces(events@))),
{
    let ghost h = head@;
    let mut w = new_writer(head);
    let mut i: usize = 0;
    while i < events.len()
        invariant
            i <= events.len(),
            plain_writer(w),
            sink_bytes(w) == h + encode_utf8(render(pieces(events@).take(i as int))),
        decreases events.len() - i,
    {
        let ghost before = sink_bytes(w);
        let ghost ps = pieces(events@);
        let written = match &events[i] {
            Event::Open(n) => write_start(&mut w, n.as_str()),
            Event::Text(t) => write_text(&mut w, t.as_str()),
            Event::Close(n) => write_end(&mut w, n.as_str()),
        };
        if let Err(e) = written {
            return Err(e);
        }
        proof {
            assert(ps.take(i + 1).drop_last() =~= ps.take(i as int));
            assert(ps.take(i + 1).last() == events@[i as int]@);
            lemma_utf8_concat(render(ps.take(i as int)), piece_text(events@[i as int]@));
        }
        i = i + 1;
    }
    proof {
        assert(pieces(events@).take(events@.len() as int) =~= pieces(events@));
    }
    Ok(writer_into_inner(w))
}

} // verus!
