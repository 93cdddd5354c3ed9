//! The trusted boundary around the external XML library: the pull-style
//! tokenizer and the pretty-printing serializer of the `xml` crate.
//!
//! Tokenization and serialization correctness (well-formedness checking,
//! entity decoding and encoding, character escaping, line layout) belong to
//! that library and are not restated here; the contracts below only name its
//! results and say how each call moves the stream along.

use crate::tokens::{open_stack, well_nested, Token, TokenV};
use vstd::prelude::*;
use xml::reader::XmlEvent;

verus! {

/// The pull-style tokenizer over the input buffer, held opaquely: Verus sees
/// its state only through [`reader_state`].
#[verifier::external_body]
pub struct Tokenizer<'a> {
    inner: xml::reader::EventReader<&'a [u8]>,
}

/// Declares the `xml` crate's reader event type; its payload is reached only
/// through [`lower_event`].
#[verifier::external_type_specification]
#[verifier::external_body]
pub struct ExXmlEvent(xml::reader::XmlEvent);

/// Declares the `xml` crate's serializer type; Verus sees its state only
/// through [`writer_state`].
#[verifier::external_type_specification]
#[verifier::external_body]
#[verifier::reject_recursive_types(W)]
pub struct ExEventWriter<W>(xml::writer::EventWriter<W>);

/// What the configured tokenizer yields for a byte string: the serializable
/// event stream in source order, and the diagnostic of the parse error that
/// cuts the stream short, if the document is malformed.
pub uninterp spec fn xml_scan(src: Seq<u8>) -> (Seq<TokenV>, Option<Seq<char>>);

/// The state of a tokenizer: the events it will still yield, and the error
/// that follows them, if any.
pub uninterp spec fn reader_state(r: Tokenizer) -> (Seq<TokenV>, Option<Seq<char>>);

/// The view of one tokenizer event.
pub uninterp spec fn event_view(e: xml::reader::XmlEvent) -> TokenV;

/// The state of a serializer: the tokens fed to it so far, and the indent
/// unit it was configured with.
pub uninterp spec fn writer_state(w: xml::writer::EventWriter<Vec<u8>>) -> (Seq<TokenV>, Seq<char>);

/// The bytes the serializer produces for a token stream and an indent unit:
/// UTF-8 text, pretty-printed with one indent unit per nesting level.
pub uninterp spec fn emitted(tokens: Seq<TokenV>, indent: Seq<char>) -> Seq<u8>;

/// One step of the tokenizer: an event, the parse error that ends a
/// malformed stream, or the end of the document.
pub enum ReadStep {
    /// The next event of the stream.
    Event(xml::reader::XmlEvent),
    /// The tokenizer's diagnostic for malformed input.
    Fail(String),
    /// The document ended; repeated pulls keep returning this.
    End,
}

/// Relies on `ParserConfig::create_reader`: a tokenizer over the byte buffer,
/// configured to trim insignificant whitespace and to keep comments. Its
/// event stream is well-nested: the parser keeps its own stack of open
/// elements and turns an end tag into an event only after checking that it
/// matches the innermost open element — a mismatch becomes a parse error
/// instead.
#[verifier::external_body]
pub fn make_reader<'a>(src: &'a [u8]) -> (r: Tokenizer<'a>)
    ensures
        reader_state(r) == xml_scan(src@),
        well_nested(reader_state(r).0),
{
    Tokenizer {
        inner: xml::reader::ParserConfig::new().trim_whitespace(true).ignore_comments(
            false,
        ).create_reader(src),
    }
}

/// Relies on `EventReader::next`: it yields the document's events in order;
/// after the last one it reports the document end (and keeps doing so), or
/// the parse error on which the stream broke off.
#[verifier::external_body]
pub fn reader_step(r: &mut Tokenizer) -> (s: ReadStep)
    ensures
        reader_state(*old(r)).0.len() > 0 ==> (s matches ReadStep::Event(e) && event_view(e)
            == reader_state(*old(r)).0[0] && reader_state(*final(r)).0 == reader_state(
            *old(r),
        ).0.drop_first() && reader_state(*final(r)).1 == reader_state(*old(r)).1),
        reader_state(*old(r)).0.len() == 0 ==> (reader_state(*old(r)).1 matches Some(msg) ==> (
        s matches ReadStep::Fail(m) && m@ == msg)),
        reader_state(*old(r)).0.len() == 0 && reader_state(*old(r)).1 is None ==> (s
            matches ReadStep::End && reader_state(*final(r)) == reader_state(*old(r))),
{
    match r.inner.next() {
        Err(e) => ReadStep::Fail(e.to_string()),
        Ok(XmlEvent::EndDocument) => ReadStep::End,
        Ok(e) => ReadStep::Event(e),
    }
}

/// Relies on the `xml` crate's event accessors: turns one tokenizer event
/// into its plain-value token, qualified names in their `prefix:local`
/// representation. The document-end marker never reaches this point; it is
/// mapped like the document-start marker.
#[verifier::external_body]
pub fn lower_event(e: xml::reader::XmlEvent) -> (t: Token)
    ensures
        t@ == event_view(e),
{
    match e {
        XmlEvent::StartDocument { .. } | XmlEvent::EndDocument => Token::StartDocument,
        XmlEvent::ProcessingInstruction { name, data } => Token::ProcessingInstruction { target: name, data },
        XmlEvent::StartElement { name, attributes, namespace } => Token::StartElement {
            name: name.borrow().to_repr(),
            attributes: attributes.iter().map(|a| (a.name.borrow().to_repr(), a.value.clone())).collect(),
            namespace: namespace.0.into_iter().collect(),
        },
        XmlEvent::EndElement { name } => Token::EndElement { name: name.borrow().to_repr() },
        XmlEvent::CData(s) => Token::CData(s),
        XmlEvent::Comment(s) => Token::Comment(s),
        XmlEvent::Characters(s) | XmlEvent::Whitespace(s) => Token::Characters(s),
    }
}

/// Relies on `EmitterConfig::create_writer`: a serializer over a fresh byte
/// buffer that pretty-prints with the given indent string, writes no
/// document declaration, does not pad comments or self-closing tags, and
/// keeps empty elements in self-closing form.
#[verifier::external_body]
pub fn make_writer(indent: &str) -> (w: xml::writer::EventWriter<Vec<u8>>)
    ensures
        writer_state(w) == (Seq::<TokenV>::empty(), indent@),
{
    xml::writer::EmitterConfig::new()
        .perform_indent(true)
        .autopad_comments(false)
        .pad_self_closing(false)
        .write_document_declaration(false)
        .indent_string(indent.to_owned())
        .create_writer(Vec::new())
}

/// Relies on `EventWriter::write` with a start-element event: the sink is an
/// in-memory buffer and the document declaration is disabled, so the write
/// cannot fail; the serializer has then consumed exactly that token.
#[verifier::external_body]
pub fn write_start_element(
    w: &mut xml::writer::EventWriter<Vec<u8>>,
    name: &str,
    attributes: &Vec<(String, String)>,
    namespace: &Vec<(String, String)>,
) -> (r: Result<(), String>)
    ensures
        r is Ok,
        r is Ok ==> writer_state(*final(w)) == (writer_state(*old(w)).0.push(
            (TokenV::StartElement {
                name: name@,
                attributes: attributes.deep_view(),
                namespace: namespace.deep_view(),
            }),
        ), writer_state(*old(w)).1),
{
    let attrs: Vec<xml::attribute::Attribute> = attributes.iter().map(
        |(n, v)| xml::attribute::Attribute::new(xml::name::Name::from(n.as_str()), v.as_str()),
    ).collect();
    let ns = xml::namespace::Namespace(namespace.iter().cloned().collect());
    let event = xml::writer::XmlEvent::StartElement {
        name: xml::name::Name::from(name),
        attributes: std::borrow::Cow::Owned(attrs),
        namespace: std::borrow::Cow::Owned(ns),
    };
    w.write(event).map_err(|e| e.to_string())
}

/// Relies on `EventWriter::write` with an end-element event: the emitter pops
/// its stack of open element names and compares; the write succeeds whenever
/// an element is open and the innermost one bears the given name (the sink,
/// an in-memory buffer, cannot fail). On success the serializer has consumed
/// exactly that token.
#[verifier::external_body]
pub fn write_end_element(w: &mut xml::writer::EventWriter<Vec<u8>>, name: &str) -> (r: Result<
    (),
    String,
>)
    ensures
        open_stack(writer_state(*old(w)).0).len() > 0 && open_stack(
            writer_state(*old(w)).0,
        ).last() == name@ ==> r is Ok,
        r is Ok ==> writer_state(*final(w)) == (writer_state(*old(w)).0.push(
            (TokenV::EndElement { name: name@ }),
        ), writer_state(*old(w)).1),
{
    let event = xml::writer::XmlEvent::EndElement {
        name: Some(xml::name::Name::from(name)),
    };
    w.write(event).map_err(|e| e.to_string())
}

/// Relies on `EventWriter::write` with a characters event: the sink is an
/// in-memory buffer, so the write cannot fail; the serializer has then
/// consumed exactly that token.
#[verifier::external_body]
pub fn write_characters(w: &mut xml::writer::EventWriter<Vec<u8>>, s: &str) -> (r: Result<
    (),
    String,
>)
    ensures
        r is Ok,
        r is Ok ==> writer_state(*final(w)) == (writer_state(*old(w)).0.push(
            TokenV::Characters(s@),
        ), writer_state(*old(w)).1),
{
    w.write(xml::writer::XmlEvent::Characters(s)).map_err(|e| e.to_string())
}

/// Relies on `EventWriter::write` with a CDATA event: the sink is an
/// in-memory buffer, so the write cannot fail; the serializer has then
/// consumed exactly that token.
#[verifier::external_body]
pub fn write_cdata(w: &mut xml::writer::EventWriter<Vec<u8>>, s: &str) -> (r: Result<(), String>)
    ensures
        r is Ok,
        r is Ok ==> writer_state(*final(w)) == (writer_state(*old(w)).0.push(TokenV::CData(s@)),
        writer_state(*old(w)).1),
{
    w.write(xml::writer::XmlEvent::CData(s)).map_err(|e| e.to_string())
}

/// Relies on `EventWriter::write` with a comment event: the sink is an
/// in-memory buffer, so the write cannot fail; the serializer has then
/// consumed exactly that token.
#[verifier::external_body]
pub fn write_comment(w: &mut xml::writer::EventWriter<Vec<u8>>, s: &str) -> (r: Result<(), String>)
    ensures
        r is Ok,
        r is Ok ==> writer_state(*final(w)) == (writer_state(*old(w)).0.push(TokenV::Comment(s@)),
        writer_state(*old(w)).1),
{
    w.write(xml::writer::XmlEvent::Comment(s)).map_err(|e| e.to_string())
}

/// Relies on `EventWriter::write` with a processing-instruction event: the
/// sink is an in-memory buffer, so the write cannot fail; the serializer has
/// then consumed exactly that token.
#[verifier::external_body]
pub fn write_processing_instruction(
    w: &mut xml::writer::EventWriter<Vec<u8>>,
    target: &str,
    data: &Option<String>,
) -> (r: Result<(), String>)
    ensures
        r is Ok,
        r is Ok ==> writer_state(*final(w)) == (writer_state(*old(w)).0.push(
            (TokenV::ProcessingInstruction { target: target@, data: data.deep_view() }),
        ), writer_state(*old(w)).1),
{
    let event = xml::writer::XmlEvent::ProcessingInstruction {
        name: target,
        data: data.as_deref(),
    };
    w.write(event).map_err(|e| e.to_string())
}

/// Relies on `EventWriter::into_inner`: hands back the byte buffer, which
/// holds the serialization of exactly the tokens written so far.
#[verifier::external_body]
pub fn finish_writer(w: xml::writer::EventWriter<Vec<u8>>) -> (out: Vec<u8>)
    ensures
        out@ == emitted(writer_state(w).0, writer_state(w).1),
{
    w.into_inner()
}

} // verus!
