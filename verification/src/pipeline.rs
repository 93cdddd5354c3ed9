//! The reformat pipeline: drives the tokenizer over the input bytes and
//! forwards every serializable token, in source order and without buffering,
//! to the pretty-printing serializer.

use crate::options::{spec_indent_str, Indent};
use crate::stream::{
    emitted, finish_writer, lower_event, make_reader, make_writer, reader_state, reader_step,
    write_cdata, write_characters, write_comment, write_end_element, write_processing_instruction,
    write_start_element, writer_state, xml_scan, ReadStep,
};
use crate::tokens::{
    forwarded, forwards, lemma_forwarded_empty, lemma_forwarded_idempotent, lemma_forwarded_push,
    lemma_open_stack_forwarded, open_stack, well_nested, Token, TokenV,
};
use vstd::prelude::*;

verus! {

/// Why a reformat run failed: the input is malformed XML. This is the one
/// failure: the serializer writes into an in-memory buffer and the pipeline
/// feeds it only the tokenizer's well-nested streams, so it is proved never
/// to refuse an event.
#[derive(Debug)]
pub enum FormatError {
    /// The tokenizer's diagnostic for the malformed input.
    Parse(String),
}

impl FormatError {
    /// The diagnostic carried by the error.
    pub fn message(&self) -> (m: &String)
        ensures
            *self matches FormatError::Parse(d) ==> m@ == d@,
    {
        match self {
            FormatError::Parse(m) => m,
        }
    }
}

/// The reformatted document for a given input and indent unit: the
/// serialization of the input's forwarded token stream, or nothing when the
/// input is malformed.
pub open spec fn spec_format(src: Seq<u8>, indent: Seq<char>) -> Option<Seq<u8>> {
    if xml_scan(src).1 is None {
        Some(emitted(forwarded(xml_scan(src).0), indent))
    } else {
        None
    }
}

/// Feeds one token to the serializer. This cannot fail: every write goes to
/// an in-memory buffer, and an end tag is only ever fed when it closes the
/// innermost open element, which is exactly when the serializer accepts it.
fn emit_token(w: &mut xml::writer::EventWriter<Vec<u8>>, t: &Token)
    requires
        forwards(t@),
        t@ matches TokenV::EndElement { name } ==> (open_stack(writer_state(*old(w)).0).len() > 0
            && open_stack(writer_state(*old(w)).0).last() == name),
    ensures
        writer_state(*final(w)) == (writer_state(*old(w)).0.push(t@), writer_state(*old(w)).1),
{
    match t {
        Token::StartDocument => {
            proof {
                assert(false);
            }
        },
        Token::ProcessingInstruction { target, data } => {
            let r = write_processing_instruction(w, target.as_str(), data);
            proof {
                assert(r is Ok);
            }
        },
        Token::StartElement { name, attributes, namespace } => {
            let r = write_start_element(w, name.as_str(), attributes, namespace);
            proof {
                assert(r is Ok);
            }
        },
        Token::EndElement { name } => {
            let r = write_end_element(w, name.as_str());
            proof {
                assert(r is Ok);
            }
        },
        Token::CData(s) => {
            let r = write_cdata(w, s.as_str());
            proof {
                assert(r is Ok);
            }
        },
        Token::Comment(s) => {
            let r = write_comment(w, s.as_str());
            proof {
                assert(r is Ok);
            }
        },
        Token::Characters(s) => {
            let r = write_characters(w, s.as_str());
            proof {
                assert(r is Ok);
            }
        },
    }
}

/// Reformats a whole XML document: tokenizes `src` with insignificant
/// whitespace trimmed and comments kept, forwards every serializable token in
/// the order produced — dropping only the document markers — and serializes
/// them with one `indent` unit per nesting level.
///
/// It succeeds if and only if the input is well-formed, and the output is
/// then exactly the serialization of the input's token stream; otherwise the
/// tokenizer's diagnostic is returned as a parse error and no output is
/// produced.
pub fn format_xml(src: &[u8], indent: &Indent) -> (res: Result<Vec<u8>, FormatError>)
    ensures
        res is Ok <==> xml_scan(src@).1 is None,
        res matches Ok(out) ==> spec_format(src@, spec_indent_str(*indent)) == Some(out@),
        res matches Err(FormatError::Parse(m)) ==> xml_scan(src@).1 == Some(m@),
{
    let mut reader = make_reader(src);
    let mut writer = make_writer(indent.get_str());
    let ghost seen: Seq<TokenV> = Seq::empty();
    let mut seen = Ghost(seen);
    proof {
        lemma_forwarded_empty();
        assert(seen@ + reader_state(reader).0 =~= xml_scan(src@).0);
    }
    loop
        invariant
            well_nested(xml_scan(src@).0),
            xml_scan(src@).0 == seen@ + reader_state(reader).0,
            reader_state(reader).1 == xml_scan(src@).1,
            writer_state(writer).0 == forwarded(seen@),
            writer_state(writer).1 == spec_indent_str(*indent),
        decreases reader_state(reader).0.len(),
    {
        match reader_step(&mut reader) {
            ReadStep::End => {
                proof {
                    assert(seen@ =~= xml_scan(src@).0);
                }
                let out = finish_writer(writer);
                return Ok(out);
            },
            ReadStep::Fail(m) => {
                return Err(FormatError::Parse(m));
            },
            ReadStep::Event(e) => {
                let ghost pending = reader_state(reader).0;
                let t = lower_event(e);
                proof {
                    lemma_forwarded_push(seen@, t@);
                    lemma_open_stack_forwarded(seen@);
                    assert(seen@.push(t@) + pending =~= xml_scan(src@).0);
                    assert(xml_scan(src@).0.take(seen@.len() as int) =~= seen@);
                    assert(xml_scan(src@).0[seen@.len() as int] == t@);
                }
                if t.should_forward() {
                    emit_token(&mut writer, &t);
                }
                proof {
                    seen@ = seen@.push(t@);
                }
            },
        }
    }
}

/// Which hypothesis idempotence rests on: re-tokenizing the serializer's
/// output yields back exactly the tokens that produced it, with no error.
/// This is a property of the external tokenizer/serializer pair; the library
/// cannot establish it, only build on it.
pub open spec fn output_rescans_faithfully(src: Seq<u8>, indent: Seq<char>) -> bool {
    xml_scan(emitted(forwarded(xml_scan(src).0), indent)) == (
        forwarded(xml_scan(src).0),
        Option::<Seq<char>>::None,
    )
}

/// Whether a byte string is well-formed for the tokenizer.
pub open spec fn scan_clean(src: Seq<u8>) -> bool {
    xml_scan(src).1 is None
}

/// Structure preservation: provided the external collaborator re-tokenizes
/// its own output faithfully ([`output_rescans_faithfully`]), a reformatted
/// document's token stream is exactly the input's serializable token stream —
/// the same element names, attributes, text runs, comments and CDATA
/// sections, in the same relative order; every serializable token of the
/// input is still there, and only the document markers are gone.
pub proof fn lemma_structure_preserved(src: Seq<u8>, indent: Seq<char>)
    requires
        scan_clean(src),
        output_rescans_faithfully(src, indent),
    ensures
        spec_format(src, indent) matches Some(out) && xml_scan(out).0 == forwarded(
            xml_scan(src).0,
        ),
        forall|i: int|
            0 <= i < xml_scan(src).0.len() && forwards(#[trigger] xml_scan(src).0[i])
                ==> forwarded(xml_scan(src).0).contains(xml_scan(src).0[i]),
        forall|i: int|
            0 <= i < forwarded(xml_scan(src).0).len() ==> forwards(
                #[trigger] forwarded(xml_scan(src).0)[i],
            ),
{
    broadcast use vstd::seq_lib::group_filter_ensures;

}

/// Idempotence: formatting an already-formatted document with the same indent
/// unit yields it back byte for byte, provided the external collaborator
/// re-tokenizes its own output faithfully ([`output_rescans_faithfully`]);
/// the library's own contribution — the forwarding filter — changes nothing
/// on a second pass. Together with `format_xml`'s contract — success exactly
/// on clean scans, the output fixed by [`spec_format`] — this carries over to
/// the calls themselves: a second run on the first run's output returns it
/// unchanged.
pub proof fn lemma_format_fixed_point(src: Seq<u8>, indent: Seq<char>)
    requires
        scan_clean(src),
        output_rescans_faithfully(src, indent),
    ensures
        spec_format(src, indent) matches Some(out) && spec_format(out, indent) == Some(out),
{
    lemma_forwarded_idempotent(xml_scan(src).0);
}

} // verus!
