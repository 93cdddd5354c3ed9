//! The token data model: one lexical unit of an XML document, as exchanged
//! between the tokenizer and the serializer, and its mathematical view.

use vstd::prelude::*;

verus! {

/// One XML lexical unit, carrying plain values only. Qualified names are the
/// usual `prefix:local` strings; attribute and namespace lists keep their
/// source order (a namespace entry maps a prefix to a URI).
pub enum Token {
    /// The document-start marker; it carries no serializable payload here.
    StartDocument,
    /// A processing instruction with its target and opaque content.
    ProcessingInstruction { target: String, data: Option<String> },
    /// An element start tag.
    StartElement {
        name: String,
        attributes: Vec<(String, String)>,
        namespace: Vec<(String, String)>,
    },
    /// An element end tag.
    EndElement { name: String },
    /// A CDATA section's unparsed content.
    CData(String),
    /// A comment's verbatim content.
    Comment(String),
    /// Character data outside of tags, entities decoded.
    Characters(String),
}

/// The mathematical view of a [`Token`]: the same shape over sequences.
pub enum TokenV {
    StartDocument,
    ProcessingInstruction { target: Seq<char>, data: Option<Seq<char>> },
    StartElement {
        name: Seq<char>,
        attributes: Seq<(Seq<char>, Seq<char>)>,
        namespace: Seq<(Seq<char>, Seq<char>)>,
    },
    EndElement { name: Seq<char> },
    CData(Seq<char>),
    Comment(Seq<char>),
    Characters(Seq<char>),
}

impl View for Token {
    type V = TokenV;

    open spec fn view(&self) -> TokenV {
        match self {
            Token::StartDocument => TokenV::StartDocument,
            Token::ProcessingInstruction { target, data } => (TokenV::ProcessingInstruction {
                target: target@,
                data: data.deep_view(),
            }),
            Token::StartElement { name, attributes, namespace } => (TokenV::StartElement {
                name: name@,
                attributes: attributes.deep_view(),
                namespace: namespace.deep_view(),
            }),
            Token::EndElement { name } => (TokenV::EndElement { name: name@ }),
            Token::CData(s) => TokenV::CData(s@),
            Token::Comment(s) => TokenV::Comment(s@),
            Token::Characters(s) => TokenV::Characters(s@),
        }
    }
}

/// Whether a token maps to a serializable output event. The document-start
/// marker is the one tokenizer-level event that is intentionally dropped
/// rather than forwarded to the serializer.
pub open spec fn forwards(t: TokenV) -> bool {
    !(t is StartDocument)
}

/// The subsequence of a token stream that reaches the serializer: the same
/// tokens in the same relative order, with only non-serializable ones left
/// out.
pub open spec fn forwarded(ts: Seq<TokenV>) -> Seq<TokenV> {
    ts.filter(|t: TokenV| forwards(t))
}

impl Token {
    /// Decides whether this token is forwarded to the serializer.
    pub fn should_forward(&self) -> (b: bool)
        ensures
            b == forwards(self@),
    {
        match self {
            Token::StartDocument => false,
            _ => true,
        }
    }
}

/// The names of the elements opened and not yet closed after a token stream,
/// innermost last.
pub open spec fn open_stack(ts: Seq<TokenV>) -> Seq<Seq<char>>
    decreases ts.len(),
{
    if ts.len() == 0 {
        Seq::empty()
    } else {
        let rest = open_stack(ts.drop_last());
        match ts.last() {
            TokenV::StartElement { name, .. } => rest.push(name),
            TokenV::EndElement { .. } => if rest.len() > 0 {
                rest.drop_last()
            } else {
                rest
            },
            _ => rest,
        }
    }
}

/// Every end tag in a token stream closes the innermost element that is
/// still open at that point.
pub open spec fn well_nested(ts: Seq<TokenV>) -> bool {
    forall|i: int|
        0 <= i < ts.len() ==> ((#[trigger] ts[i]) matches TokenV::EndElement { name } ==> (
        open_stack(ts.take(i)).len() > 0 && open_stack(ts.take(i)).last() == name))
}

/// Forwarding one more token extends the forwarded stream by exactly that
/// token when it is serializable, and leaves the stream unchanged otherwise.
pub proof fn lemma_forwarded_push(ts: Seq<TokenV>, t: TokenV)
    ensures
        forwards(t) ==> forwarded(ts.push(t)) == forwarded(ts).push(t),
        !forwards(t) ==> forwarded(ts.push(t)) == forwarded(ts),
{
    reveal(Seq::filter);
    assert(ts.push(t).drop_last() =~= ts);
    assert(ts.push(t).last() == t);
}

/// The empty stream forwards to the empty stream.
pub proof fn lemma_forwarded_empty()
    ensures
        forwarded(Seq::<TokenV>::empty()) == Seq::<TokenV>::empty(),
{
    reveal(Seq::filter);
}

/// Structure preservation: a stream without document markers is forwarded
/// whole — every element, attribute list, text run, comment and CDATA
/// section reaches the serializer unchanged and in order.
pub proof fn lemma_forwarded_identity(ts: Seq<TokenV>)
    requires
        forall|i: int| 0 <= i < ts.len() ==> forwards(#[trigger] ts[i]),
    ensures
        forwarded(ts) == ts,
    decreases ts.len(),
{
    reveal(Seq::filter);
    if ts.len() == 0 {
        assert(ts =~= Seq::<TokenV>::empty());
    } else {
        lemma_forwarded_identity(ts.drop_last());
        assert(forwarded(ts) =~= ts);
    }
}

/// The forwarding filter does not change which elements are open: the
/// document markers it removes carry no element structure.
pub proof fn lemma_open_stack_forwarded(ts: Seq<TokenV>)
    ensures
        open_stack(forwarded(ts)) == open_stack(ts),
    decreases ts.len(),
{
    if ts.len() == 0 {
        assert(ts =~= Seq::<TokenV>::empty());
        lemma_forwarded_empty();
    } else {
        let init = ts.drop_last();
        let t = ts.last();
        lemma_open_stack_forwarded(init);
        lemma_forwarded_push(init, t);
        assert(init.push(t) =~= ts);
        if forwards(t) {
            assert(forwarded(init).push(t).drop_last() =~= forwarded(init));
            assert(forwarded(init).push(t).last() == t);
        }
    }
}

/// Forwarding is idempotent: what has once been filtered for the serializer
/// passes a second filtering unchanged.
pub proof fn lemma_forwarded_idempotent(ts: Seq<TokenV>)
    ensures
        forwarded(forwarded(ts)) == forwarded(ts),
{
    broadcast use vstd::seq_lib::group_filter_ensures;

    lemma_forwarded_identity(forwarded(ts));
}

} // verus!
