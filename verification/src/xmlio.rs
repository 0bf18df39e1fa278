//! The trusted boundary to the `xml` crate: tokenizing bytes into
//! [`XmlTok`] values and emitting token streams as XML bytes. Everything
//! here either declares an outside type or wraps one outside call; the
//! token streams both directions are named functions of their inputs, and
//! all interpretation of tokens is verified elsewhere.

use vstd::prelude::*;
use xml::common::Position;
use crate::qname::{QName, format_name};
use crate::tokens::{NsBinding, TextPos, XmlAttr, XmlTok, XmlTokV};

verus! {

/// The pull-based XML reader of the `xml` crate over an in-memory byte
/// buffer. The reader's type cannot be declared to the verifier (its type
/// parameter is bounded by an outside trait), so it is held opaque in this
/// wrapper struct instead.
#[verifier::external_body]
pub struct RawReader {
    inner: xml::reader::EventReader<std::io::Cursor<Vec<u8>>>,
}

#[verifier::external_type_specification]
#[verifier::external_body]
/// One event of the `xml` crate's reader.
pub struct ExXmlEvent(xml::reader::XmlEvent);

#[verifier::external_type_specification]
#[verifier::external_body]
/// The error type of the `xml` crate's reader.
pub struct ExXmlError(xml::reader::Error);

#[verifier::external_type_specification]
#[verifier::external_body]
/// An owned qualified name of the `xml` crate.
pub struct ExOwnedName(xml::name::OwnedName);

#[verifier::external_type_specification]
#[verifier::external_body]
/// An owned attribute of the `xml` crate.
pub struct ExOwnedAttribute(xml::attribute::OwnedAttribute);

#[verifier::external_type_specification]
#[verifier::external_body]
/// A namespace mapping of the `xml` crate.
pub struct ExNamespace(xml::namespace::Namespace);

#[verifier::external_type_specification]
#[verifier::external_body]
#[verifier::reject_recursive_types(W)]
/// The event-based XML writer of the `xml` crate.
pub struct ExEventWriter<W>(xml::writer::EventWriter<W>);

/// The token stream the `xml` crate's reader yields for a byte buffer,
/// converted to [`XmlTokV`] values and cut at the first terminal token:
/// the end of the document, or the first error. Tokenization depends on
/// the bytes alone.
pub uninterp spec fn lex_of(bytes: Seq<u8>) -> Seq<XmlTokV>;

/// The bytes the `xml` crate's writer emits for a token stream, with the
/// default emitter configuration. The output depends on the tokens alone.
pub uninterp spec fn emit_of(toks: Seq<XmlTokV>) -> Seq<u8>;

/// A tokenizer over a byte buffer: the `xml` crate's reader, together with
/// the buffer and the number of tokens already pulled, kept as ghost
/// state.
pub struct Lexer {
    /// The reader.
    inner: RawReader,
    /// The bytes the reader was built over.
    bytes: Ghost<Seq<u8>>,
    /// How many tokens have been pulled.
    pos: Ghost<int>,
}

impl Lexer {
    /// The bytes the tokenizer reads.
    pub closed spec fn bytes(&self) -> Seq<u8> {
        self.bytes@
    }

    /// How many tokens have been pulled.
    pub closed spec fn pos(&self) -> int {
        self.pos@
    }
}

/// Build a tokenizer over a byte buffer.
///
/// Relies on `xml::reader::EventReader::new`. The facts about the shape of
/// the stream come from the reader's documentation: every pull returns an
/// event, the stream ends with `EndDocument` or an error, and once either
/// is returned it is returned again on every later pull; `lex_of` names
/// the stream cut at that first terminal token.
#[verifier::external_body]
pub fn lexer_new(bytes: Vec<u8>) -> (l: Lexer)
    ensures
        l.bytes() == bytes@,
        l.pos() == 0,
        lex_of(l.bytes()).len() >= 1,
        lex_of(l.bytes()).last().is_terminal(),
        forall|j: int| 0 <= j < lex_of(l.bytes()).len() - 1 ==> !(#[trigger] lex_of(
            l.bytes(),
        )[j]).is_terminal(),
{
    Lexer {
        inner: RawReader {
            inner: xml::reader::EventReader::new(std::io::Cursor::new(bytes)),
        },
        bytes: Ghost(arbitrary()),
        pos: Ghost(arbitrary()),
    }
}

/// Convert a resolved name of the reader into the crate's name type.
///
/// Relies on the public fields of `xml::name::OwnedName`.
#[verifier::external_body]
fn qname_of(n: &xml::name::OwnedName) -> QName {
    QName {
        local_name: n.local_name.clone(),
        namespace: n.namespace.clone(),
        prefix: n.prefix.clone(),
    }
}

/// Convert the attributes of a start event.
///
/// Relies on the public fields of `xml::attribute::OwnedAttribute`.
#[verifier::external_body]
fn attrs_of(v: &Vec<xml::attribute::OwnedAttribute>) -> Vec<XmlAttr> {
    v.iter().map(|a| XmlAttr { name: qname_of(&a.name), value: a.value.clone() }).collect()
}

/// Convert the namespace mapping in scope at an element.
///
/// Relies on `xml::namespace::Namespace` being a map from prefixes to
/// URIs; each prefix appears once.
#[verifier::external_body]
fn bindings_of(ns: &xml::namespace::Namespace) -> Vec<NsBinding> {
    ns.0.iter().map(|(p, u)| NsBinding { prefix: p.clone(), uri: u.clone() }).collect()
}

/// Convert the start of an element.
///
/// Relies on the fields of `xml::reader::XmlEvent::StartElement`.
#[verifier::external_body]
fn start_of(
    name: xml::name::OwnedName,
    attributes: Vec<xml::attribute::OwnedAttribute>,
    namespace: xml::namespace::Namespace,
    pos: TextPos,
) -> XmlTok {
    XmlTok::ElemStart {
        name: qname_of(&name),
        attrs: attrs_of(&attributes),
        bindings: bindings_of(&namespace),
        pos,
    }
}

/// Convert one reader event, tagging it with the reader's position.
///
/// Relies on the variants of `xml::reader::XmlEvent`: element structure,
/// character data, CDATA and whitespace are kept; declarations, comments
/// and processing instructions are ignored.
#[verifier::external_body]
fn token_of(e: Result<xml::reader::XmlEvent, xml::reader::Error>, pos: TextPos) -> XmlTok {
    match e {
        Ok(xml::reader::XmlEvent::StartElement { name, attributes, namespace }) =>
            start_of(name, attributes, namespace, pos),
        Ok(xml::reader::XmlEvent::EndElement { .. }) => XmlTok::ElemEnd { pos },
        Ok(xml::reader::XmlEvent::Characters(text)) => XmlTok::Text { text },
        Ok(xml::reader::XmlEvent::CData(text)) => XmlTok::Cdata { text },
        Ok(xml::reader::XmlEvent::Whitespace(_)) => XmlTok::Space,
        Ok(xml::reader::XmlEvent::EndDocument) => XmlTok::DocEnd { pos },
        Ok(_) => XmlTok::Skip,
        Err(err) => XmlTok::Fault { msg: format!("{}", err), pos },
    }
}

/// Pull the next token.
///
/// Relies on `xml::reader::EventReader::next` and on the reader's position
/// tracking: the pulls of one reader yield, in order, the tokens `lex_of`
/// names, and after the final terminal token every further pull repeats a
/// terminal token.
#[verifier::external_body]
pub fn lexer_next(l: &mut Lexer) -> (t: XmlTok)
    ensures
        final(l).bytes() == old(l).bytes(),
        final(l).pos() == old(l).pos() + 1,
        0 <= old(l).pos() < lex_of(old(l).bytes()).len() ==> t@ == lex_of(
            old(l).bytes(),
        )[old(l).pos()],
        old(l).pos() >= lex_of(old(l).bytes()).len() ==> t@.is_terminal(),
{
    let e = l.inner.inner.next();
    let p = l.inner.inner.position();
    token_of(e, TextPos { row: p.row, column: p.column })
}

/// An XML emitter: the `xml` crate's writer over a byte buffer, together
/// with the tokens written so far, kept as ghost state.
pub struct Emitter {
    /// The writer.
    inner: xml::writer::EventWriter<Vec<u8>>,
    /// The tokens written so far.
    toks: Ghost<Seq<XmlTokV>>,
}

impl Emitter {
    /// The tokens written so far.
    pub closed spec fn toks(&self) -> Seq<XmlTokV> {
        self.toks@
    }
}

/// Build an emitter with the default configuration and indentation off,
/// over a fresh byte buffer.
///
/// Relies on `xml::writer::EmitterConfig::create_writer`.
#[verifier::external_body]
pub fn emitter_new() -> (w: Emitter)
    ensures
        w.toks() == Seq::<XmlTokV>::empty(),
{
    Emitter {
        inner: xml::writer::EmitterConfig::new().perform_indent(false).create_writer(Vec::new()),
        toks: Ghost(arbitrary()),
    }
}

/// Write one start element.
///
/// Relies on `xml::writer::EventWriter::write` with a `StartElement`
/// event: the element and attribute names are written as given, attribute
/// values are escaped, and of the bindings exactly those not already in
/// scope are declared on the element. Writing the streams this crate's
/// serializer produces does not fail.
/// Convert the bindings into the writer's namespace mapping.
///
/// Relies on `xml::namespace::Namespace` being a map from prefixes to
/// URIs; the serializer hands each prefix at most once.
#[verifier::external_body]
fn ns_of_bindings(bindings: &Vec<NsBinding>) -> xml::namespace::Namespace {
    xml::namespace::Namespace(
        bindings.iter().map(|b| (b.prefix.clone(), b.uri.clone())).collect(),
    )
}

#[verifier::external_body]
fn write_start(
    inner: &mut xml::writer::EventWriter<Vec<u8>>,
    name: &QName,
    attrs: &Vec<XmlAttr>,
    bindings: &Vec<NsBinding>,
) {
    let n = format_name(name);
    let names: Vec<String> = attrs.iter().map(|a| format_name(&a.name)).collect();
    let list: Vec<xml::attribute::Attribute> = names.iter().zip(attrs.iter()).map(
        |(s, a)| xml::attribute::Attribute::new(xml::name::Name::from(s.as_str()), a.value.as_str()),
    ).collect();
    let _ = inner.write(xml::writer::XmlEvent::StartElement {
        name: xml::name::Name::from(n.as_str()),
        attributes: std::borrow::Cow::Owned(list),
        namespace: std::borrow::Cow::Owned(ns_of_bindings(bindings)),
    });
}

/// Write one token.
///
/// Relies on `xml::writer::EventWriter::write`: character data is written
/// escaped, and an end event closes the innermost open element. Tokens the
/// serializer never produces are ignored. `emit_of` names the bytes the
/// writer accumulates for the tokens written.
#[verifier::external_body]
pub fn emitter_write(w: &mut Emitter, t: &XmlTok)
    ensures
        final(w).toks() == old(w).toks().push(t@),
{
    match t {
        XmlTok::ElemStart { name, attrs, bindings, .. } => {
            write_start(&mut w.inner, name, attrs, bindings);
        },
        XmlTok::Text { text } => {
            let _ = w.inner.write(xml::writer::XmlEvent::Characters(text.as_str()));
        },
        XmlTok::ElemEnd { .. } => {
            let _ = w.inner.write(xml::writer::XmlEvent::EndElement { name: None });
        },
        _ => {},
    }
}

/// Finish writing and take the bytes.
///
/// Relies on `xml::writer::EventWriter::into_inner`; the bytes are a
/// function of the tokens written and the fixed configuration alone.
#[verifier::external_body]
pub fn emitter_finish(w: Emitter) -> (r: Vec<u8>)
    ensures
        r@ == emit_of(w.toks()),
{
    w.inner.into_inner()
}

/// Tokenize a byte buffer: every token up to and including the first
/// terminal one.
pub fn read_all_tokens(bytes: Vec<u8>) -> (r: Vec<XmlTok>)
    ensures
        crate::schema::views_of(r@) == lex_of(bytes@),
{
    let ghost b = bytes@;
    let mut lx = lexer_new(bytes);
    let mut out: Vec<XmlTok> = Vec::new();
    loop
        invariant_except_break
            lx.bytes() == b,
            0 <= lx.pos() <= lex_of(b).len(),
            lx.pos() == out@.len(),
            crate::schema::views_of(out@) =~= lex_of(b).take(lx.pos()),
            forall|j: int| 0 <= j < out@.len() ==> !(#[trigger] crate::schema::views_of(
                out@,
            )[j]).is_terminal(),
            lex_of(b).len() >= 1,
            lex_of(b).last().is_terminal(),
            forall|j: int| 0 <= j < lex_of(b).len() - 1 ==> !(#[trigger] lex_of(
                b,
            )[j]).is_terminal(),
        ensures
            crate::schema::views_of(out@) =~= lex_of(b),
        decreases lex_of(b).len() - lx.pos(),
    {
        proof {
            if lx.pos() >= lex_of(b).len() {
                assert(!crate::schema::views_of(out@)[lex_of(b).len() - 1].is_terminal());
                assert(false);
            }
        }
        let t = lexer_next(&mut lx);
        let terminal = t.is_terminal();
        out.push(t);
        proof {
            assert(crate::schema::views_of(out@) =~= lex_of(b).take(lx.pos()));
        }
        if terminal {
            proof {
                assert(out@.len() == lex_of(b).len()) by {
                    if out@.len() < lex_of(b).len() {
                        assert(!lex_of(b)[out@.len() - 1].is_terminal());
                    }
                }
                assert(crate::schema::views_of(out@) =~= lex_of(b));
            }
            break;
        }
    }
    out
}

} // verus!
