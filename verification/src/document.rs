//! Parsing documents from XML bytes and serializing them back: the byte
//! level API over the verified token-level parser and serializer.

use vstd::prelude::*;
use vstd::slice::slice_to_vec;
use crate::schema::{
    PrintCapabilitiesDocument, PrintSchemaDocument, PrintSchemaDocumentV, PrintTicketDocument,
};
use crate::tokens::XmlTok;
use crate::parse_spec::{parse_doc, ParseErrV};
use crate::parse_util::ParsePrintSchemaError;
use crate::parser::parse_tokens;
use crate::ser_spec::{ser_caps, ser_doc, ser_ticket};
use crate::serializer::{caps_tokens, doc_tokens, ticket_tokens};
use crate::xmlio::{emit_of, emitter_finish, emitter_new, emitter_write, lex_of, read_all_tokens};

verus! {

/// What parsing a byte buffer yields: the parse of the token stream the
/// tokenizer derives from the bytes.
pub open spec fn parse_bytes_spec(bytes: Seq<u8>) -> Result<PrintSchemaDocumentV, ParseErrV> {
    parse_doc(lex_of(bytes))
}

/// The canonical XML bytes of a document: the emitter's output for the
/// document's token stream.
pub open spec fn doc_xml_spec(d: PrintSchemaDocumentV) -> Seq<u8> {
    emit_of(ser_doc(d))
}

/// Write a token stream out as XML bytes.
pub fn emit_tokens(toks: &Vec<XmlTok>) -> (r: Vec<u8>)
    ensures
        r@ == emit_of(crate::schema::views_of(toks@)),
{
    let ghost t = crate::schema::views_of(toks@);
    let mut w = emitter_new();
    let mut k: usize = 0;
    while k < toks.len()
        invariant
            0 <= k <= toks.len(),
            t == crate::schema::views_of(toks@),
            w.toks() =~= t.take(k as int),
        decreases toks.len() - k,
    {
        emitter_write(&mut w, &toks[k]);
        proof {
            assert(w.toks() =~= t.take(k as int + 1));
        }
        k = k + 1;
    }
    proof {
        assert(t.take(toks@.len() as int) =~= t);
    }
    emitter_finish(w)
}

impl PrintSchemaDocument {
    /// Parse a Print Schema document of either kind from XML bytes.
    pub fn parse_from_bytes(xml: &[u8]) -> (r: Result<PrintSchemaDocument, ParsePrintSchemaError>)
        ensures
            match r {
                Ok(d) => parse_bytes_spec(xml@) == Ok::<_, ParseErrV>(d@),
                Err(er) => parse_bytes_spec(xml@) == Err::<PrintSchemaDocumentV, _>(er@),
            },
    {
        let toks = read_all_tokens(slice_to_vec(xml));
        parse_tokens(&toks)
    }

    /// Parse a Print Schema document of either kind from XML bytes.
    pub fn parse(xml: Vec<u8>) -> (r: Result<PrintSchemaDocument, ParsePrintSchemaError>)
        ensures
            match r {
                Ok(d) => parse_bytes_spec(xml@) == Ok::<_, ParseErrV>(d@),
                Err(er) => parse_bytes_spec(xml@) == Err::<PrintSchemaDocumentV, _>(er@),
            },
    {
        let toks = read_all_tokens(xml);
        parse_tokens(&toks)
    }

    /// Parse XML bytes that must hold a PrintCapabilities document; a
    /// PrintTicket root is rejected with the document-type error.
    pub fn parse_as_capabilities(xml: Vec<u8>) -> (r: Result<
        PrintCapabilitiesDocument,
        ParsePrintSchemaError,
    >)
        ensures
            match r {
                Ok(d) => parse_bytes_spec(xml@) == Ok::<_, ParseErrV>(
                    PrintSchemaDocumentV::PrintCapabilities(d@),
                ),
                Err(er) => match parse_bytes_spec(xml@) {
                    Ok(doc) => doc is PrintTicket && er@ == (ParseErrV::WrongDocumentType {
                        expected: "PrintCapabilities"@,
                        found: "PrintTicket"@,
                    }),
                    Err(e2) => er@ == e2,
                },
            },
    {
        match Self::parse(xml) {
            Ok(PrintSchemaDocument::PrintCapabilities(d)) => Ok(d),
            Ok(PrintSchemaDocument::PrintTicket(_)) => Err(
                ParsePrintSchemaError::WrongDocumentType {
                    expected: "PrintCapabilities",
                    found: "PrintTicket",
                },
            ),
            Err(er) => Err(er),
        }
    }

    /// Parse XML bytes that must hold a PrintTicket document; a
    /// PrintCapabilities root is rejected with the document-type error.
    pub fn parse_as_ticket(xml: Vec<u8>) -> (r: Result<
        PrintTicketDocument,
        ParsePrintSchemaError,
    >)
        ensures
            match r {
                Ok(d) => parse_bytes_spec(xml@) == Ok::<_, ParseErrV>(
                    PrintSchemaDocumentV::PrintTicket(d@),
                ),
                Err(er) => match parse_bytes_spec(xml@) {
                    Ok(doc) => doc is PrintCapabilities && er@ == (ParseErrV::WrongDocumentType {
                        expected: "PrintTicket"@,
                        found: "PrintCapabilities"@,
                    }),
                    Err(e2) => er@ == e2,
                },
            },
    {
        match Self::parse(xml) {
            Ok(PrintSchemaDocument::PrintTicket(d)) => Ok(d),
            Ok(PrintSchemaDocument::PrintCapabilities(_)) => Err(
                ParsePrintSchemaError::WrongDocumentType {
                    expected: "PrintTicket",
                    found: "PrintCapabilities",
                },
            ),
            Err(er) => Err(er),
        }
    }

    /// Serialize the document to its canonical XML bytes.
    pub fn to_xml(&self) -> (r: Vec<u8>)
        ensures
            r@ == doc_xml_spec(self@),
    {
        let toks = doc_tokens(self);
        emit_tokens(&toks)
    }
}

impl PrintCapabilitiesDocument {
    /// Parse XML bytes that must hold a PrintCapabilities document.
    pub fn parse_from_bytes(xml: &[u8]) -> (r: Result<
        PrintCapabilitiesDocument,
        ParsePrintSchemaError,
    >)
        ensures
            match r {
                Ok(d) => parse_bytes_spec(xml@) == Ok::<_, ParseErrV>(
                    PrintSchemaDocumentV::PrintCapabilities(d@),
                ),
                Err(er) => match parse_bytes_spec(xml@) {
                    Ok(doc) => doc is PrintTicket && er@ == (ParseErrV::WrongDocumentType {
                        expected: "PrintCapabilities"@,
                        found: "PrintTicket"@,
                    }),
                    Err(e2) => er@ == e2,
                },
            },
    {
        PrintSchemaDocument::parse_as_capabilities(slice_to_vec(xml))
    }

    /// Serialize the document to its canonical XML bytes.
    pub fn to_xml(&self) -> (r: Vec<u8>)
        ensures
            r@ == emit_of(ser_caps(self@)),
    {
        let toks = caps_tokens(self);
        emit_tokens(&toks)
    }
}

impl PrintTicketDocument {
    /// Parse XML bytes that must hold a PrintTicket document.
    pub fn parse_from_bytes(xml: &[u8]) -> (r: Result<
        PrintTicketDocument,
        ParsePrintSchemaError,
    >)
        ensures
            match r {
                Ok(d) => parse_bytes_spec(xml@) == Ok::<_, ParseErrV>(
                    PrintSchemaDocumentV::PrintTicket(d@),
                ),
                Err(er) => match parse_bytes_spec(xml@) {
                    Ok(doc) => doc is PrintCapabilities && er@ == (ParseErrV::WrongDocumentType {
                        expected: "PrintTicket"@,
                        found: "PrintCapabilities"@,
                    }),
                    Err(e2) => er@ == e2,
                },
            },
    {
        PrintSchemaDocument::parse_as_ticket(slice_to_vec(xml))
    }

    /// Serialize the document to its canonical XML bytes.
    pub fn to_xml(&self) -> (r: Vec<u8>)
        ensures
            r@ == emit_of(ser_ticket(self@)),
    {
        let toks = ticket_tokens(self);
        emit_tokens(&toks)
    }
}

} // verus!
