//! The parse error type and the executable helpers the parser is built
//! from: name resolution, attribute lookup, and end-tag matching, each
//! verified against its specification.

use vstd::prelude::*;
use crate::qname::{QName, str_eq, clone_string, NS_XSI};
use crate::schema::views_of;
use crate::tokens::{NsBinding, TextPos, XmlAttr, XmlTok};
use crate::parse_spec::{
    find_attr, find_colon, match_end_from, ns_lookup, qname_of_text, stream_err, ParseErrV,
};

verus! {

broadcast use vstd::std_specs::vec::axiom_vec_index_decreases;

/// An error from parsing a Print Schema document.
#[derive(Debug)]
pub enum ParsePrintSchemaError {
    /// The input is not well-formed XML; carries the tokenizer's message.
    InvalidXml {
        /// The position of the error.
        pos: TextPos,
        /// The tokenizer's message.
        message: String,
    },
    /// The input is well-formed XML but not a Print Schema document.
    InvalidPrintSchema {
        /// The position of the offending element.
        pos: TextPos,
        /// The reason, in words.
        reason: String,
    },
    /// The document parsed, but its root is not the kind the caller asked
    /// for.
    WrongDocumentType {
        /// The kind the caller expected.
        expected: &'static str,
        /// The kind the document has.
        found: &'static str,
    },
}

impl View for ParsePrintSchemaError {
    type V = ParseErrV;

    open spec fn view(&self) -> ParseErrV {
        match self {
            ParsePrintSchemaError::InvalidXml { pos, message } => ParseErrV::InvalidXml {
                pos: *pos,
                message: message@,
            },
            ParsePrintSchemaError::InvalidPrintSchema { pos, reason } => {
                ParseErrV::InvalidPrintSchema { pos: *pos, reason: reason@ }
            },
            ParsePrintSchemaError::WrongDocumentType { expected, found } => {
                ParseErrV::WrongDocumentType { expected: expected@, found: found@ }
            },
        }
    }
}

/// Build a schema-structural error from a reason literal.
pub fn schema_error(reason: &str, pos: TextPos) -> (r: ParsePrintSchemaError)
    ensures
        r@ == (ParseErrV::InvalidPrintSchema { pos, reason: reason@ }),
{
    ParsePrintSchemaError::InvalidPrintSchema { pos, reason: reason.to_owned() }
}

proof fn lemma_find_colon_at(s: Seq<char>, i: int)
    requires
        0 <= i < s.len(),
        forall|j: int| 0 <= j < i ==> s[j] != ':',
        s[i] == ':',
    ensures
        find_colon(s) == i,
    decreases s.len(),
{
    if i > 0 {
        lemma_find_colon_at(s.drop_first(), i - 1);
    }
}

proof fn lemma_find_colon_none(s: Seq<char>)
    requires
        forall|j: int| 0 <= j < s.len() ==> s[j] != ':',
    ensures
        find_colon(s) == -1,
    decreases s.len(),
{
    if s.len() > 0 {
        lemma_find_colon_none(s.drop_first());
    }
}

/// Find the first `:` in a string, by character index.
fn find_colon_in(s: &str) -> (r: Option<usize>)
    ensures
        match r {
            Option::Some(k) => find_colon(s@) == k as int && k < s@.len(),
            Option::None => find_colon(s@) == -1,
        },
{
    let len = s.unicode_len();
    let mut i: usize = 0;
    while i < len
        invariant
            0 <= i <= len,
            len == s@.len(),
            forall|j: int| 0 <= j < i ==> s@[j] != ':',
        decreases len - i,
    {
        if s.get_char(i) == ':' {
            proof {
                lemma_find_colon_at(s@, i as int);
            }
            return Some(i);
        }
        i = i + 1;
    }
    proof {
        lemma_find_colon_none(s@);
    }
    None
}

proof fn lemma_ns_lookup_at(bs: Seq<crate::tokens::NsBindingV>, prefix: Seq<char>, i: int)
    requires
        0 <= i < bs.len(),
        forall|j: int| 0 <= j < i ==> (#[trigger] bs[j].prefix) != prefix,
        bs[i].prefix == prefix,
    ensures
        ns_lookup(bs, prefix) == Some(bs[i].uri),
    decreases bs.len(),
{
    if i > 0 {
        lemma_ns_lookup_at(bs.drop_first(), prefix, i - 1);
    }
}

proof fn lemma_ns_lookup_none(bs: Seq<crate::tokens::NsBindingV>, prefix: Seq<char>)
    requires
        forall|j: int| 0 <= j < bs.len() ==> (#[trigger] bs[j].prefix) != prefix,
    ensures
        ns_lookup(bs, prefix) is None,
    decreases bs.len(),
{
    if bs.len() > 0 {
        lemma_ns_lookup_none(bs.drop_first(), prefix);
    }
}

/// Look a prefix up in the bindings in scope.
fn lookup_prefix<'a>(bindings: &'a Vec<NsBinding>, prefix: &str) -> (r: Option<&'a String>)
    ensures
        match r {
            Option::Some(u) => ns_lookup(views_of(bindings@), prefix@) == Some(u@),
            Option::None => ns_lookup(views_of(bindings@), prefix@) is None,
        },
{
    let ghost bv = views_of(bindings@);
    let mut i: usize = 0;
    while i < bindings.len()
        invariant
            0 <= i <= bindings.len(),
            bv == views_of(bindings@),
            forall|j: int| 0 <= j < i ==> (#[trigger] bv[j].prefix) != prefix@,
        decreases bindings.len() - i,
    {
        if str_eq(bindings[i].prefix.as_str(), prefix) {
            proof {
                lemma_ns_lookup_at(bv, prefix@, i as int);
            }
            return Some(&bindings[i].uri);
        }
        i = i + 1;
    }
    proof {
        lemma_ns_lookup_none(bv, prefix@);
    }
    None
}

/// Whether a prefix is bound in the bindings in scope.
pub fn lookup_prefix_exists(bindings: &Vec<NsBinding>, prefix: &str) -> (r: bool)
    ensures
        r == (ns_lookup(views_of(bindings@), prefix@) is Some),
{
    match lookup_prefix(bindings, prefix) {
        Option::Some(_) => true,
        Option::None => false,
    }
}

/// Resolve a `prefix:local` text against the bindings in scope.
pub fn qname_from_text(s: &str, bindings: &Vec<NsBinding>) -> (r: QName)
    ensures
        r@ == qname_of_text(s@, views_of(bindings@)),
{
    match find_colon_in(s) {
        Option::Some(k) => {
            let len = s.unicode_len();
            let prefix = s.substring_char(0, k);
            let local = s.substring_char(k + 1, len);
            proof {
                assert(prefix@ =~= s@.take(k as int));
                assert(local@ =~= s@.skip(k as int + 1));
            }
            let ns = match lookup_prefix(bindings, prefix) {
                Option::Some(u) => Some(clone_string(u)),
                Option::None => None,
            };
            QName { local_name: local.to_owned(), namespace: ns, prefix: Some(prefix.to_owned()) }
        },
        Option::None => QName { local_name: s.to_owned(), namespace: None, prefix: None },
    }
}

proof fn lemma_find_attr_at(
    attrs: Seq<crate::tokens::XmlAttrV>,
    local: Seq<char>,
    ns: Option<Seq<char>>,
    i: int,
)
    requires
        0 <= i < attrs.len(),
        forall|j: int| 0 <= j < i ==> !(#[trigger] attrs[j].name).is_named(ns, local),
        attrs[i].name.is_named(ns, local),
    ensures
        find_attr(attrs, local, ns) == Some(attrs[i].value),
    decreases attrs.len(),
{
    if i > 0 {
        lemma_find_attr_at(attrs.drop_first(), local, ns, i - 1);
    }
}

proof fn lemma_find_attr_none(
    attrs: Seq<crate::tokens::XmlAttrV>,
    local: Seq<char>,
    ns: Option<Seq<char>>,
)
    requires
        forall|j: int| 0 <= j < attrs.len() ==> !(#[trigger] attrs[j].name).is_named(ns, local),
    ensures
        find_attr(attrs, local, ns) is None,
    decreases attrs.len(),
{
    if attrs.len() > 0 {
        lemma_find_attr_none(attrs.drop_first(), local, ns);
    }
}

/// Find the value of the first attribute with the given namespace and
/// local name.
pub fn find_attr_value<'a>(
    attrs: &'a Vec<XmlAttr>,
    local: &str,
    ns: Option<&str>,
) -> (r: Option<&'a String>)
    ensures
        match r {
            Option::Some(v) => find_attr(
                views_of(attrs@),
                local@,
                crate::lookup::opt_str_view(ns),
            ) == Some(v@),
            Option::None => find_attr(views_of(attrs@), local@, crate::lookup::opt_str_view(ns))
                is None,
        },
{
    let ghost av = views_of(attrs@);
    let ghost nsv = crate::lookup::opt_str_view(ns);
    let mut i: usize = 0;
    while i < attrs.len()
        invariant
            0 <= i <= attrs.len(),
            av == views_of(attrs@),
            nsv == crate::lookup::opt_str_view(ns),
            forall|j: int| 0 <= j < i ==> !(#[trigger] av[j].name).is_named(nsv, local@),
        decreases attrs.len() - i,
    {
        if attrs[i].name.matches(local, ns) {
            proof {
                lemma_find_attr_at(av, local@, nsv, i as int);
            }
            return Some(&attrs[i].value);
        }
        i = i + 1;
    }
    proof {
        lemma_find_attr_none(av, local@, nsv);
    }
    None
}

/// The qualified name of the `name` attribute, if present.
pub fn name_attr(attrs: &Vec<XmlAttr>, bindings: &Vec<NsBinding>) -> (r: Option<QName>)
    ensures
        match r {
            Option::Some(q) => crate::parse_spec::name_attr_of(views_of(attrs@), views_of(bindings@))
                == Some(q@),
            Option::None => crate::parse_spec::name_attr_of(views_of(attrs@), views_of(bindings@))
                is None,
        },
{
    match find_attr_value(attrs, "name", None) {
        Option::Some(v) => Some(qname_from_text(v.as_str(), bindings)),
        Option::None => None,
    }
}

/// The raw value of the `xsi:type` attribute, if present.
pub fn type_attr<'a>(attrs: &'a Vec<XmlAttr>) -> (r: Option<&'a String>)
    ensures
        match r {
            Option::Some(v) => crate::parse_spec::type_attr_of(views_of(attrs@)) == Some(v@),
            Option::None => crate::parse_spec::type_attr_of(views_of(attrs@)) is None,
        },
{
    find_attr_value(attrs, "type", Some(NS_XSI))
}

/// Find the index of the end token that closes the element whose content
/// starts at `i`.
pub fn find_end(toks: &Vec<XmlTok>, i: usize) -> (r: Option<usize>)
    requires
        i <= toks@.len(),
    ensures
        match r {
            Option::Some(c) => match_end_from(views_of(toks@), i as int, 0) == Some(c as int)
                && i <= c < toks@.len(),
            Option::None => match_end_from(views_of(toks@), i as int, 0) is None,
        },
{
    let ghost tv = views_of(toks@);
    let mut j: usize = i;
    let mut depth: usize = 0;
    while j < toks.len()
        invariant
            i <= j <= toks.len(),
            tv == views_of(toks@),
            depth <= j - i,
            match_end_from(tv, i as int, 0) == match_end_from(tv, j as int, depth as nat),
        decreases toks.len() - j,
    {
        match &toks[j] {
            XmlTok::ElemStart { .. } => {
                depth = depth + 1;
            },
            XmlTok::ElemEnd { .. } => {
                if depth == 0 {
                    return Some(j);
                }
                depth = depth - 1;
            },
            XmlTok::DocEnd { .. } => {
                return None;
            },
            XmlTok::Fault { .. } => {
                return None;
            },
            _ => {},
        }
        j = j + 1;
    }
    None
}

/// The error that explains a missing end tag: the first fault or
/// end-of-document token at or after `i`.
pub fn stream_fault(toks: &Vec<XmlTok>, i: usize) -> (r: ParsePrintSchemaError)
    requires
        i <= toks@.len(),
    ensures
        r@ == stream_err(views_of(toks@), i as int),
{
    let ghost tv = views_of(toks@);
    let mut j: usize = i;
    while j < toks.len()
        invariant
            i <= j <= toks.len(),
            tv == views_of(toks@),
            stream_err(tv, i as int) == stream_err(tv, j as int),
        decreases toks.len() - j,
    {
        match &toks[j] {
            XmlTok::Fault { msg, pos } => {
                return ParsePrintSchemaError::InvalidXml {
                    pos: *pos,
                    message: clone_string(msg),
                };
            },
            XmlTok::DocEnd { pos } => {
                return schema_error("Unexpected end of document", *pos);
            },
            _ => {},
        }
        j = j + 1;
    }
    schema_error("Unexpected end of document", TextPos { row: 0, column: 0 })
}

} // verus!
