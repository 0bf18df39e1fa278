//! What parsing means: a total, recursive definition of the Print Schema
//! document a token stream denotes, or the error it is rejected with.
//!
//! The executable parser is verified against these functions, and the
//! round-trip law is proved about them.

use vstd::prelude::*;
use crate::qname::{QNameV, NS_PSF, NS_XSD, NS_XSI};
use crate::schema::{
    ParameterDefV, ParameterInitV, PrintCapabilitiesDocumentV, PrintFeatureOptionV, PrintFeatureV,
    PrintSchemaDocumentV, PrintTicketDocumentV, PropertyV, PropertyValueV, ScoredPropertyV,
};
use crate::tokens::{NsBindingV, TextPos, XmlAttrV, XmlTokV};
use crate::numeric::parse_i32_spec;

verus! {

/// The mathematical value of a parse error.
#[verifier::ext_equal]
pub enum ParseErrV {
    /// The tokenizer rejected the input.
    InvalidXml {
        /// The position of the error.
        pos: TextPos,
        /// The tokenizer's message.
        message: Seq<char>,
    },
    /// A recognized element stands in the wrong place, an element of the
    /// framework namespace is not part of the vocabulary, or a mandatory
    /// piece is missing.
    InvalidPrintSchema {
        /// The position of the offending element.
        pos: TextPos,
        /// The reason, in words.
        reason: Seq<char>,
    },
    /// The document parsed, but its root is not the kind the caller asked
    /// for.
    WrongDocumentType {
        /// The kind the caller expected.
        expected: Seq<char>,
        /// The kind the document has.
        found: Seq<char>,
    },
}

/// A schema-structural error at a position.
pub open spec fn schema_err<T>(reason: Seq<char>, pos: TextPos) -> Result<T, ParseErrV> {
    Err(ParseErrV::InvalidPrintSchema { pos, reason })
}

/// The index of the first `:` in `s`, or `-1` if there is none.
pub open spec fn find_colon(s: Seq<char>) -> int
    decreases s.len(),
{
    if s.len() == 0 {
        -1
    } else if s[0] == ':' {
        0
    } else if find_colon(s.drop_first()) < 0 {
        -1
    } else {
        find_colon(s.drop_first()) + 1
    }
}

/// The URI the first binding for `prefix` maps it to, if any.
pub open spec fn ns_lookup(bs: Seq<NsBindingV>, prefix: Seq<char>) -> Option<Seq<char>>
    decreases bs.len(),
{
    if bs.len() == 0 {
        None
    } else if bs[0].prefix == prefix {
        Some(bs[0].uri)
    } else {
        ns_lookup(bs.drop_first(), prefix)
    }
}

/// The qualified name a `prefix:local` text denotes under the given
/// bindings: the prefix, if there is one, resolves against the bindings,
/// and an unbound or absent prefix leaves the name without a namespace.
pub open spec fn qname_of_text(s: Seq<char>, bs: Seq<NsBindingV>) -> QNameV {
    if find_colon(s) >= 0 {
        QNameV {
            local_name: s.skip(find_colon(s) + 1),
            namespace: ns_lookup(bs, s.take(find_colon(s))),
            prefix: Some(s.take(find_colon(s))),
        }
    } else {
        QNameV { local_name: s, namespace: None, prefix: None }
    }
}

/// The value of the first attribute with the given namespace and local
/// name, if any.
pub open spec fn find_attr(
    attrs: Seq<XmlAttrV>,
    local: Seq<char>,
    ns: Option<Seq<char>>,
) -> Option<Seq<char>>
    decreases attrs.len(),
{
    if attrs.len() == 0 {
        None
    } else if attrs[0].name.is_named(ns, local) {
        Some(attrs[0].value)
    } else {
        find_attr(attrs.drop_first(), local, ns)
    }
}

/// The qualified name the `name` attribute of a start token denotes, if
/// the attribute is present. The attribute itself must carry no namespace.
pub open spec fn name_attr_of(attrs: Seq<XmlAttrV>, bs: Seq<NsBindingV>) -> Option<QNameV> {
    match find_attr(attrs, "name"@, None) {
        Some(v) => Some(qname_of_text(v, bs)),
        None => None,
    }
}

/// The raw value of the `xsi:type` attribute of a start token, if present.
pub open spec fn type_attr_of(attrs: Seq<XmlAttrV>) -> Option<Seq<char>> {
    find_attr(attrs, "type"@, Some(NS_XSI@))
}

/// Whether a name belongs to the Print Schema Framework namespace.
pub open spec fn is_psf(n: QNameV) -> bool {
    n.namespace == Some(NS_PSF@)
}

/// The index of the end token that closes the element whose content starts
/// at `i`, with `depth` elements currently open inside it; `None` if the
/// stream ends or faults first.
pub open spec fn match_end_from(toks: Seq<XmlTokV>, i: int, depth: nat) -> Option<int>
    decreases toks.len() - i,
{
    if i < 0 || i >= toks.len() {
        None
    } else {
        match toks[i] {
            XmlTokV::ElemStart { .. } => match_end_from(toks, i + 1, depth + 1),
            XmlTokV::ElemEnd { .. } => if depth == 0 {
                Some(i)
            } else {
                match_end_from(toks, i + 1, (depth - 1) as nat)
            },
            XmlTokV::DocEnd { .. } => None,
            XmlTokV::Fault { .. } => None,
            _ => match_end_from(toks, i + 1, depth),
        }
    }
}

/// The error that explains why an element starting before `i` has no
/// matching end: the first fault or end-of-document at or after `i`.
pub open spec fn stream_err(toks: Seq<XmlTokV>, i: int) -> ParseErrV
    decreases toks.len() - i,
{
    if i < 0 || i >= toks.len() {
        ParseErrV::InvalidPrintSchema {
            pos: TextPos { row: 0, column: 0 },
            reason: "Unexpected end of document"@,
        }
    } else {
        match toks[i] {
            XmlTokV::Fault { msg, pos } => ParseErrV::InvalidXml { pos, message: msg },
            XmlTokV::DocEnd { pos } => ParseErrV::InvalidPrintSchema {
                pos,
                reason: "Unexpected end of document"@,
            },
            _ => stream_err(toks, i + 1),
        }
    }
}

/// Whether the window `[i, e)` of the stream has, at `i`, a child element
/// whose matching end lies inside the window.
pub open spec fn child_ok(toks: Seq<XmlTokV>, i: int, e: int) -> bool {
    match match_end_from(toks, i + 1, 0) {
        Some(c) => i + 1 <= c < e,
        None => false,
    }
}

/// The index of the end token of the child element starting at `i`.
pub open spec fn child_end(toks: Seq<XmlTokV>, i: int) -> int {
    match match_end_from(toks, i + 1, 0) {
        Some(c) => c,
        None => 0,
    }
}

/// The accumulated text of a value element's content in `[i, e)`:
/// character data and CDATA keep their text, a whitespace run contributes
/// a single space, and any element inside is skipped whole.
pub open spec fn parse_value_text(toks: Seq<XmlTokV>, i: int, e: int) -> Result<
    Seq<char>,
    ParseErrV,
>
    decreases e - i,
{
    if i >= e {
        Ok(Seq::<char>::empty())
    } else {
        match toks[i] {
            XmlTokV::Text { text } => match parse_value_text(toks, i + 1, e) {
                Ok(rest) => Ok(text + rest),
                Err(er) => Err(er),
            },
            XmlTokV::Cdata { text } => match parse_value_text(toks, i + 1, e) {
                Ok(rest) => Ok(text + rest),
                Err(er) => Err(er),
            },
            XmlTokV::Space => match parse_value_text(toks, i + 1, e) {
                Ok(rest) => Ok(seq![' '] + rest),
                Err(er) => Err(er),
            },
            XmlTokV::ElemStart { .. } => if child_ok(toks, i, e) {
                parse_value_text(toks, child_end(toks, i) + 1, e)
            } else {
                Err(stream_err(toks, i + 1))
            },
            XmlTokV::ElemEnd { pos } => schema_err("Unbalanced document"@, pos),
            XmlTokV::DocEnd { pos } => schema_err("Unexpected end of document"@, pos),
            XmlTokV::Fault { msg, pos } => Err(ParseErrV::InvalidXml { pos, message: msg }),
            XmlTokV::Skip => parse_value_text(toks, i + 1, e),
        }
    }
}

/// The decoded value of a `Value` element whose start token is at `i` and
/// whose end token is at `e`. A value without a recognized `xsi:type`
/// yields nothing; `xsd:string`, `xsd:integer` and `xsd:QName` decode to
/// the matching variant, a bad integer is an error, and every other type
/// is kept unknown with its raw text.
pub open spec fn parse_value_elem(toks: Seq<XmlTokV>, i: int, e: int) -> Result<
    Option<PropertyValueV>,
    ParseErrV,
> {
    match toks[i] {
        XmlTokV::ElemStart { name, attrs, bindings, pos } => match parse_value_text(
            toks,
            i + 1,
            e,
        ) {
            Ok(text) => match type_attr_of(attrs) {
                Some(tv) => if value_decode_fails(qname_of_text(tv, bindings), text) {
                    schema_err("Invalid integer"@, pos)
                } else {
                    Ok(Some(decode_value_ok(qname_of_text(tv, bindings), text, bindings)))
                },
                None => Ok(None),
            },
            Err(er) => Err(er),
        },
        _ => schema_err("Unbalanced document"@, TextPos { row: 0, column: 0 }),
    }
}

/// Whether a type name with the given text decodes to an integer that the
/// value type cannot hold, which is a value-decoding error.
pub open spec fn value_decode_fails(t: QNameV, text: Seq<char>) -> bool {
    t.namespace == Some(NS_XSD@) && t.local_name == "integer"@ && parse_i32_spec(text) is None
}

/// The value a type name and text decode to, when decoding succeeds.
pub open spec fn decode_value_ok(t: QNameV, text: Seq<char>, bs: Seq<NsBindingV>) -> PropertyValueV {
    if t.namespace == Some(NS_XSD@) {
        if t.local_name == "string"@ {
            PropertyValueV::String(text)
        } else if t.local_name == "integer"@ {
            PropertyValueV::Integer(parse_i32_spec(text)->Some_0)
        } else if t.local_name == "QName"@ {
            PropertyValueV::QName(qname_of_text(text, bs))
        } else {
            PropertyValueV::Unknown(t, text)
        }
    } else {
        PropertyValueV::Unknown(t, text)
    }
}

/// What a property element's content denotes: the value of its last typed
/// `Value` child, if any, and its child properties in order.
#[verifier::ext_equal]
pub struct PropContentV {
    /// The value, if any `Value` child carried one.
    pub value: Option<PropertyValueV>,
    /// The child properties.
    pub properties: Seq<PropertyV>,
}

/// What a scored-property element's content denotes.
#[verifier::ext_equal]
pub struct SpContentV {
    /// The referenced parameter, from the last named `ParameterRef` child.
    pub parameter_ref: Option<QNameV>,
    /// The value, if any `Value` child carried one.
    pub value: Option<PropertyValueV>,
    /// The child scored properties.
    pub scored_properties: Seq<ScoredPropertyV>,
    /// The child properties.
    pub properties: Seq<PropertyV>,
}

/// What an option element's content denotes.
#[verifier::ext_equal]
pub struct OptContentV {
    /// The child scored properties.
    pub scored_properties: Seq<ScoredPropertyV>,
    /// The child properties.
    pub properties: Seq<PropertyV>,
}

/// What a feature element's content denotes.
#[verifier::ext_equal]
pub struct FeatContentV {
    /// The child properties.
    pub properties: Seq<PropertyV>,
    /// The options.
    pub options: Seq<PrintFeatureOptionV>,
    /// The sub-features.
    pub features: Seq<PrintFeatureV>,
}

/// The items of a property element's content in `[i, e)`: `Value` children
/// set the value (the last typed one wins), `Property` children accumulate
/// in order, foreign elements are skipped whole, and any other framework
/// element is misplaced or unknown.
pub open spec fn parse_prop_items(toks: Seq<XmlTokV>, i: int, e: int) -> Result<
    PropContentV,
    ParseErrV,
>
    decreases e - i,
{
    if i >= e {
        Ok(PropContentV { value: None, properties: Seq::<PropertyV>::empty() })
    } else {
        match toks[i] {
            XmlTokV::ElemStart { name, attrs, bindings, pos } => if !child_ok(toks, i, e) {
                Err(stream_err(toks, i + 1))
            } else if is_psf(name) {
                if name.local_name == "Value"@ {
                    match parse_value_elem(toks, i, child_end(toks, i)) {
                        Ok(v) => match parse_prop_items(toks, child_end(toks, i) + 1, e) {
                            Ok(rest) => Ok(PropContentV {
                                value: if rest.value is Some {
                                    rest.value
                                } else {
                                    v
                                },
                                properties: rest.properties,
                            }),
                            Err(er) => Err(er),
                        },
                        Err(er) => Err(er),
                    }
                } else if name.local_name == "Property"@ {
                    match parse_property_elem(toks, i, child_end(toks, i)) {
                        Ok(p) => match parse_prop_items(toks, child_end(toks, i) + 1, e) {
                            Ok(rest) => Ok(PropContentV {
                                value: rest.value,
                                properties: seq![p] + rest.properties,
                            }),
                            Err(er) => Err(er),
                        },
                        Err(er) => Err(er),
                    }
                } else if name.local_name == "ParameterRef"@ {
                    parse_prop_items(toks, child_end(toks, i) + 1, e)
                } else {
                    misplaced(name, pos)
                }
            } else {
                parse_prop_items(toks, child_end(toks, i) + 1, e)
            },
            XmlTokV::ElemEnd { pos } => schema_err("Unbalanced document"@, pos),
            XmlTokV::DocEnd { pos } => schema_err("Unexpected end of document"@, pos),
            XmlTokV::Fault { msg, pos } => Err(ParseErrV::InvalidXml { pos, message: msg }),
            _ => parse_prop_items(toks, i + 1, e),
        }
    }
}

/// The error for a framework element that the grammar does not allow at
/// the place it stands: a known misplaced container, a root below the top,
/// or a name outside the vocabulary.
pub open spec fn misplaced<T>(name: QNameV, pos: TextPos) -> Result<T, ParseErrV> {
    if name.local_name == "PrintCapabilities"@ {
        schema_err("PrintCapabilities should be root element"@, pos)
    } else if name.local_name == "PrintTicket"@ {
        schema_err("PrintTicket should be root element"@, pos)
    } else if name.local_name == "ParameterDef"@ {
        schema_err("ParameterDef cannot be here"@, pos)
    } else if name.local_name == "ParameterInit"@ {
        schema_err("ParameterInit cannot be here"@, pos)
    } else if name.local_name == "Feature"@ {
        schema_err("Feature cannot be here"@, pos)
    } else if name.local_name == "Option"@ {
        schema_err("Option cannot be here"@, pos)
    } else if name.local_name == "ScoredProperty"@ {
        schema_err("ScoredProperty cannot be here"@, pos)
    } else if name.local_name == "Property"@ {
        schema_err("Property cannot be here"@, pos)
    } else if name.local_name == "Value"@ {
        schema_err("Value cannot be here"@, pos)
    } else if name.local_name == "ParameterRef"@ {
        schema_err("ParameterRef cannot be here"@, pos)
    } else {
        schema_err("Invalid element"@, pos)
    }
}

/// The property a `Property` element starting at `i` with end token `e`
/// denotes; its `name` attribute is mandatory.
pub open spec fn parse_property_elem(toks: Seq<XmlTokV>, i: int, e: int) -> Result<
    PropertyV,
    ParseErrV,
>
    decreases e - i,
{
    match toks[i] {
        XmlTokV::ElemStart { name, attrs, bindings, pos } => match name_attr_of(attrs, bindings) {
            Some(n) => if e <= i {
                schema_err("Unbalanced document"@, pos)
            } else {
                match parse_prop_items(toks, i + 1, e) {
                    Ok(c) => Ok(PropertyV { name: n, value: c.value, properties: c.properties }),
                    Err(er) => Err(er),
                }
            },
            None => schema_err("Property name not found"@, pos),
        },
        _ => schema_err("Unbalanced document"@, TextPos { row: 0, column: 0 }),
    }
}

/// The items of a scored-property element's content in `[i, e)`.
pub open spec fn parse_sp_items(toks: Seq<XmlTokV>, i: int, e: int) -> Result<
    SpContentV,
    ParseErrV,
>
    decreases e - i,
{
    if i >= e {
        Ok(SpContentV {
            parameter_ref: None,
            value: None,
            scored_properties: Seq::<ScoredPropertyV>::empty(),
            properties: Seq::<PropertyV>::empty(),
        })
    } else {
        match toks[i] {
            XmlTokV::ElemStart { name, attrs, bindings, pos } => if !child_ok(toks, i, e) {
                Err(stream_err(toks, i + 1))
            } else if is_psf(name) {
                if name.local_name == "Value"@ {
                    match parse_value_elem(toks, i, child_end(toks, i)) {
                        Ok(v) => match parse_sp_items(toks, child_end(toks, i) + 1, e) {
                            Ok(rest) => Ok(SpContentV {
                                value: if rest.value is Some {
                                    rest.value
                                } else {
                                    v
                                },
                                ..rest
                            }),
                            Err(er) => Err(er),
                        },
                        Err(er) => Err(er),
                    }
                } else if name.local_name == "ParameterRef"@ {
                    match parse_sp_items(toks, child_end(toks, i) + 1, e) {
                        Ok(rest) => Ok(SpContentV {
                            parameter_ref: if rest.parameter_ref is Some {
                                rest.parameter_ref
                            } else {
                                name_attr_of(attrs, bindings)
                            },
                            ..rest
                        }),
                        Err(er) => Err(er),
                    }
                } else if name.local_name == "ScoredProperty"@ {
                    match parse_sp_elem(toks, i, child_end(toks, i)) {
                        Ok(sp) => match parse_sp_items(toks, child_end(toks, i) + 1, e) {
                            Ok(rest) => Ok(SpContentV {
                                scored_properties: seq![sp] + rest.scored_properties,
                                ..rest
                            }),
                            Err(er) => Err(er),
                        },
                        Err(er) => Err(er),
                    }
                } else if name.local_name == "Property"@ {
                    match parse_property_elem(toks, i, child_end(toks, i)) {
                        Ok(p) => match parse_sp_items(toks, child_end(toks, i) + 1, e) {
                            Ok(rest) => Ok(SpContentV {
                                properties: seq![p] + rest.properties,
                                ..rest
                            }),
                            Err(er) => Err(er),
                        },
                        Err(er) => Err(er),
                    }
                } else {
                    misplaced(name, pos)
                }
            } else {
                parse_sp_items(toks, child_end(toks, i) + 1, e)
            },
            XmlTokV::ElemEnd { pos } => schema_err("Unbalanced document"@, pos),
            XmlTokV::DocEnd { pos } => schema_err("Unexpected end of document"@, pos),
            XmlTokV::Fault { msg, pos } => Err(ParseErrV::InvalidXml { pos, message: msg }),
            _ => parse_sp_items(toks, i + 1, e),
        }
    }
}

/// The scored property a `ScoredProperty` element starting at `i` with end
/// token `e` denotes; its name is optional.
pub open spec fn parse_sp_elem(toks: Seq<XmlTokV>, i: int, e: int) -> Result<
    ScoredPropertyV,
    ParseErrV,
>
    decreases e - i,
{
    match toks[i] {
        XmlTokV::ElemStart { name, attrs, bindings, pos } => if e <= i {
            schema_err("Unbalanced document"@, pos)
        } else {
            match parse_sp_items(toks, i + 1, e) {
                Ok(c) => Ok(ScoredPropertyV {
                    name: name_attr_of(attrs, bindings),
                    parameter_ref: c.parameter_ref,
                    value: c.value,
                    scored_properties: c.scored_properties,
                    properties: c.properties,
                }),
                Err(er) => Err(er),
            }
        },
        _ => schema_err("Unbalanced document"@, TextPos { row: 0, column: 0 }),
    }
}

/// The items of an option element's content in `[i, e)`.
pub open spec fn parse_option_items(toks: Seq<XmlTokV>, i: int, e: int) -> Result<
    OptContentV,
    ParseErrV,
>
    decreases e - i,
{
    if i >= e {
        Ok(OptContentV {
            scored_properties: Seq::<ScoredPropertyV>::empty(),
            properties: Seq::<PropertyV>::empty(),
        })
    } else {
        match toks[i] {
            XmlTokV::ElemStart { name, attrs, bindings, pos } => if !child_ok(toks, i, e) {
                Err(stream_err(toks, i + 1))
            } else if is_psf(name) {
                if name.local_name == "ScoredProperty"@ {
                    match parse_sp_elem(toks, i, child_end(toks, i)) {
                        Ok(sp) => match parse_option_items(toks, child_end(toks, i) + 1, e) {
                            Ok(rest) => Ok(OptContentV {
                                scored_properties: seq![sp] + rest.scored_properties,
                                ..rest
                            }),
                            Err(er) => Err(er),
                        },
                        Err(er) => Err(er),
                    }
                } else if name.local_name == "Property"@ {
                    match parse_property_elem(toks, i, child_end(toks, i)) {
                        Ok(p) => match parse_option_items(toks, child_end(toks, i) + 1, e) {
                            Ok(rest) => Ok(OptContentV {
                                properties: seq![p] + rest.properties,
                                ..rest
                            }),
                            Err(er) => Err(er),
                        },
                        Err(er) => Err(er),
                    }
                } else if name.local_name == "Value"@ {
                    match parse_value_elem(toks, i, child_end(toks, i)) {
                        Ok(_) => parse_option_items(toks, child_end(toks, i) + 1, e),
                        Err(er) => Err(er),
                    }
                } else if name.local_name == "ParameterRef"@ {
                    parse_option_items(toks, child_end(toks, i) + 1, e)
                } else {
                    misplaced(name, pos)
                }
            } else {
                parse_option_items(toks, child_end(toks, i) + 1, e)
            },
            XmlTokV::ElemEnd { pos } => schema_err("Unbalanced document"@, pos),
            XmlTokV::DocEnd { pos } => schema_err("Unexpected end of document"@, pos),
            XmlTokV::Fault { msg, pos } => Err(ParseErrV::InvalidXml { pos, message: msg }),
            _ => parse_option_items(toks, i + 1, e),
        }
    }
}

/// The option an `Option` element starting at `i` with end token `e`
/// denotes; its name is optional, and an absent name marks the default
/// option.
pub open spec fn parse_option_elem(toks: Seq<XmlTokV>, i: int, e: int) -> Result<
    PrintFeatureOptionV,
    ParseErrV,
>
    decreases e - i,
{
    match toks[i] {
        XmlTokV::ElemStart { name, attrs, bindings, pos } => if e <= i {
            schema_err("Unbalanced document"@, pos)
        } else {
            match parse_option_items(toks, i + 1, e) {
                Ok(c) => Ok(PrintFeatureOptionV {
                    name: name_attr_of(attrs, bindings),
                    scored_properties: c.scored_properties,
                    properties: c.properties,
                }),
                Err(er) => Err(er),
            }
        },
        _ => schema_err("Unbalanced document"@, TextPos { row: 0, column: 0 }),
    }
}

/// The items of a feature element's content in `[i, e)`.
pub open spec fn parse_feature_items(toks: Seq<XmlTokV>, i: int, e: int) -> Result<
    FeatContentV,
    ParseErrV,
>
    decreases e - i,
{
    if i >= e {
        Ok(FeatContentV {
            properties: Seq::<PropertyV>::empty(),
            options: Seq::<PrintFeatureOptionV>::empty(),
            features: Seq::<PrintFeatureV>::empty(),
        })
    } else {
        match toks[i] {
            XmlTokV::ElemStart { name, attrs, bindings, pos } => if !child_ok(toks, i, e) {
                Err(stream_err(toks, i + 1))
            } else if is_psf(name) {
                if name.local_name == "Option"@ {
                    match parse_option_elem(toks, i, child_end(toks, i)) {
                        Ok(o) => match parse_feature_items(toks, child_end(toks, i) + 1, e) {
                            Ok(rest) => Ok(FeatContentV {
                                options: seq![o] + rest.options,
                                ..rest
                            }),
                            Err(er) => Err(er),
                        },
                        Err(er) => Err(er),
                    }
                } else if name.local_name == "Property"@ {
                    match parse_property_elem(toks, i, child_end(toks, i)) {
                        Ok(p) => match parse_feature_items(toks, child_end(toks, i) + 1, e) {
                            Ok(rest) => Ok(FeatContentV {
                                properties: seq![p] + rest.properties,
                                ..rest
                            }),
                            Err(er) => Err(er),
                        },
                        Err(er) => Err(er),
                    }
                } else if name.local_name == "Feature"@ {
                    match parse_feature_elem(toks, i, child_end(toks, i)) {
                        Ok(f) => match parse_feature_items(toks, child_end(toks, i) + 1, e) {
                            Ok(rest) => Ok(FeatContentV {
                                features: seq![f] + rest.features,
                                ..rest
                            }),
                            Err(er) => Err(er),
                        },
                        Err(er) => Err(er),
                    }
                } else if name.local_name == "Value"@ {
                    match parse_value_elem(toks, i, child_end(toks, i)) {
                        Ok(_) => parse_feature_items(toks, child_end(toks, i) + 1, e),
                        Err(er) => Err(er),
                    }
                } else if name.local_name == "ParameterRef"@ {
                    parse_feature_items(toks, child_end(toks, i) + 1, e)
                } else {
                    misplaced(name, pos)
                }
            } else {
                parse_feature_items(toks, child_end(toks, i) + 1, e)
            },
            XmlTokV::ElemEnd { pos } => schema_err("Unbalanced document"@, pos),
            XmlTokV::DocEnd { pos } => schema_err("Unexpected end of document"@, pos),
            XmlTokV::Fault { msg, pos } => Err(ParseErrV::InvalidXml { pos, message: msg }),
            _ => parse_feature_items(toks, i + 1, e),
        }
    }
}

/// The feature a `Feature` element starting at `i` with end token `e`
/// denotes; its `name` attribute is mandatory.
pub open spec fn parse_feature_elem(toks: Seq<XmlTokV>, i: int, e: int) -> Result<
    PrintFeatureV,
    ParseErrV,
>
    decreases e - i,
{
    match toks[i] {
        XmlTokV::ElemStart { name, attrs, bindings, pos } => match name_attr_of(attrs, bindings) {
            Some(n) => if e <= i {
                schema_err("Unbalanced document"@, pos)
            } else {
                match parse_feature_items(toks, i + 1, e) {
                    Ok(c) => Ok(PrintFeatureV {
                        name: n,
                        properties: c.properties,
                        options: c.options,
                        features: c.features,
                    }),
                    Err(er) => Err(er),
                }
            },
            None => schema_err("Feature name not found"@, pos),
        },
        _ => schema_err("Unbalanced document"@, TextPos { row: 0, column: 0 }),
    }
}

/// The properties of a parameter declaration's content in `[i, e)`; a
/// `Value` child is decoded and discarded, as the stack machine of the
/// reference format leaves it unused.
pub open spec fn parse_pdef_items(toks: Seq<XmlTokV>, i: int, e: int) -> Result<
    Seq<PropertyV>,
    ParseErrV,
>
    decreases e - i,
{
    if i >= e {
        Ok(Seq::<PropertyV>::empty())
    } else {
        match toks[i] {
            XmlTokV::ElemStart { name, attrs, bindings, pos } => if !child_ok(toks, i, e) {
                Err(stream_err(toks, i + 1))
            } else if is_psf(name) {
                if name.local_name == "Property"@ {
                    match parse_property_elem(toks, i, child_end(toks, i)) {
                        Ok(p) => match parse_pdef_items(toks, child_end(toks, i) + 1, e) {
                            Ok(rest) => Ok(seq![p] + rest),
                            Err(er) => Err(er),
                        },
                        Err(er) => Err(er),
                    }
                } else if name.local_name == "Value"@ {
                    match parse_value_elem(toks, i, child_end(toks, i)) {
                        Ok(_) => parse_pdef_items(toks, child_end(toks, i) + 1, e),
                        Err(er) => Err(er),
                    }
                } else if name.local_name == "ParameterRef"@ {
                    parse_pdef_items(toks, child_end(toks, i) + 1, e)
                } else {
                    misplaced(name, pos)
                }
            } else {
                parse_pdef_items(toks, child_end(toks, i) + 1, e)
            },
            XmlTokV::ElemEnd { pos } => schema_err("Unbalanced document"@, pos),
            XmlTokV::DocEnd { pos } => schema_err("Unexpected end of document"@, pos),
            XmlTokV::Fault { msg, pos } => Err(ParseErrV::InvalidXml { pos, message: msg }),
            _ => parse_pdef_items(toks, i + 1, e),
        }
    }
}

/// The parameter declaration a `ParameterDef` element denotes; its `name`
/// attribute is mandatory.
pub open spec fn parse_pdef_elem(toks: Seq<XmlTokV>, i: int, e: int) -> Result<
    ParameterDefV,
    ParseErrV,
>
    decreases e - i,
{
    match toks[i] {
        XmlTokV::ElemStart { name, attrs, bindings, pos } => match name_attr_of(attrs, bindings) {
            Some(n) => if e <= i {
                schema_err("Unbalanced document"@, pos)
            } else {
                match parse_pdef_items(toks, i + 1, e) {
                    Ok(props) => Ok(ParameterDefV { name: n, properties: props }),
                    Err(er) => Err(er),
                }
            },
            None => schema_err("ParameterDef name not found"@, pos),
        },
        _ => schema_err("Unbalanced document"@, TextPos { row: 0, column: 0 }),
    }
}

/// The value of a parameter initialization's content in `[i, e)`: the last
/// typed `Value` child.
pub open spec fn parse_pinit_items(toks: Seq<XmlTokV>, i: int, e: int) -> Result<
    Option<PropertyValueV>,
    ParseErrV,
>
    decreases e - i,
{
    if i >= e {
        Ok(None)
    } else {
        match toks[i] {
            XmlTokV::ElemStart { name, attrs, bindings, pos } => if !child_ok(toks, i, e) {
                Err(stream_err(toks, i + 1))
            } else if is_psf(name) {
                if name.local_name == "Value"@ {
                    match parse_value_elem(toks, i, child_end(toks, i)) {
                        Ok(v) => match parse_pinit_items(toks, child_end(toks, i) + 1, e) {
                            Ok(rest) => Ok(
                                if rest is Some {
                                    rest
                                } else {
                                    v
                                },
                            ),
                            Err(er) => Err(er),
                        },
                        Err(er) => Err(er),
                    }
                } else if name.local_name == "ParameterRef"@ {
                    parse_pinit_items(toks, child_end(toks, i) + 1, e)
                } else {
                    misplaced(name, pos)
                }
            } else {
                parse_pinit_items(toks, child_end(toks, i) + 1, e)
            },
            XmlTokV::ElemEnd { pos } => schema_err("Unbalanced document"@, pos),
            XmlTokV::DocEnd { pos } => schema_err("Unexpected end of document"@, pos),
            XmlTokV::Fault { msg, pos } => Err(ParseErrV::InvalidXml { pos, message: msg }),
            _ => parse_pinit_items(toks, i + 1, e),
        }
    }
}

/// The parameter initialization a `ParameterInit` element denotes; its
/// `name` attribute and a decoded value are mandatory.
pub open spec fn parse_pinit_elem(toks: Seq<XmlTokV>, i: int, e: int) -> Result<
    ParameterInitV,
    ParseErrV,
>
    decreases e - i,
{
    match toks[i] {
        XmlTokV::ElemStart { name, attrs, bindings, pos } => match name_attr_of(attrs, bindings) {
            Some(n) => if e <= i {
                schema_err("Unbalanced document"@, pos)
            } else {
                match parse_pinit_items(toks, i + 1, e) {
                    Ok(Some(v)) => Ok(ParameterInitV { name: n, value: v }),
                    Ok(None) => schema_err("ParameterInit value not found"@, pos),
                    Err(er) => Err(er),
                }
            },
            None => schema_err("ParameterInit name not found"@, pos),
        },
        _ => schema_err("Unbalanced document"@, TextPos { row: 0, column: 0 }),
    }
}

/// The items of a PrintCapabilities root's content in `[i, e)`.
pub open spec fn parse_caps_items(toks: Seq<XmlTokV>, i: int, e: int) -> Result<
    PrintCapabilitiesDocumentV,
    ParseErrV,
>
    decreases e - i,
{
    if i >= e {
        Ok(PrintCapabilitiesDocumentV {
            properties: Seq::<PropertyV>::empty(),
            parameter_defs: Seq::<ParameterDefV>::empty(),
            features: Seq::<PrintFeatureV>::empty(),
        })
    } else {
        match toks[i] {
            XmlTokV::ElemStart { name, attrs, bindings, pos } => if !child_ok(toks, i, e) {
                Err(stream_err(toks, i + 1))
            } else if is_psf(name) {
                if name.local_name == "Property"@ {
                    match parse_property_elem(toks, i, child_end(toks, i)) {
                        Ok(p) => match parse_caps_items(toks, child_end(toks, i) + 1, e) {
                            Ok(rest) => Ok(PrintCapabilitiesDocumentV {
                                properties: seq![p] + rest.properties,
                                ..rest
                            }),
                            Err(er) => Err(er),
                        },
                        Err(er) => Err(er),
                    }
                } else if name.local_name == "ParameterDef"@ {
                    match parse_pdef_elem(toks, i, child_end(toks, i)) {
                        Ok(d) => match parse_caps_items(toks, child_end(toks, i) + 1, e) {
                            Ok(rest) => Ok(PrintCapabilitiesDocumentV {
                                parameter_defs: seq![d] + rest.parameter_defs,
                                ..rest
                            }),
                            Err(er) => Err(er),
                        },
                        Err(er) => Err(er),
                    }
                } else if name.local_name == "Feature"@ {
                    match parse_feature_elem(toks, i, child_end(toks, i)) {
                        Ok(f) => match parse_caps_items(toks, child_end(toks, i) + 1, e) {
                            Ok(rest) => Ok(PrintCapabilitiesDocumentV {
                                features: seq![f] + rest.features,
                                ..rest
                            }),
                            Err(er) => Err(er),
                        },
                        Err(er) => Err(er),
                    }
                } else if name.local_name == "Value"@ {
                    match parse_value_elem(toks, i, child_end(toks, i)) {
                        Ok(_) => parse_caps_items(toks, child_end(toks, i) + 1, e),
                        Err(er) => Err(er),
                    }
                } else if name.local_name == "ParameterRef"@ {
                    parse_caps_items(toks, child_end(toks, i) + 1, e)
                } else {
                    misplaced(name, pos)
                }
            } else {
                parse_caps_items(toks, child_end(toks, i) + 1, e)
            },
            XmlTokV::ElemEnd { pos } => schema_err("Unbalanced document"@, pos),
            XmlTokV::DocEnd { pos } => schema_err("Unexpected end of document"@, pos),
            XmlTokV::Fault { msg, pos } => Err(ParseErrV::InvalidXml { pos, message: msg }),
            _ => parse_caps_items(toks, i + 1, e),
        }
    }
}

/// The items of a PrintTicket root's content in `[i, e)`.
pub open spec fn parse_ticket_items(toks: Seq<XmlTokV>, i: int, e: int) -> Result<
    PrintTicketDocumentV,
    ParseErrV,
>
    decreases e - i,
{
    if i >= e {
        Ok(PrintTicketDocumentV {
            properties: Seq::<PropertyV>::empty(),
            parameter_inits: Seq::<ParameterInitV>::empty(),
            features: Seq::<PrintFeatureV>::empty(),
        })
    } else {
        match toks[i] {
            XmlTokV::ElemStart { name, attrs, bindings, pos } => if !child_ok(toks, i, e) {
                Err(stream_err(toks, i + 1))
            } else if is_psf(name) {
                if name.local_name == "Property"@ {
                    match parse_property_elem(toks, i, child_end(toks, i)) {
                        Ok(p) => match parse_ticket_items(toks, child_end(toks, i) + 1, e) {
                            Ok(rest) => Ok(PrintTicketDocumentV {
                                properties: seq![p] + rest.properties,
                                ..rest
                            }),
                            Err(er) => Err(er),
                        },
                        Err(er) => Err(er),
                    }
                } else if name.local_name == "ParameterInit"@ {
                    match parse_pinit_elem(toks, i, child_end(toks, i)) {
                        Ok(d) => match parse_ticket_items(toks, child_end(toks, i) + 1, e) {
                            Ok(rest) => Ok(PrintTicketDocumentV {
                                parameter_inits: seq![d] + rest.parameter_inits,
                                ..rest
                            }),
                            Err(er) => Err(er),
                        },
                        Err(er) => Err(er),
                    }
                } else if name.local_name == "Feature"@ {
                    match parse_feature_elem(toks, i, child_end(toks, i)) {
                        Ok(f) => match parse_ticket_items(toks, child_end(toks, i) + 1, e) {
                            Ok(rest) => Ok(PrintTicketDocumentV {
                                features: seq![f] + rest.features,
                                ..rest
                            }),
                            Err(er) => Err(er),
                        },
                        Err(er) => Err(er),
                    }
                } else if name.local_name == "Value"@ {
                    match parse_value_elem(toks, i, child_end(toks, i)) {
                        Ok(_) => parse_ticket_items(toks, child_end(toks, i) + 1, e),
                        Err(er) => Err(er),
                    }
                } else if name.local_name == "ParameterRef"@ {
                    parse_ticket_items(toks, child_end(toks, i) + 1, e)
                } else {
                    misplaced(name, pos)
                }
            } else {
                parse_ticket_items(toks, child_end(toks, i) + 1, e)
            },
            XmlTokV::ElemEnd { pos } => schema_err("Unbalanced document"@, pos),
            XmlTokV::DocEnd { pos } => schema_err("Unexpected end of document"@, pos),
            XmlTokV::Fault { msg, pos } => Err(ParseErrV::InvalidXml { pos, message: msg }),
            _ => parse_ticket_items(toks, i + 1, e),
        }
    }
}

/// The document a token stream denotes, scanning from `i` for the root
/// element: a framework `PrintCapabilities` or `PrintTicket` at the top
/// level of the document. Foreign elements at the top level are skipped
/// whole, so a root inside one is never seen.
pub open spec fn parse_doc_from(toks: Seq<XmlTokV>, i: int) -> Result<
    PrintSchemaDocumentV,
    ParseErrV,
>
    decreases toks.len() - i,
{
    if i < 0 || i >= toks.len() {
        schema_err("No valid root element found"@, TextPos { row: 0, column: 0 })
    } else {
        match toks[i] {
            XmlTokV::ElemStart { name, attrs, bindings, pos } => if !child_ok(
                toks,
                i,
                toks.len() as int,
            ) {
                Err(stream_err(toks, i + 1))
            } else if is_psf(name) {
                if name.local_name == "PrintCapabilities"@ {
                    match parse_caps_items(toks, i + 1, child_end(toks, i)) {
                        Ok(d) => Ok(PrintSchemaDocumentV::PrintCapabilities(d)),
                        Err(er) => Err(er),
                    }
                } else if name.local_name == "PrintTicket"@ {
                    match parse_ticket_items(toks, i + 1, child_end(toks, i)) {
                        Ok(d) => Ok(PrintSchemaDocumentV::PrintTicket(d)),
                        Err(er) => Err(er),
                    }
                } else if name.local_name == "Value"@ || name.local_name == "ParameterRef"@ {
                    parse_doc_from(toks, child_end(toks, i) + 1)
                } else {
                    misplaced(name, pos)
                }
            } else {
                parse_doc_from(toks, child_end(toks, i) + 1)
            },
            XmlTokV::ElemEnd { pos } => schema_err("Unbalanced document"@, pos),
            XmlTokV::DocEnd { pos } => schema_err("No valid root element found"@, pos),
            XmlTokV::Fault { msg, pos } => Err(ParseErrV::InvalidXml { pos, message: msg }),
            _ => parse_doc_from(toks, i + 1),
        }
    }
}

/// The document a token stream denotes.
pub open spec fn parse_doc(toks: Seq<XmlTokV>) -> Result<PrintSchemaDocumentV, ParseErrV> {
    parse_doc_from(toks, 0)
}

} // verus!

