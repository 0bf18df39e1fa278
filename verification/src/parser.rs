//! The executable parser: recursive descent over the token stream,
//! verified to return exactly what the parse specification denotes.

use vstd::prelude::*;
use crate::qname::{QName, clone_string, str_eq, NS_PSF, NS_XSD};
use crate::schema::{
    views_of, ParameterDef, ParameterInit, PrintCapabilitiesDocument, PrintFeature,
    PrintFeatureOption, PrintSchemaDocument, PrintTicketDocument, Property, PropertyV,
    PropertyValue, PropertyValueV, ScoredProperty,
};
use crate::tokens::{TextPos, XmlTok, XmlTokV};
use crate::parse_spec::{
    misplaced, parse_caps_items, parse_doc, parse_doc_from, parse_feature_elem,
    parse_feature_items, parse_option_elem, parse_option_items, parse_pdef_elem, parse_pdef_items,
    parse_pinit_elem, parse_pinit_items, parse_prop_items, parse_property_elem, parse_sp_elem,
    parse_sp_items, parse_ticket_items, parse_value_elem, parse_value_text, FeatContentV,
    OptContentV, ParseErrV, PropContentV, SpContentV,
};
use crate::parse_util::{
    find_end, name_attr, qname_from_text, schema_error, stream_fault, type_attr,
    ParsePrintSchemaError,
};

verus! {

broadcast use vstd::std_specs::vec::axiom_vec_index_decreases, crate::schema::group_schema_views;

/// The views of the tokens, the sequence every specification runs over.
pub open spec fn tv(toks: Seq<XmlTok>) -> Seq<XmlTokV> {
    views_of(toks)
}

/// Gather the text of a value element's content in `[i, e)`.
fn p_value_text(toks: &Vec<XmlTok>, i: usize, e: usize) -> (r: Result<String, ParsePrintSchemaError>)
    requires
        e <= toks@.len(),
    ensures
        match r {
            Ok(s) => parse_value_text(tv(toks@), i as int, e as int) == Ok::<_, ParseErrV>(s@),
            Err(er) => parse_value_text(tv(toks@), i as int, e as int) == Err::<Seq<char>, _>(
                er@,
            ),
        },
{
    let ghost t = tv(toks@);
    let mut out = String::new();
    let mut j: usize = i;
    proof {
        if parse_value_text(t, i as int, e as int) is Ok {
            assert(Seq::<char>::empty() + parse_value_text(t, i as int, e as int)->Ok_0
                =~= parse_value_text(t, i as int, e as int)->Ok_0);
        }
    }
    while j < e
        invariant
            i <= j,
            j <= e || j == i,
            e <= toks@.len(),
            t == tv(toks@),
            parse_value_text(t, i as int, e as int) == (match parse_value_text(
                t,
                j as int,
                e as int,
            ) {
                Ok(rest) => Ok::<Seq<char>, ParseErrV>(out@ + rest),
                Err(er) => Err(er),
            }),
        decreases e - j,
    {
        match &toks[j] {
            XmlTok::Text { text } => {
                let ghost before = out@;
                out.append(text.as_str());
                proof {
                    if parse_value_text(t, j as int + 1, e as int) is Ok {
                        assert(out@ + parse_value_text(t, j as int + 1, e as int)->Ok_0
                            =~= before + (text@ + parse_value_text(
                            t,
                            j as int + 1,
                            e as int,
                        )->Ok_0));
                    }
                }
                j = j + 1;
            },
            XmlTok::Cdata { text } => {
                let ghost before = out@;
                out.append(text.as_str());
                proof {
                    if parse_value_text(t, j as int + 1, e as int) is Ok {
                        assert(out@ + parse_value_text(t, j as int + 1, e as int)->Ok_0
                            =~= before + (text@ + parse_value_text(
                            t,
                            j as int + 1,
                            e as int,
                        )->Ok_0));
                    }
                }
                j = j + 1;
            },
            XmlTok::Space => {
                let ghost before = out@;
                proof {
                    reveal_strlit(" ");
                }
                out.append(" ");
                proof {
                    assert(" "@ =~= seq![' ']);
                    if parse_value_text(t, j as int + 1, e as int) is Ok {
                        assert(out@ + parse_value_text(t, j as int + 1, e as int)->Ok_0
                            =~= before + (seq![' '] + parse_value_text(
                            t,
                            j as int + 1,
                            e as int,
                        )->Ok_0));
                    }
                }
                j = j + 1;
            },
            XmlTok::Skip => {
                j = j + 1;
            },
            XmlTok::ElemStart { .. } => {
                match find_end(toks, j + 1) {
                    Option::Some(c) => {
                        if c < e {
                            j = c + 1;
                        } else {
                            return Err(stream_fault(toks, j + 1));
                        }
                    },
                    Option::None => {
                        return Err(stream_fault(toks, j + 1));
                    },
                }
            },
            XmlTok::ElemEnd { pos } => {
                return Err(schema_error("Unbalanced document", *pos));
            },
            XmlTok::DocEnd { pos } => {
                return Err(schema_error("Unexpected end of document", *pos));
            },
            XmlTok::Fault { msg, pos } => {
                return Err(ParsePrintSchemaError::InvalidXml {
                    pos: *pos,
                    message: clone_string(msg),
                });
            },
        }
    }
    proof {
        assert(out@ + Seq::<char>::empty() =~= out@);
    }
    Ok(out)
}

/// The built-in XSD type names are pairwise distinct.
proof fn vocab_distinct()
    ensures
        "string"@ != "integer"@,
        "string"@ != "QName"@,
        "integer"@ != "QName"@,
{
    reveal_strlit("string");
    reveal_strlit("integer");
    reveal_strlit("QName");
    assert("string"@.len() == 6);
    assert("integer"@.len() == 7);
    assert("QName"@.len() == 5);
}

/// Parse a `Value` element whose start token is at `i` and whose end token
/// is at `e`.
fn p_value_elem(toks: &Vec<XmlTok>, i: usize, e: usize) -> (r: Result<
    Option<PropertyValue>,
    ParsePrintSchemaError,
>)
    requires
        i < e <= toks@.len(),
    ensures
        match r {
            Ok(Some(v)) => parse_value_elem(tv(toks@), i as int, e as int) == Ok::<_, ParseErrV>(
                Some(v@),
            ),
            Ok(None::<PropertyValue>) => parse_value_elem(tv(toks@), i as int, e as int) == Ok::<
                Option<PropertyValueV>,
                ParseErrV,
            >(None),
            Err(er) => parse_value_elem(tv(toks@), i as int, e as int) == Err::<
                Option<PropertyValueV>,
                ParseErrV,
            >(er@),
        },
{
    let ghost t = tv(toks@);
    proof {
        vocab_distinct();
    }
    match &toks[i] {
        XmlTok::ElemStart { name, attrs, bindings, pos } => {
            let text = match p_value_text(toks, i + 1, e) {
                Ok(s) => s,
                Err(er) => {
                    return Err(er);
                },
            };
            match type_attr(attrs) {
                Option::Some(tvs) => {
                    let tq = qname_from_text(tvs.as_str(), bindings);
                    if tq.is_in_ns(NS_XSD, "string") {
                        Ok(Some(PropertyValue::String(text)))
                    } else if tq.is_in_ns(NS_XSD, "integer") {
                        match crate::numeric::parse_i32(text.as_str()) {
                            Option::Some(n) => Ok(Some(PropertyValue::Integer(n))),
                            Option::None => Err(schema_error("Invalid integer", *pos)),
                        }
                    } else if tq.is_in_ns(NS_XSD, "QName") {
                        let q = qname_from_text(text.as_str(), bindings);
                        Ok(Some(PropertyValue::QName(q)))
                    } else {
                        Ok(Some(PropertyValue::Unknown(tq, text)))
                    }
                },
                Option::None => Ok(None),
            }
        },
        _ => Err(schema_error("Unbalanced document", TextPos { row: 0, column: 0 })),
    }
}

/// What a property element's content parses to.
pub struct PropContent {
    /// The value from the last typed `Value` child, if any.
    pub value: Option<PropertyValue>,
    /// The child properties, in document order.
    pub properties: Vec<Property>,
}

impl View for PropContent {
    type V = PropContentV;

    open spec fn view(&self) -> PropContentV {
        PropContentV {
            value: match self.value {
                Option::Some(ref v) => Option::Some(v@),
                Option::None => Option::None,
            },
            properties: views_of(self.properties@),
        }
    }
}

/// Combine accumulated property content with the parse of the remaining
/// items: earlier properties come first, and an earlier value is kept only
/// when no later `Value` child carries one.
pub open spec fn prop_append(
    v0: Option<PropertyValueV>,
    ps: Seq<PropertyV>,
    rest: Result<PropContentV, ParseErrV>,
) -> Result<PropContentV, ParseErrV> {
    match rest {
        Ok(c) => Ok(PropContentV {
            value: if c.value is Some {
                c.value
            } else {
                v0
            },
            properties: ps + c.properties,
        }),
        Err(x) => Err(x),
    }
}

proof fn lemma_prop_append_nil(rest: Result<PropContentV, ParseErrV>)
    ensures
        prop_append(None, Seq::<PropertyV>::empty(), rest) == rest,
{
    match rest {
        Ok(c) => {
            assert(Seq::<PropertyV>::empty() + c.properties =~= c.properties);
            assert(prop_append(None, Seq::<PropertyV>::empty(), rest)->Ok_0 =~~= c);
        },
        Err(_) => {},
    }
}

/// Parse the items of a property element's content in `[i, e)`.
fn p_prop_items(toks: &Vec<XmlTok>, i: usize, e: usize) -> (r: Result<
    PropContent,
    ParsePrintSchemaError,
>)
    requires
        e <= toks@.len(),
    ensures
        match r {
            Ok(c) => parse_prop_items(tv(toks@), i as int, e as int) == Ok::<_, ParseErrV>(c@),
            Err(er) => parse_prop_items(tv(toks@), i as int, e as int) == Err::<PropContentV, _>(
                er@,
            ),
        },
    decreases e - i,
{
    let ghost t = tv(toks@);
    let mut cur_val: Option<PropertyValue> = None;
    let mut props: Vec<Property> = Vec::new();
    let mut j: usize = i;
    proof {
        lemma_prop_append_nil(parse_prop_items(t, i as int, e as int));
    }
    while j < e
        invariant
            i <= j,
            j <= e || j == i,
            e <= toks@.len(),
            t == tv(toks@),
            parse_prop_items(t, i as int, e as int) == prop_append(
                match cur_val {
                    Option::Some(ref v) => Option::Some(v@),
                    Option::None => Option::None,
                },
                views_of(props@),
                parse_prop_items(t, j as int, e as int),
            ),
        decreases e - j,
    {
        let ghost v0 = match cur_val {
            Option::Some(ref v) => Option::Some(v@),
            Option::None => Option::<PropertyValueV>::None,
        };
        let ghost psv = views_of(props@);
        match &toks[j] {
            XmlTok::ElemStart { name, attrs, bindings, pos } => {
                let c = match find_end(toks, j + 1) {
                    Option::Some(c) => {
                        if c >= e {
                            return Err(stream_fault(toks, j + 1));
                        }
                        c
                    },
                    Option::None => {
                        return Err(stream_fault(toks, j + 1));
                    },
                };
                if name.has_ns(NS_PSF) {
                    if str_eq(name.local_name.as_str(), "Value") {
                        match p_value_elem(toks, j, c) {
                            Ok(vopt) => {
                                if let Option::Some(vv) = vopt {
                                    cur_val = Some(vv);
                                }
                                proof {
                                    let rest = parse_prop_items(t, c + 1, e as int);
                                    match rest {
                                        Ok(c2) => {},
                                        Err(_) => {},
                                    }
                                }
                            },
                            Err(er) => {
                                return Err(er);
                            },
                        }
                        j = c + 1;
                    } else if str_eq(name.local_name.as_str(), "Property") {
                        match p_property_elem(toks, j, c) {
                            Ok(p) => {
                                props.push(p);
                                proof {
                                    let rest = parse_prop_items(t, c + 1, e as int);
                                    match rest {
                                        Ok(c2) => {
                                            assert(psv + (seq![
                                                parse_property_elem(t, j as int, c as int)->Ok_0,
                                            ] + c2.properties) =~= views_of(props@)
                                                + c2.properties);
                                        },
                                        Err(_) => {},
                                    }
                                }
                            },
                            Err(er) => {
                                return Err(er);
                            },
                        }
                        j = c + 1;
                    } else if str_eq(name.local_name.as_str(), "ParameterRef") {
                        j = c + 1;
                    } else {
                        return Err(misplaced_error(name, *pos));
                    }
                } else {
                    j = c + 1;
                }
            },
            XmlTok::ElemEnd { pos } => {
                return Err(schema_error("Unbalanced document", *pos));
            },
            XmlTok::DocEnd { pos } => {
                return Err(schema_error("Unexpected end of document", *pos));
            },
            XmlTok::Fault { msg, pos } => {
                return Err(ParsePrintSchemaError::InvalidXml {
                    pos: *pos,
                    message: clone_string(msg),
                });
            },
            _ => {
                j = j + 1;
            },
        }
    }
    proof {
        let rest = parse_prop_items(t, j as int, e as int);
        match rest {
            Ok(c2) => {
                assert(views_of(props@) + c2.properties =~= views_of(props@));
            },
            Err(_) => {},
        }
    }
    Ok(PropContent { value: cur_val, properties: props })
}

/// The error for a misplaced or unknown framework element, mirroring the
/// reasons the specification gives.
fn misplaced_error(name: &QName, pos: TextPos) -> (r: ParsePrintSchemaError)
    ensures
        misplaced::<int>(name@, pos) == Err::<int, ParseErrV>(r@),
{
    if str_eq(name.local_name.as_str(), "PrintCapabilities") {
        schema_error("PrintCapabilities should be root element", pos)
    } else if str_eq(name.local_name.as_str(), "PrintTicket") {
        schema_error("PrintTicket should be root element", pos)
    } else if str_eq(name.local_name.as_str(), "ParameterDef") {
        schema_error("ParameterDef cannot be here", pos)
    } else if str_eq(name.local_name.as_str(), "ParameterInit") {
        schema_error("ParameterInit cannot be here", pos)
    } else if str_eq(name.local_name.as_str(), "Feature") {
        schema_error("Feature cannot be here", pos)
    } else if str_eq(name.local_name.as_str(), "Option") {
        schema_error("Option cannot be here", pos)
    } else if str_eq(name.local_name.as_str(), "ScoredProperty") {
        schema_error("ScoredProperty cannot be here", pos)
    } else if str_eq(name.local_name.as_str(), "Property") {
        schema_error("Property cannot be here", pos)
    } else if str_eq(name.local_name.as_str(), "Value") {
        schema_error("Value cannot be here", pos)
    } else if str_eq(name.local_name.as_str(), "ParameterRef") {
        schema_error("ParameterRef cannot be here", pos)
    } else {
        schema_error("Invalid element", pos)
    }
}

/// Parse a `Property` element whose start token is at `i` and whose end
/// token is at `e`.
fn p_property_elem(toks: &Vec<XmlTok>, i: usize, e: usize) -> (r: Result<
    Property,
    ParsePrintSchemaError,
>)
    requires
        i < e <= toks@.len(),
    ensures
        match r {
            Ok(p) => parse_property_elem(tv(toks@), i as int, e as int) == Ok::<_, ParseErrV>(p@),
            Err(er) => parse_property_elem(tv(toks@), i as int, e as int) == Err::<PropertyV, _>(
                er@,
            ),
        },
    decreases e - i,
{
    let ghost t = tv(toks@);
    match &toks[i] {
        XmlTok::ElemStart { name, attrs, bindings, pos } => {
            match name_attr(attrs, bindings) {
                Option::Some(n) => {
                    match p_prop_items(toks, i + 1, e) {
                        Ok(c) => Ok(Property { name: n, value: c.value, properties: c.properties }),
                        Err(er) => Err(er),
                    }
                },
                Option::None => Err(schema_error("Property name not found", *pos)),
            }
        },
        _ => Err(schema_error("Unbalanced document", TextPos { row: 0, column: 0 })),
    }
}

/// What a scored-property element's content parses to.
pub struct SpContent {
    /// The referenced parameter, from the last named `ParameterRef` child.
    pub parameter_ref: Option<QName>,
    /// The value from the last typed `Value` child, if any.
    pub value: Option<PropertyValue>,
    /// The child scored properties, in document order.
    pub scored_properties: Vec<ScoredProperty>,
    /// The child properties, in document order.
    pub properties: Vec<Property>,
}

impl View for SpContent {
    type V = SpContentV;

    open spec fn view(&self) -> SpContentV {
        SpContentV {
            parameter_ref: match self.parameter_ref {
                Option::Some(ref q) => Option::Some(q@),
                Option::None => Option::None,
            },
            value: match self.value {
                Option::Some(ref v) => Option::Some(v@),
                Option::None => Option::None,
            },
            scored_properties: views_of(self.scored_properties@),
            properties: views_of(self.properties@),
        }
    }
}

/// Combine accumulated scored-property content with the parse of the
/// remaining items.
pub open spec fn sp_append(
    r0: Option<crate::qname::QNameV>,
    v0: Option<PropertyValueV>,
    sps: Seq<crate::schema::ScoredPropertyV>,
    ps: Seq<PropertyV>,
    rest: Result<SpContentV, ParseErrV>,
) -> Result<SpContentV, ParseErrV> {
    match rest {
        Ok(c) => Ok(SpContentV {
            parameter_ref: if c.parameter_ref is Some {
                c.parameter_ref
            } else {
                r0
            },
            value: if c.value is Some {
                c.value
            } else {
                v0
            },
            scored_properties: sps + c.scored_properties,
            properties: ps + c.properties,
        }),
        Err(x) => Err(x),
    }
}

proof fn lemma_sp_append_nil(rest: Result<SpContentV, ParseErrV>)
    ensures
        sp_append(
            None,
            None,
            Seq::<crate::schema::ScoredPropertyV>::empty(),
            Seq::<PropertyV>::empty(),
            rest,
        ) == rest,
{
    match rest {
        Ok(c) => {
            assert(Seq::<crate::schema::ScoredPropertyV>::empty() + c.scored_properties
                =~= c.scored_properties);
            assert(Seq::<PropertyV>::empty() + c.properties =~= c.properties);
            assert(sp_append(
                None,
                None,
                Seq::<crate::schema::ScoredPropertyV>::empty(),
                Seq::<PropertyV>::empty(),
                rest,
            )->Ok_0 =~~= c);
        },
        Err(_) => {},
    }
}

/// Parse the items of a scored-property element's content in `[i, e)`.
fn p_sp_items(toks: &Vec<XmlTok>, i: usize, e: usize) -> (r: Result<
    SpContent,
    ParsePrintSchemaError,
>)
    requires
        e <= toks@.len(),
    ensures
        match r {
            Ok(c) => parse_sp_items(tv(toks@), i as int, e as int) == Ok::<_, ParseErrV>(c@),
            Err(er) => parse_sp_items(tv(toks@), i as int, e as int) == Err::<SpContentV, _>(er@),
        },
    decreases e - i,
{
    let ghost t = tv(toks@);
    let mut cur_ref: Option<QName> = None;
    let mut cur_val: Option<PropertyValue> = None;
    let mut sps: Vec<ScoredProperty> = Vec::new();
    let mut props: Vec<Property> = Vec::new();
    let mut j: usize = i;
    proof {
        lemma_sp_append_nil(parse_sp_items(t, i as int, e as int));
    }
    while j < e
        invariant
            i <= j,
            j <= e || j == i,
            e <= toks@.len(),
            t == tv(toks@),
            parse_sp_items(t, i as int, e as int) == sp_append(
                match cur_ref {
                    Option::Some(ref q) => Option::Some(q@),
                    Option::None => Option::None,
                },
                match cur_val {
                    Option::Some(ref v) => Option::Some(v@),
                    Option::None => Option::None,
                },
                views_of(sps@),
                views_of(props@),
                parse_sp_items(t, j as int, e as int),
            ),
        decreases e - j,
    {
        let ghost spsv = views_of(sps@);
        let ghost psv = views_of(props@);
        match &toks[j] {
            XmlTok::ElemStart { name, attrs, bindings, pos } => {
                let c = match find_end(toks, j + 1) {
                    Option::Some(c) => {
                        if c >= e {
                            return Err(stream_fault(toks, j + 1));
                        }
                        c
                    },
                    Option::None => {
                        return Err(stream_fault(toks, j + 1));
                    },
                };
                if name.has_ns(NS_PSF) {
                    if str_eq(name.local_name.as_str(), "Value") {
                        match p_value_elem(toks, j, c) {
                            Ok(vopt) => {
                                if let Option::Some(vv) = vopt {
                                    cur_val = Some(vv);
                                }
                            },
                            Err(er) => {
                                return Err(er);
                            },
                        }
                        j = c + 1;
                    } else if str_eq(name.local_name.as_str(), "ParameterRef") {
                        match name_attr(attrs, bindings) {
                            Option::Some(q) => {
                                cur_ref = Some(q);
                            },
                            Option::None => {},
                        }
                        j = c + 1;
                    } else if str_eq(name.local_name.as_str(), "ScoredProperty") {
                        match p_sp_elem(toks, j, c) {
                            Ok(sp) => {
                                sps.push(sp);
                                proof {
                                    let rest = parse_sp_items(t, c + 1, e as int);
                                    match rest {
                                        Ok(c2) => {
                                            assert(spsv + (seq![
                                                parse_sp_elem(t, j as int, c as int)->Ok_0,
                                            ] + c2.scored_properties) =~= views_of(sps@)
                                                + c2.scored_properties);
                                        },
                                        Err(_) => {},
                                    }
                                }
                            },
                            Err(er) => {
                                return Err(er);
                            },
                        }
                        j = c + 1;
                    } else if str_eq(name.local_name.as_str(), "Property") {
                        match p_property_elem(toks, j, c) {
                            Ok(p) => {
                                props.push(p);
                                proof {
                                    let rest = parse_sp_items(t, c + 1, e as int);
                                    match rest {
                                        Ok(c2) => {
                                            assert(psv + (seq![
                                                parse_property_elem(t, j as int, c as int)->Ok_0,
                                            ] + c2.properties) =~= views_of(props@)
                                                + c2.properties);
                                        },
                                        Err(_) => {},
                                    }
                                }
                            },
                            Err(er) => {
                                return Err(er);
                            },
                        }
                        j = c + 1;
                    } else {
                        return Err(misplaced_error(name, *pos));
                    }
                } else {
                    j = c + 1;
                }
            },
            XmlTok::ElemEnd { pos } => {
                return Err(schema_error("Unbalanced document", *pos));
            },
            XmlTok::DocEnd { pos } => {
                return Err(schema_error("Unexpected end of document", *pos));
            },
            XmlTok::Fault { msg, pos } => {
                return Err(ParsePrintSchemaError::InvalidXml {
                    pos: *pos,
                    message: clone_string(msg),
                });
            },
            _ => {
                j = j + 1;
            },
        }
    }
    proof {
        let rest = parse_sp_items(t, j as int, e as int);
        match rest {
            Ok(c2) => {
                assert(views_of(sps@) + c2.scored_properties =~= views_of(sps@));
                assert(views_of(props@) + c2.properties =~= views_of(props@));
            },
            Err(_) => {},
        }
    }
    Ok(SpContent { parameter_ref: cur_ref, value: cur_val, scored_properties: sps, properties: props })
}

/// Parse a `ScoredProperty` element whose start token is at `i` and whose
/// end token is at `e`.
fn p_sp_elem(toks: &Vec<XmlTok>, i: usize, e: usize) -> (r: Result<
    ScoredProperty,
    ParsePrintSchemaError,
>)
    requires
        i < e <= toks@.len(),
    ensures
        match r {
            Ok(p) => parse_sp_elem(tv(toks@), i as int, e as int) == Ok::<_, ParseErrV>(p@),
            Err(er) => parse_sp_elem(tv(toks@), i as int, e as int) == Err::<
                crate::schema::ScoredPropertyV,
                _,
            >(er@),
        },
    decreases e - i,
{
    let ghost t = tv(toks@);
    match &toks[i] {
        XmlTok::ElemStart { name, attrs, bindings, pos } => {
            let n = name_attr(attrs, bindings);
            match p_sp_items(toks, i + 1, e) {
                Ok(c) => Ok(ScoredProperty {
                    name: n,
                    parameter_ref: c.parameter_ref,
                    value: c.value,
                    scored_properties: c.scored_properties,
                    properties: c.properties,
                }),
                Err(er) => Err(er),
            }
        },
        _ => Err(schema_error("Unbalanced document", TextPos { row: 0, column: 0 })),
    }
}

/// What an option element's content parses to.
pub struct OptContent {
    /// The child scored properties, in document order.
    pub scored_properties: Vec<ScoredProperty>,
    /// The child properties, in document order.
    pub properties: Vec<Property>,
}

impl View for OptContent {
    type V = OptContentV;

    open spec fn view(&self) -> OptContentV {
        OptContentV {
            scored_properties: views_of(self.scored_properties@),
            properties: views_of(self.properties@),
        }
    }
}

/// Combine accumulated option content with the parse of the remaining
/// items.
pub open spec fn opt_append(
    sps: Seq<crate::schema::ScoredPropertyV>,
    ps: Seq<PropertyV>,
    rest: Result<OptContentV, ParseErrV>,
) -> Result<OptContentV, ParseErrV> {
    match rest {
        Ok(c) => Ok(OptContentV {
            scored_properties: sps + c.scored_properties,
            properties: ps + c.properties,
        }),
        Err(x) => Err(x),
    }
}

proof fn lemma_opt_append_nil(rest: Result<OptContentV, ParseErrV>)
    ensures
        opt_append(
            Seq::<crate::schema::ScoredPropertyV>::empty(),
            Seq::<PropertyV>::empty(),
            rest,
        ) == rest,
{
    match rest {
        Ok(c) => {
            assert(Seq::<crate::schema::ScoredPropertyV>::empty() + c.scored_properties
                =~= c.scored_properties);
            assert(Seq::<PropertyV>::empty() + c.properties =~= c.properties);
            assert(opt_append(
                Seq::<crate::schema::ScoredPropertyV>::empty(),
                Seq::<PropertyV>::empty(),
                rest,
            )->Ok_0 =~~= c);
        },
        Err(_) => {},
    }
}

/// Parse the items of an option element's content in `[i, e)`.
fn p_option_items(toks: &Vec<XmlTok>, i: usize, e: usize) -> (r: Result<
    OptContent,
    ParsePrintSchemaError,
>)
    requires
        e <= toks@.len(),
    ensures
        match r {
            Ok(c) => parse_option_items(tv(toks@), i as int, e as int) == Ok::<_, ParseErrV>(c@),
            Err(er) => parse_option_items(tv(toks@), i as int, e as int) == Err::<OptContentV, _>(
                er@,
            ),
        },
    decreases e - i,
{
    let ghost t = tv(toks@);
    let mut sps: Vec<ScoredProperty> = Vec::new();
    let mut props: Vec<Property> = Vec::new();
    let mut j: usize = i;
    proof {
        lemma_opt_append_nil(parse_option_items(t, i as int, e as int));
    }
    while j < e
        invariant
            i <= j,
            j <= e || j == i,
            e <= toks@.len(),
            t == tv(toks@),
            parse_option_items(t, i as int, e as int) == opt_append(
                views_of(sps@),
                views_of(props@),
                parse_option_items(t, j as int, e as int),
            ),
        decreases e - j,
    {
        let ghost spsv = views_of(sps@);
        let ghost psv = views_of(props@);
        match &toks[j] {
            XmlTok::ElemStart { name, attrs, bindings, pos } => {
                let c = match find_end(toks, j + 1) {
                    Option::Some(c) => {
                        if c >= e {
                            return Err(stream_fault(toks, j + 1));
                        }
                        c
                    },
                    Option::None => {
                        return Err(stream_fault(toks, j + 1));
                    },
                };
                if name.has_ns(NS_PSF) {
                    if str_eq(name.local_name.as_str(), "ScoredProperty") {
                        match p_sp_elem(toks, j, c) {
                            Ok(sp) => {
                                sps.push(sp);
                                proof {
                                    let rest = parse_option_items(t, c + 1, e as int);
                                    match rest {
                                        Ok(c2) => {
                                            assert(spsv + (seq![
                                                parse_sp_elem(t, j as int, c as int)->Ok_0,
                                            ] + c2.scored_properties) =~= views_of(sps@)
                                                + c2.scored_properties);
                                        },
                                        Err(_) => {},
                                    }
                                }
                            },
                            Err(er) => {
                                return Err(er);
                            },
                        }
                        j = c + 1;
                    } else if str_eq(name.local_name.as_str(), "Property") {
                        match p_property_elem(toks, j, c) {
                            Ok(p) => {
                                props.push(p);
                                proof {
                                    let rest = parse_option_items(t, c + 1, e as int);
                                    match rest {
                                        Ok(c2) => {
                                            assert(psv + (seq![
                                                parse_property_elem(t, j as int, c as int)->Ok_0,
                                            ] + c2.properties) =~= views_of(props@)
                                                + c2.properties);
                                        },
                                        Err(_) => {},
                                    }
                                }
                            },
                            Err(er) => {
                                return Err(er);
                            },
                        }
                        j = c + 1;
                    } else if str_eq(name.local_name.as_str(), "Value") {
                        match p_value_elem(toks, j, c) {
                            Ok(_) => {},
                            Err(er) => {
                                return Err(er);
                            },
                        }
                        j = c + 1;
                    } else if str_eq(name.local_name.as_str(), "ParameterRef") {
                        j = c + 1;
                    } else {
                        return Err(misplaced_error(name, *pos));
                    }
                } else {
                    j = c + 1;
                }
            },
            XmlTok::ElemEnd { pos } => {
                return Err(schema_error("Unbalanced document", *pos));
            },
            XmlTok::DocEnd { pos } => {
                return Err(schema_error("Unexpected end of document", *pos));
            },
            XmlTok::Fault { msg, pos } => {
                return Err(ParsePrintSchemaError::InvalidXml {
                    pos: *pos,
                    message: clone_string(msg),
                });
            },
            _ => {
                j = j + 1;
            },
        }
    }
    proof {
        let rest = parse_option_items(t, j as int, e as int);
        match rest {
            Ok(c2) => {
                assert(views_of(sps@) + c2.scored_properties =~= views_of(sps@));
                assert(views_of(props@) + c2.properties =~= views_of(props@));
            },
            Err(_) => {},
        }
    }
    Ok(OptContent { scored_properties: sps, properties: props })
}

/// Parse an `Option` element whose start token is at `i` and whose end
/// token is at `e`.
fn p_option_elem(toks: &Vec<XmlTok>, i: usize, e: usize) -> (r: Result<
    PrintFeatureOption,
    ParsePrintSchemaError,
>)
    requires
        i < e <= toks@.len(),
    ensures
        match r {
            Ok(p) => parse_option_elem(tv(toks@), i as int, e as int) == Ok::<_, ParseErrV>(p@),
            Err(er) => parse_option_elem(tv(toks@), i as int, e as int) == Err::<
                crate::schema::PrintFeatureOptionV,
                _,
            >(er@),
        },
    decreases e - i,
{
    let ghost t = tv(toks@);
    match &toks[i] {
        XmlTok::ElemStart { name, attrs, bindings, pos } => {
            let n = name_attr(attrs, bindings);
            match p_option_items(toks, i + 1, e) {
                Ok(c) => Ok(PrintFeatureOption {
                    name: n,
                    scored_properties: c.scored_properties,
                    properties: c.properties,
                }),
                Err(er) => Err(er),
            }
        },
        _ => Err(schema_error("Unbalanced document", TextPos { row: 0, column: 0 })),
    }
}

/// What a feature element's content parses to.
pub struct FeatContent {
    /// The child properties, in document order.
    pub properties: Vec<Property>,
    /// The options, in document order.
    pub options: Vec<PrintFeatureOption>,
    /// The sub-features, in document order.
    pub features: Vec<PrintFeature>,
}

impl View for FeatContent {
    type V = FeatContentV;

    open spec fn view(&self) -> FeatContentV {
        FeatContentV {
            properties: views_of(self.properties@),
            options: views_of(self.options@),
            features: views_of(self.features@),
        }
    }
}

/// Combine accumulated feature content with the parse of the remaining
/// items.
pub open spec fn feat_append(
    ps: Seq<PropertyV>,
    os: Seq<crate::schema::PrintFeatureOptionV>,
    fs: Seq<crate::schema::PrintFeatureV>,
    rest: Result<FeatContentV, ParseErrV>,
) -> Result<FeatContentV, ParseErrV> {
    match rest {
        Ok(c) => Ok(FeatContentV {
            properties: ps + c.properties,
            options: os + c.options,
            features: fs + c.features,
        }),
        Err(x) => Err(x),
    }
}

proof fn lemma_feat_append_nil(rest: Result<FeatContentV, ParseErrV>)
    ensures
        feat_append(
            Seq::<PropertyV>::empty(),
            Seq::<crate::schema::PrintFeatureOptionV>::empty(),
            Seq::<crate::schema::PrintFeatureV>::empty(),
            rest,
        ) == rest,
{
    match rest {
        Ok(c) => {
            assert(Seq::<PropertyV>::empty() + c.properties =~= c.properties);
            assert(Seq::<crate::schema::PrintFeatureOptionV>::empty() + c.options =~= c.options);
            assert(Seq::<crate::schema::PrintFeatureV>::empty() + c.features =~= c.features);
            assert(feat_append(
                Seq::<PropertyV>::empty(),
                Seq::<crate::schema::PrintFeatureOptionV>::empty(),
                Seq::<crate::schema::PrintFeatureV>::empty(),
                rest,
            )->Ok_0 =~~= c);
        },
        Err(_) => {},
    }
}

/// Parse the items of a feature element's content in `[i, e)`.
fn p_feature_items(toks: &Vec<XmlTok>, i: usize, e: usize) -> (r: Result<
    FeatContent,
    ParsePrintSchemaError,
>)
    requires
        e <= toks@.len(),
    ensures
        match r {
            Ok(c) => parse_feature_items(tv(toks@), i as int, e as int) == Ok::<_, ParseErrV>(c@),
            Err(er) => parse_feature_items(tv(toks@), i as int, e as int) == Err::<
                FeatContentV,
                _,
            >(er@),
        },
    decreases e - i,
{
    let ghost t = tv(toks@);
    let mut props: Vec<Property> = Vec::new();
    let mut opts: Vec<PrintFeatureOption> = Vec::new();
    let mut feats: Vec<PrintFeature> = Vec::new();
    let mut j: usize = i;
    proof {
        lemma_feat_append_nil(parse_feature_items(t, i as int, e as int));
    }
    while j < e
        invariant
            i <= j,
            j <= e || j == i,
            e <= toks@.len(),
            t == tv(toks@),
            parse_feature_items(t, i as int, e as int) == feat_append(
                views_of(props@),
                views_of(opts@),
                views_of(feats@),
                parse_feature_items(t, j as int, e as int),
            ),
        decreases e - j,
    {
        let ghost psv = views_of(props@);
        let ghost osv = views_of(opts@);
        let ghost fsv = views_of(feats@);
        match &toks[j] {
            XmlTok::ElemStart { name, attrs, bindings, pos } => {
                let c = match find_end(toks, j + 1) {
                    Option::Some(c) => {
                        if c >= e {
                            return Err(stream_fault(toks, j + 1));
                        }
                        c
                    },
                    Option::None => {
                        return Err(stream_fault(toks, j + 1));
                    },
                };
                if name.has_ns(NS_PSF) {
                    if str_eq(name.local_name.as_str(), "Option") {
                        match p_option_elem(toks, j, c) {
                            Ok(o) => {
                                opts.push(o);
                                proof {
                                    let rest = parse_feature_items(t, c + 1, e as int);
                                    match rest {
                                        Ok(c2) => {
                                            assert(osv + (seq![
                                                parse_option_elem(t, j as int, c as int)->Ok_0,
                                            ] + c2.options) =~= views_of(opts@) + c2.options);
                                        },
                                        Err(_) => {},
                                    }
                                }
                            },
                            Err(er) => {
                                return Err(er);
                            },
                        }
                        j = c + 1;
                    } else if str_eq(name.local_name.as_str(), "Property") {
                        match p_property_elem(toks, j, c) {
                            Ok(p) => {
                                props.push(p);
                                proof {
                                    let rest = parse_feature_items(t, c + 1, e as int);
                                    match rest {
                                        Ok(c2) => {
                                            assert(psv + (seq![
                                                parse_property_elem(t, j as int, c as int)->Ok_0,
                                            ] + c2.properties) =~= views_of(props@)
                                                + c2.properties);
                                        },
                                        Err(_) => {},
                                    }
                                }
                            },
                            Err(er) => {
                                return Err(er);
                            },
                        }
                        j = c + 1;
                    } else if str_eq(name.local_name.as_str(), "Feature") {
                        match p_feature_elem(toks, j, c) {
                            Ok(f) => {
                                feats.push(f);
                                proof {
                                    let rest = parse_feature_items(t, c + 1, e as int);
                                    match rest {
                                        Ok(c2) => {
                                            assert(fsv + (seq![
                                                parse_feature_elem(t, j as int, c as int)->Ok_0,
                                            ] + c2.features) =~= views_of(feats@) + c2.features);
                                        },
                                        Err(_) => {},
                                    }
                                }
                            },
                            Err(er) => {
                                return Err(er);
                            },
                        }
                        j = c + 1;
                    } else if str_eq(name.local_name.as_str(), "Value") {
                        match p_value_elem(toks, j, c) {
                            Ok(_) => {},
                            Err(er) => {
                                return Err(er);
                            },
                        }
                        j = c + 1;
                    } else if str_eq(name.local_name.as_str(), "ParameterRef") {
                        j = c + 1;
                    } else {
                        return Err(misplaced_error(name, *pos));
                    }
                } else {
                    j = c + 1;
                }
            },
            XmlTok::ElemEnd { pos } => {
                return Err(schema_error("Unbalanced document", *pos));
            },
            XmlTok::DocEnd { pos } => {
                return Err(schema_error("Unexpected end of document", *pos));
            },
            XmlTok::Fault { msg, pos } => {
                return Err(ParsePrintSchemaError::InvalidXml {
                    pos: *pos,
                    message: clone_string(msg),
                });
            },
            _ => {
                j = j + 1;
            },
        }
    }
    proof {
        let rest = parse_feature_items(t, j as int, e as int);
        match rest {
            Ok(c2) => {
                assert(views_of(props@) + c2.properties =~= views_of(props@));
                assert(views_of(opts@) + c2.options =~= views_of(opts@));
                assert(views_of(feats@) + c2.features =~= views_of(feats@));
            },
            Err(_) => {},
        }
    }
    Ok(FeatContent { properties: props, options: opts, features: feats })
}

/// Parse a `Feature` element whose start token is at `i` and whose end
/// token is at `e`.
fn p_feature_elem(toks: &Vec<XmlTok>, i: usize, e: usize) -> (r: Result<
    PrintFeature,
    ParsePrintSchemaError,
>)
    requires
        i < e <= toks@.len(),
    ensures
        match r {
            Ok(p) => parse_feature_elem(tv(toks@), i as int, e as int) == Ok::<_, ParseErrV>(p@),
            Err(er) => parse_feature_elem(tv(toks@), i as int, e as int) == Err::<
                crate::schema::PrintFeatureV,
                _,
            >(er@),
        },
    decreases e - i,
{
    let ghost t = tv(toks@);
    match &toks[i] {
        XmlTok::ElemStart { name, attrs, bindings, pos } => {
            match name_attr(attrs, bindings) {
                Option::Some(n) => {
                    match p_feature_items(toks, i + 1, e) {
                        Ok(c) => Ok(PrintFeature {
                            name: n,
                            properties: c.properties,
                            options: c.options,
                            features: c.features,
                        }),
                        Err(er) => Err(er),
                    }
                },
                Option::None => Err(schema_error("Feature name not found", *pos)),
            }
        },
        _ => Err(schema_error("Unbalanced document", TextPos { row: 0, column: 0 })),
    }
}

/// Combine accumulated parameter-declaration properties with the parse of
/// the remaining items.
pub open spec fn pdef_append(
    ps: Seq<PropertyV>,
    rest: Result<Seq<PropertyV>, ParseErrV>,
) -> Result<Seq<PropertyV>, ParseErrV> {
    match rest {
        Ok(c) => Ok(ps + c),
        Err(x) => Err(x),
    }
}

proof fn lemma_pdef_append_nil(rest: Result<Seq<PropertyV>, ParseErrV>)
    ensures
        pdef_append(Seq::<PropertyV>::empty(), rest) == rest,
{
    match rest {
        Ok(c) => {
            assert(Seq::<PropertyV>::empty() + c =~= c);
        },
        Err(_) => {},
    }
}

/// Parse the items of a parameter declaration's content in `[i, e)`.
fn p_pdef_items(toks: &Vec<XmlTok>, i: usize, e: usize) -> (r: Result<
    Vec<Property>,
    ParsePrintSchemaError,
>)
    requires
        e <= toks@.len(),
    ensures
        match r {
            Ok(c) => parse_pdef_items(tv(toks@), i as int, e as int) == Ok::<_, ParseErrV>(
                views_of(c@),
            ),
            Err(er) => parse_pdef_items(tv(toks@), i as int, e as int) == Err::<
                Seq<PropertyV>,
                _,
            >(er@),
        },
    decreases e - i,
{
    let ghost t = tv(toks@);
    let mut props: Vec<Property> = Vec::new();
    let mut j: usize = i;
    proof {
        lemma_pdef_append_nil(parse_pdef_items(t, i as int, e as int));
    }
    while j < e
        invariant
            i <= j,
            j <= e || j == i,
            e <= toks@.len(),
            t == tv(toks@),
            parse_pdef_items(t, i as int, e as int) == pdef_append(
                views_of(props@),
                parse_pdef_items(t, j as int, e as int),
            ),
        decreases e - j,
    {
        let ghost psv = views_of(props@);
        match &toks[j] {
            XmlTok::ElemStart { name, attrs, bindings, pos } => {
                let c = match find_end(toks, j + 1) {
                    Option::Some(c) => {
                        if c >= e {
                            return Err(stream_fault(toks, j + 1));
                        }
                        c
                    },
                    Option::None => {
                        return Err(stream_fault(toks, j + 1));
                    },
                };
                if name.has_ns(NS_PSF) {
                    if str_eq(name.local_name.as_str(), "Property") {
                        match p_property_elem(toks, j, c) {
                            Ok(p) => {
                                props.push(p);
                                proof {
                                    let rest = parse_pdef_items(t, c + 1, e as int);
                                    match rest {
                                        Ok(c2) => {
                                            assert(psv + (seq![
                                                parse_property_elem(t, j as int, c as int)->Ok_0,
                                            ] + c2) =~= views_of(props@) + c2);
                                        },
                                        Err(_) => {},
                                    }
                                }
                            },
                            Err(er) => {
                                return Err(er);
                            },
                        }
                        j = c + 1;
                    } else if str_eq(name.local_name.as_str(), "Value") {
                        match p_value_elem(toks, j, c) {
                            Ok(_) => {},
                            Err(er) => {
                                return Err(er);
                            },
                        }
                        j = c + 1;
                    } else if str_eq(name.local_name.as_str(), "ParameterRef") {
                        j = c + 1;
                    } else {
                        return Err(misplaced_error(name, *pos));
                    }
                } else {
                    j = c + 1;
                }
            },
            XmlTok::ElemEnd { pos } => {
                return Err(schema_error("Unbalanced document", *pos));
            },
            XmlTok::DocEnd { pos } => {
                return Err(schema_error("Unexpected end of document", *pos));
            },
            XmlTok::Fault { msg, pos } => {
                return Err(ParsePrintSchemaError::InvalidXml {
                    pos: *pos,
                    message: clone_string(msg),
                });
            },
            _ => {
                j = j + 1;
            },
        }
    }
    proof {
        let rest = parse_pdef_items(t, j as int, e as int);
        match rest {
            Ok(c2) => {
                assert(views_of(props@) + c2 =~= views_of(props@));
            },
            Err(_) => {},
        }
    }
    Ok(props)
}

/// Parse a `ParameterDef` element whose start token is at `i` and whose
/// end token is at `e`.
fn p_pdef_elem(toks: &Vec<XmlTok>, i: usize, e: usize) -> (r: Result<
    ParameterDef,
    ParsePrintSchemaError,
>)
    requires
        i < e <= toks@.len(),
    ensures
        match r {
            Ok(p) => parse_pdef_elem(tv(toks@), i as int, e as int) == Ok::<_, ParseErrV>(p@),
            Err(er) => parse_pdef_elem(tv(toks@), i as int, e as int) == Err::<
                crate::schema::ParameterDefV,
                _,
            >(er@),
        },
    decreases e - i,
{
    let ghost t = tv(toks@);
    match &toks[i] {
        XmlTok::ElemStart { name, attrs, bindings, pos } => {
            match name_attr(attrs, bindings) {
                Option::Some(n) => {
                    match p_pdef_items(toks, i + 1, e) {
                        Ok(props) => Ok(ParameterDef { name: n, properties: props }),
                        Err(er) => Err(er),
                    }
                },
                Option::None => Err(schema_error("ParameterDef name not found", *pos)),
            }
        },
        _ => Err(schema_error("Unbalanced document", TextPos { row: 0, column: 0 })),
    }
}

/// Combine an accumulated value with the parse of the remaining items of a
/// parameter initialization.
pub open spec fn pinit_append(
    v0: Option<PropertyValueV>,
    rest: Result<Option<PropertyValueV>, ParseErrV>,
) -> Result<Option<PropertyValueV>, ParseErrV> {
    match rest {
        Ok(c) => Ok(
            if c is Some {
                c
            } else {
                v0
            },
        ),
        Err(x) => Err(x),
    }
}

/// Parse the items of a parameter initialization's content in `[i, e)`.
fn p_pinit_items(toks: &Vec<XmlTok>, i: usize, e: usize) -> (r: Result<
    Option<PropertyValue>,
    ParsePrintSchemaError,
>)
    requires
        e <= toks@.len(),
    ensures
        match r {
            Ok(Some(v)) => parse_pinit_items(tv(toks@), i as int, e as int) == Ok::<_, ParseErrV>(
                Some(v@),
            ),
            Ok(None::<PropertyValue>) => parse_pinit_items(tv(toks@), i as int, e as int) == Ok::<
                Option<PropertyValueV>,
                ParseErrV,
            >(None),
            Err(er) => parse_pinit_items(tv(toks@), i as int, e as int) == Err::<
                Option<PropertyValueV>,
                _,
            >(er@),
        },
    decreases e - i,
{
    let ghost t = tv(toks@);
    let mut cur_val: Option<PropertyValue> = None;
    let mut j: usize = i;
    while j < e
        invariant
            i <= j,
            j <= e || j == i,
            e <= toks@.len(),
            t == tv(toks@),
            parse_pinit_items(t, i as int, e as int) == pinit_append(
                match cur_val {
                    Option::Some(ref v) => Option::Some(v@),
                    Option::None => Option::None,
                },
                parse_pinit_items(t, j as int, e as int),
            ),
        decreases e - j,
    {
        match &toks[j] {
            XmlTok::ElemStart { name, attrs, bindings, pos } => {
                let c = match find_end(toks, j + 1) {
                    Option::Some(c) => {
                        if c >= e {
                            return Err(stream_fault(toks, j + 1));
                        }
                        c
                    },
                    Option::None => {
                        return Err(stream_fault(toks, j + 1));
                    },
                };
                if name.has_ns(NS_PSF) {
                    if str_eq(name.local_name.as_str(), "Value") {
                        match p_value_elem(toks, j, c) {
                            Ok(vopt) => {
                                if let Option::Some(vv) = vopt {
                                    cur_val = Some(vv);
                                }
                            },
                            Err(er) => {
                                return Err(er);
                            },
                        }
                        j = c + 1;
                    } else if str_eq(name.local_name.as_str(), "ParameterRef") {
                        j = c + 1;
                    } else {
                        return Err(misplaced_error(name, *pos));
                    }
                } else {
                    j = c + 1;
                }
            },
            XmlTok::ElemEnd { pos } => {
                return Err(schema_error("Unbalanced document", *pos));
            },
            XmlTok::DocEnd { pos } => {
                return Err(schema_error("Unexpected end of document", *pos));
            },
            XmlTok::Fault { msg, pos } => {
                return Err(ParsePrintSchemaError::InvalidXml {
                    pos: *pos,
                    message: clone_string(msg),
                });
            },
            _ => {
                j = j + 1;
            },
        }
    }
    Ok(cur_val)
}

/// Parse a `ParameterInit` element whose start token is at `i` and whose
/// end token is at `e`.
fn p_pinit_elem(toks: &Vec<XmlTok>, i: usize, e: usize) -> (r: Result<
    ParameterInit,
    ParsePrintSchemaError,
>)
    requires
        i < e <= toks@.len(),
    ensures
        match r {
            Ok(p) => parse_pinit_elem(tv(toks@), i as int, e as int) == Ok::<_, ParseErrV>(p@),
            Err(er) => parse_pinit_elem(tv(toks@), i as int, e as int) == Err::<
                crate::schema::ParameterInitV,
                _,
            >(er@),
        },
    decreases e - i,
{
    let ghost t = tv(toks@);
    match &toks[i] {
        XmlTok::ElemStart { name, attrs, bindings, pos } => {
            match name_attr(attrs, bindings) {
                Option::Some(n) => {
                    match p_pinit_items(toks, i + 1, e) {
                        Ok(Some(v)) => Ok(ParameterInit { name: n, value: v }),
                        Ok(None) => Err(schema_error("ParameterInit value not found", *pos)),
                        Err(er) => Err(er),
                    }
                },
                Option::None => Err(schema_error("ParameterInit name not found", *pos)),
            }
        },
        _ => Err(schema_error("Unbalanced document", TextPos { row: 0, column: 0 })),
    }
}

/// Combine accumulated capabilities content with the parse of the
/// remaining items.
pub open spec fn caps_append(
    ps: Seq<PropertyV>,
    ds: Seq<crate::schema::ParameterDefV>,
    fs: Seq<crate::schema::PrintFeatureV>,
    rest: Result<crate::schema::PrintCapabilitiesDocumentV, ParseErrV>,
) -> Result<crate::schema::PrintCapabilitiesDocumentV, ParseErrV> {
    match rest {
        Ok(c) => Ok(crate::schema::PrintCapabilitiesDocumentV {
            properties: ps + c.properties,
            parameter_defs: ds + c.parameter_defs,
            features: fs + c.features,
        }),
        Err(x) => Err(x),
    }
}

proof fn lemma_caps_append_nil(rest: Result<crate::schema::PrintCapabilitiesDocumentV, ParseErrV>)
    ensures
        caps_append(
            Seq::<PropertyV>::empty(),
            Seq::<crate::schema::ParameterDefV>::empty(),
            Seq::<crate::schema::PrintFeatureV>::empty(),
            rest,
        ) == rest,
{
    match rest {
        Ok(c) => {
            assert(Seq::<PropertyV>::empty() + c.properties =~= c.properties);
            assert(Seq::<crate::schema::ParameterDefV>::empty() + c.parameter_defs
                =~= c.parameter_defs);
            assert(Seq::<crate::schema::PrintFeatureV>::empty() + c.features =~= c.features);
            assert(caps_append(
                Seq::<PropertyV>::empty(),
                Seq::<crate::schema::ParameterDefV>::empty(),
                Seq::<crate::schema::PrintFeatureV>::empty(),
                rest,
            )->Ok_0 =~~= c);
        },
        Err(_) => {},
    }
}

/// Parse the items of a PrintCapabilities root's content in `[i, e)`.
fn p_caps_items(toks: &Vec<XmlTok>, i: usize, e: usize) -> (r: Result<
    PrintCapabilitiesDocument,
    ParsePrintSchemaError,
>)
    requires
        e <= toks@.len(),
    ensures
        match r {
            Ok(c) => parse_caps_items(tv(toks@), i as int, e as int) == Ok::<_, ParseErrV>(c@),
            Err(er) => parse_caps_items(tv(toks@), i as int, e as int) == Err::<
                crate::schema::PrintCapabilitiesDocumentV,
                _,
            >(er@),
        },
    decreases e - i,
{
    let ghost t = tv(toks@);
    let mut props: Vec<Property> = Vec::new();
    let mut defs: Vec<ParameterDef> = Vec::new();
    let mut feats: Vec<PrintFeature> = Vec::new();
    let mut j: usize = i;
    proof {
        lemma_caps_append_nil(parse_caps_items(t, i as int, e as int));
    }
    while j < e
        invariant
            i <= j,
            j <= e || j == i,
            e <= toks@.len(),
            t == tv(toks@),
            parse_caps_items(t, i as int, e as int) == caps_append(
                views_of(props@),
                views_of(defs@),
                views_of(feats@),
                parse_caps_items(t, j as int, e as int),
            ),
        decreases e - j,
    {
        let ghost psv = views_of(props@);
        let ghost dsv = views_of(defs@);
        let ghost fsv = views_of(feats@);
        match &toks[j] {
            XmlTok::ElemStart { name, attrs, bindings, pos } => {
                let c = match find_end(toks, j + 1) {
                    Option::Some(c) => {
                        if c >= e {
                            return Err(stream_fault(toks, j + 1));
                        }
                        c
                    },
                    Option::None => {
                        return Err(stream_fault(toks, j + 1));
                    },
                };
                if name.has_ns(NS_PSF) {
                    if str_eq(name.local_name.as_str(), "Property") {
                        match p_property_elem(toks, j, c) {
                            Ok(p) => {
                                props.push(p);
                                proof {
                                    let rest = parse_caps_items(t, c + 1, e as int);
                                    match rest {
                                        Ok(c2) => {
                                            assert(psv + (seq![
                                                parse_property_elem(t, j as int, c as int)->Ok_0,
                                            ] + c2.properties) =~= views_of(props@)
                                                + c2.properties);
                                        },
                                        Err(_) => {},
                                    }
                                }
                            },
                            Err(er) => {
                                return Err(er);
                            },
                        }
                        j = c + 1;
                    } else if str_eq(name.local_name.as_str(), "ParameterDef") {
                        match p_pdef_elem(toks, j, c) {
                            Ok(d) => {
                                defs.push(d);
                                proof {
                                    let rest = parse_caps_items(t, c + 1, e as int);
                                    match rest {
                                        Ok(c2) => {
                                            assert(dsv + (seq![
                                                parse_pdef_elem(t, j as int, c as int)->Ok_0,
                                            ] + c2.parameter_defs) =~= views_of(defs@)
                                                + c2.parameter_defs);
                                        },
                                        Err(_) => {},
                                    }
                                }
                            },
                            Err(er) => {
                                return Err(er);
                            },
                        }
                        j = c + 1;
                    } else if str_eq(name.local_name.as_str(), "Feature") {
                        match p_feature_elem(toks, j, c) {
                            Ok(f) => {
                                feats.push(f);
                                proof {
                                    let rest = parse_caps_items(t, c + 1, e as int);
                                    match rest {
                                        Ok(c2) => {
                                            assert(fsv + (seq![
                                                parse_feature_elem(t, j as int, c as int)->Ok_0,
                                            ] + c2.features) =~= views_of(feats@) + c2.features);
                                        },
                                        Err(_) => {},
                                    }
                                }
                            },
                            Err(er) => {
                                return Err(er);
                            },
                        }
                        j = c + 1;
                    } else if str_eq(name.local_name.as_str(), "Value") {
                        match p_value_elem(toks, j, c) {
                            Ok(_) => {},
                            Err(er) => {
                                return Err(er);
                            },
                        }
                        j = c + 1;
                    } else if str_eq(name.local_name.as_str(), "ParameterRef") {
                        j = c + 1;
                    } else {
                        return Err(misplaced_error(name, *pos));
                    }
                } else {
                    j = c + 1;
                }
            },
            XmlTok::ElemEnd { pos } => {
                return Err(schema_error("Unbalanced document", *pos));
            },
            XmlTok::DocEnd { pos } => {
                return Err(schema_error("Unexpected end of document", *pos));
            },
            XmlTok::Fault { msg, pos } => {
                return Err(ParsePrintSchemaError::InvalidXml {
                    pos: *pos,
                    message: clone_string(msg),
                });
            },
            _ => {
                j = j + 1;
            },
        }
    }
    proof {
        let rest = parse_caps_items(t, j as int, e as int);
        match rest {
            Ok(c2) => {
                assert(views_of(props@) + c2.properties =~= views_of(props@));
                assert(views_of(defs@) + c2.parameter_defs =~= views_of(defs@));
                assert(views_of(feats@) + c2.features =~= views_of(feats@));
            },
            Err(_) => {},
        }
    }
    Ok(PrintCapabilitiesDocument { properties: props, parameter_defs: defs, features: feats })
}

/// Combine accumulated ticket content with the parse of the remaining
/// items.
pub open spec fn ticket_append(
    ps: Seq<PropertyV>,
    is0: Seq<crate::schema::ParameterInitV>,
    fs: Seq<crate::schema::PrintFeatureV>,
    rest: Result<crate::schema::PrintTicketDocumentV, ParseErrV>,
) -> Result<crate::schema::PrintTicketDocumentV, ParseErrV> {
    match rest {
        Ok(c) => Ok(crate::schema::PrintTicketDocumentV {
            properties: ps + c.properties,
            parameter_inits: is0 + c.parameter_inits,
            features: fs + c.features,
        }),
        Err(x) => Err(x),
    }
}

proof fn lemma_ticket_append_nil(rest: Result<crate::schema::PrintTicketDocumentV, ParseErrV>)
    ensures
        ticket_append(
            Seq::<PropertyV>::empty(),
            Seq::<crate::schema::ParameterInitV>::empty(),
            Seq::<crate::schema::PrintFeatureV>::empty(),
            rest,
        ) == rest,
{
    match rest {
        Ok(c) => {
            assert(Seq::<PropertyV>::empty() + c.properties =~= c.properties);
            assert(Seq::<crate::schema::ParameterInitV>::empty() + c.parameter_inits
                =~= c.parameter_inits);
            assert(Seq::<crate::schema::PrintFeatureV>::empty() + c.features =~= c.features);
            assert(ticket_append(
                Seq::<PropertyV>::empty(),
                Seq::<crate::schema::ParameterInitV>::empty(),
                Seq::<crate::schema::PrintFeatureV>::empty(),
                rest,
            )->Ok_0 =~~= c);
        },
        Err(_) => {},
    }
}

/// Parse the items of a PrintTicket root's content in `[i, e)`.
fn p_ticket_items(toks: &Vec<XmlTok>, i: usize, e: usize) -> (r: Result<
    PrintTicketDocument,
    ParsePrintSchemaError,
>)
    requires
        e <= toks@.len(),
    ensures
        match r {
            Ok(c) => parse_ticket_items(tv(toks@), i as int, e as int) == Ok::<_, ParseErrV>(c@),
            Err(er) => parse_ticket_items(tv(toks@), i as int, e as int) == Err::<
                crate::schema::PrintTicketDocumentV,
                _,
            >(er@),
        },
    decreases e - i,
{
    let ghost t = tv(toks@);
    let mut props: Vec<Property> = Vec::new();
    let mut inits: Vec<ParameterInit> = Vec::new();
    let mut feats: Vec<PrintFeature> = Vec::new();
    let mut j: usize = i;
    proof {
        lemma_ticket_append_nil(parse_ticket_items(t, i as int, e as int));
    }
    while j < e
        invariant
            i <= j,
            j <= e || j == i,
            e <= toks@.len(),
            t == tv(toks@),
            parse_ticket_items(t, i as int, e as int) == ticket_append(
                views_of(props@),
                views_of(inits@),
                views_of(feats@),
                parse_ticket_items(t, j as int, e as int),
            ),
        decreases e - j,
    {
        let ghost psv = views_of(props@);
        let ghost isv = views_of(inits@);
        let ghost fsv = views_of(feats@);
        match &toks[j] {
            XmlTok::ElemStart { name, attrs, bindings, pos } => {
                let c = match find_end(toks, j + 1) {
                    Option::Some(c) => {
                        if c >= e {
                            return Err(stream_fault(toks, j + 1));
                        }
                        c
                    },
                    Option::None => {
                        return Err(stream_fault(toks, j + 1));
                    },
                };
                if name.has_ns(NS_PSF) {
                    if str_eq(name.local_name.as_str(), "Property") {
                        match p_property_elem(toks, j, c) {
                            Ok(p) => {
                                props.push(p);
                                proof {
                                    let rest = parse_ticket_items(t, c + 1, e as int);
                                    match rest {
                                        Ok(c2) => {
                                            assert(psv + (seq![
                                                parse_property_elem(t, j as int, c as int)->Ok_0,
                                            ] + c2.properties) =~= views_of(props@)
                                                + c2.properties);
                                        },
                                        Err(_) => {},
                                    }
                                }
                            },
                            Err(er) => {
                                return Err(er);
                            },
                        }
                        j = c + 1;
                    } else if str_eq(name.local_name.as_str(), "ParameterInit") {
                        match p_pinit_elem(toks, j, c) {
                            Ok(d) => {
                                inits.push(d);
                                proof {
                                    let rest = parse_ticket_items(t, c + 1, e as int);
                                    match rest {
                                        Ok(c2) => {
                                            assert(isv + (seq![
                                                parse_pinit_elem(t, j as int, c as int)->Ok_0,
                                            ] + c2.parameter_inits) =~= views_of(inits@)
                                                + c2.parameter_inits);
                                        },
                                        Err(_) => {},
                                    }
                                }
                            },
                            Err(er) => {
                                return Err(er);
                            },
                        }
                        j = c + 1;
                    } else if str_eq(name.local_name.as_str(), "Feature") {
                        match p_feature_elem(toks, j, c) {
                            Ok(f) => {
                                feats.push(f);
                                proof {
                                    let rest = parse_ticket_items(t, c + 1, e as int);
                                    match rest {
                                        Ok(c2) => {
                                            assert(fsv + (seq![
                                                parse_feature_elem(t, j as int, c as int)->Ok_0,
                                            ] + c2.features) =~= views_of(feats@) + c2.features);
                                        },
                                        Err(_) => {},
                                    }
                                }
                            },
                            Err(er) => {
                                return Err(er);
                            },
                        }
                        j = c + 1;
                    } else if str_eq(name.local_name.as_str(), "Value") {
                        match p_value_elem(toks, j, c) {
                            Ok(_) => {},
                            Err(er) => {
                                return Err(er);
                            },
                        }
                        j = c + 1;
                    } else if str_eq(name.local_name.as_str(), "ParameterRef") {
                        j = c + 1;
                    } else {
                        return Err(misplaced_error(name, *pos));
                    }
                } else {
                    j = c + 1;
                }
            },
            XmlTok::ElemEnd { pos } => {
                return Err(schema_error("Unbalanced document", *pos));
            },
            XmlTok::DocEnd { pos } => {
                return Err(schema_error("Unexpected end of document", *pos));
            },
            XmlTok::Fault { msg, pos } => {
                return Err(ParsePrintSchemaError::InvalidXml {
                    pos: *pos,
                    message: clone_string(msg),
                });
            },
            _ => {
                j = j + 1;
            },
        }
    }
    proof {
        let rest = parse_ticket_items(t, j as int, e as int);
        match rest {
            Ok(c2) => {
                assert(views_of(props@) + c2.properties =~= views_of(props@));
                assert(views_of(inits@) + c2.parameter_inits =~= views_of(inits@));
                assert(views_of(feats@) + c2.features =~= views_of(feats@));
            },
            Err(_) => {},
        }
    }
    Ok(PrintTicketDocument { properties: props, parameter_inits: inits, features: feats })
}

/// Parse a document from the token stream, scanning from `i` for the root
/// element.
fn p_doc_from(toks: &Vec<XmlTok>, i: usize) -> (r: Result<
    PrintSchemaDocument,
    ParsePrintSchemaError,
>)
    requires
        i <= toks@.len(),
    ensures
        match r {
            Ok(d) => parse_doc_from(tv(toks@), i as int) == Ok::<_, ParseErrV>(d@),
            Err(er) => parse_doc_from(tv(toks@), i as int) == Err::<
                crate::schema::PrintSchemaDocumentV,
                _,
            >(er@),
        },
{
    let ghost t = tv(toks@);
    let mut j: usize = i;
    while j < toks.len()
        invariant
            i <= j <= toks@.len(),
            t == tv(toks@),
            parse_doc_from(t, i as int) == parse_doc_from(t, j as int),
        decreases toks@.len() - j,
    {
        match &toks[j] {
            XmlTok::ElemStart { name, attrs, bindings, pos } => {
                let c = match find_end(toks, j + 1) {
                    Option::Some(c) => c,
                    Option::None => {
                        return Err(stream_fault(toks, j + 1));
                    },
                };
                if name.has_ns(NS_PSF) {
                    if str_eq(name.local_name.as_str(), "PrintCapabilities") {
                        return match p_caps_items(toks, j + 1, c) {
                            Ok(d) => Ok(PrintSchemaDocument::PrintCapabilities(d)),
                            Err(er) => Err(er),
                        };
                    } else if str_eq(name.local_name.as_str(), "PrintTicket") {
                        return match p_ticket_items(toks, j + 1, c) {
                            Ok(d) => Ok(PrintSchemaDocument::PrintTicket(d)),
                            Err(er) => Err(er),
                        };
                    } else if str_eq(name.local_name.as_str(), "Value") || str_eq(
                        name.local_name.as_str(),
                        "ParameterRef",
                    ) {
                        j = c + 1;
                    } else {
                        return Err(misplaced_error(name, *pos));
                    }
                } else {
                    j = c + 1;
                }
            },
            XmlTok::ElemEnd { pos } => {
                return Err(schema_error("Unbalanced document", *pos));
            },
            XmlTok::DocEnd { pos } => {
                return Err(schema_error("No valid root element found", *pos));
            },
            XmlTok::Fault { msg, pos } => {
                return Err(ParsePrintSchemaError::InvalidXml {
                    pos: *pos,
                    message: clone_string(msg),
                });
            },
            _ => {
                j = j + 1;
            },
        }
    }
    Err(schema_error("No valid root element found", TextPos { row: 0, column: 0 }))
}

/// Parse a Print Schema document from a token stream.
pub fn parse_tokens(toks: &Vec<XmlTok>) -> (r: Result<
    PrintSchemaDocument,
    ParsePrintSchemaError,
>)
    ensures
        match r {
            Ok(d) => parse_doc(tv(toks@)) == Ok::<_, ParseErrV>(d@),
            Err(er) => parse_doc(tv(toks@)) == Err::<crate::schema::PrintSchemaDocumentV, _>(er@),
        },
{
    p_doc_from(toks, 0)
}

} // verus!
