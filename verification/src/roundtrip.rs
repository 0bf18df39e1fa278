//! The round-trip law: parsing the canonical token stream of a
//! well-formed document gives the document back, and its canonical form is
//! therefore stable.
//!
//! Well-formedness asks only what serialization cannot invent: prefixes
//! hold no colon, a name without a prefix has no namespace, every prefix
//! resolves through the document's collected bindings to the namespace the
//! name carries, and an unknown-typed value does not masquerade as a
//! built-in type.

use vstd::prelude::*;
use crate::qname::{fmt_name, QNameV, NS_XSD};
use crate::schema::{
    xsi_type_v, ParameterDefV, ParameterInitV, PrintCapabilitiesDocumentV, PrintFeatureOptionV,
    PrintFeatureV, PrintSchemaDocumentV, PrintTicketDocumentV, PropertyV, PropertyValueV,
    ScoredPropertyV,
};
use crate::tokens::{NsBindingV, XmlTokV};
use crate::numeric::lemma_parse_i32_dec;
use crate::parse_spec::{
    child_end, child_ok, find_attr, find_colon, match_end_from, name_attr_of, ns_lookup,
    parse_caps_items, parse_doc, parse_feature_elem, parse_feature_items, parse_option_elem,
    parse_option_items, parse_pdef_elem, parse_pdef_items, parse_pinit_elem, parse_pinit_items,
    parse_prop_items, parse_property_elem, parse_sp_elem, parse_sp_items, parse_ticket_items,
    parse_value_elem, parse_value_text, qname_of_text, type_attr_of, FeatContentV, OptContentV,
    ParseErrV, PropContentV, SpContentV,
};
use crate::ser_spec::{
    end_tok, name_attr_tok, opt_name_attrs, ser_opt_value, ser_value, start_tok, type_attr_tok,
    val_text,
};

verus! {

/// Whether a character sequence holds no colon.
pub open spec fn colon_free(s: Seq<char>) -> bool {
    forall|i: int| 0 <= i < s.len() ==> s[i] != ':'
}

/// A name serializes and reparses to itself under the bindings `bs`: a
/// prefix holds no colon and resolves to the name's namespace, and a name
/// without a prefix has no namespace and a colon-free local name.
pub open spec fn wf_qname(n: QNameV, bs: Seq<NsBindingV>) -> bool {
    match n.prefix {
        Some(p) => colon_free(p) && ns_lookup(bs, p) == n.namespace,
        None => n.namespace is None && colon_free(n.local_name),
    }
}

/// A value serializes and reparses to itself under the bindings `bs`. The
/// built-in encodings need the `xsd` prefix bound to the XML Schema
/// namespace; a qualified-name value must itself be well formed; an
/// unknown-typed value must be well formed and must not carry one of the
/// built-in type names, which would decode as the built-in type.
pub open spec fn wf_value(v: PropertyValueV, bs: Seq<NsBindingV>) -> bool {
    match v {
        PropertyValueV::String(_) => ns_lookup(bs, "xsd"@) == Some(NS_XSD@),
        PropertyValueV::Integer(i) => ns_lookup(bs, "xsd"@) == Some(NS_XSD@) && -0x8000_0000 <= i
            <= 0x7fff_ffff,
        PropertyValueV::QName(q) => ns_lookup(bs, "xsd"@) == Some(NS_XSD@) && wf_qname(q, bs),
        PropertyValueV::Unknown(t, _) => wf_qname(t, bs) && !(t.namespace == Some(NS_XSD@) && (
        t.local_name == "string"@ || t.local_name == "integer"@ || t.local_name == "QName"@)),
    }
}

/// An optional value is well formed when present.
pub open spec fn wf_opt_value(v: Option<PropertyValueV>, bs: Seq<NsBindingV>) -> bool {
    match v {
        Some(x) => wf_value(x, bs),
        None => true,
    }
}

/// An optional name is well formed when present.
pub open spec fn wf_opt_qname(n: Option<QNameV>, bs: Seq<NsBindingV>) -> bool {
    match n {
        Some(x) => wf_qname(x, bs),
        None => true,
    }
}

/// A property subtree is well formed under `bs`.
pub open spec fn wf_prop(p: PropertyV, bs: Seq<NsBindingV>) -> bool
    decreases p,
{
    wf_qname(p.name, bs) && wf_opt_value(p.value, bs) && wf_props(p.properties, bs)
}

/// A property list is well formed under `bs`.
pub open spec fn wf_props(ps: Seq<PropertyV>, bs: Seq<NsBindingV>) -> bool
    decreases ps,
{
    forall|i: int| 0 <= i < ps.len() ==> wf_prop(#[trigger] ps[i], bs)
}

/// A scored-property subtree is well formed under `bs`.
pub open spec fn wf_sp(sp: ScoredPropertyV, bs: Seq<NsBindingV>) -> bool
    decreases sp,
{
    wf_opt_qname(sp.name, bs) && wf_opt_qname(sp.parameter_ref, bs) && wf_opt_value(sp.value, bs)
        && wf_sps(sp.scored_properties, bs) && wf_props(sp.properties, bs)
}

/// A scored-property list is well formed under `bs`.
pub open spec fn wf_sps(sps: Seq<ScoredPropertyV>, bs: Seq<NsBindingV>) -> bool
    decreases sps,
{
    forall|i: int| 0 <= i < sps.len() ==> wf_sp(#[trigger] sps[i], bs)
}

/// An option subtree is well formed under `bs`.
pub open spec fn wf_option(o: PrintFeatureOptionV, bs: Seq<NsBindingV>) -> bool
    decreases o,
{
    wf_opt_qname(o.name, bs) && wf_sps(o.scored_properties, bs) && wf_props(o.properties, bs)
}

/// An option list is well formed under `bs`.
pub open spec fn wf_options(os: Seq<PrintFeatureOptionV>, bs: Seq<NsBindingV>) -> bool
    decreases os,
{
    forall|i: int| 0 <= i < os.len() ==> wf_option(#[trigger] os[i], bs)
}

/// A feature subtree is well formed under `bs`.
pub open spec fn wf_feature(f: PrintFeatureV, bs: Seq<NsBindingV>) -> bool
    decreases f,
{
    wf_qname(f.name, bs) && wf_options(f.options, bs) && wf_props(f.properties, bs) && wf_features(
        f.features,
        bs,
    )
}

/// A feature list is well formed under `bs`.
pub open spec fn wf_features(fs: Seq<PrintFeatureV>, bs: Seq<NsBindingV>) -> bool
    decreases fs,
{
    forall|i: int| 0 <= i < fs.len() ==> wf_feature(#[trigger] fs[i], bs)
}

/// A parameter declaration is well formed under `bs`.
pub open spec fn wf_pdef(d: ParameterDefV, bs: Seq<NsBindingV>) -> bool {
    wf_qname(d.name, bs) && wf_props(d.properties, bs)
}

/// A parameter-declaration list is well formed under `bs`.
pub open spec fn wf_pdefs(ds: Seq<ParameterDefV>, bs: Seq<NsBindingV>) -> bool {
    forall|i: int| 0 <= i < ds.len() ==> wf_pdef(#[trigger] ds[i], bs)
}

/// A parameter initialization is well formed under `bs`.
pub open spec fn wf_pinit(p: ParameterInitV, bs: Seq<NsBindingV>) -> bool {
    wf_qname(p.name, bs) && wf_value(p.value, bs)
}

/// A parameter-initialization list is well formed under `bs`.
pub open spec fn wf_pinits(ps: Seq<ParameterInitV>, bs: Seq<NsBindingV>) -> bool {
    forall|i: int| 0 <= i < ps.len() ==> wf_pinit(#[trigger] ps[i], bs)
}

/// A PrintCapabilities document is well formed: every name and value in it
/// round-trips under the bindings its serialization declares at the root.
pub open spec fn wf_caps(d: PrintCapabilitiesDocumentV) -> bool {
    wf_props(d.properties, crate::ser_spec::collect_caps(d)) && wf_pdefs(
        d.parameter_defs,
        crate::ser_spec::collect_caps(d),
    ) && wf_features(d.features, crate::ser_spec::collect_caps(d))
}

/// A PrintTicket document is well formed: every name and value in it
/// round-trips under the bindings its serialization declares at the root.
pub open spec fn wf_ticket(d: PrintTicketDocumentV) -> bool {
    wf_props(d.properties, crate::ser_spec::collect_ticket(d)) && wf_pinits(
        d.parameter_inits,
        crate::ser_spec::collect_ticket(d),
    ) && wf_features(d.features, crate::ser_spec::collect_ticket(d))
}

/// A document is well formed: see [`wf_caps`] and [`wf_ticket`].
pub open spec fn wf_doc(d: PrintSchemaDocumentV) -> bool {
    match d {
        PrintSchemaDocumentV::PrintCapabilities(c) => wf_caps(c),
        PrintSchemaDocumentV::PrintTicket(t) => wf_ticket(t),
    }
}

proof fn lemma_find_colon_none_of(s: Seq<char>)
    requires
        colon_free(s),
    ensures
        find_colon(s) == -1,
    decreases s.len(),
{
    if s.len() > 0 {
        assert(colon_free(s.drop_first()));
        lemma_find_colon_none_of(s.drop_first());
    }
}

proof fn lemma_find_colon_sep(p: Seq<char>, rest: Seq<char>)
    requires
        colon_free(p),
        rest.len() > 0,
        rest[0] == ':',
    ensures
        find_colon(p + rest) == p.len(),
    decreases p.len(),
{
    if p.len() == 0 {
        assert(p + rest =~= rest);
    } else {
        assert((p + rest)[0] == p[0]);
        assert(colon_free(p.drop_first()));
        lemma_find_colon_sep(p.drop_first(), rest);
        assert((p + rest).drop_first() =~= p.drop_first() + rest);
    }
}

/// A well-formed name reparses from its text to itself.
pub proof fn lemma_qname_rt(n: QNameV, bs: Seq<NsBindingV>)
    requires
        wf_qname(n, bs),
    ensures
        qname_of_text(fmt_name(n), bs) == n,
{
    match n.prefix {
        Some(p) => {
            let s = p + seq![':'] + n.local_name;
            assert(fmt_name(n) == s);
            assert((seq![':'] + n.local_name)[0] == ':');
            assert(p + (seq![':'] + n.local_name) =~= s);
            lemma_find_colon_sep(p, seq![':'] + n.local_name);
            assert(find_colon(s) == p.len());
            assert(s.take(p.len() as int) =~= p);
            assert(s.skip(p.len() as int + 1) =~= n.local_name);
            assert(qname_of_text(s, bs) =~~= n);
        },
        None => {
            lemma_find_colon_none_of(n.local_name);
            assert(qname_of_text(fmt_name(n), bs) =~~= n);
        },
    }
}

/// The vocabulary literals and prefixes this module needs facts about:
/// pairwise distinctness of the element names, and that the conventional
/// prefixes are colon-free.
pub proof fn vocab_facts()
    ensures
        colon_free("psf"@),
        colon_free("xsd"@),
        "string"@ != "integer"@ && "string"@ != "QName"@ && "integer"@ != "QName"@,
        "Property"@ != "Value"@ && "Property"@ != "ParameterRef"@ && "Value"@
            != "ParameterRef"@,
        "ScoredProperty"@ != "Value"@ && "ScoredProperty"@ != "ParameterRef"@
            && "ScoredProperty"@ != "Property"@,
        "Option"@ != "ScoredProperty"@ && "Option"@ != "Property"@ && "Option"@ != "Value"@
            && "Option"@ != "ParameterRef"@,
        "Feature"@ != "Option"@ && "Feature"@ != "Property"@ && "Feature"@ != "Value"@
            && "Feature"@ != "ParameterRef"@,
        "ParameterDef"@ != "Property"@ && "ParameterDef"@ != "Feature"@ && "ParameterDef"@
            != "Value"@ && "ParameterDef"@ != "ParameterRef"@,
        "ParameterInit"@ != "Property"@ && "ParameterInit"@ != "Feature"@ && "ParameterInit"@
            != "Value"@ && "ParameterInit"@ != "ParameterRef"@,
        "PrintCapabilities"@ != "PrintTicket"@,
        "ParameterDef"@ != "ParameterInit"@,
        "PrintCapabilities"@ != "Value"@ && "PrintCapabilities"@ != "ParameterRef"@,
        "PrintTicket"@ != "Value"@ && "PrintTicket"@ != "ParameterRef"@,
{
    reveal_strlit("psf");
    reveal_strlit("xsd");
    reveal_strlit("string");
    reveal_strlit("integer");
    reveal_strlit("QName");
    reveal_strlit("Property");
    reveal_strlit("Value");
    reveal_strlit("ParameterRef");
    reveal_strlit("ScoredProperty");
    reveal_strlit("Option");
    reveal_strlit("Feature");
    reveal_strlit("ParameterDef");
    reveal_strlit("ParameterInit");
    reveal_strlit("PrintCapabilities");
    reveal_strlit("PrintTicket");
    assert("psf"@.len() == 3);
    assert("xsd"@.len() == 3);
    assert("string"@.len() == 6);
    assert("integer"@.len() == 7);
    assert("QName"@.len() == 5);
    assert("Property"@.len() == 8);
    assert("Value"@.len() == 5);
    assert("ParameterRef"@.len() == 12);
    assert("ScoredProperty"@.len() == 14);
    assert("Option"@.len() == 6);
    assert("Feature"@.len() == 7);
    assert("ParameterDef"@.len() == 12);
    assert("ParameterInit"@.len() == 13);
    assert("PrintCapabilities"@.len() == 17);
    assert("PrintTicket"@.len() == 11);
    assert("ParameterDef"@[9] != "ParameterRef"@[9]);
    assert("Property"@[0] != "Value"@[0] || "Property"@.len() != "Value"@.len());
}

/// A well-formed value's type name is well formed under `bs` and is the
/// name the parser resolves the serialized type attribute to.
proof fn lemma_xsi_type_rt(v: PropertyValueV, bs: Seq<NsBindingV>)
    requires
        wf_value(v, bs),
    ensures
        qname_of_text(fmt_name(xsi_type_v(v)), bs) == xsi_type_v(v),
{
    vocab_facts();
    match v {
        PropertyValueV::Unknown(t, _) => {
            lemma_qname_rt(t, bs);
        },
        _ => {
            assert(wf_qname(xsi_type_v(v), bs));
            lemma_qname_rt(xsi_type_v(v), bs);
        },
    }
}

/// Parsing the serialization of a well-formed value gives the value back:
/// the three tokens starting at `i` hold the value element, and its parse
/// yields exactly the value.
pub proof fn lemma_value_rt(
    toks: Seq<XmlTokV>,
    i: int,
    v: PropertyValueV,
    bs: Seq<NsBindingV>,
)
    requires
        wf_value(v, bs),
        0 <= i,
        i + 3 <= toks.len(),
        toks.subrange(i, i + 3) == ser_value(v, bs),
    ensures
        parse_value_elem(toks, i, i + 2) == Ok::<_, ParseErrV>(Some(v)),
        match_end_from(toks, i + 1, 0) == Some(i + 2),
{
    vocab_facts();
    assert(toks[i] == ser_value(v, bs)[0]);
    assert(toks[i + 1] == ser_value(v, bs)[1]);
    assert(toks[i + 2] == ser_value(v, bs)[2]);
    assert(parse_value_text(toks, i + 2, i + 2) == Ok::<Seq<char>, ParseErrV>(
        Seq::<char>::empty(),
    ));
    assert(parse_value_text(toks, i + 1, i + 2) == Ok::<Seq<char>, ParseErrV>(
        val_text(v) + Seq::<char>::empty(),
    ));
    assert(val_text(v) + Seq::<char>::empty() =~= val_text(v));
    assert(type_attr_of(seq![type_attr_tok(v)]) == Some(fmt_name(xsi_type_v(v))));
    lemma_xsi_type_rt(v, bs);
    match v {
        PropertyValueV::Integer(n) => {
            lemma_parse_i32_dec(n);
        },
        PropertyValueV::QName(q) => {
            lemma_qname_rt(q, bs);
        },
        _ => {},
    }
}

/// A serialized name attribute resolves back to the name.
pub proof fn lemma_name_attr_rt(n: QNameV, bs: Seq<NsBindingV>)
    requires
        wf_qname(n, bs),
    ensures
        name_attr_of(seq![name_attr_tok(n)], bs) == Some(n),
{
    reveal_strlit("name");
    assert(find_attr(seq![name_attr_tok(n)], "name"@, None) == Some(fmt_name(n)));
    lemma_qname_rt(n, bs);
}

/// Split a window that holds a concatenation into its two parts.
proof fn lemma_split2(toks: Seq<XmlTokV>, i: int, a: Seq<XmlTokV>, b: Seq<XmlTokV>)
    requires
        0 <= i,
        i + a.len() + b.len() <= toks.len(),
        toks.subrange(i, i + a.len() + b.len()) == a + b,
    ensures
        toks.subrange(i, i + a.len()) == a,
        toks.subrange(i + a.len(), i + a.len() + b.len()) == b,
{
    assert forall|k: int| 0 <= k < a.len() implies toks[i + k] == a[k] by {
        assert(toks.subrange(i, i + a.len() + b.len())[k] == (a + b)[k]);
    }
    assert forall|k: int| 0 <= k < b.len() implies toks[i + a.len() + k] == b[k] by {
        assert(toks.subrange(i, i + a.len() + b.len())[a.len() + k] == (a + b)[a.len() + k]);
    }
    assert(toks.subrange(i, i + a.len()) =~= a);
    assert(toks.subrange(i + a.len(), i + a.len() + b.len()) =~= b);
}

/// A serialized value element is transparent to end matching.
proof fn lemma_me_value(toks: Seq<XmlTokV>, i: int, d: nat, v: PropertyValueV, bs: Seq<NsBindingV>)
    requires
        0 <= i,
        i + 3 <= toks.len(),
        toks.subrange(i, i + 3) == ser_value(v, bs),
    ensures
        match_end_from(toks, i, d) == match_end_from(toks, i + 3, d),
{
    assert(toks[i] == ser_value(v, bs)[0]);
    assert(toks[i + 1] == ser_value(v, bs)[1]);
    assert(toks[i + 2] == ser_value(v, bs)[2]);
    assert(match_end_from(toks, i, d) == match_end_from(toks, i + 1, (d + 1) as nat));
    assert(match_end_from(toks, i + 1, (d + 1) as nat) == match_end_from(
        toks,
        i + 2,
        (d + 1) as nat,
    ));
    assert(match_end_from(toks, i + 2, (d + 1) as nat) == match_end_from(toks, i + 3, d));
}

/// A serialized optional value is transparent to end matching.
proof fn lemma_me_opt_value(
    toks: Seq<XmlTokV>,
    i: int,
    d: nat,
    v: Option<PropertyValueV>,
    bs: Seq<NsBindingV>,
)
    requires
        0 <= i,
        i + ser_opt_value(v, bs).len() <= toks.len(),
        toks.subrange(i, i + ser_opt_value(v, bs).len()) == ser_opt_value(v, bs),
    ensures
        match_end_from(toks, i, d) == match_end_from(toks, i + ser_opt_value(v, bs).len(), d),
{
    match v {
        Some(x) => {
            lemma_me_value(toks, i, d, x, bs);
        },
        None => {},
    }
}

/// A serialized parameter reference is transparent to end matching.
proof fn lemma_me_pref(
    toks: Seq<XmlTokV>,
    i: int,
    d: nat,
    r: Option<QNameV>,
    bs: Seq<NsBindingV>,
)
    requires
        0 <= i,
        i + crate::ser_spec::ser_pref(r, bs).len() <= toks.len(),
        toks.subrange(i, i + crate::ser_spec::ser_pref(r, bs).len()) == crate::ser_spec::ser_pref(
            r,
            bs,
        ),
    ensures
        match_end_from(toks, i, d) == match_end_from(
            toks,
            i + crate::ser_spec::ser_pref(r, bs).len(),
            d,
        ),
{
    match r {
        Some(q) => {
            assert(toks[i] == crate::ser_spec::ser_pref(r, bs)[0]);
            assert(toks[i + 1] == crate::ser_spec::ser_pref(r, bs)[1]);
            assert(match_end_from(toks, i, d) == match_end_from(toks, i + 1, (d + 1) as nat));
            assert(match_end_from(toks, i + 1, (d + 1) as nat) == match_end_from(
                toks,
                i + 2,
                d,
            ));
        },
        None => {},
    }
}

/// A serialized property element is transparent to end matching.
proof fn lemma_me_property(
    toks: Seq<XmlTokV>,
    i: int,
    d: nat,
    p: PropertyV,
    bs: Seq<NsBindingV>,
)
    requires
        0 <= i,
        i + crate::ser_spec::ser_property(p, bs).len() <= toks.len(),
        toks.subrange(i, i + crate::ser_spec::ser_property(p, bs).len())
            == crate::ser_spec::ser_property(p, bs),
    ensures
        match_end_from(toks, i, d) == match_end_from(
            toks,
            i + crate::ser_spec::ser_property(p, bs).len(),
            d,
        ),
        match_end_from(toks, i + 1, 0) == Some(
            i + crate::ser_spec::ser_property(p, bs).len() - 1,
        ),
    decreases p, 1int,
{
    let hd = seq![start_tok("Property"@, seq![name_attr_tok(p.name)], bs)];
    let a = ser_opt_value(p.value, bs);
    let b = crate::ser_spec::ser_props(p.properties, bs);
    let tl = seq![end_tok()];
    let w = crate::ser_spec::ser_property(p, bs);
    let l = w.len() as int;
    assert(w == hd + a + b + tl);
    assert(hd + (a + (b + tl)) =~= w);
    assert(toks.subrange(i, i + l).subrange(1, l) =~= toks.subrange(i + 1, i + l));
    assert(toks.subrange(i + 1, i + l) =~= a + (b + tl));
    lemma_split2(toks, i + 1, a, b + tl);
    lemma_split2(toks, i + 1 + a.len(), b, tl);
    assert(toks[i] == toks.subrange(i, i + l)[0]);
    assert(toks[i + l - 1] == toks.subrange(i + 1 + a.len() + b.len(), i + l)[0]);
    assert(match_end_from(toks, i, d) == match_end_from(toks, i + 1, (d + 1) as nat));
    lemma_me_opt_value(toks, i + 1, (d + 1) as nat, p.value, bs);
    lemma_me_props(toks, i + 1 + a.len(), (d + 1) as nat, p.properties, bs);
    assert(match_end_from(toks, i + l - 1, (d + 1) as nat) == match_end_from(toks, i + l, d));
    lemma_me_opt_value(toks, i + 1, 0, p.value, bs);
    lemma_me_props(toks, i + 1 + a.len(), 0, p.properties, bs);
    assert(match_end_from(toks, i + l - 1, 0) == Some(i + l - 1));
}

/// A serialized property list is transparent to end matching.
proof fn lemma_me_props(
    toks: Seq<XmlTokV>,
    i: int,
    d: nat,
    ps: Seq<PropertyV>,
    bs: Seq<NsBindingV>,
)
    requires
        0 <= i,
        i + crate::ser_spec::ser_props(ps, bs).len() <= toks.len(),
        toks.subrange(i, i + crate::ser_spec::ser_props(ps, bs).len())
            == crate::ser_spec::ser_props(ps, bs),
    ensures
        match_end_from(toks, i, d) == match_end_from(
            toks,
            i + crate::ser_spec::ser_props(ps, bs).len(),
            d,
        ),
    decreases ps, 0int,
{
    if ps.len() > 0 {
        let a = crate::ser_spec::ser_property(ps[0], bs);
        let b = crate::ser_spec::ser_props(ps.drop_first(), bs);
        assert(crate::ser_spec::ser_props(ps, bs) == a + b);
        lemma_split2(toks, i, a, b);
        lemma_me_property(toks, i, d, ps[0], bs);
        lemma_me_props(toks, i + a.len(), d, ps.drop_first(), bs);
    }
}

/// A serialized element of this kind is transparent to end matching, and
/// its own end tag is where end matching from its content lands.
proof fn lemma_me_sp(
    toks: Seq<XmlTokV>,
    i: int,
    d: nat,
    p: ScoredPropertyV,
    bs: Seq<NsBindingV>,
)
    requires
        0 <= i,
        i + crate::ser_spec::ser_sp(p, bs).len() <= toks.len(),
        toks.subrange(i, i + crate::ser_spec::ser_sp(p, bs).len()) == crate::ser_spec::ser_sp(p, bs),
    ensures
        match_end_from(toks, i, d) == match_end_from(toks, i + crate::ser_spec::ser_sp(p, bs).len(), d),
        match_end_from(toks, i + 1, 0) == Some(i + crate::ser_spec::ser_sp(p, bs).len() - 1),
    decreases p, 1int,
{
    let hd = seq![start_tok("ScoredProperty"@, opt_name_attrs(p.name), bs)];
    let pref = crate::ser_spec::ser_pref(p.parameter_ref, bs);
    let val = ser_opt_value(p.value, bs);
    let sps = crate::ser_spec::ser_sps(p.scored_properties, bs);
    let props = crate::ser_spec::ser_props(p.properties, bs);
    let tl = seq![end_tok()];
    let w = crate::ser_spec::ser_sp(p, bs);
    let l = w.len() as int;
    assert(hd + (pref + (val + (sps + (props + tl)))) =~= w);
    assert(toks.subrange(i, i + l).subrange(1, l) =~= toks.subrange(i + 1, i + l));
    assert(toks.subrange(i + 1, i + l) =~= pref + (val + (sps + (props + tl))));
    lemma_split2(toks, i + 1, pref, val + (sps + (props + tl)));
    lemma_split2(toks, i + 1 + pref.len(), val, sps + (props + tl));
    lemma_split2(toks, i + 1 + pref.len() + val.len(), sps, props + tl);
    lemma_split2(toks, i + 1 + pref.len() + val.len() + sps.len(), props, tl);
    assert(toks[i] == toks.subrange(i, i + l)[0]);
    assert(toks[i + l - 1] == w[l - 1]);
    assert(match_end_from(toks, i, d) == match_end_from(toks, i + 1, (d + 1) as nat));
    lemma_me_pref(toks, i + 1, (d + 1) as nat, p.parameter_ref, bs);
    lemma_me_opt_value(toks, i + 1 + pref.len(), (d + 1) as nat, p.value, bs);
    lemma_me_sps(toks, i + 1 + pref.len() + val.len(), (d + 1) as nat, p.scored_properties, bs);
    lemma_me_props(toks, i + 1 + pref.len() + val.len() + sps.len(), (d + 1) as nat, p.properties, bs);
    assert(match_end_from(toks, i + l - 1, (d + 1) as nat) == match_end_from(toks, i + l, d));
    lemma_me_pref(toks, i + 1, 0, p.parameter_ref, bs);
    lemma_me_opt_value(toks, i + 1 + pref.len(), 0, p.value, bs);
    lemma_me_sps(toks, i + 1 + pref.len() + val.len(), 0, p.scored_properties, bs);
    lemma_me_props(toks, i + 1 + pref.len() + val.len() + sps.len(), 0, p.properties, bs);
    assert(match_end_from(toks, i + l - 1, 0) == Some(i + l - 1));
}

/// A serialized list of these elements is transparent to end matching.
proof fn lemma_me_sps(
    toks: Seq<XmlTokV>,
    i: int,
    d: nat,
    ps: Seq<ScoredPropertyV>,
    bs: Seq<NsBindingV>,
)
    requires
        0 <= i,
        i + crate::ser_spec::ser_sps(ps, bs).len() <= toks.len(),
        toks.subrange(i, i + crate::ser_spec::ser_sps(ps, bs).len()) == crate::ser_spec::ser_sps(ps, bs),
    ensures
        match_end_from(toks, i, d) == match_end_from(toks, i + crate::ser_spec::ser_sps(ps, bs).len(), d),
    decreases ps, 0int,
{
    if ps.len() > 0 {
        let a = crate::ser_spec::ser_sp(ps[0], bs);
        let b = crate::ser_spec::ser_sps(ps.drop_first(), bs);
        assert(crate::ser_spec::ser_sps(ps, bs) == a + b);
        lemma_split2(toks, i, a, b);
        lemma_me_sp(toks, i, d, ps[0], bs);
        lemma_me_sps(toks, i + a.len(), d, ps.drop_first(), bs);
    }
}

/// A serialized element of this kind is transparent to end matching, and
/// its own end tag is where end matching from its content lands.
proof fn lemma_me_option(
    toks: Seq<XmlTokV>,
    i: int,
    d: nat,
    p: PrintFeatureOptionV,
    bs: Seq<NsBindingV>,
)
    requires
        0 <= i,
        i + crate::ser_spec::ser_option(p, bs).len() <= toks.len(),
        toks.subrange(i, i + crate::ser_spec::ser_option(p, bs).len()) == crate::ser_spec::ser_option(p, bs),
    ensures
        match_end_from(toks, i, d) == match_end_from(toks, i + crate::ser_spec::ser_option(p, bs).len(), d),
        match_end_from(toks, i + 1, 0) == Some(i + crate::ser_spec::ser_option(p, bs).len() - 1),
    decreases p, 1int,
{
    let hd = seq![start_tok("Option"@, opt_name_attrs(p.name), bs)];
    let sps = crate::ser_spec::ser_sps(p.scored_properties, bs);
    let props = crate::ser_spec::ser_props(p.properties, bs);
    let tl = seq![end_tok()];
    let w = crate::ser_spec::ser_option(p, bs);
    let l = w.len() as int;
    assert(hd + (sps + (props + tl)) =~= w);
    assert(toks.subrange(i, i + l).subrange(1, l) =~= toks.subrange(i + 1, i + l));
    assert(toks.subrange(i + 1, i + l) =~= sps + (props + tl));
    lemma_split2(toks, i + 1, sps, props + tl);
    lemma_split2(toks, i + 1 + sps.len(), props, tl);
    assert(toks[i] == toks.subrange(i, i + l)[0]);
    assert(toks[i + l - 1] == w[l - 1]);
    assert(match_end_from(toks, i, d) == match_end_from(toks, i + 1, (d + 1) as nat));
    lemma_me_sps(toks, i + 1, (d + 1) as nat, p.scored_properties, bs);
    lemma_me_props(toks, i + 1 + sps.len(), (d + 1) as nat, p.properties, bs);
    assert(match_end_from(toks, i + l - 1, (d + 1) as nat) == match_end_from(toks, i + l, d));
    lemma_me_sps(toks, i + 1, 0, p.scored_properties, bs);
    lemma_me_props(toks, i + 1 + sps.len(), 0, p.properties, bs);
    assert(match_end_from(toks, i + l - 1, 0) == Some(i + l - 1));
}

/// A serialized list of these elements is transparent to end matching.
proof fn lemma_me_options(
    toks: Seq<XmlTokV>,
    i: int,
    d: nat,
    ps: Seq<PrintFeatureOptionV>,
    bs: Seq<NsBindingV>,
)
    requires
        0 <= i,
        i + crate::ser_spec::ser_options(ps, bs).len() <= toks.len(),
        toks.subrange(i, i + crate::ser_spec::ser_options(ps, bs).len()) == crate::ser_spec::ser_options(ps, bs),
    ensures
        match_end_from(toks, i, d) == match_end_from(toks, i + crate::ser_spec::ser_options(ps, bs).len(), d),
    decreases ps, 0int,
{
    if ps.len() > 0 {
        let a = crate::ser_spec::ser_option(ps[0], bs);
        let b = crate::ser_spec::ser_options(ps.drop_first(), bs);
        assert(crate::ser_spec::ser_options(ps, bs) == a + b);
        lemma_split2(toks, i, a, b);
        lemma_me_option(toks, i, d, ps[0], bs);
        lemma_me_options(toks, i + a.len(), d, ps.drop_first(), bs);
    }
}

/// A serialized element of this kind is transparent to end matching, and
/// its own end tag is where end matching from its content lands.
proof fn lemma_me_feature(
    toks: Seq<XmlTokV>,
    i: int,
    d: nat,
    p: PrintFeatureV,
    bs: Seq<NsBindingV>,
)
    requires
        0 <= i,
        i + crate::ser_spec::ser_feature(p, bs).len() <= toks.len(),
        toks.subrange(i, i + crate::ser_spec::ser_feature(p, bs).len()) == crate::ser_spec::ser_feature(p, bs),
    ensures
        match_end_from(toks, i, d) == match_end_from(toks, i + crate::ser_spec::ser_feature(p, bs).len(), d),
        match_end_from(toks, i + 1, 0) == Some(i + crate::ser_spec::ser_feature(p, bs).len() - 1),
    decreases p, 1int,
{
    let hd = seq![start_tok("Feature"@, seq![name_attr_tok(p.name)], bs)];
    let options = crate::ser_spec::ser_options(p.options, bs);
    let props = crate::ser_spec::ser_props(p.properties, bs);
    let features = crate::ser_spec::ser_features(p.features, bs);
    let tl = seq![end_tok()];
    let w = crate::ser_spec::ser_feature(p, bs);
    let l = w.len() as int;
    assert(hd + (options + (props + (features + tl))) =~= w);
    assert(toks.subrange(i, i + l).subrange(1, l) =~= toks.subrange(i + 1, i + l));
    assert(toks.subrange(i + 1, i + l) =~= options + (props + (features + tl)));
    lemma_split2(toks, i + 1, options, props + (features + tl));
    lemma_split2(toks, i + 1 + options.len(), props, features + tl);
    lemma_split2(toks, i + 1 + options.len() + props.len(), features, tl);
    assert(toks[i] == toks.subrange(i, i + l)[0]);
    assert(toks[i + l - 1] == w[l - 1]);
    assert(match_end_from(toks, i, d) == match_end_from(toks, i + 1, (d + 1) as nat));
    lemma_me_options(toks, i + 1, (d + 1) as nat, p.options, bs);
    lemma_me_props(toks, i + 1 + options.len(), (d + 1) as nat, p.properties, bs);
    lemma_me_features(toks, i + 1 + options.len() + props.len(), (d + 1) as nat, p.features, bs);
    assert(match_end_from(toks, i + l - 1, (d + 1) as nat) == match_end_from(toks, i + l, d));
    lemma_me_options(toks, i + 1, 0, p.options, bs);
    lemma_me_props(toks, i + 1 + options.len(), 0, p.properties, bs);
    lemma_me_features(toks, i + 1 + options.len() + props.len(), 0, p.features, bs);
    assert(match_end_from(toks, i + l - 1, 0) == Some(i + l - 1));
}

/// A serialized list of these elements is transparent to end matching.
proof fn lemma_me_features(
    toks: Seq<XmlTokV>,
    i: int,
    d: nat,
    ps: Seq<PrintFeatureV>,
    bs: Seq<NsBindingV>,
)
    requires
        0 <= i,
        i + crate::ser_spec::ser_features(ps, bs).len() <= toks.len(),
        toks.subrange(i, i + crate::ser_spec::ser_features(ps, bs).len()) == crate::ser_spec::ser_features(ps, bs),
    ensures
        match_end_from(toks, i, d) == match_end_from(toks, i + crate::ser_spec::ser_features(ps, bs).len(), d),
    decreases ps, 0int,
{
    if ps.len() > 0 {
        let a = crate::ser_spec::ser_feature(ps[0], bs);
        let b = crate::ser_spec::ser_features(ps.drop_first(), bs);
        assert(crate::ser_spec::ser_features(ps, bs) == a + b);
        lemma_split2(toks, i, a, b);
        lemma_me_feature(toks, i, d, ps[0], bs);
        lemma_me_features(toks, i + a.len(), d, ps.drop_first(), bs);
    }
}

/// A serialized element of this kind is transparent to end matching, and
/// its own end tag is where end matching from its content lands.
proof fn lemma_me_pdef(
    toks: Seq<XmlTokV>,
    i: int,
    d: nat,
    p: ParameterDefV,
    bs: Seq<NsBindingV>,
)
    requires
        0 <= i,
        i + crate::ser_spec::ser_pdef(p, bs).len() <= toks.len(),
        toks.subrange(i, i + crate::ser_spec::ser_pdef(p, bs).len()) == crate::ser_spec::ser_pdef(p, bs),
    ensures
        match_end_from(toks, i, d) == match_end_from(toks, i + crate::ser_spec::ser_pdef(p, bs).len(), d),
        match_end_from(toks, i + 1, 0) == Some(i + crate::ser_spec::ser_pdef(p, bs).len() - 1),
    decreases p, 1int,
{
    let hd = seq![start_tok("ParameterDef"@, seq![name_attr_tok(p.name)], bs)];
    let props = crate::ser_spec::ser_props(p.properties, bs);
    let tl = seq![end_tok()];
    let w = crate::ser_spec::ser_pdef(p, bs);
    let l = w.len() as int;
    assert(hd + (props + tl) =~= w);
    assert(toks.subrange(i, i + l).subrange(1, l) =~= toks.subrange(i + 1, i + l));
    assert(toks.subrange(i + 1, i + l) =~= props + tl);
    lemma_split2(toks, i + 1, props, tl);
    assert(toks[i] == toks.subrange(i, i + l)[0]);
    assert(toks[i + l - 1] == w[l - 1]);
    assert(match_end_from(toks, i, d) == match_end_from(toks, i + 1, (d + 1) as nat));
    lemma_me_props(toks, i + 1, (d + 1) as nat, p.properties, bs);
    assert(match_end_from(toks, i + l - 1, (d + 1) as nat) == match_end_from(toks, i + l, d));
    lemma_me_props(toks, i + 1, 0, p.properties, bs);
    assert(match_end_from(toks, i + l - 1, 0) == Some(i + l - 1));
}

/// A serialized list of these elements is transparent to end matching.
proof fn lemma_me_pdefs(
    toks: Seq<XmlTokV>,
    i: int,
    d: nat,
    ps: Seq<ParameterDefV>,
    bs: Seq<NsBindingV>,
)
    requires
        0 <= i,
        i + crate::ser_spec::ser_pdefs(ps, bs).len() <= toks.len(),
        toks.subrange(i, i + crate::ser_spec::ser_pdefs(ps, bs).len()) == crate::ser_spec::ser_pdefs(ps, bs),
    ensures
        match_end_from(toks, i, d) == match_end_from(toks, i + crate::ser_spec::ser_pdefs(ps, bs).len(), d),
    decreases ps, 0int,
{
    if ps.len() > 0 {
        let a = crate::ser_spec::ser_pdef(ps[0], bs);
        let b = crate::ser_spec::ser_pdefs(ps.drop_first(), bs);
        assert(crate::ser_spec::ser_pdefs(ps, bs) == a + b);
        lemma_split2(toks, i, a, b);
        lemma_me_pdef(toks, i, d, ps[0], bs);
        lemma_me_pdefs(toks, i + a.len(), d, ps.drop_first(), bs);
    }
}

/// A serialized element of this kind is transparent to end matching, and
/// its own end tag is where end matching from its content lands.
proof fn lemma_me_pinit(
    toks: Seq<XmlTokV>,
    i: int,
    d: nat,
    p: ParameterInitV,
    bs: Seq<NsBindingV>,
)
    requires
        0 <= i,
        i + crate::ser_spec::ser_pinit(p, bs).len() <= toks.len(),
        toks.subrange(i, i + crate::ser_spec::ser_pinit(p, bs).len()) == crate::ser_spec::ser_pinit(p, bs),
    ensures
        match_end_from(toks, i, d) == match_end_from(toks, i + crate::ser_spec::ser_pinit(p, bs).len(), d),
        match_end_from(toks, i + 1, 0) == Some(i + crate::ser_spec::ser_pinit(p, bs).len() - 1),
    decreases p, 1int,
{
    let hd = seq![start_tok("ParameterInit"@, seq![name_attr_tok(p.name)], bs)];
    let value1 = ser_value(p.value, bs);
    let tl = seq![end_tok()];
    let w = crate::ser_spec::ser_pinit(p, bs);
    let l = w.len() as int;
    assert(hd + (value1 + tl) =~= w);
    assert(toks.subrange(i, i + l).subrange(1, l) =~= toks.subrange(i + 1, i + l));
    assert(toks.subrange(i + 1, i + l) =~= value1 + tl);
    lemma_split2(toks, i + 1, value1, tl);
    assert(toks[i] == toks.subrange(i, i + l)[0]);
    assert(toks[i + l - 1] == w[l - 1]);
    assert(match_end_from(toks, i, d) == match_end_from(toks, i + 1, (d + 1) as nat));
    lemma_me_value(toks, i + 1, (d + 1) as nat, p.value, bs);
    assert(match_end_from(toks, i + l - 1, (d + 1) as nat) == match_end_from(toks, i + l, d));
    lemma_me_value(toks, i + 1, 0, p.value, bs);
    assert(match_end_from(toks, i + l - 1, 0) == Some(i + l - 1));
}

/// A serialized list of these elements is transparent to end matching.
proof fn lemma_me_pinits(
    toks: Seq<XmlTokV>,
    i: int,
    d: nat,
    ps: Seq<ParameterInitV>,
    bs: Seq<NsBindingV>,
)
    requires
        0 <= i,
        i + crate::ser_spec::ser_pinits(ps, bs).len() <= toks.len(),
        toks.subrange(i, i + crate::ser_spec::ser_pinits(ps, bs).len()) == crate::ser_spec::ser_pinits(ps, bs),
    ensures
        match_end_from(toks, i, d) == match_end_from(toks, i + crate::ser_spec::ser_pinits(ps, bs).len(), d),
    decreases ps, 0int,
{
    if ps.len() > 0 {
        let a = crate::ser_spec::ser_pinit(ps[0], bs);
        let b = crate::ser_spec::ser_pinits(ps.drop_first(), bs);
        assert(crate::ser_spec::ser_pinits(ps, bs) == a + b);
        lemma_split2(toks, i, a, b);
        lemma_me_pinit(toks, i, d, ps[0], bs);
        lemma_me_pinits(toks, i + a.len(), d, ps.drop_first(), bs);
    }
}

/// Parsing the serialized content of a property element gives its value
/// and children back.
proof fn lemma_prop_content(
    toks: Seq<XmlTokV>,
    i: int,
    e: int,
    value: Option<PropertyValueV>,
    props: Seq<PropertyV>,
    bs: Seq<NsBindingV>,
)
    requires
        wf_opt_value(value, bs),
        wf_props(props, bs),
        0 <= i <= e <= toks.len(),
        e - i == ser_opt_value(value, bs).len() + crate::ser_spec::ser_props(props, bs).len(),
        toks.subrange(i, e) == ser_opt_value(value, bs) + crate::ser_spec::ser_props(props, bs),
    ensures
        parse_prop_items(toks, i, e) == Ok::<_, ParseErrV>(
            PropContentV { value, properties: props },
        ),
    decreases e - i, 1int,
{
    vocab_facts();
    lemma_split2(toks, i, ser_opt_value(value, bs), crate::ser_spec::ser_props(props, bs));
    match value {
        Some(v) => {
            lemma_value_rt(toks, i, v, bs);
            assert(toks[i] == ser_value(v, bs)[0]);
            assert(toks.subrange(i + 3, e) =~= ser_opt_value(
                None,
                bs,
            ) + crate::ser_spec::ser_props(props, bs));
            lemma_prop_content(toks, i + 3, e, None, props, bs);
            assert(child_ok(toks, i, e));
            assert(child_end(toks, i) == i + 2);
            assert(parse_prop_items(toks, i, e)->Ok_0 =~~= (PropContentV {
                value,
                properties: props,
            }));
        },
        None => {
            assert(toks.subrange(i, e) =~= crate::ser_spec::ser_props(props, bs));
            if props.len() == 0 {
                assert(parse_prop_items(toks, i, e)->Ok_0 =~~= (PropContentV {
                    value: None,
                    properties: props,
                }));
            } else {
                let a = crate::ser_spec::ser_property(props[0], bs);
                let b = crate::ser_spec::ser_props(props.drop_first(), bs);
                assert(crate::ser_spec::ser_props(props, bs) == a + b);
                lemma_split2(toks, i, a, b);
                assert(wf_prop(props[0], bs));
                lemma_prop_rt(toks, i, props[0], bs);
                let c = i + a.len() - 1;
                assert(toks[i] == a[0]);
                assert(child_ok(toks, i, e));
                assert(child_end(toks, i) == c);
                assert(toks.subrange(c + 1, e) =~= ser_opt_value(
                    Option::<PropertyValueV>::None,
                    bs,
                ) + b);
                assert(wf_props(props.drop_first(), bs));
                lemma_prop_content(toks, c + 1, e, None, props.drop_first(), bs);
                assert(seq![props[0]] + props.drop_first() =~= props);
                assert(parse_prop_items(toks, i, e)->Ok_0 =~~= (PropContentV {
                    value: None,
                    properties: props,
                }));
            }
        },
    }
}

/// Parsing a serialized property element gives the property back, and its
/// end tag is where end matching lands.
proof fn lemma_prop_rt(toks: Seq<XmlTokV>, i: int, p: PropertyV, bs: Seq<NsBindingV>)
    requires
        wf_prop(p, bs),
        0 <= i,
        i + crate::ser_spec::ser_property(p, bs).len() <= toks.len(),
        toks.subrange(i, i + crate::ser_spec::ser_property(p, bs).len())
            == crate::ser_spec::ser_property(p, bs),
    ensures
        match_end_from(toks, i + 1, 0) == Some(
            i + crate::ser_spec::ser_property(p, bs).len() - 1,
        ),
        parse_property_elem(
            toks,
            i,
            i + crate::ser_spec::ser_property(p, bs).len() - 1,
        ) == Ok::<_, ParseErrV>(p),
    decreases crate::ser_spec::ser_property(p, bs).len(), 0int,
{
    let hd = seq![start_tok("Property"@, seq![name_attr_tok(p.name)], bs)];
    let a = ser_opt_value(p.value, bs);
    let b = crate::ser_spec::ser_props(p.properties, bs);
    let tl = seq![end_tok()];
    let w = crate::ser_spec::ser_property(p, bs);
    let l = w.len() as int;
    lemma_me_property(toks, i, 0, p, bs);
    assert(hd + (a + (b + tl)) =~= w);
    assert(toks.subrange(i, i + l).subrange(1, l) =~= toks.subrange(i + 1, i + l));
    assert(toks.subrange(i + 1, i + l) =~= a + (b + tl));
    lemma_split2(toks, i + 1, a, b + tl);
    lemma_split2(toks, i + 1 + a.len(), b, tl);
    assert(toks[i] == toks.subrange(i, i + l)[0]);
    lemma_name_attr_rt(p.name, bs);
    assert(toks.subrange(i + 1, i + l - 1) =~= a + b);
    lemma_prop_content(toks, i + 1, i + l - 1, p.value, p.properties, bs);
    assert(parse_property_elem(toks, i, i + l - 1)->Ok_0 =~~= p);
}

/// Parsing the serialized content of a scored-property element gives its
/// parameter reference, value, and children back.
#[verifier::rlimit(60)]
proof fn lemma_sp_content(
    toks: Seq<XmlTokV>,
    i: int,
    e: int,
    pref: Option<QNameV>,
    value: Option<PropertyValueV>,
    sps: Seq<ScoredPropertyV>,
    props: Seq<PropertyV>,
    bs: Seq<NsBindingV>,
)
    requires
        wf_opt_qname(pref, bs),
        wf_opt_value(value, bs),
        wf_sps(sps, bs),
        wf_props(props, bs),
        0 <= i <= e <= toks.len(),
        e - i == crate::ser_spec::ser_pref(pref, bs).len() + ser_opt_value(value, bs).len()
            + crate::ser_spec::ser_sps(sps, bs).len() + crate::ser_spec::ser_props(
            props,
            bs,
        ).len(),
        toks.subrange(i, e) == crate::ser_spec::ser_pref(pref, bs) + ser_opt_value(value, bs)
            + crate::ser_spec::ser_sps(sps, bs) + crate::ser_spec::ser_props(props, bs),
    ensures
        parse_sp_items(toks, i, e) == Ok::<_, ParseErrV>(
            SpContentV {
                parameter_ref: pref,
                value,
                scored_properties: sps,
                properties: props,
            },
        ),
    decreases e - i, 1int,
{
    vocab_facts();
    let s1 = crate::ser_spec::ser_pref(pref, bs);
    let s2 = ser_opt_value(value, bs);
    let s3 = crate::ser_spec::ser_sps(sps, bs);
    let s4 = crate::ser_spec::ser_props(props, bs);
    assert(toks.subrange(i, e) =~= s1 + (s2 + (s3 + s4)));
    lemma_split2(toks, i, s1, s2 + (s3 + s4));
    lemma_split2(toks, i + s1.len(), s2, s3 + s4);
    lemma_split2(toks, i + s1.len() + s2.len(), s3, s4);
    match pref {
        Some(q) => {
            assert(toks[i] == s1[0]);
            assert(toks[i + 1] == s1[1]);
            assert(match_end_from(toks, i + 1, 0) == Some(i + 1));
            assert(child_ok(toks, i, e));
            assert(child_end(toks, i) == i + 1);
            lemma_name_attr_rt(q, bs);
            assert(toks.subrange(i + 2, e) =~= crate::ser_spec::ser_pref(
                Option::<QNameV>::None,
                bs,
            ) + s2 + s3 + s4);
            lemma_sp_content(toks, i + 2, e, None, value, sps, props, bs);
            assert(parse_sp_items(toks, i, e)->Ok_0 =~~= (SpContentV {
                parameter_ref: pref,
                value,
                scored_properties: sps,
                properties: props,
            }));
        },
        None => {
            match value {
                Some(v) => {
                    lemma_value_rt(toks, i, v, bs);
                    assert(toks[i] == ser_value(v, bs)[0]);
                    assert(child_ok(toks, i, e));
                    assert(child_end(toks, i) == i + 2);
                    assert(toks.subrange(i + 3, e) =~= crate::ser_spec::ser_pref(
                        Option::<QNameV>::None,
                        bs,
                    ) + ser_opt_value(Option::<PropertyValueV>::None, bs) + s3 + s4);
                    lemma_sp_content(toks, i + 3, e, None, None, sps, props, bs);
                    assert(parse_sp_items(toks, i, e)->Ok_0 =~~= (SpContentV {
                        parameter_ref: pref,
                        value,
                        scored_properties: sps,
                        properties: props,
                    }));
                },
                None => {
                    if sps.len() > 0 {
                        let a = crate::ser_spec::ser_sp(sps[0], bs);
                        let b = crate::ser_spec::ser_sps(sps.drop_first(), bs);
                        assert(crate::ser_spec::ser_sps(sps, bs) == a + b);
                        lemma_split2(toks, i, a, b);
                        assert(wf_sp(sps[0], bs));
                        lemma_sp_rt(toks, i, sps[0], bs);
                        let c = i + a.len() - 1;
                        assert(toks[i] == a[0]);
                        assert(child_ok(toks, i, e));
                        assert(child_end(toks, i) == c);
                        assert(toks.subrange(c + 1, e) =~= crate::ser_spec::ser_pref(
                            Option::<QNameV>::None,
                            bs,
                        ) + ser_opt_value(Option::<PropertyValueV>::None, bs)
                            + crate::ser_spec::ser_sps(sps.drop_first(), bs) + s4);
                        assert(wf_sps(sps.drop_first(), bs));
                        lemma_sp_content(toks, c + 1, e, None, None, sps.drop_first(), props, bs);
                        assert(seq![sps[0]] + sps.drop_first() =~= sps);
                        assert(parse_sp_items(toks, i, e)->Ok_0 =~~= (SpContentV {
                            parameter_ref: pref,
                            value,
                            scored_properties: sps,
                            properties: props,
                        }));
                    } else if props.len() > 0 {
                        assert(toks.subrange(i, e) =~= s4);
                        let a = crate::ser_spec::ser_property(props[0], bs);
                        let b = crate::ser_spec::ser_props(props.drop_first(), bs);
                        assert(crate::ser_spec::ser_props(props, bs) == a + b);
                        lemma_split2(toks, i, a, b);
                        assert(wf_prop(props[0], bs));
                        lemma_prop_rt(toks, i, props[0], bs);
                        let c = i + a.len() - 1;
                        assert(toks[i] == a[0]);
                        assert(child_ok(toks, i, e));
                        assert(child_end(toks, i) == c);
                        assert(toks.subrange(c + 1, e) =~= crate::ser_spec::ser_pref(
                            Option::<QNameV>::None,
                            bs,
                        ) + ser_opt_value(Option::<PropertyValueV>::None, bs)
                            + crate::ser_spec::ser_sps(Seq::<ScoredPropertyV>::empty(), bs)
                            + crate::ser_spec::ser_props(props.drop_first(), bs));
                        assert(wf_props(props.drop_first(), bs));
                        lemma_sp_content(
                            toks,
                            c + 1,
                            e,
                            None,
                            None,
                            Seq::<ScoredPropertyV>::empty(),
                            props.drop_first(),
                            bs,
                        );
                        assert(seq![props[0]] + props.drop_first() =~= props);
                        assert(parse_sp_items(toks, i, e)->Ok_0 =~~= (SpContentV {
                            parameter_ref: pref,
                            value,
                            scored_properties: sps,
                            properties: props,
                        }));
                    } else {
                        assert(parse_sp_items(toks, i, e)->Ok_0 =~~= (SpContentV {
                            parameter_ref: pref,
                            value,
                            scored_properties: sps,
                            properties: props,
                        }));
                    }
                },
            }
        },
    }
}

/// Parsing a serialized scored-property element gives it back.
proof fn lemma_sp_rt(toks: Seq<XmlTokV>, i: int, p: ScoredPropertyV, bs: Seq<NsBindingV>)
    requires
        wf_sp(p, bs),
        0 <= i,
        i + crate::ser_spec::ser_sp(p, bs).len() <= toks.len(),
        toks.subrange(i, i + crate::ser_spec::ser_sp(p, bs).len()) == crate::ser_spec::ser_sp(
            p,
            bs,
        ),
    ensures
        match_end_from(toks, i + 1, 0) == Some(i + crate::ser_spec::ser_sp(p, bs).len() - 1),
        parse_sp_elem(toks, i, i + crate::ser_spec::ser_sp(p, bs).len() - 1) == Ok::<
            _,
            ParseErrV,
        >(p),
    decreases crate::ser_spec::ser_sp(p, bs).len(), 0int,
{
    let hd = seq![start_tok("ScoredProperty"@, opt_name_attrs(p.name), bs)];
    let s1 = crate::ser_spec::ser_pref(p.parameter_ref, bs);
    let s2 = ser_opt_value(p.value, bs);
    let s3 = crate::ser_spec::ser_sps(p.scored_properties, bs);
    let s4 = crate::ser_spec::ser_props(p.properties, bs);
    let tl = seq![end_tok()];
    let w = crate::ser_spec::ser_sp(p, bs);
    let l = w.len() as int;
    lemma_me_sp(toks, i, 0, p, bs);
    assert(hd + (s1 + (s2 + (s3 + (s4 + tl)))) =~= w);
    assert(toks.subrange(i, i + l).subrange(1, l) =~= toks.subrange(i + 1, i + l));
    assert(toks.subrange(i + 1, i + l) =~= s1 + (s2 + (s3 + (s4 + tl))));
    lemma_split2(toks, i + 1, s1, s2 + (s3 + (s4 + tl)));
    lemma_split2(toks, i + 1 + s1.len(), s2, s3 + (s4 + tl));
    lemma_split2(toks, i + 1 + s1.len() + s2.len(), s3, s4 + tl);
    lemma_split2(toks, i + 1 + s1.len() + s2.len() + s3.len(), s4, tl);
    assert(toks[i] == toks.subrange(i, i + l)[0]);
    match p.name {
        Some(n) => {
            lemma_name_attr_rt(n, bs);
        },
        None => {},
    }
    assert(toks.subrange(i + 1, i + l - 1) =~= s1 + s2 + s3 + s4);
    lemma_sp_content(
        toks,
        i + 1,
        i + l - 1,
        p.parameter_ref,
        p.value,
        p.scored_properties,
        p.properties,
        bs,
    );
    assert(parse_sp_elem(toks, i, i + l - 1)->Ok_0 =~~= p);
}

/// Parsing the serialized content of an option element gives its children
/// back.
#[verifier::rlimit(60)]
proof fn lemma_opt_content(
    toks: Seq<XmlTokV>,
    i: int,
    e: int,
    sps: Seq<ScoredPropertyV>,
    props: Seq<PropertyV>,
    bs: Seq<NsBindingV>,
)
    requires
        wf_sps(sps, bs),
        wf_props(props, bs),
        0 <= i <= e <= toks.len(),
        e - i == crate::ser_spec::ser_sps(sps, bs).len() + crate::ser_spec::ser_props(
            props,
            bs,
        ).len(),
        toks.subrange(i, e) == crate::ser_spec::ser_sps(sps, bs) + crate::ser_spec::ser_props(
            props,
            bs,
        ),
    ensures
        parse_option_items(toks, i, e) == Ok::<_, ParseErrV>(
            OptContentV { scored_properties: sps, properties: props },
        ),
    decreases e - i, 1int,
{
    vocab_facts();
    let s3 = crate::ser_spec::ser_sps(sps, bs);
    let s4 = crate::ser_spec::ser_props(props, bs);
    lemma_split2(toks, i, s3, s4);
    if sps.len() > 0 {
        let a = crate::ser_spec::ser_sp(sps[0], bs);
        let b = crate::ser_spec::ser_sps(sps.drop_first(), bs);
        assert(crate::ser_spec::ser_sps(sps, bs) == a + b);
        lemma_split2(toks, i, a, b);
        assert(wf_sp(sps[0], bs));
        lemma_sp_rt(toks, i, sps[0], bs);
        let c = i + a.len() - 1;
        assert(toks[i] == a[0]);
        assert(child_ok(toks, i, e));
        assert(child_end(toks, i) == c);
        assert(toks.subrange(c + 1, e) =~= crate::ser_spec::ser_sps(sps.drop_first(), bs) + s4);
        assert(wf_sps(sps.drop_first(), bs));
        lemma_opt_content(toks, c + 1, e, sps.drop_first(), props, bs);
        assert(seq![sps[0]] + sps.drop_first() =~= sps);
        assert(parse_option_items(toks, i, e)->Ok_0 =~~= (OptContentV {
            scored_properties: sps,
            properties: props,
        }));
    } else if props.len() > 0 {
        assert(toks.subrange(i, e) =~= s4);
        let a = crate::ser_spec::ser_property(props[0], bs);
        let b = crate::ser_spec::ser_props(props.drop_first(), bs);
        assert(crate::ser_spec::ser_props(props, bs) == a + b);
        lemma_split2(toks, i, a, b);
        assert(wf_prop(props[0], bs));
        lemma_prop_rt(toks, i, props[0], bs);
        let c = i + a.len() - 1;
        assert(toks[i] == a[0]);
        assert(child_ok(toks, i, e));
        assert(child_end(toks, i) == c);
        assert(toks.subrange(c + 1, e) =~= crate::ser_spec::ser_sps(
            Seq::<ScoredPropertyV>::empty(),
            bs,
        ) + crate::ser_spec::ser_props(props.drop_first(), bs));
        assert(wf_props(props.drop_first(), bs));
        lemma_opt_content(toks, c + 1, e, Seq::<ScoredPropertyV>::empty(), props.drop_first(), bs);
        assert(seq![props[0]] + props.drop_first() =~= props);
        assert(parse_option_items(toks, i, e)->Ok_0 =~~= (OptContentV {
            scored_properties: sps,
            properties: props,
        }));
    } else {
        assert(parse_option_items(toks, i, e)->Ok_0 =~~= (OptContentV {
            scored_properties: sps,
            properties: props,
        }));
    }
}

/// Parsing a serialized option element gives it back.
proof fn lemma_option_rt(toks: Seq<XmlTokV>, i: int, p: PrintFeatureOptionV, bs: Seq<NsBindingV>)
    requires
        wf_option(p, bs),
        0 <= i,
        i + crate::ser_spec::ser_option(p, bs).len() <= toks.len(),
        toks.subrange(i, i + crate::ser_spec::ser_option(p, bs).len())
            == crate::ser_spec::ser_option(p, bs),
    ensures
        match_end_from(toks, i + 1, 0) == Some(
            i + crate::ser_spec::ser_option(p, bs).len() - 1,
        ),
        parse_option_elem(toks, i, i + crate::ser_spec::ser_option(p, bs).len() - 1) == Ok::<
            _,
            ParseErrV,
        >(p),
    decreases crate::ser_spec::ser_option(p, bs).len(), 0int,
{
    let hd = seq![start_tok("Option"@, opt_name_attrs(p.name), bs)];
    let s3 = crate::ser_spec::ser_sps(p.scored_properties, bs);
    let s4 = crate::ser_spec::ser_props(p.properties, bs);
    let tl = seq![end_tok()];
    let w = crate::ser_spec::ser_option(p, bs);
    let l = w.len() as int;
    lemma_me_option(toks, i, 0, p, bs);
    assert(hd + (s3 + (s4 + tl)) =~= w);
    assert(toks.subrange(i, i + l).subrange(1, l) =~= toks.subrange(i + 1, i + l));
    assert(toks.subrange(i + 1, i + l) =~= s3 + (s4 + tl));
    lemma_split2(toks, i + 1, s3, s4 + tl);
    lemma_split2(toks, i + 1 + s3.len(), s4, tl);
    assert(toks[i] == toks.subrange(i, i + l)[0]);
    match p.name {
        Some(n) => {
            lemma_name_attr_rt(n, bs);
        },
        None => {},
    }
    assert(toks.subrange(i + 1, i + l - 1) =~= s3 + s4);
    lemma_opt_content(toks, i + 1, i + l - 1, p.scored_properties, p.properties, bs);
    assert(parse_option_elem(toks, i, i + l - 1)->Ok_0 =~~= p);
}

/// Parsing the serialized content of a feature element gives its children
/// back.
#[verifier::rlimit(60)]
proof fn lemma_feat_content(
    toks: Seq<XmlTokV>,
    i: int,
    e: int,
    options: Seq<PrintFeatureOptionV>,
    props: Seq<PropertyV>,
    features: Seq<PrintFeatureV>,
    bs: Seq<NsBindingV>,
)
    requires
        wf_options(options, bs),
        wf_props(props, bs),
        wf_features(features, bs),
        0 <= i <= e <= toks.len(),
        e - i == crate::ser_spec::ser_options(options, bs).len() + crate::ser_spec::ser_props(
            props,
            bs,
        ).len() + crate::ser_spec::ser_features(features, bs).len(),
        toks.subrange(i, e) == crate::ser_spec::ser_options(options, bs)
            + crate::ser_spec::ser_props(props, bs) + crate::ser_spec::ser_features(
            features,
            bs,
        ),
    ensures
        parse_feature_items(toks, i, e) == Ok::<_, ParseErrV>(
            FeatContentV { properties: props, options, features },
        ),
    decreases e - i, 1int,
{
    vocab_facts();
    let s2 = crate::ser_spec::ser_options(options, bs);
    let s3 = crate::ser_spec::ser_props(props, bs);
    let s4 = crate::ser_spec::ser_features(features, bs);
    assert(toks.subrange(i, e) =~= s2 + (s3 + s4));
    lemma_split2(toks, i, s2, s3 + s4);
    lemma_split2(toks, i + s2.len(), s3, s4);
    if options.len() > 0 {
        let a = crate::ser_spec::ser_option(options[0], bs);
        let b = crate::ser_spec::ser_options(options.drop_first(), bs);
        assert(crate::ser_spec::ser_options(options, bs) == a + b);
        lemma_split2(toks, i, a, b);
        assert(wf_option(options[0], bs));
        lemma_option_rt(toks, i, options[0], bs);
        let c = i + a.len() - 1;
        assert(toks[i] == a[0]);
        assert(child_ok(toks, i, e));
        assert(child_end(toks, i) == c);
        assert(toks.subrange(c + 1, e) =~= crate::ser_spec::ser_options(
            options.drop_first(),
            bs,
        ) + s3 + s4);
        assert(wf_options(options.drop_first(), bs));
        lemma_feat_content(toks, c + 1, e, options.drop_first(), props, features, bs);
        assert(seq![options[0]] + options.drop_first() =~= options);
        assert(parse_feature_items(toks, i, e)->Ok_0 =~~= (FeatContentV {
            properties: props,
            options,
            features,
        }));
    } else if props.len() > 0 {
        assert(toks.subrange(i, e) =~= s3 + s4);
        let a = crate::ser_spec::ser_property(props[0], bs);
        let b = crate::ser_spec::ser_props(props.drop_first(), bs);
        assert(crate::ser_spec::ser_props(props, bs) == a + b);
        assert(toks.subrange(i, e) =~= a + (b + s4));
        lemma_split2(toks, i, a, b + s4);
        assert(wf_prop(props[0], bs));
        lemma_prop_rt(toks, i, props[0], bs);
        let c = i + a.len() - 1;
        assert(toks[i] == a[0]);
        assert(child_ok(toks, i, e));
        assert(child_end(toks, i) == c);
        assert(toks.subrange(c + 1, e) =~= crate::ser_spec::ser_options(
            Seq::<PrintFeatureOptionV>::empty(),
            bs,
        ) + crate::ser_spec::ser_props(props.drop_first(), bs) + s4);
        assert(wf_props(props.drop_first(), bs));
        lemma_feat_content(
            toks,
            c + 1,
            e,
            Seq::<PrintFeatureOptionV>::empty(),
            props.drop_first(),
            features,
            bs,
        );
        assert(seq![props[0]] + props.drop_first() =~= props);
        assert(parse_feature_items(toks, i, e)->Ok_0 =~~= (FeatContentV {
            properties: props,
            options,
            features,
        }));
    } else if features.len() > 0 {
        assert(toks.subrange(i, e) =~= s4);
        let a = crate::ser_spec::ser_feature(features[0], bs);
        let b = crate::ser_spec::ser_features(features.drop_first(), bs);
        assert(crate::ser_spec::ser_features(features, bs) == a + b);
        lemma_split2(toks, i, a, b);
        assert(wf_feature(features[0], bs));
        lemma_feature_rt(toks, i, features[0], bs);
        let c = i + a.len() - 1;
        assert(toks[i] == a[0]);
        assert(child_ok(toks, i, e));
        assert(child_end(toks, i) == c);
        assert(toks.subrange(c + 1, e) =~= crate::ser_spec::ser_options(
            Seq::<PrintFeatureOptionV>::empty(),
            bs,
        ) + crate::ser_spec::ser_props(Seq::<PropertyV>::empty(), bs)
            + crate::ser_spec::ser_features(features.drop_first(), bs));
        assert(wf_features(features.drop_first(), bs));
        lemma_feat_content(
            toks,
            c + 1,
            e,
            Seq::<PrintFeatureOptionV>::empty(),
            Seq::<PropertyV>::empty(),
            features.drop_first(),
            bs,
        );
        assert(seq![features[0]] + features.drop_first() =~= features);
        assert(parse_feature_items(toks, i, e)->Ok_0 =~~= (FeatContentV {
            properties: props,
            options,
            features,
        }));
    } else {
        assert(parse_feature_items(toks, i, e)->Ok_0 =~~= (FeatContentV {
            properties: props,
            options,
            features,
        }));
    }
}

/// Parsing a serialized feature element gives it back.
proof fn lemma_feature_rt(toks: Seq<XmlTokV>, i: int, p: PrintFeatureV, bs: Seq<NsBindingV>)
    requires
        wf_feature(p, bs),
        0 <= i,
        i + crate::ser_spec::ser_feature(p, bs).len() <= toks.len(),
        toks.subrange(i, i + crate::ser_spec::ser_feature(p, bs).len())
            == crate::ser_spec::ser_feature(p, bs),
    ensures
        match_end_from(toks, i + 1, 0) == Some(
            i + crate::ser_spec::ser_feature(p, bs).len() - 1,
        ),
        parse_feature_elem(toks, i, i + crate::ser_spec::ser_feature(p, bs).len() - 1) == Ok::<
            _,
            ParseErrV,
        >(p),
    decreases crate::ser_spec::ser_feature(p, bs).len(), 0int,
{
    let hd = seq![start_tok("Feature"@, seq![name_attr_tok(p.name)], bs)];
    let s2 = crate::ser_spec::ser_options(p.options, bs);
    let s3 = crate::ser_spec::ser_props(p.properties, bs);
    let s4 = crate::ser_spec::ser_features(p.features, bs);
    let tl = seq![end_tok()];
    let w = crate::ser_spec::ser_feature(p, bs);
    let l = w.len() as int;
    lemma_me_feature(toks, i, 0, p, bs);
    assert(hd + (s2 + (s3 + (s4 + tl))) =~= w);
    assert(toks.subrange(i, i + l).subrange(1, l) =~= toks.subrange(i + 1, i + l));
    assert(toks.subrange(i + 1, i + l) =~= s2 + (s3 + (s4 + tl)));
    lemma_split2(toks, i + 1, s2, s3 + (s4 + tl));
    lemma_split2(toks, i + 1 + s2.len(), s3, s4 + tl);
    lemma_split2(toks, i + 1 + s2.len() + s3.len(), s4, tl);
    assert(toks[i] == toks.subrange(i, i + l)[0]);
    lemma_name_attr_rt(p.name, bs);
    assert(toks.subrange(i + 1, i + l - 1) =~= s2 + s3 + s4);
    lemma_feat_content(toks, i + 1, i + l - 1, p.options, p.properties, p.features, bs);
    assert(parse_feature_elem(toks, i, i + l - 1)->Ok_0 =~~= p);
}

/// Parsing the serialized content of a parameter declaration gives its
/// properties back.
proof fn lemma_pdef_content(
    toks: Seq<XmlTokV>,
    i: int,
    e: int,
    props: Seq<PropertyV>,
    bs: Seq<NsBindingV>,
)
    requires
        wf_props(props, bs),
        0 <= i <= e <= toks.len(),
        e - i == crate::ser_spec::ser_props(props, bs).len(),
        toks.subrange(i, e) == crate::ser_spec::ser_props(props, bs),
    ensures
        parse_pdef_items(toks, i, e) == Ok::<_, ParseErrV>(props),
    decreases e - i, 1int,
{
    vocab_facts();
    if props.len() > 0 {
        let a = crate::ser_spec::ser_property(props[0], bs);
        let b = crate::ser_spec::ser_props(props.drop_first(), bs);
        assert(crate::ser_spec::ser_props(props, bs) == a + b);
        lemma_split2(toks, i, a, b);
        assert(wf_prop(props[0], bs));
        lemma_prop_rt(toks, i, props[0], bs);
        let c = i + a.len() - 1;
        assert(toks[i] == a[0]);
        assert(child_ok(toks, i, e));
        assert(child_end(toks, i) == c);
        assert(wf_props(props.drop_first(), bs));
        lemma_pdef_content(toks, c + 1, e, props.drop_first(), bs);
        assert(seq![props[0]] + props.drop_first() =~= props);
        assert(parse_pdef_items(toks, i, e)->Ok_0 =~~= props);
    } else {
        assert(parse_pdef_items(toks, i, e)->Ok_0 =~~= props);
    }
}

/// Parsing a serialized parameter declaration gives it back.
proof fn lemma_pdef_rt(toks: Seq<XmlTokV>, i: int, p: ParameterDefV, bs: Seq<NsBindingV>)
    requires
        wf_pdef(p, bs),
        0 <= i,
        i + crate::ser_spec::ser_pdef(p, bs).len() <= toks.len(),
        toks.subrange(i, i + crate::ser_spec::ser_pdef(p, bs).len()) == crate::ser_spec::ser_pdef(
            p,
            bs,
        ),
    ensures
        match_end_from(toks, i + 1, 0) == Some(i + crate::ser_spec::ser_pdef(p, bs).len() - 1),
        parse_pdef_elem(toks, i, i + crate::ser_spec::ser_pdef(p, bs).len() - 1) == Ok::<
            _,
            ParseErrV,
        >(p),
    decreases crate::ser_spec::ser_pdef(p, bs).len(), 0int,
{
    let hd = seq![start_tok("ParameterDef"@, seq![name_attr_tok(p.name)], bs)];
    let s3 = crate::ser_spec::ser_props(p.properties, bs);
    let tl = seq![end_tok()];
    let w = crate::ser_spec::ser_pdef(p, bs);
    let l = w.len() as int;
    lemma_me_pdef(toks, i, 0, p, bs);
    assert(hd + (s3 + tl) =~= w);
    assert(toks.subrange(i, i + l).subrange(1, l) =~= toks.subrange(i + 1, i + l));
    assert(toks.subrange(i + 1, i + l) =~= s3 + tl);
    lemma_split2(toks, i + 1, s3, tl);
    assert(toks[i] == toks.subrange(i, i + l)[0]);
    lemma_name_attr_rt(p.name, bs);
    assert(toks.subrange(i + 1, i + l - 1) =~= s3);
    lemma_pdef_content(toks, i + 1, i + l - 1, p.properties, bs);
    assert(parse_pdef_elem(toks, i, i + l - 1)->Ok_0 =~~= p);
}

/// Parsing a serialized parameter initialization gives it back.
proof fn lemma_pinit_rt(toks: Seq<XmlTokV>, i: int, p: ParameterInitV, bs: Seq<NsBindingV>)
    requires
        wf_pinit(p, bs),
        0 <= i,
        i + crate::ser_spec::ser_pinit(p, bs).len() <= toks.len(),
        toks.subrange(i, i + crate::ser_spec::ser_pinit(p, bs).len())
            == crate::ser_spec::ser_pinit(p, bs),
    ensures
        match_end_from(toks, i + 1, 0) == Some(
            i + crate::ser_spec::ser_pinit(p, bs).len() - 1,
        ),
        parse_pinit_elem(toks, i, i + crate::ser_spec::ser_pinit(p, bs).len() - 1) == Ok::<
            _,
            ParseErrV,
        >(p),
{
    vocab_facts();
    let hd = seq![start_tok("ParameterInit"@, seq![name_attr_tok(p.name)], bs)];
    let s3 = ser_value(p.value, bs);
    let tl = seq![end_tok()];
    let w = crate::ser_spec::ser_pinit(p, bs);
    let l = w.len() as int;
    lemma_me_pinit(toks, i, 0, p, bs);
    assert(hd + (s3 + tl) =~= w);
    assert(toks.subrange(i, i + l).subrange(1, l) =~= toks.subrange(i + 1, i + l));
    assert(toks.subrange(i + 1, i + l) =~= s3 + tl);
    lemma_split2(toks, i + 1, s3, tl);
    assert(toks[i] == toks.subrange(i, i + l)[0]);
    lemma_name_attr_rt(p.name, bs);
    lemma_value_rt(toks, i + 1, p.value, bs);
    assert(toks[i + 1] == s3[0]);
    assert(child_ok(toks, i + 1, i + l - 1));
    assert(child_end(toks, i + 1) == i + 3);
    assert(parse_pinit_items(toks, i + 4, i + l - 1) == Ok::<_, ParseErrV>(
        Option::<PropertyValueV>::None,
    ));
    assert(parse_pinit_items(toks, i + 1, i + l - 1) == Ok::<_, ParseErrV>(Some(p.value)));
    assert(parse_pinit_elem(toks, i, i + l - 1)->Ok_0 =~~= p);
}

/// Parsing the serialized content of a PrintCapabilities root gives the
/// document's parts back.
#[verifier::rlimit(60)]
proof fn lemma_caps_content(
    toks: Seq<XmlTokV>,
    i: int,
    e: int,
    props: Seq<PropertyV>,
    defs: Seq<ParameterDefV>,
    feats: Seq<PrintFeatureV>,
    bs: Seq<NsBindingV>,
)
    requires
        wf_props(props, bs),
        wf_pdefs(defs, bs),
        wf_features(feats, bs),
        0 <= i <= e <= toks.len(),
        e - i == crate::ser_spec::ser_props(props, bs).len() + crate::ser_spec::ser_pdefs(
            defs,
            bs,
        ).len() + crate::ser_spec::ser_features(feats, bs).len(),
        toks.subrange(i, e) == crate::ser_spec::ser_props(props, bs)
            + crate::ser_spec::ser_pdefs(defs, bs) + crate::ser_spec::ser_features(feats, bs),
    ensures
        parse_caps_items(toks, i, e) == Ok::<_, ParseErrV>(
            PrintCapabilitiesDocumentV { properties: props, parameter_defs: defs, features: feats },
        ),
    decreases e - i, 1int,
{
    vocab_facts();
    let s2 = crate::ser_spec::ser_props(props, bs);
    let s3 = crate::ser_spec::ser_pdefs(defs, bs);
    let s4 = crate::ser_spec::ser_features(feats, bs);
    assert(toks.subrange(i, e) =~= s2 + (s3 + s4));
    lemma_split2(toks, i, s2, s3 + s4);
    lemma_split2(toks, i + s2.len(), s3, s4);
    if props.len() > 0 {
        let a = crate::ser_spec::ser_property(props[0], bs);
        let b = crate::ser_spec::ser_props(props.drop_first(), bs);
        assert(crate::ser_spec::ser_props(props, bs) == a + b);
        assert(toks.subrange(i, e) =~= a + (b + (s3 + s4)));
        lemma_split2(toks, i, a, b + (s3 + s4));
        assert(wf_prop(props[0], bs));
        lemma_prop_rt(toks, i, props[0], bs);
        let c = i + a.len() - 1;
        assert(toks[i] == a[0]);
        assert(child_ok(toks, i, e));
        assert(child_end(toks, i) == c);
        assert(toks.subrange(c + 1, e) =~= crate::ser_spec::ser_props(props.drop_first(), bs)
            + s3 + s4);
        assert(wf_props(props.drop_first(), bs));
        lemma_caps_content(toks, c + 1, e, props.drop_first(), defs, feats, bs);
        assert(seq![props[0]] + props.drop_first() =~= props);
        assert(parse_caps_items(toks, i, e)->Ok_0 =~~= (PrintCapabilitiesDocumentV {
            properties: props,
            parameter_defs: defs,
            features: feats,
        }));
    } else if defs.len() > 0 {
        assert(toks.subrange(i, e) =~= s3 + s4);
        let a = crate::ser_spec::ser_pdef(defs[0], bs);
        let b = crate::ser_spec::ser_pdefs(defs.drop_first(), bs);
        assert(crate::ser_spec::ser_pdefs(defs, bs) == a + b);
        assert(toks.subrange(i, e) =~= a + (b + s4));
        lemma_split2(toks, i, a, b + s4);
        assert(wf_pdef(defs[0], bs));
        lemma_pdef_rt(toks, i, defs[0], bs);
        let c = i + a.len() - 1;
        assert(toks[i] == a[0]);
        assert(child_ok(toks, i, e));
        assert(child_end(toks, i) == c);
        assert(toks.subrange(c + 1, e) =~= crate::ser_spec::ser_props(
            Seq::<PropertyV>::empty(),
            bs,
        ) + crate::ser_spec::ser_pdefs(defs.drop_first(), bs) + s4);
        assert(wf_pdefs(defs.drop_first(), bs));
        lemma_caps_content(
            toks,
            c + 1,
            e,
            Seq::<PropertyV>::empty(),
            defs.drop_first(),
            feats,
            bs,
        );
        assert(seq![defs[0]] + defs.drop_first() =~= defs);
        assert(parse_caps_items(toks, i, e)->Ok_0 =~~= (PrintCapabilitiesDocumentV {
            properties: props,
            parameter_defs: defs,
            features: feats,
        }));
    } else if feats.len() > 0 {
        assert(toks.subrange(i, e) =~= s4);
        let a = crate::ser_spec::ser_feature(feats[0], bs);
        let b = crate::ser_spec::ser_features(feats.drop_first(), bs);
        assert(crate::ser_spec::ser_features(feats, bs) == a + b);
        lemma_split2(toks, i, a, b);
        assert(wf_feature(feats[0], bs));
        lemma_feature_rt(toks, i, feats[0], bs);
        let c = i + a.len() - 1;
        assert(toks[i] == a[0]);
        assert(child_ok(toks, i, e));
        assert(child_end(toks, i) == c);
        assert(toks.subrange(c + 1, e) =~= crate::ser_spec::ser_props(
            Seq::<PropertyV>::empty(),
            bs,
        ) + crate::ser_spec::ser_pdefs(Seq::<ParameterDefV>::empty(), bs)
            + crate::ser_spec::ser_features(feats.drop_first(), bs));
        assert(wf_features(feats.drop_first(), bs));
        lemma_caps_content(
            toks,
            c + 1,
            e,
            Seq::<PropertyV>::empty(),
            Seq::<ParameterDefV>::empty(),
            feats.drop_first(),
            bs,
        );
        assert(seq![feats[0]] + feats.drop_first() =~= feats);
        assert(parse_caps_items(toks, i, e)->Ok_0 =~~= (PrintCapabilitiesDocumentV {
            properties: props,
            parameter_defs: defs,
            features: feats,
        }));
    } else {
        assert(parse_caps_items(toks, i, e)->Ok_0 =~~= (PrintCapabilitiesDocumentV {
            properties: props,
            parameter_defs: defs,
            features: feats,
        }));
    }
}

/// Parsing the serialized content of a PrintTicket root gives the
/// document's parts back.
#[verifier::rlimit(60)]
proof fn lemma_ticket_content(
    toks: Seq<XmlTokV>,
    i: int,
    e: int,
    props: Seq<PropertyV>,
    inits: Seq<ParameterInitV>,
    feats: Seq<PrintFeatureV>,
    bs: Seq<NsBindingV>,
)
    requires
        wf_props(props, bs),
        wf_pinits(inits, bs),
        wf_features(feats, bs),
        0 <= i <= e <= toks.len(),
        e - i == crate::ser_spec::ser_props(props, bs).len() + crate::ser_spec::ser_pinits(
            inits,
            bs,
        ).len() + crate::ser_spec::ser_features(feats, bs).len(),
        toks.subrange(i, e) == crate::ser_spec::ser_props(props, bs)
            + crate::ser_spec::ser_pinits(inits, bs) + crate::ser_spec::ser_features(feats, bs),
    ensures
        parse_ticket_items(toks, i, e) == Ok::<_, ParseErrV>(
            PrintTicketDocumentV { properties: props, parameter_inits: inits, features: feats },
        ),
    decreases e - i, 1int,
{
    vocab_facts();
    let s2 = crate::ser_spec::ser_props(props, bs);
    let s3 = crate::ser_spec::ser_pinits(inits, bs);
    let s4 = crate::ser_spec::ser_features(feats, bs);
    assert(toks.subrange(i, e) =~= s2 + (s3 + s4));
    lemma_split2(toks, i, s2, s3 + s4);
    lemma_split2(toks, i + s2.len(), s3, s4);
    if props.len() > 0 {
        let a = crate::ser_spec::ser_property(props[0], bs);
        let b = crate::ser_spec::ser_props(props.drop_first(), bs);
        assert(crate::ser_spec::ser_props(props, bs) == a + b);
        assert(toks.subrange(i, e) =~= a + (b + (s3 + s4)));
        lemma_split2(toks, i, a, b + (s3 + s4));
        assert(wf_prop(props[0], bs));
        lemma_prop_rt(toks, i, props[0], bs);
        let c = i + a.len() - 1;
        assert(toks[i] == a[0]);
        assert(child_ok(toks, i, e));
        assert(child_end(toks, i) == c);
        assert(toks.subrange(c + 1, e) =~= crate::ser_spec::ser_props(props.drop_first(), bs)
            + s3 + s4);
        assert(wf_props(props.drop_first(), bs));
        lemma_ticket_content(toks, c + 1, e, props.drop_first(), inits, feats, bs);
        assert(seq![props[0]] + props.drop_first() =~= props);
        assert(parse_ticket_items(toks, i, e)->Ok_0 =~~= (PrintTicketDocumentV {
            properties: props,
            parameter_inits: inits,
            features: feats,
        }));
    } else if inits.len() > 0 {
        assert(toks.subrange(i, e) =~= s3 + s4);
        let a = crate::ser_spec::ser_pinit(inits[0], bs);
        let b = crate::ser_spec::ser_pinits(inits.drop_first(), bs);
        assert(crate::ser_spec::ser_pinits(inits, bs) == a + b);
        assert(toks.subrange(i, e) =~= a + (b + s4));
        lemma_split2(toks, i, a, b + s4);
        assert(wf_pinit(inits[0], bs));
        lemma_pinit_rt(toks, i, inits[0], bs);
        let c = i + a.len() - 1;
        assert(toks[i] == a[0]);
        assert(child_ok(toks, i, e));
        assert(child_end(toks, i) == c);
        assert(toks.subrange(c + 1, e) =~= crate::ser_spec::ser_props(
            Seq::<PropertyV>::empty(),
            bs,
        ) + crate::ser_spec::ser_pinits(inits.drop_first(), bs) + s4);
        assert(wf_pinits(inits.drop_first(), bs));
        lemma_ticket_content(
            toks,
            c + 1,
            e,
            Seq::<PropertyV>::empty(),
            inits.drop_first(),
            feats,
            bs,
        );
        assert(seq![inits[0]] + inits.drop_first() =~= inits);
        assert(parse_ticket_items(toks, i, e)->Ok_0 =~~= (PrintTicketDocumentV {
            properties: props,
            parameter_inits: inits,
            features: feats,
        }));
    } else if feats.len() > 0 {
        assert(toks.subrange(i, e) =~= s4);
        let a = crate::ser_spec::ser_feature(feats[0], bs);
        let b = crate::ser_spec::ser_features(feats.drop_first(), bs);
        assert(crate::ser_spec::ser_features(feats, bs) == a + b);
        lemma_split2(toks, i, a, b);
        assert(wf_feature(feats[0], bs));
        lemma_feature_rt(toks, i, feats[0], bs);
        let c = i + a.len() - 1;
        assert(toks[i] == a[0]);
        assert(child_ok(toks, i, e));
        assert(child_end(toks, i) == c);
        assert(toks.subrange(c + 1, e) =~= crate::ser_spec::ser_props(
            Seq::<PropertyV>::empty(),
            bs,
        ) + crate::ser_spec::ser_pinits(Seq::<ParameterInitV>::empty(), bs)
            + crate::ser_spec::ser_features(feats.drop_first(), bs));
        assert(wf_features(feats.drop_first(), bs));
        lemma_ticket_content(
            toks,
            c + 1,
            e,
            Seq::<PropertyV>::empty(),
            Seq::<ParameterInitV>::empty(),
            feats.drop_first(),
            bs,
        );
        assert(seq![feats[0]] + feats.drop_first() =~= feats);
        assert(parse_ticket_items(toks, i, e)->Ok_0 =~~= (PrintTicketDocumentV {
            properties: props,
            parameter_inits: inits,
            features: feats,
        }));
    } else {
        assert(parse_ticket_items(toks, i, e)->Ok_0 =~~= (PrintTicketDocumentV {
            properties: props,
            parameter_inits: inits,
            features: feats,
        }));
    }
}

/// Round trip for a PrintCapabilities document: parsing the canonical
/// token stream of a well-formed document gives the document back.
pub proof fn lemma_caps_roundtrip(d: PrintCapabilitiesDocumentV)
    requires
        wf_caps(d),
    ensures
        parse_doc(crate::ser_spec::ser_caps(d)) == Ok::<_, ParseErrV>(
            PrintSchemaDocumentV::PrintCapabilities(d),
        ),
{
    vocab_facts();
    let bs = crate::ser_spec::collect_caps(d);
    let toks = crate::ser_spec::ser_caps(d);
    let hd = seq![
        start_tok("PrintCapabilities"@, seq![crate::ser_spec::version_attr_tok()], bs),
    ];
    let s2 = crate::ser_spec::ser_props(d.properties, bs);
    let s3 = crate::ser_spec::ser_pdefs(d.parameter_defs, bs);
    let s4 = crate::ser_spec::ser_features(d.features, bs);
    let tl = seq![end_tok()];
    let l = toks.len() as int;
    assert(toks =~= hd + (s2 + (s3 + (s4 + tl))));
    assert(toks.subrange(0, l) =~= toks);
    assert(toks.subrange(1, l) =~= s2 + (s3 + (s4 + tl)));
    lemma_split2(toks, 1, s2, s3 + (s4 + tl));
    lemma_split2(toks, 1int + s2.len(), s3, s4 + tl);
    lemma_split2(toks, 1int + s2.len() + s3.len(), s4, tl);
    lemma_me_props(toks, 1int, 0, d.properties, bs);
    lemma_me_pdefs(toks, 1int + s2.len(), 0, d.parameter_defs, bs);
    lemma_me_features(toks, 1int + s2.len() + s3.len(), 0, d.features, bs);
    assert(toks[l - 1] == tl[0]);
    assert(match_end_from(toks, l - 1, 0) == Some(l - 1));
    assert(child_ok(toks, 0, l));
    assert(child_end(toks, 0) == l - 1);
    assert(toks[0] == hd[0]);
    assert(toks.subrange(1, l - 1) =~= s2 + s3 + s4);
    lemma_caps_content(toks, 1, l - 1, d.properties, d.parameter_defs, d.features, bs);
    assert(parse_caps_items(toks, 1, l - 1)->Ok_0 =~~= d);
}

/// Round trip for a PrintTicket document.
pub proof fn lemma_ticket_roundtrip(d: PrintTicketDocumentV)
    requires
        wf_ticket(d),
    ensures
        parse_doc(crate::ser_spec::ser_ticket(d)) == Ok::<_, ParseErrV>(
            PrintSchemaDocumentV::PrintTicket(d),
        ),
{
    vocab_facts();
    let bs = crate::ser_spec::collect_ticket(d);
    let toks = crate::ser_spec::ser_ticket(d);
    let hd = seq![
        start_tok("PrintTicket"@, seq![crate::ser_spec::version_attr_tok()], bs),
    ];
    let s2 = crate::ser_spec::ser_props(d.properties, bs);
    let s3 = crate::ser_spec::ser_pinits(d.parameter_inits, bs);
    let s4 = crate::ser_spec::ser_features(d.features, bs);
    let tl = seq![end_tok()];
    let l = toks.len() as int;
    assert(toks =~= hd + (s2 + (s3 + (s4 + tl))));
    assert(toks.subrange(0, l) =~= toks);
    assert(toks.subrange(1, l) =~= s2 + (s3 + (s4 + tl)));
    lemma_split2(toks, 1, s2, s3 + (s4 + tl));
    lemma_split2(toks, 1int + s2.len(), s3, s4 + tl);
    lemma_split2(toks, 1int + s2.len() + s3.len(), s4, tl);
    lemma_me_props(toks, 1int, 0, d.properties, bs);
    lemma_me_pinits(toks, 1int + s2.len(), 0, d.parameter_inits, bs);
    lemma_me_features(toks, 1int + s2.len() + s3.len(), 0, d.features, bs);
    assert(toks[l - 1] == tl[0]);
    assert(match_end_from(toks, l - 1, 0) == Some(l - 1));
    assert(child_ok(toks, 0, l));
    assert(child_end(toks, 0) == l - 1);
    assert(toks[0] == hd[0]);
    assert(toks.subrange(1, l - 1) =~= s2 + s3 + s4);
    lemma_ticket_content(toks, 1, l - 1, d.properties, d.parameter_inits, d.features, bs);
    assert(parse_ticket_items(toks, 1, l - 1)->Ok_0 =~~= d);
}

/// The round-trip law: for every well-formed document, parsing its
/// canonical token stream gives a document structurally equal to it, with
/// qualified names, value variants, and child ordering all preserved.
pub proof fn lemma_parse_serialize(d: PrintSchemaDocumentV)
    requires
        wf_doc(d),
    ensures
        parse_doc(crate::ser_spec::ser_doc(d)) == Ok::<_, ParseErrV>(d),
{
    match d {
        PrintSchemaDocumentV::PrintCapabilities(c) => {
            lemma_caps_roundtrip(c);
        },
        PrintSchemaDocumentV::PrintTicket(t) => {
            lemma_ticket_roundtrip(t);
        },
    }
}

/// The canonical form is stable: serializing a well-formed document,
/// parsing it back, and serializing again gives the same bytes.
pub proof fn lemma_canonical_stable(d: PrintSchemaDocumentV)
    requires
        wf_doc(d),
    ensures
        parse_doc(crate::ser_spec::ser_doc(d)) matches Ok(d2) && crate::xmlio::emit_of(
            crate::ser_spec::ser_doc(d2),
        ) == crate::xmlio::emit_of(crate::ser_spec::ser_doc(d)),
{
    lemma_parse_serialize(d);
}

/// The error that explains a missing end tag is always a lexical or a
/// schema-structural error.
proof fn lemma_stream_err_kind(toks: Seq<XmlTokV>, i: int)
    ensures
        crate::parse_spec::stream_err(toks, i) is InvalidXml || crate::parse_spec::stream_err(
            toks,
            i,
        ) is InvalidPrintSchema,
    decreases toks.len() - i,
{
    if 0 <= i < toks.len() {
        match toks[i] {
            XmlTokV::Fault { .. } => {},
            XmlTokV::DocEnd { .. } => {},
            _ => {
                lemma_stream_err_kind(toks, i + 1);
            },
        }
    }
}

/// Misplaced-parameter rejection, one direction: a `ParameterDef` element
/// among the items of a PrintTicket root is rejected with a
/// schema-structural error, whatever else the document holds.
pub proof fn lemma_pdef_rejected_in_ticket(toks: Seq<XmlTokV>, i: int, e: int)
    requires
        0 <= i < e <= toks.len(),
        toks[i] matches XmlTokV::ElemStart { name, .. } && crate::parse_spec::is_psf(name)
            && name.local_name == "ParameterDef"@,
    ensures
        crate::parse_spec::parse_ticket_items(toks, i, e) matches Err(er) && (er is
        InvalidPrintSchema || er is InvalidXml),
{
    vocab_facts();
    lemma_stream_err_kind(toks, i + 1);
}

/// Misplaced-parameter rejection, the other direction: a `ParameterInit`
/// element among the items of a PrintCapabilities root is rejected with a
/// schema-structural error, whatever else the document holds.
pub proof fn lemma_pinit_rejected_in_capabilities(toks: Seq<XmlTokV>, i: int, e: int)
    requires
        0 <= i < e <= toks.len(),
        toks[i] matches XmlTokV::ElemStart { name, .. } && crate::parse_spec::is_psf(name)
            && name.local_name == "ParameterInit"@,
    ensures
        crate::parse_spec::parse_caps_items(toks, i, e) matches Err(er) && (er is
        InvalidPrintSchema || er is InvalidXml),
{
    vocab_facts();
    lemma_stream_err_kind(toks, i + 1);
}

} // verus!
