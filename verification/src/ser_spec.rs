//! What serialization means: the canonical token stream a document tree
//! denotes. One pass collects the namespace bindings the document needs;
//! the tokens then carry those bindings on every element, and the root
//! start token declares them.

use vstd::prelude::*;
use crate::qname::{QNameV, fmt_name, NS_PSF, NS_XSI};
use crate::schema::{
    xsi_type_v, ParameterDefV, ParameterInitV, PrintCapabilitiesDocumentV, PrintFeatureOptionV,
    PrintFeatureV, PrintSchemaDocumentV, PrintTicketDocumentV, PropertyV, PropertyValueV,
    ScoredPropertyV,
};
use crate::tokens::{NsBindingV, TextPos, XmlAttrV, XmlTokV};
use crate::parse_spec::ns_lookup;
use crate::numeric::i32_dec;

verus! {

/// Add a binding unless its prefix is already bound; the first binding of
/// a prefix wins.
pub open spec fn ns_put(bs: Seq<NsBindingV>, p: Seq<char>, u: Seq<char>) -> Seq<NsBindingV> {
    if ns_lookup(bs, p) is Some {
        bs
    } else {
        bs.push(NsBindingV { prefix: p, uri: u })
    }
}

/// Add the binding a name carries, when it has both a prefix and a
/// namespace.
pub open spec fn ns_put_name(bs: Seq<NsBindingV>, n: QNameV) -> Seq<NsBindingV> {
    match n.prefix {
        Some(p) => match n.namespace {
            Some(u) => ns_put(bs, p, u),
            None => bs,
        },
        None => bs,
    }
}

/// The bindings a value needs: the framework and `xsi` prefixes, and the
/// binding of its `xsi:type` name.
pub open spec fn collect_value(bs: Seq<NsBindingV>, v: PropertyValueV) -> Seq<NsBindingV> {
    ns_put_name(ns_put(ns_put(bs, "psf"@, NS_PSF@), "xsi"@, NS_XSI@), xsi_type_v(v))
}

/// The bindings an optional value needs.
pub open spec fn collect_opt_value(bs: Seq<NsBindingV>, v: Option<PropertyValueV>) -> Seq<
    NsBindingV,
> {
    match v {
        Some(x) => collect_value(bs, x),
        None => bs,
    }
}

/// The binding an optional name carries.
pub open spec fn ns_put_opt_name(bs: Seq<NsBindingV>, n: Option<QNameV>) -> Seq<NsBindingV> {
    match n {
        Some(x) => ns_put_name(bs, x),
        None => bs,
    }
}

/// The bindings a property subtree needs.
pub open spec fn collect_prop(bs: Seq<NsBindingV>, p: PropertyV) -> Seq<NsBindingV>
    decreases p,
{
    collect_props(
        collect_opt_value(ns_put_name(ns_put(bs, "psf"@, NS_PSF@), p.name), p.value),
        p.properties,
    )
}

/// The bindings a property list needs, walked in order.
pub open spec fn collect_props(bs: Seq<NsBindingV>, ps: Seq<PropertyV>) -> Seq<NsBindingV>
    decreases ps,
{
    if ps.len() == 0 {
        bs
    } else {
        collect_props(collect_prop(bs, ps[0]), ps.drop_first())
    }
}

/// The bindings a scored-property subtree needs.
pub open spec fn collect_sp(bs: Seq<NsBindingV>, sp: ScoredPropertyV) -> Seq<NsBindingV>
    decreases sp,
{
    collect_props(
        collect_sps(
            collect_opt_value(
                ns_put_opt_name(
                    ns_put_opt_name(ns_put(bs, "psf"@, NS_PSF@), sp.name),
                    sp.parameter_ref,
                ),
                sp.value,
            ),
            sp.scored_properties,
        ),
        sp.properties,
    )
}

/// The bindings a scored-property list needs, walked in order.
pub open spec fn collect_sps(bs: Seq<NsBindingV>, sps: Seq<ScoredPropertyV>) -> Seq<NsBindingV>
    decreases sps,
{
    if sps.len() == 0 {
        bs
    } else {
        collect_sps(collect_sp(bs, sps[0]), sps.drop_first())
    }
}

/// The bindings an option subtree needs.
pub open spec fn collect_option(bs: Seq<NsBindingV>, o: PrintFeatureOptionV) -> Seq<NsBindingV>
    decreases o,
{
    collect_props(
        collect_sps(ns_put_opt_name(ns_put(bs, "psf"@, NS_PSF@), o.name), o.scored_properties),
        o.properties,
    )
}

/// The bindings an option list needs, walked in order.
pub open spec fn collect_options(bs: Seq<NsBindingV>, os: Seq<PrintFeatureOptionV>) -> Seq<
    NsBindingV,
>
    decreases os,
{
    if os.len() == 0 {
        bs
    } else {
        collect_options(collect_option(bs, os[0]), os.drop_first())
    }
}

/// The bindings a feature subtree needs: its own name, then its options,
/// properties, and sub-features.
pub open spec fn collect_feature(bs: Seq<NsBindingV>, f: PrintFeatureV) -> Seq<NsBindingV>
    decreases f,
{
    collect_features(
        collect_props(
            collect_options(ns_put_name(ns_put(bs, "psf"@, NS_PSF@), f.name), f.options),
            f.properties,
        ),
        f.features,
    )
}

/// The bindings a feature list needs, walked in order.
pub open spec fn collect_features(bs: Seq<NsBindingV>, fs: Seq<PrintFeatureV>) -> Seq<NsBindingV>
    decreases fs,
{
    if fs.len() == 0 {
        bs
    } else {
        collect_features(collect_feature(bs, fs[0]), fs.drop_first())
    }
}

/// The bindings a parameter declaration needs.
pub open spec fn collect_pdef(bs: Seq<NsBindingV>, d: ParameterDefV) -> Seq<NsBindingV>
    decreases d,
{
    collect_props(ns_put_name(ns_put(bs, "psf"@, NS_PSF@), d.name), d.properties)
}

/// The bindings a parameter-declaration list needs, walked in order.
pub open spec fn collect_pdefs(bs: Seq<NsBindingV>, ds: Seq<ParameterDefV>) -> Seq<NsBindingV>
    decreases ds,
{
    if ds.len() == 0 {
        bs
    } else {
        collect_pdefs(collect_pdef(bs, ds[0]), ds.drop_first())
    }
}

/// The bindings a parameter initialization needs.
pub open spec fn collect_pinit(bs: Seq<NsBindingV>, p: ParameterInitV) -> Seq<NsBindingV> {
    collect_value(ns_put_name(ns_put(bs, "psf"@, NS_PSF@), p.name), p.value)
}

/// The bindings a parameter-initialization list needs, walked in order.
pub open spec fn collect_pinits(bs: Seq<NsBindingV>, ps: Seq<ParameterInitV>) -> Seq<NsBindingV>
    decreases ps,
{
    if ps.len() == 0 {
        bs
    } else {
        collect_pinits(collect_pinit(bs, ps[0]), ps.drop_first())
    }
}

/// Every binding a PrintCapabilities document declares at its root.
pub open spec fn collect_caps(d: PrintCapabilitiesDocumentV) -> Seq<NsBindingV> {
    collect_features(
        collect_pdefs(
            collect_props(ns_put(Seq::<NsBindingV>::empty(), "psf"@, NS_PSF@), d.properties),
            d.parameter_defs,
        ),
        d.features,
    )
}

/// Every binding a PrintTicket document declares at its root.
pub open spec fn collect_ticket(d: PrintTicketDocumentV) -> Seq<NsBindingV> {
    collect_features(
        collect_pinits(
            collect_props(ns_put(Seq::<NsBindingV>::empty(), "psf"@, NS_PSF@), d.properties),
            d.parameter_inits,
        ),
        d.features,
    )
}

/// A framework element name with the conventional `psf` prefix.
pub open spec fn psf_name(local: Seq<char>) -> QNameV {
    QNameV { local_name: local, namespace: Some(NS_PSF@), prefix: Some("psf"@) }
}

/// A `name` attribute carrying a formatted qualified name.
pub open spec fn name_attr_tok(n: QNameV) -> XmlAttrV {
    XmlAttrV {
        name: QNameV { local_name: "name"@, namespace: None, prefix: None },
        value: fmt_name(n),
    }
}

/// The attributes of a start tag with an optional `name` attribute.
pub open spec fn opt_name_attrs(n: Option<QNameV>) -> Seq<XmlAttrV> {
    match n {
        Some(q) => seq![name_attr_tok(q)],
        None => Seq::<XmlAttrV>::empty(),
    }
}

/// The origin position serialized tokens carry.
pub open spec fn pos0() -> TextPos {
    TextPos { row: 0, column: 0 }
}

/// A start token for a framework element.
pub open spec fn start_tok(
    local: Seq<char>,
    attrs: Seq<XmlAttrV>,
    bs: Seq<NsBindingV>,
) -> XmlTokV {
    XmlTokV::ElemStart { name: psf_name(local), attrs, bindings: bs, pos: pos0() }
}

/// An end token.
pub open spec fn end_tok() -> XmlTokV {
    XmlTokV::ElemEnd { pos: pos0() }
}

/// The text a value serializes as.
pub open spec fn val_text(v: PropertyValueV) -> Seq<char> {
    match v {
        PropertyValueV::String(s) => s,
        PropertyValueV::Integer(i) => i32_dec(i),
        PropertyValueV::QName(q) => fmt_name(q),
        PropertyValueV::Unknown(_, s) => s,
    }
}

/// The `xsi:type` attribute of a value element.
pub open spec fn type_attr_tok(v: PropertyValueV) -> XmlAttrV {
    XmlAttrV {
        name: QNameV { local_name: "type"@, namespace: Some(NS_XSI@), prefix: Some("xsi"@) },
        value: fmt_name(xsi_type_v(v)),
    }
}

/// The tokens of a `Value` element.
pub open spec fn ser_value(v: PropertyValueV, bs: Seq<NsBindingV>) -> Seq<XmlTokV> {
    seq![
        start_tok("Value"@, seq![type_attr_tok(v)], bs),
        XmlTokV::Text { text: val_text(v) },
        end_tok(),
    ]
}

/// The tokens of an optional `Value` element.
pub open spec fn ser_opt_value(v: Option<PropertyValueV>, bs: Seq<NsBindingV>) -> Seq<XmlTokV> {
    match v {
        Some(x) => ser_value(x, bs),
        None => Seq::<XmlTokV>::empty(),
    }
}

/// The tokens of a `Property` element: its value first, then its
/// sub-properties.
pub open spec fn ser_property(p: PropertyV, bs: Seq<NsBindingV>) -> Seq<XmlTokV>
    decreases p,
{
    seq![start_tok("Property"@, seq![name_attr_tok(p.name)], bs)] + ser_opt_value(p.value, bs)
        + ser_props(p.properties, bs) + seq![end_tok()]
}

/// The tokens of a property list, in order.
pub open spec fn ser_props(ps: Seq<PropertyV>, bs: Seq<NsBindingV>) -> Seq<XmlTokV>
    decreases ps,
{
    if ps.len() == 0 {
        Seq::<XmlTokV>::empty()
    } else {
        ser_property(ps[0], bs) + ser_props(ps.drop_first(), bs)
    }
}

/// The tokens of a `ParameterRef` element, when a scored property
/// references a parameter.
pub open spec fn ser_pref(r: Option<QNameV>, bs: Seq<NsBindingV>) -> Seq<XmlTokV> {
    match r {
        Some(q) => seq![
            start_tok("ParameterRef"@, seq![name_attr_tok(q)], bs),
            end_tok(),
        ],
        None => Seq::<XmlTokV>::empty(),
    }
}

/// The tokens of a `ScoredProperty` element: its parameter reference, its
/// value, its nested scored properties, then its properties.
pub open spec fn ser_sp(sp: ScoredPropertyV, bs: Seq<NsBindingV>) -> Seq<XmlTokV>
    decreases sp,
{
    seq![start_tok("ScoredProperty"@, opt_name_attrs(sp.name), bs)] + ser_pref(
        sp.parameter_ref,
        bs,
    ) + ser_opt_value(sp.value, bs) + ser_sps(sp.scored_properties, bs) + ser_props(
        sp.properties,
        bs,
    ) + seq![end_tok()]
}

/// The tokens of a scored-property list, in order.
pub open spec fn ser_sps(sps: Seq<ScoredPropertyV>, bs: Seq<NsBindingV>) -> Seq<XmlTokV>
    decreases sps,
{
    if sps.len() == 0 {
        Seq::<XmlTokV>::empty()
    } else {
        ser_sp(sps[0], bs) + ser_sps(sps.drop_first(), bs)
    }
}

/// The tokens of an `Option` element: scored properties, then properties.
pub open spec fn ser_option(o: PrintFeatureOptionV, bs: Seq<NsBindingV>) -> Seq<XmlTokV>
    decreases o,
{
    seq![start_tok("Option"@, opt_name_attrs(o.name), bs)] + ser_sps(o.scored_properties, bs)
        + ser_props(o.properties, bs) + seq![end_tok()]
}

/// The tokens of an option list, in order.
pub open spec fn ser_options(os: Seq<PrintFeatureOptionV>, bs: Seq<NsBindingV>) -> Seq<XmlTokV>
    decreases os,
{
    if os.len() == 0 {
        Seq::<XmlTokV>::empty()
    } else {
        ser_option(os[0], bs) + ser_options(os.drop_first(), bs)
    }
}

/// The tokens of a `Feature` element: options, then properties, then
/// sub-features.
pub open spec fn ser_feature(f: PrintFeatureV, bs: Seq<NsBindingV>) -> Seq<XmlTokV>
    decreases f,
{
    seq![start_tok("Feature"@, seq![name_attr_tok(f.name)], bs)] + ser_options(f.options, bs)
        + ser_props(f.properties, bs) + ser_features(f.features, bs) + seq![end_tok()]
}

/// The tokens of a feature list, in order.
pub open spec fn ser_features(fs: Seq<PrintFeatureV>, bs: Seq<NsBindingV>) -> Seq<XmlTokV>
    decreases fs,
{
    if fs.len() == 0 {
        Seq::<XmlTokV>::empty()
    } else {
        ser_feature(fs[0], bs) + ser_features(fs.drop_first(), bs)
    }
}

/// The tokens of a `ParameterDef` element: its properties.
pub open spec fn ser_pdef(d: ParameterDefV, bs: Seq<NsBindingV>) -> Seq<XmlTokV>
    decreases d,
{
    seq![start_tok("ParameterDef"@, seq![name_attr_tok(d.name)], bs)] + ser_props(
        d.properties,
        bs,
    ) + seq![end_tok()]
}

/// The tokens of a parameter-declaration list, in order.
pub open spec fn ser_pdefs(ds: Seq<ParameterDefV>, bs: Seq<NsBindingV>) -> Seq<XmlTokV>
    decreases ds,
{
    if ds.len() == 0 {
        Seq::<XmlTokV>::empty()
    } else {
        ser_pdef(ds[0], bs) + ser_pdefs(ds.drop_first(), bs)
    }
}

/// The tokens of a `ParameterInit` element: its value.
pub open spec fn ser_pinit(p: ParameterInitV, bs: Seq<NsBindingV>) -> Seq<XmlTokV> {
    seq![start_tok("ParameterInit"@, seq![name_attr_tok(p.name)], bs)] + ser_value(p.value, bs)
        + seq![end_tok()]
}

/// The tokens of a parameter-initialization list, in order.
pub open spec fn ser_pinits(ps: Seq<ParameterInitV>, bs: Seq<NsBindingV>) -> Seq<XmlTokV>
    decreases ps,
{
    if ps.len() == 0 {
        Seq::<XmlTokV>::empty()
    } else {
        ser_pinit(ps[0], bs) + ser_pinits(ps.drop_first(), bs)
    }
}

/// The `version="1"` attribute every root element carries.
pub open spec fn version_attr_tok() -> XmlAttrV {
    XmlAttrV {
        name: QNameV { local_name: "version"@, namespace: None, prefix: None },
        value: "1"@,
    }
}

/// The tokens of a PrintCapabilities document: the root start tag with the
/// collected bindings and the version attribute, then properties,
/// parameter declarations, and features, then the root end tag, then the
/// end of the document.
pub open spec fn ser_caps(d: PrintCapabilitiesDocumentV) -> Seq<XmlTokV> {
    seq![
        start_tok("PrintCapabilities"@, seq![version_attr_tok()], collect_caps(d)),
    ] + ser_props(d.properties, collect_caps(d)) + ser_pdefs(d.parameter_defs, collect_caps(d))
        + ser_features(d.features, collect_caps(d)) + seq![end_tok()]
}

/// The tokens of a PrintTicket document.
pub open spec fn ser_ticket(d: PrintTicketDocumentV) -> Seq<XmlTokV> {
    seq![
        start_tok("PrintTicket"@, seq![version_attr_tok()], collect_ticket(d)),
    ] + ser_props(d.properties, collect_ticket(d)) + ser_pinits(
        d.parameter_inits,
        collect_ticket(d),
    ) + ser_features(d.features, collect_ticket(d)) + seq![end_tok()]
}

/// The tokens a document serializes to.
pub open spec fn ser_doc(d: PrintSchemaDocumentV) -> Seq<XmlTokV> {
    match d {
        PrintSchemaDocumentV::PrintCapabilities(c) => ser_caps(c),
        PrintSchemaDocumentV::PrintTicket(t) => ser_ticket(t),
    }
}

} // verus!
