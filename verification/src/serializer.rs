//! The executable serializer: it walks the tree once to collect the
//! namespace bindings, then emits the canonical token stream, verified to
//! be exactly what the serialization specification denotes.

use vstd::prelude::*;
use crate::qname::{QName, clone_string, format_name, NS_PSF, NS_XSI};
use crate::schema::{
    views_of, ParameterDef, ParameterInit, PrintCapabilitiesDocument, PrintFeature,
    PrintFeatureOption, PrintSchemaDocument, PrintTicketDocument, Property, PropertyValue,
    ScoredProperty,
};
use crate::tokens::{NsBinding, NsBindingV, TextPos, XmlAttr, XmlTok, XmlTokV};
use crate::numeric::i32_to_string;
use crate::parse_util::lookup_prefix_exists;
use crate::ser_spec::{
    collect_caps, collect_feature, collect_features, collect_opt_value, collect_option,
    collect_options, collect_pdef, collect_pdefs, collect_pinit, collect_pinits, collect_prop,
    collect_props, collect_sp, collect_sps, collect_ticket, collect_value, end_tok, name_attr_tok,
    ns_put, ns_put_name, ns_put_opt_name, opt_name_attrs, pos0, psf_name, ser_caps, ser_doc,
    ser_feature, ser_features, ser_opt_value, ser_option, ser_options, ser_pdef, ser_pdefs,
    ser_pinit, ser_pinits, ser_pref, ser_property, ser_props, ser_sp, ser_sps, ser_ticket,
    ser_value, start_tok, type_attr_tok, val_text, version_attr_tok,
};

verus! {

broadcast use vstd::std_specs::vec::axiom_vec_index_decreases, crate::schema::group_schema_views;

/// Clone the bindings list, keeping its value.
fn clone_bindings(bs: &Vec<NsBinding>) -> (r: Vec<NsBinding>)
    ensures
        views_of(r@) == views_of(bs@),
{
    let mut out: Vec<NsBinding> = Vec::new();
    let mut i: usize = 0;
    while i < bs.len()
        invariant
            0 <= i <= bs.len(),
            views_of(out@) =~= views_of(bs@).take(i as int),
        decreases bs.len() - i,
    {
        out.push(NsBinding {
            prefix: clone_string(&bs[i].prefix),
            uri: clone_string(&bs[i].uri),
        });
        proof {
            assert(views_of(out@) =~= views_of(bs@).take(i as int + 1));
        }
        i = i + 1;
    }
    proof {
        assert(views_of(bs@).take(bs@.len() as int) =~= views_of(bs@));
    }
    out
}

/// Add a binding unless its prefix is already bound.
fn put_binding(bs: &mut Vec<NsBinding>, prefix: &str, uri: &str)
    ensures
        views_of(final(bs)@) == ns_put(views_of(old(bs)@), prefix@, uri@),
{
    if !lookup_prefix_exists(bs, prefix) {
        bs.push(NsBinding { prefix: prefix.to_owned(), uri: uri.to_owned() });
    }
}

/// Add the binding a name carries, when it has both a prefix and a
/// namespace.
fn put_name_binding(bs: &mut Vec<NsBinding>, n: &QName)
    ensures
        views_of(final(bs)@) == ns_put_name(views_of(old(bs)@), n@),
{
    match (&n.prefix, &n.namespace) {
        (Option::Some(p), Option::Some(u)) => {
            put_binding(bs, p.as_str(), u.as_str());
        },
        _ => {},
    }
}

/// Add the binding an optional name carries.
fn put_opt_name_binding(bs: &mut Vec<NsBinding>, n: &Option<QName>)
    ensures
        views_of(final(bs)@) == ns_put_opt_name(
            views_of(old(bs)@),
            match n {
                Option::Some(q) => Some(q@),
                Option::None => None,
            },
        ),
{
    match n {
        Option::Some(q) => put_name_binding(bs, q),
        Option::None => {},
    }
}

/// Collect the bindings a value needs.
fn collect_value_into(bs: &mut Vec<NsBinding>, v: &PropertyValue)
    ensures
        views_of(final(bs)@) == collect_value(views_of(old(bs)@), v@),
{
    put_binding(bs, "psf", NS_PSF);
    put_binding(bs, "xsi", NS_XSI);
    let t = v.xsi_type();
    put_name_binding(bs, &t);
}

/// Collect the bindings an optional value needs.
fn collect_opt_value_into(bs: &mut Vec<NsBinding>, v: &Option<PropertyValue>)
    ensures
        views_of(final(bs)@) == collect_opt_value(
            views_of(old(bs)@),
            match v {
                Option::Some(x) => Some(x@),
                Option::None => None,
            },
        ),
{
    match v {
        Option::Some(x) => collect_value_into(bs, x),
        Option::None => {},
    }
}

/// Collect the bindings a property subtree needs.
fn collect_prop_into(bs: &mut Vec<NsBinding>, p: &Property)
    ensures
        views_of(final(bs)@) == collect_prop(views_of(old(bs)@), p@),
    decreases p,
{
    put_binding(bs, "psf", NS_PSF);
    put_name_binding(bs, &p.name);
    collect_opt_value_into(bs, &p.value);
    collect_props_into(bs, &p.properties);
}

/// Collect the bindings a property list needs, in order.
fn collect_props_into(bs: &mut Vec<NsBinding>, ps: &Vec<Property>)
    ensures
        views_of(final(bs)@) == collect_props(views_of(old(bs)@), views_of(ps@)),
    decreases ps,
{
    let ghost psv = views_of(ps@);
    let mut k: usize = 0;
    proof {
        assert(psv.skip(0) =~= psv);
    }
    while k < ps.len()
        invariant
            0 <= k <= ps.len(),
            psv == views_of(ps@),
            collect_props(views_of(old(bs)@), psv) == collect_props(
                views_of(bs@),
                psv.skip(k as int),
            ),
        decreases ps.len() - k,
    {
        proof {
            assert(psv.skip(k as int)[0] == psv[k as int]);
            assert(psv.skip(k as int).drop_first() =~= psv.skip(k as int + 1));
        }
        collect_prop_into(bs, &ps[k]);
        k = k + 1;
    }
    proof {
        assert(psv.skip(ps@.len() as int) =~= Seq::<crate::schema::PropertyV>::empty());
    }
}

/// Collect the bindings a scored-property subtree needs.
fn collect_sp_into(bs: &mut Vec<NsBinding>, sp: &ScoredProperty)
    ensures
        views_of(final(bs)@) == collect_sp(views_of(old(bs)@), sp@),
    decreases sp,
{
    put_binding(bs, "psf", NS_PSF);
    put_opt_name_binding(bs, &sp.name);
    put_opt_name_binding(bs, &sp.parameter_ref);
    collect_opt_value_into(bs, &sp.value);
    collect_sps_into(bs, &sp.scored_properties);
    collect_props_into(bs, &sp.properties);
}

/// Collect the bindings a scored-property list needs, in order.
fn collect_sps_into(bs: &mut Vec<NsBinding>, sps: &Vec<ScoredProperty>)
    ensures
        views_of(final(bs)@) == collect_sps(views_of(old(bs)@), views_of(sps@)),
    decreases sps,
{
    let ghost sv = views_of(sps@);
    let mut k: usize = 0;
    proof {
        assert(sv.skip(0) =~= sv);
    }
    while k < sps.len()
        invariant
            0 <= k <= sps.len(),
            sv == views_of(sps@),
            collect_sps(views_of(old(bs)@), sv) == collect_sps(views_of(bs@), sv.skip(k as int)),
        decreases sps.len() - k,
    {
        proof {
            assert(sv.skip(k as int)[0] == sv[k as int]);
            assert(sv.skip(k as int).drop_first() =~= sv.skip(k as int + 1));
        }
        collect_sp_into(bs, &sps[k]);
        k = k + 1;
    }
    proof {
        assert(sv.skip(sps@.len() as int) =~= Seq::<crate::schema::ScoredPropertyV>::empty());
    }
}

/// Collect the bindings an option subtree needs.
fn collect_option_into(bs: &mut Vec<NsBinding>, o: &PrintFeatureOption)
    ensures
        views_of(final(bs)@) == collect_option(views_of(old(bs)@), o@),
    decreases o,
{
    put_binding(bs, "psf", NS_PSF);
    put_opt_name_binding(bs, &o.name);
    collect_sps_into(bs, &o.scored_properties);
    collect_props_into(bs, &o.properties);
}

/// Collect the bindings an option list needs, in order.
fn collect_options_into(bs: &mut Vec<NsBinding>, os: &Vec<PrintFeatureOption>)
    ensures
        views_of(final(bs)@) == collect_options(views_of(old(bs)@), views_of(os@)),
    decreases os,
{
    let ghost ov = views_of(os@);
    let mut k: usize = 0;
    proof {
        assert(ov.skip(0) =~= ov);
    }
    while k < os.len()
        invariant
            0 <= k <= os.len(),
            ov == views_of(os@),
            collect_options(views_of(old(bs)@), ov) == collect_options(
                views_of(bs@),
                ov.skip(k as int),
            ),
        decreases os.len() - k,
    {
        proof {
            assert(ov.skip(k as int)[0] == ov[k as int]);
            assert(ov.skip(k as int).drop_first() =~= ov.skip(k as int + 1));
        }
        collect_option_into(bs, &os[k]);
        k = k + 1;
    }
    proof {
        assert(ov.skip(os@.len() as int)
            =~= Seq::<crate::schema::PrintFeatureOptionV>::empty());
    }
}

/// Collect the bindings a feature subtree needs.
fn collect_feature_into(bs: &mut Vec<NsBinding>, f: &PrintFeature)
    ensures
        views_of(final(bs)@) == collect_feature(views_of(old(bs)@), f@),
    decreases f,
{
    put_binding(bs, "psf", NS_PSF);
    put_name_binding(bs, &f.name);
    collect_options_into(bs, &f.options);
    collect_props_into(bs, &f.properties);
    collect_features_into(bs, &f.features);
}

/// Collect the bindings a feature list needs, in order.
fn collect_features_into(bs: &mut Vec<NsBinding>, fs: &Vec<PrintFeature>)
    ensures
        views_of(final(bs)@) == collect_features(views_of(old(bs)@), views_of(fs@)),
    decreases fs,
{
    let ghost fv = views_of(fs@);
    let mut k: usize = 0;
    proof {
        assert(fv.skip(0) =~= fv);
    }
    while k < fs.len()
        invariant
            0 <= k <= fs.len(),
            fv == views_of(fs@),
            collect_features(views_of(old(bs)@), fv) == collect_features(
                views_of(bs@),
                fv.skip(k as int),
            ),
        decreases fs.len() - k,
    {
        proof {
            assert(fv.skip(k as int)[0] == fv[k as int]);
            assert(fv.skip(k as int).drop_first() =~= fv.skip(k as int + 1));
        }
        collect_feature_into(bs, &fs[k]);
        k = k + 1;
    }
    proof {
        assert(fv.skip(fs@.len() as int) =~= Seq::<crate::schema::PrintFeatureV>::empty());
    }
}

/// Collect the bindings a parameter declaration needs.
fn collect_pdef_into(bs: &mut Vec<NsBinding>, d: &ParameterDef)
    ensures
        views_of(final(bs)@) == collect_pdef(views_of(old(bs)@), d@),
    decreases d,
{
    put_binding(bs, "psf", NS_PSF);
    put_name_binding(bs, &d.name);
    collect_props_into(bs, &d.properties);
}

/// Collect the bindings a parameter-declaration list needs, in order.
fn collect_pdefs_into(bs: &mut Vec<NsBinding>, ds: &Vec<ParameterDef>)
    ensures
        views_of(final(bs)@) == collect_pdefs(views_of(old(bs)@), views_of(ds@)),
{
    let ghost dv = views_of(ds@);
    let mut k: usize = 0;
    proof {
        assert(dv.skip(0) =~= dv);
    }
    while k < ds.len()
        invariant
            0 <= k <= ds.len(),
            dv == views_of(ds@),
            collect_pdefs(views_of(old(bs)@), dv) == collect_pdefs(
                views_of(bs@),
                dv.skip(k as int),
            ),
        decreases ds.len() - k,
    {
        proof {
            assert(dv.skip(k as int)[0] == dv[k as int]);
            assert(dv.skip(k as int).drop_first() =~= dv.skip(k as int + 1));
        }
        collect_pdef_into(bs, &ds[k]);
        k = k + 1;
    }
    proof {
        assert(dv.skip(ds@.len() as int) =~= Seq::<crate::schema::ParameterDefV>::empty());
    }
}

/// Collect the bindings a parameter initialization needs.
fn collect_pinit_into(bs: &mut Vec<NsBinding>, p: &ParameterInit)
    ensures
        views_of(final(bs)@) == collect_pinit(views_of(old(bs)@), p@),
{
    put_binding(bs, "psf", NS_PSF);
    put_name_binding(bs, &p.name);
    collect_value_into(bs, &p.value);
}

/// Collect the bindings a parameter-initialization list needs, in order.
fn collect_pinits_into(bs: &mut Vec<NsBinding>, ps: &Vec<ParameterInit>)
    ensures
        views_of(final(bs)@) == collect_pinits(views_of(old(bs)@), views_of(ps@)),
{
    let ghost pv = views_of(ps@);
    let mut k: usize = 0;
    proof {
        assert(pv.skip(0) =~= pv);
    }
    while k < ps.len()
        invariant
            0 <= k <= ps.len(),
            pv == views_of(ps@),
            collect_pinits(views_of(old(bs)@), pv) == collect_pinits(
                views_of(bs@),
                pv.skip(k as int),
            ),
        decreases ps.len() - k,
    {
        proof {
            assert(pv.skip(k as int)[0] == pv[k as int]);
            assert(pv.skip(k as int).drop_first() =~= pv.skip(k as int + 1));
        }
        collect_pinit_into(bs, &ps[k]);
        k = k + 1;
    }
    proof {
        assert(pv.skip(ps@.len() as int) =~= Seq::<crate::schema::ParameterInitV>::empty());
    }
}

/// The text a value serializes as.
fn value_text(v: &PropertyValue) -> (r: String)
    ensures
        r@ == val_text(v@),
{
    match v {
        PropertyValue::String(s) => clone_string(s),
        PropertyValue::Integer(i) => i32_to_string(*i),
        PropertyValue::QName(q) => format_name(q),
        PropertyValue::Unknown(_, s) => clone_string(s),
    }
}

/// Push a start token for a framework element.
fn push_start(out: &mut Vec<XmlTok>, local: &str, attrs: Vec<XmlAttr>, bs: &Vec<NsBinding>)
    ensures
        views_of(final(out)@) == views_of(old(out)@).push(
            XmlTokV::ElemStart {
                name: psf_name(local@),
                attrs: views_of(attrs@),
                bindings: views_of(bs@),
                pos: pos0(),
            },
        ),
{
    let name = QName::qualified(local, NS_PSF, Some("psf"));
    let bindings = clone_bindings(bs);
    out.push(XmlTok::ElemStart { name, attrs, bindings, pos: TextPos { row: 0, column: 0 } });
}

/// Push an end token.
fn push_end(out: &mut Vec<XmlTok>)
    ensures
        views_of(final(out)@) == views_of(old(out)@).push(end_tok()),
{
    out.push(XmlTok::ElemEnd { pos: TextPos { row: 0, column: 0 } });
}

/// The attribute list holding one `name` attribute.
fn name_attrs(n: &QName) -> (r: Vec<XmlAttr>)
    ensures
        views_of(r@) =~= seq![name_attr_tok(n@)],
{
    let mut attrs: Vec<XmlAttr> = Vec::new();
    attrs.push(XmlAttr { name: QName::local("name"), value: format_name(n) });
    attrs
}

/// The attribute list of an element with an optional name.
fn opt_name_attrs_exec(n: &Option<QName>) -> (r: Vec<XmlAttr>)
    ensures
        views_of(r@) =~= opt_name_attrs(
            match n {
                Option::Some(q) => Some(q@),
                Option::None => None,
            },
        ),
{
    match n {
        Option::Some(q) => name_attrs(q),
        Option::None => Vec::new(),
    }
}

/// Emit the tokens of a `Value` element.
fn ser_value_into(v: &PropertyValue, bs: &Vec<NsBinding>, out: &mut Vec<XmlTok>)
    ensures
        views_of(final(out)@) == views_of(old(out)@) + ser_value(v@, views_of(bs@)),
{
    let t = v.xsi_type();
    let mut attrs: Vec<XmlAttr> = Vec::new();
    attrs.push(XmlAttr { name: QName::qualified("type", NS_XSI, Some("xsi")), value: format_name(&t) });
    proof {
        assert(views_of(attrs@) =~= seq![type_attr_tok(v@)]);
    }
    push_start(out, "Value", attrs, bs);
    out.push(XmlTok::Text { text: value_text(v) });
    push_end(out);
    proof {
        assert(views_of(out@) =~= views_of(old(out)@) + ser_value(v@, views_of(bs@)));
    }
}

/// Emit the tokens of an optional `Value` element.
fn ser_opt_value_into(v: &Option<PropertyValue>, bs: &Vec<NsBinding>, out: &mut Vec<XmlTok>)
    ensures
        views_of(final(out)@) == views_of(old(out)@) + ser_opt_value(
            match v {
                Option::Some(x) => Some(x@),
                Option::None => None,
            },
            views_of(bs@),
        ),
{
    match v {
        Option::Some(x) => ser_value_into(x, bs, out),
        Option::None => {
            proof {
                assert(views_of(out@) =~= views_of(out@) + Seq::<XmlTokV>::empty());
            }
        },
    }
}

/// Emit the tokens of a `Property` element.
fn ser_property_into(p: &Property, bs: &Vec<NsBinding>, out: &mut Vec<XmlTok>)
    ensures
        views_of(final(out)@) == views_of(old(out)@) + ser_property(p@, views_of(bs@)),
    decreases p,
{
    let ghost bsv = views_of(bs@);
    push_start(out, "Property", name_attrs(&p.name), bs);
    proof {
        assert(views_of(out@) =~= views_of(old(out)@) + seq![
            start_tok("Property"@, seq![name_attr_tok(p@.name)], bsv),
        ]);
    }
    ser_opt_value_into(&p.value, bs, out);
    ser_props_into(&p.properties, bs, out);
    push_end(out);
    proof {
        assert(views_of(out@) =~= views_of(old(out)@) + ser_property(p@, bsv));
    }
}

/// Emit the tokens of a property list, in order.
fn ser_props_into(ps: &Vec<Property>, bs: &Vec<NsBinding>, out: &mut Vec<XmlTok>)
    ensures
        views_of(final(out)@) == views_of(old(out)@) + ser_props(views_of(ps@), views_of(bs@)),
    decreases ps,
{
    let ghost psv = views_of(ps@);
    let ghost bsv = views_of(bs@);
    let mut k: usize = 0;
    proof {
        assert(psv.skip(0) =~= psv);
        assert(views_of(out@) + ser_props(psv, bsv) =~= views_of(old(out)@) + ser_props(
            psv,
            bsv,
        ));
    }
    while k < ps.len()
        invariant
            0 <= k <= ps.len(),
            psv == views_of(ps@),
            bsv == views_of(bs@),
            views_of(old(out)@) + ser_props(psv, bsv) == views_of(out@) + ser_props(
                psv.skip(k as int),
                bsv,
            ),
        decreases ps.len() - k,
    {
        let ghost prev = views_of(out@);
        proof {
            assert(psv.skip(k as int)[0] == psv[k as int]);
            assert(psv.skip(k as int).drop_first() =~= psv.skip(k as int + 1));
        }
        ser_property_into(&ps[k], bs, out);
        proof {
            assert(prev + (ser_property(psv[k as int], bsv) + ser_props(
                psv.skip(k as int + 1),
                bsv,
            )) =~= views_of(out@) + ser_props(psv.skip(k as int + 1), bsv));
        }
        k = k + 1;
    }
    proof {
        assert(psv.skip(ps@.len() as int) =~= Seq::<crate::schema::PropertyV>::empty());
        assert(views_of(out@) + Seq::<XmlTokV>::empty() =~= views_of(out@));
    }
}

/// Emit the tokens of a `ParameterRef` element, when a reference is set.
fn ser_pref_into(r: &Option<QName>, bs: &Vec<NsBinding>, out: &mut Vec<XmlTok>)
    ensures
        views_of(final(out)@) == views_of(old(out)@) + ser_pref(
            match r {
                Option::Some(q) => Some(q@),
                Option::None => None,
            },
            views_of(bs@),
        ),
{
    match r {
        Option::Some(q) => {
            push_start(out, "ParameterRef", name_attrs(q), bs);
            push_end(out);
            proof {
                assert(views_of(out@) =~= views_of(old(out)@) + ser_pref(
                    Some(q@),
                    views_of(bs@),
                ));
            }
        },
        Option::None => {
            proof {
                assert(views_of(out@) =~= views_of(out@) + Seq::<XmlTokV>::empty());
            }
        },
    }
}

/// Emit the tokens of a `ScoredProperty` element.
fn ser_sp_into(sp: &ScoredProperty, bs: &Vec<NsBinding>, out: &mut Vec<XmlTok>)
    ensures
        views_of(final(out)@) == views_of(old(out)@) + ser_sp(sp@, views_of(bs@)),
    decreases sp,
{
    let ghost bsv = views_of(bs@);
    push_start(out, "ScoredProperty", opt_name_attrs_exec(&sp.name), bs);
    proof {
        assert(views_of(out@) =~= views_of(old(out)@) + seq![
            start_tok("ScoredProperty"@, opt_name_attrs(sp@.name), bsv),
        ]);
    }
    ser_pref_into(&sp.parameter_ref, bs, out);
    ser_opt_value_into(&sp.value, bs, out);
    ser_sps_into(&sp.scored_properties, bs, out);
    ser_props_into(&sp.properties, bs, out);
    push_end(out);
    proof {
        assert(views_of(out@) =~= views_of(old(out)@) + ser_sp(sp@, bsv));
    }
}

/// Emit the tokens of a scored-property list, in order.
fn ser_sps_into(sps: &Vec<ScoredProperty>, bs: &Vec<NsBinding>, out: &mut Vec<XmlTok>)
    ensures
        views_of(final(out)@) == views_of(old(out)@) + ser_sps(views_of(sps@), views_of(bs@)),
    decreases sps,
{
    let ghost sv = views_of(sps@);
    let ghost bsv = views_of(bs@);
    let mut k: usize = 0;
    proof {
        assert(sv.skip(0) =~= sv);
        assert(views_of(out@) + ser_sps(sv, bsv) =~= views_of(old(out)@) + ser_sps(sv, bsv));
    }
    while k < sps.len()
        invariant
            0 <= k <= sps.len(),
            sv == views_of(sps@),
            bsv == views_of(bs@),
            views_of(old(out)@) + ser_sps(sv, bsv) == views_of(out@) + ser_sps(
                sv.skip(k as int),
                bsv,
            ),
        decreases sps.len() - k,
    {
        let ghost prev = views_of(out@);
        proof {
            assert(sv.skip(k as int)[0] == sv[k as int]);
            assert(sv.skip(k as int).drop_first() =~= sv.skip(k as int + 1));
        }
        ser_sp_into(&sps[k], bs, out);
        proof {
            assert(prev + (ser_sp(sv[k as int], bsv) + ser_sps(sv.skip(k as int + 1), bsv))
                =~= views_of(out@) + ser_sps(sv.skip(k as int + 1), bsv));
        }
        k = k + 1;
    }
    proof {
        assert(sv.skip(sps@.len() as int) =~= Seq::<crate::schema::ScoredPropertyV>::empty());
        assert(views_of(out@) + Seq::<XmlTokV>::empty() =~= views_of(out@));
    }
}

/// Emit the tokens of an `Option` element.
fn ser_option_into(o: &PrintFeatureOption, bs: &Vec<NsBinding>, out: &mut Vec<XmlTok>)
    ensures
        views_of(final(out)@) == views_of(old(out)@) + ser_option(o@, views_of(bs@)),
    decreases o,
{
    let ghost bsv = views_of(bs@);
    push_start(out, "Option", opt_name_attrs_exec(&o.name), bs);
    proof {
        assert(views_of(out@) =~= views_of(old(out)@) + seq![
            start_tok("Option"@, opt_name_attrs(o@.name), bsv),
        ]);
    }
    ser_sps_into(&o.scored_properties, bs, out);
    ser_props_into(&o.properties, bs, out);
    push_end(out);
    proof {
        assert(views_of(out@) =~= views_of(old(out)@) + ser_option(o@, bsv));
    }
}

/// Emit the tokens of an option list, in order.
fn ser_options_into(os: &Vec<PrintFeatureOption>, bs: &Vec<NsBinding>, out: &mut Vec<XmlTok>)
    ensures
        views_of(final(out)@) == views_of(old(out)@) + ser_options(views_of(os@), views_of(bs@)),
    decreases os,
{
    let ghost ov = views_of(os@);
    let ghost bsv = views_of(bs@);
    let mut k: usize = 0;
    proof {
        assert(ov.skip(0) =~= ov);
        assert(views_of(out@) + ser_options(ov, bsv) =~= views_of(old(out)@) + ser_options(
            ov,
            bsv,
        ));
    }
    while k < os.len()
        invariant
            0 <= k <= os.len(),
            ov == views_of(os@),
            bsv == views_of(bs@),
            views_of(old(out)@) + ser_options(ov, bsv) == views_of(out@) + ser_options(
                ov.skip(k as int),
                bsv,
            ),
        decreases os.len() - k,
    {
        let ghost prev = views_of(out@);
        proof {
            assert(ov.skip(k as int)[0] == ov[k as int]);
            assert(ov.skip(k as int).drop_first() =~= ov.skip(k as int + 1));
        }
        ser_option_into(&os[k], bs, out);
        proof {
            assert(prev + (ser_option(ov[k as int], bsv) + ser_options(
                ov.skip(k as int + 1),
                bsv,
            )) =~= views_of(out@) + ser_options(ov.skip(k as int + 1), bsv));
        }
        k = k + 1;
    }
    proof {
        assert(ov.skip(os@.len() as int)
            =~= Seq::<crate::schema::PrintFeatureOptionV>::empty());
        assert(views_of(out@) + Seq::<XmlTokV>::empty() =~= views_of(out@));
    }
}

/// Emit the tokens of a `Feature` element.
fn ser_feature_into(f: &PrintFeature, bs: &Vec<NsBinding>, out: &mut Vec<XmlTok>)
    ensures
        views_of(final(out)@) == views_of(old(out)@) + ser_feature(f@, views_of(bs@)),
    decreases f,
{
    let ghost bsv = views_of(bs@);
    push_start(out, "Feature", name_attrs(&f.name), bs);
    proof {
        assert(views_of(out@) =~= views_of(old(out)@) + seq![
            start_tok("Feature"@, seq![name_attr_tok(f@.name)], bsv),
        ]);
    }
    ser_options_into(&f.options, bs, out);
    ser_props_into(&f.properties, bs, out);
    ser_features_into(&f.features, bs, out);
    push_end(out);
    proof {
        assert(views_of(out@) =~= views_of(old(out)@) + ser_feature(f@, bsv));
    }
}

/// Emit the tokens of a feature list, in order.
fn ser_features_into(fs: &Vec<PrintFeature>, bs: &Vec<NsBinding>, out: &mut Vec<XmlTok>)
    ensures
        views_of(final(out)@) == views_of(old(out)@) + ser_features(views_of(fs@), views_of(bs@)),
    decreases fs,
{
    let ghost fv = views_of(fs@);
    let ghost bsv = views_of(bs@);
    let mut k: usize = 0;
    proof {
        assert(fv.skip(0) =~= fv);
        assert(views_of(out@) + ser_features(fv, bsv) =~= views_of(old(out)@) + ser_features(
            fv,
            bsv,
        ));
    }
    while k < fs.len()
        invariant
            0 <= k <= fs.len(),
            fv == views_of(fs@),
            bsv == views_of(bs@),
            views_of(old(out)@) + ser_features(fv, bsv) == views_of(out@) + ser_features(
                fv.skip(k as int),
                bsv,
            ),
        decreases fs.len() - k,
    {
        let ghost prev = views_of(out@);
        proof {
            assert(fv.skip(k as int)[0] == fv[k as int]);
            assert(fv.skip(k as int).drop_first() =~= fv.skip(k as int + 1));
        }
        ser_feature_into(&fs[k], bs, out);
        proof {
            assert(prev + (ser_feature(fv[k as int], bsv) + ser_features(
                fv.skip(k as int + 1),
                bsv,
            )) =~= views_of(out@) + ser_features(fv.skip(k as int + 1), bsv));
        }
        k = k + 1;
    }
    proof {
        assert(fv.skip(fs@.len() as int) =~= Seq::<crate::schema::PrintFeatureV>::empty());
        assert(views_of(out@) + Seq::<XmlTokV>::empty() =~= views_of(out@));
    }
}

/// Emit the tokens of a `ParameterDef` element.
fn ser_pdef_into(d: &ParameterDef, bs: &Vec<NsBinding>, out: &mut Vec<XmlTok>)
    ensures
        views_of(final(out)@) == views_of(old(out)@) + ser_pdef(d@, views_of(bs@)),
    decreases d,
{
    let ghost bsv = views_of(bs@);
    push_start(out, "ParameterDef", name_attrs(&d.name), bs);
    proof {
        assert(views_of(out@) =~= views_of(old(out)@) + seq![
            start_tok("ParameterDef"@, seq![name_attr_tok(d@.name)], bsv),
        ]);
    }
    ser_props_into(&d.properties, bs, out);
    push_end(out);
    proof {
        assert(views_of(out@) =~= views_of(old(out)@) + ser_pdef(d@, bsv));
    }
}

/// Emit the tokens of a parameter-declaration list, in order.
fn ser_pdefs_into(ds: &Vec<ParameterDef>, bs: &Vec<NsBinding>, out: &mut Vec<XmlTok>)
    ensures
        views_of(final(out)@) == views_of(old(out)@) + ser_pdefs(views_of(ds@), views_of(bs@)),
{
    let ghost dv = views_of(ds@);
    let ghost bsv = views_of(bs@);
    let mut k: usize = 0;
    proof {
        assert(dv.skip(0) =~= dv);
        assert(views_of(out@) + ser_pdefs(dv, bsv) =~= views_of(old(out)@) + ser_pdefs(
            dv,
            bsv,
        ));
    }
    while k < ds.len()
        invariant
            0 <= k <= ds.len(),
            dv == views_of(ds@),
            bsv == views_of(bs@),
            views_of(old(out)@) + ser_pdefs(dv, bsv) == views_of(out@) + ser_pdefs(
                dv.skip(k as int),
                bsv,
            ),
        decreases ds.len() - k,
    {
        let ghost prev = views_of(out@);
        proof {
            assert(dv.skip(k as int)[0] == dv[k as int]);
            assert(dv.skip(k as int).drop_first() =~= dv.skip(k as int + 1));
        }
        ser_pdef_into(&ds[k], bs, out);
        proof {
            assert(prev + (ser_pdef(dv[k as int], bsv) + ser_pdefs(dv.skip(k as int + 1), bsv))
                =~= views_of(out@) + ser_pdefs(dv.skip(k as int + 1), bsv));
        }
        k = k + 1;
    }
    proof {
        assert(dv.skip(ds@.len() as int) =~= Seq::<crate::schema::ParameterDefV>::empty());
        assert(views_of(out@) + Seq::<XmlTokV>::empty() =~= views_of(out@));
    }
}

/// Emit the tokens of a `ParameterInit` element.
fn ser_pinit_into(p: &ParameterInit, bs: &Vec<NsBinding>, out: &mut Vec<XmlTok>)
    ensures
        views_of(final(out)@) == views_of(old(out)@) + ser_pinit(p@, views_of(bs@)),
{
    let ghost bsv = views_of(bs@);
    push_start(out, "ParameterInit", name_attrs(&p.name), bs);
    proof {
        assert(views_of(out@) =~= views_of(old(out)@) + seq![
            start_tok("ParameterInit"@, seq![name_attr_tok(p@.name)], bsv),
        ]);
    }
    ser_value_into(&p.value, bs, out);
    push_end(out);
    proof {
        assert(views_of(out@) =~= views_of(old(out)@) + ser_pinit(p@, bsv));
    }
}

/// Emit the tokens of a parameter-initialization list, in order.
fn ser_pinits_into(ps: &Vec<ParameterInit>, bs: &Vec<NsBinding>, out: &mut Vec<XmlTok>)
    ensures
        views_of(final(out)@) == views_of(old(out)@) + ser_pinits(views_of(ps@), views_of(bs@)),
{
    let ghost pv = views_of(ps@);
    let ghost bsv = views_of(bs@);
    let mut k: usize = 0;
    proof {
        assert(pv.skip(0) =~= pv);
        assert(views_of(out@) + ser_pinits(pv, bsv) =~= views_of(old(out)@) + ser_pinits(
            pv,
            bsv,
        ));
    }
    while k < ps.len()
        invariant
            0 <= k <= ps.len(),
            pv == views_of(ps@),
            bsv == views_of(bs@),
            views_of(old(out)@) + ser_pinits(pv, bsv) == views_of(out@) + ser_pinits(
                pv.skip(k as int),
                bsv,
            ),
        decreases ps.len() - k,
    {
        let ghost prev = views_of(out@);
        proof {
            assert(pv.skip(k as int)[0] == pv[k as int]);
            assert(pv.skip(k as int).drop_first() =~= pv.skip(k as int + 1));
        }
        ser_pinit_into(&ps[k], bs, out);
        proof {
            assert(prev + (ser_pinit(pv[k as int], bsv) + ser_pinits(
                pv.skip(k as int + 1),
                bsv,
            )) =~= views_of(out@) + ser_pinits(pv.skip(k as int + 1), bsv));
        }
        k = k + 1;
    }
    proof {
        assert(pv.skip(ps@.len() as int) =~= Seq::<crate::schema::ParameterInitV>::empty());
        assert(views_of(out@) + Seq::<XmlTokV>::empty() =~= views_of(out@));
    }
}

/// The attribute list of a root element: `version="1"`.
fn version_attrs() -> (r: Vec<XmlAttr>)
    ensures
        views_of(r@) =~= seq![version_attr_tok()],
{
    let mut attrs: Vec<XmlAttr> = Vec::new();
    attrs.push(XmlAttr { name: QName::local("version"), value: "1".to_owned() });
    attrs
}

/// The canonical token stream of a PrintCapabilities document.
pub fn caps_tokens(d: &PrintCapabilitiesDocument) -> (r: Vec<XmlTok>)
    ensures
        views_of(r@) == ser_caps(d@),
{
    let mut bs: Vec<NsBinding> = Vec::new();
    put_binding(&mut bs, "psf", NS_PSF);
    collect_props_into(&mut bs, &d.properties);
    collect_pdefs_into(&mut bs, &d.parameter_defs);
    collect_features_into(&mut bs, &d.features);
    proof {
        assert(views_of(Seq::<NsBinding>::empty()) =~= Seq::<NsBindingV>::empty());
        assert(views_of(bs@) == collect_caps(d@));
    }
    let mut out: Vec<XmlTok> = Vec::new();
    push_start(&mut out, "PrintCapabilities", version_attrs(), &bs);
    proof {
        assert(views_of(out@) =~= Seq::<XmlTokV>::empty() + seq![
            start_tok("PrintCapabilities"@, seq![version_attr_tok()], collect_caps(d@)),
        ]);
    }
    ser_props_into(&d.properties, &bs, &mut out);
    ser_pdefs_into(&d.parameter_defs, &bs, &mut out);
    ser_features_into(&d.features, &bs, &mut out);
    push_end(&mut out);
    proof {
        assert(views_of(out@) =~= ser_caps(d@));
    }
    out
}

/// The canonical token stream of a PrintTicket document.
pub fn ticket_tokens(d: &PrintTicketDocument) -> (r: Vec<XmlTok>)
    ensures
        views_of(r@) == ser_ticket(d@),
{
    let mut bs: Vec<NsBinding> = Vec::new();
    put_binding(&mut bs, "psf", NS_PSF);
    collect_props_into(&mut bs, &d.properties);
    collect_pinits_into(&mut bs, &d.parameter_inits);
    collect_features_into(&mut bs, &d.features);
    proof {
        assert(views_of(Seq::<NsBinding>::empty()) =~= Seq::<NsBindingV>::empty());
        assert(views_of(bs@) == collect_ticket(d@));
    }
    let mut out: Vec<XmlTok> = Vec::new();
    push_start(&mut out, "PrintTicket", version_attrs(), &bs);
    proof {
        assert(views_of(out@) =~= Seq::<XmlTokV>::empty() + seq![
            start_tok("PrintTicket"@, seq![version_attr_tok()], collect_ticket(d@)),
        ]);
    }
    ser_props_into(&d.properties, &bs, &mut out);
    ser_pinits_into(&d.parameter_inits, &bs, &mut out);
    ser_features_into(&d.features, &bs, &mut out);
    push_end(&mut out);
    proof {
        assert(views_of(out@) =~= ser_ticket(d@));
    }
    out
}

/// The canonical token stream of a document of either kind.
pub fn doc_tokens(d: &PrintSchemaDocument) -> (r: Vec<XmlTok>)
    ensures
        views_of(r@) == ser_doc(d@),
{
    match d {
        PrintSchemaDocument::PrintCapabilities(c) => caps_tokens(c),
        PrintSchemaDocument::PrintTicket(t) => ticket_tokens(t),
    }
}

} // verus!
