//! Print capabilities: the parsed document together with parameter
//! resolution and option lookup over it.

use vstd::prelude::*;
use crate::qname::{QName, QNameV, NS_PSF, NS_PSK};
use crate::lookup::{default_value_spec, find_prop_spec};
use crate::schema::{
    views_of, ParameterDefV, ParameterInit, ParameterInitV, PrintCapabilitiesDocument,
    PrintFeatureOption, PrintFeatureOptionV, PrintFeatureV, PropertyValueV,
};

verus! {

broadcast use vstd::std_specs::vec::axiom_vec_index_decreases, crate::schema::group_schema_views;

/// The number of copies of a job.
#[derive(Clone, Copy, PartialEq, Eq, Hash, Debug, Structural)]
pub struct Copies(pub u16);

/// A device's parsed print capabilities.
pub struct PrintCapabilities {
    /// The capabilities document.
    pub document: PrintCapabilitiesDocument,
}

/// Whether any name in `filters` denotes the same name as `n`.
pub open spec fn contains_name(filters: Seq<QNameV>, n: QNameV) -> bool
    decreases filters.len(),
{
    if filters.len() == 0 {
        false
    } else {
        filters[0].same_name(n) || contains_name(filters.drop_first(), n)
    }
}

/// The parameter initializations the declared defaults give: one per
/// declaration that has a default value, in declaration order; a
/// declaration without a default is skipped.
pub open spec fn default_params_spec(defs: Seq<ParameterDefV>) -> Seq<ParameterInitV>
    decreases defs.len(),
{
    if defs.len() == 0 {
        Seq::<ParameterInitV>::empty()
    } else {
        (match default_value_spec(defs[0]) {
            Some(v) => seq![ParameterInitV { name: defs[0].name, value: v }],
            None => Seq::<ParameterInitV>::empty(),
        }) + default_params_spec(defs.drop_first())
    }
}

/// The parameter initializations the declared defaults give for the
/// declarations whose names are in the filter set, in declaration order.
pub open spec fn default_params_for_spec(
    defs: Seq<ParameterDefV>,
    filters: Seq<QNameV>,
) -> Seq<ParameterInitV>
    decreases defs.len(),
{
    if defs.len() == 0 {
        Seq::<ParameterInitV>::empty()
    } else {
        (if contains_name(filters, defs[0].name) {
            match default_value_spec(defs[0]) {
                Some(v) => seq![ParameterInitV { name: defs[0].name, value: v }],
                None => Seq::<ParameterInitV>::empty(),
            }
        } else {
            Seq::<ParameterInitV>::empty()
        }) + default_params_for_spec(defs.drop_first(), filters)
    }
}

/// The options of every feature with the given name, in document order.
pub open spec fn options_for_spec(feats: Seq<PrintFeatureV>, n: QNameV) -> Seq<
    PrintFeatureOptionV,
>
    decreases feats.len(),
{
    if feats.len() == 0 {
        Seq::<PrintFeatureOptionV>::empty()
    } else {
        (if feats[0].name.same_name(n) {
            feats[0].options
        } else {
            Seq::<PrintFeatureOptionV>::empty()
        }) + options_for_spec(feats.drop_first(), n)
    }
}

/// The first parameter declaration with the given namespace and local
/// name, if any.
pub open spec fn find_def_spec(
    defs: Seq<ParameterDefV>,
    local: Seq<char>,
    ns: Option<Seq<char>>,
) -> Option<ParameterDefV>
    decreases defs.len(),
{
    if defs.len() == 0 {
        None
    } else if defs[0].name.is_named(ns, local) {
        Some(defs[0])
    } else {
        find_def_spec(defs.drop_first(), local, ns)
    }
}

/// The greatest number of copies the device reports: the `MaxValue`
/// property of the `JobCopiesAllDocuments` parameter declaration, when it
/// is an integer that fits the copies type.
pub open spec fn max_copies_spec(defs: Seq<ParameterDefV>) -> Option<int> {
    match find_def_spec(defs, "JobCopiesAllDocuments"@, Some(NS_PSK@)) {
        Some(d) => match find_prop_spec(d.properties, "MaxValue"@, Some(NS_PSF@)) {
            Some(p) => match p.value {
                Some(PropertyValueV::Integer(v)) => if 0 <= v <= 0xffff {
                    Some(v)
                } else {
                    None
                },
                _ => None,
            },
            None => None,
        },
        None => None,
    }
}

/// Whether any of `filters` denotes the same name as `n`.
fn contains_name_exec(filters: &[QName], n: &QName) -> (r: bool)
    ensures
        r == contains_name(views_of(filters@), n@),
{
    let ghost fv = views_of(filters@);
    let mut i: usize = 0;
    proof {
        assert(fv.skip(0) =~= fv);
    }
    while i < filters.len()
        invariant
            0 <= i <= filters.len(),
            fv == views_of(filters@),
            contains_name(fv, n@) == contains_name(fv.skip(i as int), n@),
        decreases filters.len() - i,
    {
        proof {
            assert(fv.skip(i as int)[0] == fv[i as int]);
            assert(fv.skip(i as int).drop_first() =~= fv.skip(i as int + 1));
        }
        if filters[i].same_name(n) {
            return true;
        }
        i = i + 1;
    }
    proof {
        assert(fv.skip(filters@.len() as int) =~= Seq::<QNameV>::empty());
    }
    false
}

impl PrintCapabilities {
    /// One parameter initialization per declared parameter that carries a
    /// default value, in declaration order.
    pub fn default_parameters(&self) -> (r: Vec<ParameterInit>)
        ensures
            views_of(r@) == default_params_spec(views_of(self.document.parameter_defs@)),
    {
        let defs = &self.document.parameter_defs;
        let ghost dv = views_of(defs@);
        let mut out: Vec<ParameterInit> = Vec::new();
        let mut i: usize = 0;
        proof {
            assert(dv.skip(0) =~= dv);
            assert(views_of(out@) + default_params_spec(dv) =~= default_params_spec(dv));
        }
        while i < defs.len()
            invariant
                0 <= i <= defs.len(),
                dv == views_of(defs@),
                default_params_spec(dv) == views_of(out@) + default_params_spec(
                    dv.skip(i as int),
                ),
            decreases defs.len() - i,
        {
            let ghost prev = views_of(out@);
            proof {
                assert(dv.skip(i as int)[0] == dv[i as int]);
                assert(dv.skip(i as int).drop_first() =~= dv.skip(i as int + 1));
            }
            match defs[i].default_value() {
                Option::Some(v) => {
                    let init = ParameterInit { name: defs[i].name.clone(), value: v.clone() };
                    out.push(init);
                    proof {
                        assert(views_of(out@) =~= prev + seq![
                            ParameterInitV { name: dv[i as int].name, value: v@ },
                        ]);
                        assert(prev + (seq![
                            ParameterInitV { name: dv[i as int].name, value: v@ },
                        ] + default_params_spec(dv.skip(i as int + 1))) =~= views_of(out@)
                            + default_params_spec(dv.skip(i as int + 1)));
                    }
                },
                Option::None => {
                    proof {
                        assert(Seq::<ParameterInitV>::empty() + default_params_spec(
                            dv.skip(i as int + 1),
                        ) =~= default_params_spec(dv.skip(i as int + 1)));
                    }
                },
            }
            i = i + 1;
        }
        proof {
            assert(dv.skip(defs@.len() as int) =~= Seq::<ParameterDefV>::empty());
            assert(views_of(out@) + Seq::<ParameterInitV>::empty() =~= views_of(out@));
        }
        out
    }

    /// One parameter initialization per declared parameter whose name is
    /// in the filter set and that carries a default value, in declaration
    /// order; declarations without a default are silently skipped.
    pub fn default_parameters_for(&self, filters: &[QName]) -> (r: Vec<ParameterInit>)
        ensures
            views_of(r@) == default_params_for_spec(
                views_of(self.document.parameter_defs@),
                views_of(filters@),
            ),
    {
        let defs = &self.document.parameter_defs;
        let ghost dv = views_of(defs@);
        let ghost fv = views_of(filters@);
        let mut out: Vec<ParameterInit> = Vec::new();
        let mut i: usize = 0;
        proof {
            assert(dv.skip(0) =~= dv);
            assert(views_of(out@) + default_params_for_spec(dv, fv) =~= default_params_for_spec(
                dv,
                fv,
            ));
        }
        while i < defs.len()
            invariant
                0 <= i <= defs.len(),
                dv == views_of(defs@),
                fv == views_of(filters@),
                default_params_for_spec(dv, fv) == views_of(out@) + default_params_for_spec(
                    dv.skip(i as int),
                    fv,
                ),
            decreases defs.len() - i,
        {
            let ghost prev = views_of(out@);
            proof {
                assert(dv.skip(i as int)[0] == dv[i as int]);
                assert(dv.skip(i as int).drop_first() =~= dv.skip(i as int + 1));
            }
            if contains_name_exec(filters, &defs[i].name) {
                match defs[i].default_value() {
                    Option::Some(v) => {
                        let init = ParameterInit { name: defs[i].name.clone(), value: v.clone() };
                        out.push(init);
                        proof {
                            assert(views_of(out@) =~= prev + seq![
                                ParameterInitV { name: dv[i as int].name, value: v@ },
                            ]);
                            assert(prev + (seq![
                                ParameterInitV { name: dv[i as int].name, value: v@ },
                            ] + default_params_for_spec(dv.skip(i as int + 1), fv)) =~= views_of(
                                out@,
                            ) + default_params_for_spec(dv.skip(i as int + 1), fv));
                        }
                    },
                    Option::None => {
                        proof {
                            assert(Seq::<ParameterInitV>::empty() + default_params_for_spec(
                                dv.skip(i as int + 1),
                                fv,
                            ) =~= default_params_for_spec(dv.skip(i as int + 1), fv));
                        }
                    },
                }
            } else {
                proof {
                    assert(Seq::<ParameterInitV>::empty() + default_params_for_spec(
                        dv.skip(i as int + 1),
                        fv,
                    ) =~= default_params_for_spec(dv.skip(i as int + 1), fv));
                }
            }
            i = i + 1;
        }
        proof {
            assert(dv.skip(defs@.len() as int) =~= Seq::<ParameterDefV>::empty());
            assert(views_of(out@) + Seq::<ParameterInitV>::empty() =~= views_of(out@));
        }
        out
    }

    /// Every option of every feature with the given name, in document
    /// order.
    pub fn options_for_feature(&self, feature_name: &QName) -> (r: Vec<&PrintFeatureOption>)
        ensures
            views_of(r@) == options_for_spec(views_of(self.document.features@), feature_name@),
    {
        let feats = &self.document.features;
        let ghost tv = views_of(feats@);
        let mut out: Vec<&PrintFeatureOption> = Vec::new();
        let mut i: usize = 0;
        proof {
            assert(tv.skip(0) =~= tv);
            assert(views_of(out@) + options_for_spec(tv, feature_name@) =~= options_for_spec(
                tv,
                feature_name@,
            ));
        }
        while i < feats.len()
            invariant
                0 <= i <= feats.len(),
                tv == views_of(feats@),
                options_for_spec(tv, feature_name@) == views_of(out@) + options_for_spec(
                    tv.skip(i as int),
                    feature_name@,
                ),
            decreases feats.len() - i,
        {
            let ghost prev = views_of(out@);
            proof {
                assert(tv.skip(i as int)[0] == tv[i as int]);
                assert(tv.skip(i as int).drop_first() =~= tv.skip(i as int + 1));
            }
            if feats[i].name.same_name(feature_name) {
                let opts = &feats[i].options;
                let mut j: usize = 0;
                while j < opts.len()
                    invariant
                        0 <= j <= opts.len(),
                        tv == views_of(feats@),
                        0 <= i < feats@.len(),
                        opts == &feats@[i as int].options,
                        views_of(out@) =~= prev + views_of(opts@).take(j as int),
                    decreases opts.len() - j,
                {
                    out.push(&opts[j]);
                    proof {
                        assert(views_of(out@) =~= prev + views_of(opts@).take(j as int + 1));
                    }
                    j = j + 1;
                }
                proof {
                    assert(views_of(opts@).take(opts@.len() as int) =~= views_of(opts@));
                    assert(views_of(opts@) == tv[i as int].options);
                    assert(prev + (tv[i as int].options + options_for_spec(
                        tv.skip(i as int + 1),
                        feature_name@,
                    )) =~= views_of(out@) + options_for_spec(tv.skip(i as int + 1), feature_name@));
                }
            } else {
                proof {
                    assert(Seq::<PrintFeatureOptionV>::empty() + options_for_spec(
                        tv.skip(i as int + 1),
                        feature_name@,
                    ) =~= options_for_spec(tv.skip(i as int + 1), feature_name@));
                }
            }
            i = i + 1;
        }
        proof {
            assert(tv.skip(feats@.len() as int) =~= Seq::<PrintFeatureV>::empty());
            assert(views_of(out@) + Seq::<PrintFeatureOptionV>::empty() =~= views_of(out@));
        }
        out
    }

    /// The greatest number of copies the device reports, from the
    /// `MaxValue` property of the `JobCopiesAllDocuments` parameter;
    /// `None` when the device does not report one that fits.
    pub fn max_copies(&self) -> (r: Option<Copies>)
        ensures
            match r {
                Option::Some(c) => max_copies_spec(views_of(self.document.parameter_defs@))
                    == Some(c.0 as int),
                Option::None => max_copies_spec(views_of(self.document.parameter_defs@)) is None,
            },
    {
        let defs = &self.document.parameter_defs;
        let ghost dv = views_of(defs@);
        let mut i: usize = 0;
        proof {
            assert(dv.skip(0) =~= dv);
        }
        while i < defs.len()
            invariant
                0 <= i <= defs.len(),
                dv == views_of(defs@),
                dv == views_of(self.document.parameter_defs@),
                find_def_spec(dv, "JobCopiesAllDocuments"@, Some(NS_PSK@)) == find_def_spec(
                    dv.skip(i as int),
                    "JobCopiesAllDocuments"@,
                    Some(NS_PSK@),
                ),
            decreases defs.len() - i,
        {
            proof {
                assert(dv.skip(i as int)[0] == dv[i as int]);
                assert(dv.skip(i as int).drop_first() =~= dv.skip(i as int + 1));
            }
            if defs[i].name.matches("JobCopiesAllDocuments", Some(NS_PSK)) {
                proof {
                    assert(find_def_spec(dv, "JobCopiesAllDocuments"@, Some(NS_PSK@)) == Some(
                        dv[i as int],
                    ));
                }
                match crate::lookup::find_property(&defs[i].properties, "MaxValue", Some(NS_PSF)) {
                    Option::Some(p) => {
                        proof {
                            assert(find_prop_spec(
                                dv[i as int].properties,
                                "MaxValue"@,
                                Some(NS_PSF@),
                            ) == Some(p@));
                        }
                        match &p.value {
                            Option::Some(v) => {
                                proof {
                                    assert(p@.value == Some(v@));
                                }
                                match v.integer() {
                                    Option::Some(n) => {
                                        if 0 <= n && n <= 0xffff {
                                            return Some(Copies(n as u16));
                                        }
                                        return None;
                                    },
                                    Option::None => {
                                        return None;
                                    },
                                }
                            },
                            Option::None => {
                                return None;
                            },
                        }
                    },
                    Option::None => {
                        return None;
                    },
                }
            }
            i = i + 1;
        }
        proof {
            assert(dv.skip(defs@.len() as int) =~= Seq::<ParameterDefV>::empty());
        }
        None
    }
}

} // verus!
