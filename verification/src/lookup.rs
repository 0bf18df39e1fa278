//! Lookup helpers over the document tree: property and scored-property
//! search, parameter resolution, and the capability traits that give the
//! node types a uniform child lookup.

use vstd::prelude::*;
use crate::qname::{QName, QNameV, NS_PSF};
use crate::schema::{
    ParameterDef, ParameterDefV, ParameterInit, ParameterInitV, PrintCapabilitiesDocument,
    PrintFeature, PrintFeatureOption, PrintSchemaDocument, PrintTicketDocument, Property,
    PropertyV, PropertyValue, PropertyValueV, ScoredProperty, ScoredPropertyV, views_of,
};

verus! {

broadcast use vstd::std_specs::vec::axiom_vec_index_decreases, crate::schema::group_schema_views;

/// The view of an optional string slice.
pub open spec fn opt_str_view(s: Option<&str>) -> Option<Seq<char>> {
    match s {
        Option::Some(x) => Some(x@),
        Option::None => None,
    }
}

/// The first property in `s` whose name has the given namespace and local
/// name, if any.
pub open spec fn find_prop_spec(
    s: Seq<PropertyV>,
    local: Seq<char>,
    ns: Option<Seq<char>>,
) -> Option<PropertyV>
    decreases s.len(),
{
    if s.len() == 0 {
        None
    } else if s[0].name.is_named(ns, local) {
        Some(s[0])
    } else {
        find_prop_spec(s.drop_first(), local, ns)
    }
}

proof fn lemma_find_prop_at(s: Seq<PropertyV>, local: Seq<char>, ns: Option<Seq<char>>, i: int)
    requires
        0 <= i < s.len(),
        forall|j: int| 0 <= j < i ==> !(#[trigger] s[j].name).is_named(ns, local),
        s[i].name.is_named(ns, local),
    ensures
        find_prop_spec(s, local, ns) == Some(s[i]),
    decreases s.len(),
{
    if i > 0 {
        lemma_find_prop_at(s.drop_first(), local, ns, i - 1);
    }
}

proof fn lemma_find_prop_none(s: Seq<PropertyV>, local: Seq<char>, ns: Option<Seq<char>>)
    requires
        forall|j: int| 0 <= j < s.len() ==> !(#[trigger] s[j].name).is_named(ns, local),
    ensures
        find_prop_spec(s, local, ns) is None,
    decreases s.len(),
{
    if s.len() > 0 {
        lemma_find_prop_none(s.drop_first(), local, ns);
    }
}

/// Find the first property with the given local name and namespace.
pub fn find_property<'a>(
    props: &'a Vec<Property>,
    local: &str,
    ns: Option<&str>,
) -> (r: Option<&'a Property>)
    ensures
        match r {
            Option::Some(p) => find_prop_spec(views_of(props@), local@, opt_str_view(ns))
                == Some(p@),
            Option::None => find_prop_spec(views_of(props@), local@, opt_str_view(ns)) is None,
        },
{
    let ghost sv = views_of(props@);
    let ghost nsv = opt_str_view(ns);
    let mut i: usize = 0;
    while i < props.len()
        invariant
            0 <= i <= props.len(),
            sv == views_of(props@),
            nsv == opt_str_view(ns),
            forall|j: int| 0 <= j < i ==> !(#[trigger] sv[j].name).is_named(nsv, local@),
        decreases props.len() - i,
    {
        if props[i].name.matches(local, ns) {
            proof {
                lemma_find_prop_at(sv, local@, nsv, i as int);
            }
            return Some(&props[i]);
        }
        i = i + 1;
    }
    proof {
        lemma_find_prop_none(sv, local@, nsv);
    }
    None
}

/// The first scored property in `s` whose name is present and has the given
/// namespace and local name; anonymous scored properties never match.
pub open spec fn find_scored_spec(
    s: Seq<ScoredPropertyV>,
    local: Seq<char>,
    ns: Option<Seq<char>>,
) -> Option<ScoredPropertyV>
    decreases s.len(),
{
    if s.len() == 0 {
        None
    } else if s[0].name matches Some(n) && n.is_named(ns, local) {
        Some(s[0])
    } else {
        find_scored_spec(s.drop_first(), local, ns)
    }
}

proof fn lemma_find_scored_at(
    s: Seq<ScoredPropertyV>,
    local: Seq<char>,
    ns: Option<Seq<char>>,
    i: int,
)
    requires
        0 <= i < s.len(),
        forall|j: int| 0 <= j < i ==> !((#[trigger] s[j].name) matches Some(n)
            && n.is_named(ns, local)),
        s[i].name matches Some(n) && n.is_named(ns, local),
    ensures
        find_scored_spec(s, local, ns) == Some(s[i]),
    decreases s.len(),
{
    if i > 0 {
        lemma_find_scored_at(s.drop_first(), local, ns, i - 1);
    }
}

proof fn lemma_find_scored_none(s: Seq<ScoredPropertyV>, local: Seq<char>, ns: Option<Seq<char>>)
    requires
        forall|j: int| 0 <= j < s.len() ==> !((#[trigger] s[j].name) matches Some(n)
            && n.is_named(ns, local)),
    ensures
        find_scored_spec(s, local, ns) is None,
    decreases s.len(),
{
    if s.len() > 0 {
        lemma_find_scored_none(s.drop_first(), local, ns);
    }
}

/// Find the first scored property with the given local name and namespace.
pub fn find_scored_property<'a>(
    sps: &'a Vec<ScoredProperty>,
    local: &str,
    ns: Option<&str>,
) -> (r: Option<&'a ScoredProperty>)
    ensures
        match r {
            Option::Some(p) => find_scored_spec(views_of(sps@), local@, opt_str_view(ns))
                == Some(p@),
            Option::None => find_scored_spec(views_of(sps@), local@, opt_str_view(ns)) is None,
        },
{
    let ghost sv = views_of(sps@);
    let ghost nsv = opt_str_view(ns);
    let mut i: usize = 0;
    while i < sps.len()
        invariant
            0 <= i <= sps.len(),
            sv == views_of(sps@),
            nsv == opt_str_view(ns),
            forall|j: int| 0 <= j < i ==> !((#[trigger] sv[j].name) matches Some(n)
                && n.is_named(nsv, local@)),
        decreases sps.len() - i,
    {
        let matched = match sps[i].name {
            Option::Some(ref n) => n.matches(local, ns),
            Option::None => false,
        };
        if matched {
            proof {
                lemma_find_scored_at(sv, local@, nsv, i as int);
            }
            return Some(&sps[i]);
        }
        i = i + 1;
    }
    proof {
        lemma_find_scored_none(sv, local@, nsv);
    }
    None
}

/// The first parameter initialization in `s` whose name denotes the same
/// name as `name` (namespace and local name; the prefix is cosmetic).
pub open spec fn find_init_spec(s: Seq<ParameterInitV>, name: QNameV) -> Option<ParameterInitV>
    decreases s.len(),
{
    if s.len() == 0 {
        None
    } else if s[0].name.same_name(name) {
        Some(s[0])
    } else {
        find_init_spec(s.drop_first(), name)
    }
}

proof fn lemma_find_init_at(s: Seq<ParameterInitV>, name: QNameV, i: int)
    requires
        0 <= i < s.len(),
        forall|j: int| 0 <= j < i ==> !(#[trigger] s[j].name).same_name(name),
        s[i].name.same_name(name),
    ensures
        find_init_spec(s, name) == Some(s[i]),
    decreases s.len(),
{
    if i > 0 {
        lemma_find_init_at(s.drop_first(), name, i - 1);
    }
}

proof fn lemma_find_init_none(s: Seq<ParameterInitV>, name: QNameV)
    requires
        forall|j: int| 0 <= j < s.len() ==> !(#[trigger] s[j].name).same_name(name),
    ensures
        find_init_spec(s, name) is None,
    decreases s.len(),
{
    if s.len() > 0 {
        lemma_find_init_none(s.drop_first(), name);
    }
}

/// Find the first parameter initialization for the given name.
pub fn find_parameter_init<'a>(
    params: &'a [ParameterInit],
    name: &QName,
) -> (r: Option<&'a ParameterInit>)
    ensures
        match r {
            Option::Some(p) => find_init_spec(views_of(params@), name@) == Some(p@),
            Option::None => find_init_spec(views_of(params@), name@) is None,
        },
{
    let ghost sv = views_of(params@);
    let mut i: usize = 0;
    while i < params.len()
        invariant
            0 <= i <= params.len(),
            sv == views_of(params@),
            forall|j: int| 0 <= j < i ==> !(#[trigger] sv[j].name).same_name(name@),
        decreases params.len() - i,
    {
        if params[i].name.same_name(name) {
            proof {
                lemma_find_init_at(sv, name@, i as int);
            }
            return Some(&params[i]);
        }
        i = i + 1;
    }
    proof {
        lemma_find_init_none(sv, name@);
    }
    None
}

/// Uniform read access to the plain properties of a node.
pub trait WithProperties {
    /// The views of the node's properties, in document order.
    spec fn props_view(&self) -> Seq<PropertyV>;

    /// The properties of the node.
    fn properties(&self) -> (r: &Vec<Property>)
        ensures
            views_of(r@) == self.props_view(),
    ;

    /// The first property with the given local name and namespace, if any.
    fn get_property(&self, local: &str, ns: Option<&str>) -> (r: Option<&Property>)
        ensures
            match r {
                Option::Some(p) => find_prop_spec(self.props_view(), local@, opt_str_view(ns))
                    == Some(p@),
                Option::None => find_prop_spec(self.props_view(), local@, opt_str_view(ns))
                    is None,
            },
    ;
}

/// Uniform read access to the scored properties of a node.
pub trait WithScoredProperties {
    /// The views of the node's scored properties, in document order.
    spec fn scored_view(&self) -> Seq<ScoredPropertyV>;

    /// The scored properties of the node.
    fn scored_properties(&self) -> (r: &Vec<ScoredProperty>)
        ensures
            views_of(r@) == self.scored_view(),
    ;

    /// The first scored property with the given local name and namespace,
    /// if any; anonymous scored properties never match.
    fn get_scored_property(&self, local: &str, ns: Option<&str>) -> (r: Option<&ScoredProperty>)
        ensures
            match r {
                Option::Some(p) => find_scored_spec(self.scored_view(), local@, opt_str_view(ns))
                    == Some(p@),
                Option::None => find_scored_spec(self.scored_view(), local@, opt_str_view(ns))
                    is None,
            },
    ;
}

impl WithProperties for Property {
    open spec fn props_view(&self) -> Seq<PropertyV> {
        self@.properties
    }

    fn properties(&self) -> (r: &Vec<Property>) {
        &self.properties
    }

    fn get_property(&self, local: &str, ns: Option<&str>) -> (r: Option<&Property>) {
        find_property(&self.properties, local, ns)
    }
}

impl WithProperties for ScoredProperty {
    open spec fn props_view(&self) -> Seq<PropertyV> {
        self@.properties
    }

    fn properties(&self) -> (r: &Vec<Property>) {
        &self.properties
    }

    fn get_property(&self, local: &str, ns: Option<&str>) -> (r: Option<&Property>) {
        find_property(&self.properties, local, ns)
    }
}

impl WithProperties for PrintFeatureOption {
    open spec fn props_view(&self) -> Seq<PropertyV> {
        self@.properties
    }

    fn properties(&self) -> (r: &Vec<Property>) {
        &self.properties
    }

    fn get_property(&self, local: &str, ns: Option<&str>) -> (r: Option<&Property>) {
        find_property(&self.properties, local, ns)
    }
}

impl WithProperties for PrintFeature {
    open spec fn props_view(&self) -> Seq<PropertyV> {
        self@.properties
    }

    fn properties(&self) -> (r: &Vec<Property>) {
        &self.properties
    }

    fn get_property(&self, local: &str, ns: Option<&str>) -> (r: Option<&Property>) {
        find_property(&self.properties, local, ns)
    }
}

impl WithProperties for ParameterDef {
    open spec fn props_view(&self) -> Seq<PropertyV> {
        self@.properties
    }

    fn properties(&self) -> (r: &Vec<Property>) {
        &self.properties
    }

    fn get_property(&self, local: &str, ns: Option<&str>) -> (r: Option<&Property>) {
        find_property(&self.properties, local, ns)
    }
}

impl WithProperties for PrintCapabilitiesDocument {
    open spec fn props_view(&self) -> Seq<PropertyV> {
        self@.properties
    }

    fn properties(&self) -> (r: &Vec<Property>) {
        &self.properties
    }

    fn get_property(&self, local: &str, ns: Option<&str>) -> (r: Option<&Property>) {
        find_property(&self.properties, local, ns)
    }
}

impl WithProperties for PrintTicketDocument {
    open spec fn props_view(&self) -> Seq<PropertyV> {
        self@.properties
    }

    fn properties(&self) -> (r: &Vec<Property>) {
        &self.properties
    }

    fn get_property(&self, local: &str, ns: Option<&str>) -> (r: Option<&Property>) {
        find_property(&self.properties, local, ns)
    }
}

impl WithProperties for PrintSchemaDocument {
    open spec fn props_view(&self) -> Seq<PropertyV> {
        match self {
            PrintSchemaDocument::PrintCapabilities(d) => d@.properties,
            PrintSchemaDocument::PrintTicket(d) => d@.properties,
        }
    }

    fn properties(&self) -> (r: &Vec<Property>) {
        match self {
            PrintSchemaDocument::PrintCapabilities(d) => &d.properties,
            PrintSchemaDocument::PrintTicket(d) => &d.properties,
        }
    }

    fn get_property(&self, local: &str, ns: Option<&str>) -> (r: Option<&Property>) {
        match self {
            PrintSchemaDocument::PrintCapabilities(d) => find_property(&d.properties, local, ns),
            PrintSchemaDocument::PrintTicket(d) => find_property(&d.properties, local, ns),
        }
    }
}

impl WithScoredProperties for PrintFeatureOption {
    open spec fn scored_view(&self) -> Seq<ScoredPropertyV> {
        self@.scored_properties
    }

    fn scored_properties(&self) -> (r: &Vec<ScoredProperty>) {
        &self.scored_properties
    }

    fn get_scored_property(&self, local: &str, ns: Option<&str>) -> (r: Option<&ScoredProperty>) {
        find_scored_property(&self.scored_properties, local, ns)
    }
}

impl WithScoredProperties for ScoredProperty {
    open spec fn scored_view(&self) -> Seq<ScoredPropertyV> {
        self@.scored_properties
    }

    fn scored_properties(&self) -> (r: &Vec<ScoredProperty>) {
        &self.scored_properties
    }

    fn get_scored_property(&self, local: &str, ns: Option<&str>) -> (r: Option<&ScoredProperty>) {
        find_scored_property(&self.scored_properties, local, ns)
    }
}

/// The default value a parameter declaration carries: the value of its
/// child property named `DefaultValue` in the Print Schema Framework
/// namespace, if that property exists and has a value.
pub open spec fn default_value_spec(d: ParameterDefV) -> Option<PropertyValueV> {
    match find_prop_spec(d.properties, "DefaultValue"@, Some(NS_PSF@)) {
        Some(p) => p.value,
        None => None,
    }
}

impl ParameterDef {
    /// Get the declared default value of this parameter, if any.
    pub fn default_value(&self) -> (r: Option<&PropertyValue>)
        ensures
            match r {
                Option::Some(v) => default_value_spec(self@) == Some(v@),
                Option::None => default_value_spec(self@) is None,
            },
    {
        match find_property(&self.properties, "DefaultValue", Some(NS_PSF)) {
            Option::Some(p) => {
                match p.value {
                    Option::Some(ref v) => Some(v),
                    Option::None => None,
                }
            },
            Option::None => None,
        }
    }
}

/// Every parameter name referenced from a scored property: its own
/// `parameter_ref` if set, then the references of its nested scored
/// properties, in document order.
pub open spec fn sp_deps_spec(sp: ScoredPropertyV) -> Seq<QNameV>
    decreases sp,
{
    (match sp.parameter_ref {
        Some(r) => seq![r],
        None => Seq::<QNameV>::empty(),
    }) + sps_deps_spec(sp.scored_properties)
}

/// The concatenated parameter references of a list of scored properties.
pub open spec fn sps_deps_spec(s: Seq<ScoredPropertyV>) -> Seq<QNameV>
    decreases s,
{
    if s.len() == 0 {
        Seq::<QNameV>::empty()
    } else {
        sp_deps_spec(s[0]) + sps_deps_spec(s.drop_first())
    }
}

fn sps_deps(sps: &Vec<ScoredProperty>, out: &mut Vec<QName>)
    ensures
        views_of(final(out)@) == views_of(old(out)@) + sps_deps_spec(views_of(sps@)),
    decreases sps,
{
    let ghost sv = views_of(sps@);
    let mut i: usize = 0;
    while i < sps.len()
        invariant
            0 <= i <= sps.len(),
            sv == views_of(sps@),
            views_of(out@) == views_of(old(out)@) + sps_deps_prefix(sv, i as int),
        decreases sps.len() - i,
    {
        proof {
            lemma_sps_deps_prefix_step(sv, i as int);
        }
        if let Option::Some(ref r) = sps[i].parameter_ref {
            let q = r.clone();
            out.push(q);
            proof {
                assert(views_of(out@) =~= views_of(old(out)@) + sps_deps_prefix(sv, i as int)
                    + seq![sv[i as int].parameter_ref->Some_0]);
            }
        }
        sps_deps(&sps[i].scored_properties, out);
        proof {
            assert(views_of(sps@[i as int].scored_properties@)
                == sv[i as int].scored_properties);
            assert(views_of(out@) =~= views_of(old(out)@)
                + sps_deps_prefix(sv, i as int + 1));
        }
        i = i + 1;
    }
    proof {
        lemma_sps_deps_prefix_all(sv);
        assert(views_of(out@) =~= views_of(old(out)@) + sps_deps_spec(sv));
    }
}

/// The references collected from the first `i` scored properties.
spec fn sps_deps_prefix(s: Seq<ScoredPropertyV>, i: int) -> Seq<QNameV>
    decreases i,
{
    if i <= 0 {
        Seq::<QNameV>::empty()
    } else {
        sps_deps_prefix(s, i - 1) + sp_deps_spec(s[i - 1])
    }
}

proof fn lemma_sps_deps_prefix_step(s: Seq<ScoredPropertyV>, i: int)
    requires
        0 <= i < s.len(),
    ensures
        sps_deps_prefix(s, i + 1) == sps_deps_prefix(s, i) + (match s[i].parameter_ref {
            Some(r) => seq![r],
            None => Seq::<QNameV>::empty(),
        }) + sps_deps_spec(s[i].scored_properties),
{
    assert(sps_deps_prefix(s, i + 1) == sps_deps_prefix(s, i) + sp_deps_spec(s[i]));
    assert(sps_deps_prefix(s, i) + sp_deps_spec(s[i]) =~= sps_deps_prefix(s, i)
        + (match s[i].parameter_ref {
            Some(r) => seq![r],
            None => Seq::<QNameV>::empty(),
        }) + sps_deps_spec(s[i].scored_properties));
}

proof fn lemma_sps_deps_prefix_all(s: Seq<ScoredPropertyV>)
    ensures
        sps_deps_prefix(s, s.len() as int) == sps_deps_spec(s),
    decreases s.len(),
{
    if s.len() > 0 {
        lemma_sps_deps_prefix_all(s.drop_first());
        lemma_sps_deps_prefix_shift(s, s.len() as int - 1);
        assert(sps_deps_prefix(s, s.len() as int) =~= sps_deps_spec(s));
    }
}

proof fn lemma_sps_deps_prefix_shift(s: Seq<ScoredPropertyV>, i: int)
    requires
        0 <= i <= s.len() - 1,
        s.len() > 0,
    ensures
        sps_deps_prefix(s, i + 1) == sp_deps_spec(s[0]) + sps_deps_prefix(s.drop_first(), i),
    decreases i,
{
    if i == 0 {
        assert(sps_deps_prefix(s, 0) == Seq::<QNameV>::empty());
        assert(sps_deps_prefix(s.drop_first(), 0) == Seq::<QNameV>::empty());
        assert(sps_deps_prefix(s, 1) =~= sp_deps_spec(s[0])
            + sps_deps_prefix(s.drop_first(), 0));
    } else {
        lemma_sps_deps_prefix_shift(s, i - 1);
        assert(s.drop_first()[i - 1] == s[i]);
        assert(sps_deps_prefix(s, i + 1) =~= sp_deps_spec(s[0])
            + sps_deps_prefix(s.drop_first(), i));
    }
}

impl ScoredProperty {
    /// Collect every parameter name this scored property depends on:
    /// its own `parameter_ref`, then those of its nested scored
    /// properties, in document order.
    pub fn parameters_dependent(&self) -> (r: Vec<QName>)
        ensures
            views_of(r@) == sp_deps_spec(self@),
    {
        let mut out: Vec<QName> = Vec::new();
        if let Option::Some(ref q) = self.parameter_ref {
            out.push(q.clone());
        }
        sps_deps(&self.scored_properties, &mut out);
        proof {
            assert(views_of(self.scored_properties@) == self@.scored_properties);
            assert(views_of(out@) =~= sp_deps_spec(self@));
        }
        out
    }

    /// The effective value of this scored property, given the parameter
    /// initializations in scope: its own literal value if it references no
    /// parameter, else the value of the first initialization of the
    /// referenced name.
    pub fn value_with<'a>(&'a self, parameters: &'a [ParameterInit]) -> (r: Option<
        &'a PropertyValue,
    >)
        ensures
            match r {
                Option::Some(v) => value_with_spec(self@, views_of(parameters@)) == Some(v@),
                Option::None => value_with_spec(self@, views_of(parameters@)) is None,
            },
    {
        match self.parameter_ref {
            Option::Some(ref pr) => {
                match find_parameter_init(parameters, pr) {
                    Option::Some(pi) => Some(&pi.value),
                    Option::None => None,
                }
            },
            Option::None => {
                match self.value {
                    Option::Some(ref v) => Some(v),
                    Option::None => None,
                }
            },
        }
    }
}

/// The effective value of a scored property under the given parameter
/// initializations.
pub open spec fn value_with_spec(
    sp: ScoredPropertyV,
    params: Seq<ParameterInitV>,
) -> Option<PropertyValueV> {
    match sp.parameter_ref {
        Some(r) => match find_init_spec(params, r) {
            Some(pi) => Some(pi.value),
            None => None,
        },
        None => sp.value,
    }
}

impl PrintFeatureOption {
    /// Collect every parameter name this option depends on, walking its
    /// scored properties in document order.
    pub fn parameters_dependent(&self) -> (r: Vec<QName>)
        ensures
            views_of(r@) == sps_deps_spec(self@.scored_properties),
    {
        let mut out: Vec<QName> = Vec::new();
        sps_deps(&self.scored_properties, &mut out);
        proof {
            assert(views_of(self.scored_properties@) == self@.scored_properties);
            assert(views_of(out@) =~= sps_deps_spec(self@.scored_properties));
        }
        out
    }
}

} // verus!
