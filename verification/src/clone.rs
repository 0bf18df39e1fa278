//! Value-preserving clones of the document tree nodes.

use vstd::prelude::*;
use crate::qname::clone_string;
use crate::schema::{
    views_of, ParameterDef, ParameterInit, PrintFeature, PrintFeatureOption, Property,
    PropertyValue, ScoredProperty,
};

verus! {

broadcast use vstd::std_specs::vec::axiom_vec_index_decreases, crate::schema::group_schema_views;

impl Clone for PropertyValue {
    /// Clone the value, keeping its mathematical value.
    fn clone(&self) -> (r: Self)
        ensures
            r@ == self@,
    {
        match self {
            PropertyValue::String(s) => PropertyValue::String(clone_string(s)),
            PropertyValue::Integer(i) => PropertyValue::Integer(*i),
            PropertyValue::QName(q) => PropertyValue::QName(q.clone()),
            PropertyValue::Unknown(t, s) => PropertyValue::Unknown(t.clone(), clone_string(s)),
        }
    }
}

/// Clone an optional value, keeping its mathematical value.
fn clone_opt_value(v: &Option<PropertyValue>) -> (r: Option<PropertyValue>)
    ensures
        match v {
            Option::Some(x) => r matches Some(y) && y@ == x@,
            Option::None => r is None,
        },
{
    match v {
        Option::Some(x) => Some(x.clone()),
        Option::None => None,
    }
}

/// Clone an optional name, keeping its mathematical value.
fn clone_opt_qname(v: &Option<crate::qname::QName>) -> (r: Option<crate::qname::QName>)
    ensures
        match v {
            Option::Some(x) => r matches Some(y) && y@ == x@,
            Option::None => r is None,
        },
{
    match v {
        Option::Some(x) => Some(x.clone()),
        Option::None => None,
    }
}

/// Clone a property list, keeping its views.
fn clone_props(v: &Vec<Property>) -> (r: Vec<Property>)
    ensures
        views_of(r@) == views_of(v@),
    decreases v,
{
    let mut out: Vec<Property> = Vec::new();
    let mut i: usize = 0;
    while i < v.len()
        invariant
            0 <= i <= v.len(),
            views_of(out@) =~= views_of(v@).take(i as int),
        decreases v.len() - i,
    {
        out.push(v[i].clone());
        proof {
            assert(views_of(out@) =~= views_of(v@).take(i as int + 1));
        }
        i = i + 1;
    }
    proof {
        assert(views_of(v@).take(v@.len() as int) =~= views_of(v@));
    }
    out
}

/// Clone a scored-property list, keeping its views.
fn clone_sps(v: &Vec<ScoredProperty>) -> (r: Vec<ScoredProperty>)
    ensures
        views_of(r@) == views_of(v@),
    decreases v,
{
    let mut out: Vec<ScoredProperty> = Vec::new();
    let mut i: usize = 0;
    while i < v.len()
        invariant
            0 <= i <= v.len(),
            views_of(out@) =~= views_of(v@).take(i as int),
        decreases v.len() - i,
    {
        out.push(v[i].clone());
        proof {
            assert(views_of(out@) =~= views_of(v@).take(i as int + 1));
        }
        i = i + 1;
    }
    proof {
        assert(views_of(v@).take(v@.len() as int) =~= views_of(v@));
    }
    out
}

impl Clone for Property {
    /// Clone the property, keeping its mathematical value.
    fn clone(&self) -> (r: Self)
        ensures
            r@ == self@,
        decreases self,
    {
        let r = Property {
            name: self.name.clone(),
            value: clone_opt_value(&self.value),
            properties: clone_props(&self.properties),
        };
        proof {
            assert(r@ =~~= self@);
        }
        r
    }
}

impl Clone for ScoredProperty {
    /// Clone the scored property, keeping its mathematical value.
    fn clone(&self) -> (r: Self)
        ensures
            r@ == self@,
        decreases self,
    {
        let r = ScoredProperty {
            name: clone_opt_qname(&self.name),
            parameter_ref: clone_opt_qname(&self.parameter_ref),
            value: clone_opt_value(&self.value),
            scored_properties: clone_sps(&self.scored_properties),
            properties: clone_props(&self.properties),
        };
        proof {
            assert(r@ =~~= self@);
        }
        r
    }
}

impl Clone for PrintFeatureOption {
    /// Clone the option, keeping its mathematical value.
    fn clone(&self) -> (r: Self)
        ensures
            r@ == self@,
    {
        let r = PrintFeatureOption {
            name: clone_opt_qname(&self.name),
            scored_properties: clone_sps(&self.scored_properties),
            properties: clone_props(&self.properties),
        };
        proof {
            assert(r@ =~~= self@);
        }
        r
    }
}

impl Clone for ParameterInit {
    /// Clone the parameter initialization, keeping its mathematical value.
    fn clone(&self) -> (r: Self)
        ensures
            r@ == self@,
    {
        ParameterInit { name: self.name.clone(), value: self.value.clone() }
    }
}

impl Clone for ParameterDef {
    /// Clone the parameter declaration, keeping its mathematical value.
    fn clone(&self) -> (r: Self)
        ensures
            r@ == self@,
    {
        let r = ParameterDef { name: self.name.clone(), properties: clone_props(&self.properties) };
        proof {
            assert(r@ =~~= self@);
        }
        r
    }
}

/// Clone a feature list, keeping its views.
fn clone_features(v: &Vec<PrintFeature>) -> (r: Vec<PrintFeature>)
    ensures
        views_of(r@) == views_of(v@),
    decreases v,
{
    let mut out: Vec<PrintFeature> = Vec::new();
    let mut i: usize = 0;
    while i < v.len()
        invariant
            0 <= i <= v.len(),
            views_of(out@) =~= views_of(v@).take(i as int),
        decreases v.len() - i,
    {
        out.push(v[i].clone());
        proof {
            assert(views_of(out@) =~= views_of(v@).take(i as int + 1));
        }
        i = i + 1;
    }
    proof {
        assert(views_of(v@).take(v@.len() as int) =~= views_of(v@));
    }
    out
}

/// Clone an option list, keeping its views.
fn clone_options(v: &Vec<PrintFeatureOption>) -> (r: Vec<PrintFeatureOption>)
    ensures
        views_of(r@) == views_of(v@),
{
    let mut out: Vec<PrintFeatureOption> = Vec::new();
    let mut i: usize = 0;
    while i < v.len()
        invariant
            0 <= i <= v.len(),
            views_of(out@) =~= views_of(v@).take(i as int),
        decreases v.len() - i,
    {
        out.push(v[i].clone());
        proof {
            assert(views_of(out@) =~= views_of(v@).take(i as int + 1));
        }
        i = i + 1;
    }
    proof {
        assert(views_of(v@).take(v@.len() as int) =~= views_of(v@));
    }
    out
}

impl Clone for PrintFeature {
    /// Clone the feature, keeping its mathematical value.
    fn clone(&self) -> (r: Self)
        ensures
            r@ == self@,
        decreases self,
    {
        let r = PrintFeature {
            name: self.name.clone(),
            properties: clone_props(&self.properties),
            options: clone_options(&self.options),
            features: clone_features(&self.features),
        };
        proof {
            assert(r@ =~~= self@);
        }
        r
    }
}

} // verus!
