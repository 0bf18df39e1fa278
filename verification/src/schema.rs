//! The Print Schema document tree: node types, their mathematical views,
//! and the lookup helpers shared by parameter resolution and the typed
//! feature wrappers.

use vstd::prelude::*;
use crate::qname::{QName, QNameV, NS_XSD};

verus! {

broadcast use vstd::std_specs::vec::axiom_vec_index_decreases;

/// A property value or a scored-property value.
#[derive(Debug, PartialEq)]
pub enum PropertyValue {
    /// A string value (`xsd:string`).
    String(String),
    /// An integer value (`xsd:integer`).
    Integer(i32),
    /// A qualified name value (`xsd:QName`).
    QName(QName),
    /// A value of any other `xsi:type`: the type name and the raw text,
    /// kept verbatim so the document round-trips.
    Unknown(QName, String),
}

/// The mathematical value of a [`PropertyValue`].
#[verifier::ext_equal]
pub enum PropertyValueV {
    /// A string value.
    String(Seq<char>),
    /// An integer value.
    Integer(int),
    /// A qualified name value.
    QName(QNameV),
    /// An unknown-typed value.
    Unknown(QNameV, Seq<char>),
}

impl View for PropertyValue {
    type V = PropertyValueV;

    open spec fn view(&self) -> PropertyValueV {
        match self {
            PropertyValue::String(s) => PropertyValueV::String(s@),
            PropertyValue::Integer(i) => PropertyValueV::Integer(*i as int),
            PropertyValue::QName(q) => PropertyValueV::QName(q@),
            PropertyValue::Unknown(t, s) => PropertyValueV::Unknown(t@, s@),
        }
    }
}

/// The canonical `xsi:type` name of a value: the XSD type for the three
/// built-in encodings, or the stored type name of an unknown-typed value.
pub open spec fn xsi_type_v(v: PropertyValueV) -> QNameV {
    match v {
        PropertyValueV::String(_) => QNameV {
            local_name: "string"@,
            namespace: Some(NS_XSD@),
            prefix: Some("xsd"@),
        },
        PropertyValueV::Integer(_) => QNameV {
            local_name: "integer"@,
            namespace: Some(NS_XSD@),
            prefix: Some("xsd"@),
        },
        PropertyValueV::QName(_) => QNameV {
            local_name: "QName"@,
            namespace: Some(NS_XSD@),
            prefix: Some("xsd"@),
        },
        PropertyValueV::Unknown(n, _) => n,
    }
}

impl PropertyValue {
    /// The `xsi:type` name this value serializes with.
    pub fn xsi_type(&self) -> (r: QName)
        ensures
            r@ == xsi_type_v(self@),
    {
        match self {
            PropertyValue::String(_) => QName::qualified("string", NS_XSD, Some("xsd")),
            PropertyValue::Integer(_) => QName::qualified("integer", NS_XSD, Some("xsd")),
            PropertyValue::QName(_) => QName::qualified("QName", NS_XSD, Some("xsd")),
            PropertyValue::Unknown(n, _) => n.clone(),
        }
    }

    /// The text of the value, if it is a string.
    pub fn string(&self) -> (r: Option<&str>)
        ensures
            match r {
                Option::Some(s) => self@ matches PropertyValueV::String(x) && x == s@,
                Option::None => !(self@ is String),
            },
    {
        match self {
            PropertyValue::String(s) => Some(s.as_str()),
            _ => None,
        }
    }

    /// The integer, if the value is one.
    pub fn integer(&self) -> (r: Option<i32>)
        ensures
            match r {
                Option::Some(n) => self@ == PropertyValueV::Integer(n as int),
                Option::None => !(self@ is Integer),
            },
    {
        match self {
            PropertyValue::Integer(n) => Some(*n),
            _ => None,
        }
    }

    /// The qualified name, if the value is one.
    pub fn qualified_name(&self) -> (r: Option<&QName>)
        ensures
            match r {
                Option::Some(q) => self@ == PropertyValueV::QName(q@),
                Option::None => !(self@ is QName),
            },
    {
        match self {
            PropertyValue::QName(q) => Some(q),
            _ => None,
        }
    }
}

/// A simple named fact, possibly bearing a value and sub-facts.
#[derive(Debug, PartialEq)]
pub struct Property {
    /// The name of the property.
    pub name: QName,
    /// The value of the property, if it has one.
    pub value: Option<PropertyValue>,
    /// Sub-properties of the property.
    pub properties: Vec<Property>,
}

/// The mathematical value of a [`Property`].
#[verifier::ext_equal]
pub struct PropertyV {
    /// The name of the property.
    pub name: QNameV,
    /// The value of the property, if any.
    pub value: Option<PropertyValueV>,
    /// The sub-properties, in document order.
    pub properties: Seq<PropertyV>,
}

/// The view of a property.
pub open spec fn property_view(p: Property) -> PropertyV
    decreases p,
{
    PropertyV {
        name: p.name@,
        value: match p.value {
            Option::Some(v) => Option::Some(v@),
            Option::None => Option::None,
        },
        properties: Seq::new(
            p.properties.len() as nat,
            |i: int| if 0 <= i < p.properties.len() {
                property_view(p.properties[i])
            } else {
                arbitrary()
            },
        ),
    }
}

impl View for Property {
    type V = PropertyV;

    open spec fn view(&self) -> PropertyV {
        property_view(*self)
    }
}

/// A property intrinsic to an option, compared when matching a requested
/// option against a supported one. Its effective value is either its own
/// literal value or the value of the parameter it references.
#[derive(Debug, PartialEq)]
pub struct ScoredProperty {
    /// The name of the scored property; absent on anonymous nodes.
    pub name: Option<QName>,
    /// The parameter this scored property takes its value from, if any.
    pub parameter_ref: Option<QName>,
    /// The literal value, if any.
    pub value: Option<PropertyValue>,
    /// Nested scored properties.
    pub scored_properties: Vec<ScoredProperty>,
    /// Plain sub-properties.
    pub properties: Vec<Property>,
}

/// The mathematical value of a [`ScoredProperty`].
#[verifier::ext_equal]
pub struct ScoredPropertyV {
    /// The name, if any.
    pub name: Option<QNameV>,
    /// The referenced parameter name, if any.
    pub parameter_ref: Option<QNameV>,
    /// The literal value, if any.
    pub value: Option<PropertyValueV>,
    /// The nested scored properties, in document order.
    pub scored_properties: Seq<ScoredPropertyV>,
    /// The plain sub-properties, in document order.
    pub properties: Seq<PropertyV>,
}

/// The view of a scored property.
pub open spec fn scored_property_view(p: ScoredProperty) -> ScoredPropertyV
    decreases p,
{
    ScoredPropertyV {
        name: match p.name {
            Option::Some(q) => Option::Some(q@),
            Option::None => Option::None,
        },
        parameter_ref: match p.parameter_ref {
            Option::Some(q) => Option::Some(q@),
            Option::None => Option::None,
        },
        value: match p.value {
            Option::Some(v) => Option::Some(v@),
            Option::None => Option::None,
        },
        scored_properties: Seq::new(
            p.scored_properties.len() as nat,
            |i: int| if 0 <= i < p.scored_properties.len() {
                scored_property_view(p.scored_properties[i])
            } else {
                arbitrary()
            },
        ),
        properties: Seq::new(
            p.properties.len() as nat,
            |i: int| if 0 <= i < p.properties.len() {
                property_view(p.properties[i])
            } else {
                arbitrary()
            },
        ),
    }
}

impl View for ScoredProperty {
    type V = ScoredPropertyV;

    open spec fn view(&self) -> ScoredPropertyV {
        scored_property_view(*self)
    }
}

/// One legal choice for a feature.
#[derive(Debug, PartialEq)]
pub struct PrintFeatureOption {
    /// The name of the option; `None` marks an anonymous option.
    pub name: Option<QName>,
    /// Scored properties of the option.
    pub scored_properties: Vec<ScoredProperty>,
    /// Plain properties of the option.
    pub properties: Vec<Property>,
}

/// The mathematical value of a [`PrintFeatureOption`].
#[verifier::ext_equal]
pub struct PrintFeatureOptionV {
    /// The name, if any.
    pub name: Option<QNameV>,
    /// The scored properties, in document order.
    pub scored_properties: Seq<ScoredPropertyV>,
    /// The plain properties, in document order.
    pub properties: Seq<PropertyV>,
}

/// The view of a feature option.
pub open spec fn option_view(p: PrintFeatureOption) -> PrintFeatureOptionV
    decreases p,
{
    PrintFeatureOptionV {
        name: match p.name {
            Option::Some(q) => Option::Some(q@),
            Option::None => Option::None,
        },
        scored_properties: Seq::new(
            p.scored_properties.len() as nat,
            |i: int| if 0 <= i < p.scored_properties.len() {
                scored_property_view(p.scored_properties[i])
            } else {
                arbitrary()
            },
        ),
        properties: Seq::new(
            p.properties.len() as nat,
            |i: int| if 0 <= i < p.properties.len() {
                property_view(p.properties[i])
            } else {
                arbitrary()
            },
        ),
    }
}

impl View for PrintFeatureOption {
    type V = PrintFeatureOptionV;

    open spec fn view(&self) -> PrintFeatureOptionV {
        option_view(*self)
    }
}

/// A configurable printing axis and its option set.
#[derive(Debug, PartialEq)]
pub struct PrintFeature {
    /// The name of the feature.
    pub name: QName,
    /// Properties of the feature.
    pub properties: Vec<Property>,
    /// The available options.
    pub options: Vec<PrintFeatureOption>,
    /// Sub-features of the feature.
    pub features: Vec<PrintFeature>,
}

/// The mathematical value of a [`PrintFeature`].
#[verifier::ext_equal]
pub struct PrintFeatureV {
    /// The name of the feature.
    pub name: QNameV,
    /// The properties, in document order.
    pub properties: Seq<PropertyV>,
    /// The options, in document order.
    pub options: Seq<PrintFeatureOptionV>,
    /// The sub-features, in document order.
    pub features: Seq<PrintFeatureV>,
}

/// The view of a feature.
pub open spec fn feature_view(p: PrintFeature) -> PrintFeatureV
    decreases p,
{
    PrintFeatureV {
        name: p.name@,
        properties: Seq::new(
            p.properties.len() as nat,
            |i: int| if 0 <= i < p.properties.len() {
                property_view(p.properties[i])
            } else {
                arbitrary()
            },
        ),
        options: Seq::new(
            p.options.len() as nat,
            |i: int| if 0 <= i < p.options.len() {
                option_view(p.options[i])
            } else {
                arbitrary()
            },
        ),
        features: Seq::new(
            p.features.len() as nat,
            |i: int| if 0 <= i < p.features.len() {
                feature_view(p.features[i])
            } else {
                arbitrary()
            },
        ),
    }
}

impl View for PrintFeature {
    type V = PrintFeatureV;

    open spec fn view(&self) -> PrintFeatureV {
        feature_view(*self)
    }
}

/// A parameter declaration; legal only inside a PrintCapabilities document.
#[derive(Debug, PartialEq)]
pub struct ParameterDef {
    /// The name of the parameter.
    pub name: QName,
    /// The metadata properties of the parameter (type, bounds, default).
    pub properties: Vec<Property>,
}

/// The mathematical value of a [`ParameterDef`].
#[verifier::ext_equal]
pub struct ParameterDefV {
    /// The name of the parameter.
    pub name: QNameV,
    /// The metadata properties, in document order.
    pub properties: Seq<PropertyV>,
}

impl View for ParameterDef {
    type V = ParameterDefV;

    open spec fn view(&self) -> ParameterDefV {
        ParameterDefV {
            name: self.name@,
            properties: Seq::new(
                self.properties.len() as nat,
                |i: int| if 0 <= i < self.properties.len() {
                    property_view(self.properties[i])
                } else {
                    arbitrary()
                },
            ),
        }
    }
}

/// A concrete value for a named parameter; legal only inside a PrintTicket
/// document.
#[derive(Debug, PartialEq)]
pub struct ParameterInit {
    /// The name of the parameter.
    pub name: QName,
    /// The supplied value.
    pub value: PropertyValue,
}

/// The mathematical value of a [`ParameterInit`].
#[verifier::ext_equal]
pub struct ParameterInitV {
    /// The name of the parameter.
    pub name: QNameV,
    /// The supplied value.
    pub value: PropertyValueV,
}

impl View for ParameterInit {
    type V = ParameterInitV;

    open spec fn view(&self) -> ParameterInitV {
        ParameterInitV { name: self.name@, value: self.value@ }
    }
}

/// The root of a PrintCapabilities document.
#[derive(Debug, PartialEq)]
pub struct PrintCapabilitiesDocument {
    /// Properties of the document.
    pub properties: Vec<Property>,
    /// The declared parameters.
    pub parameter_defs: Vec<ParameterDef>,
    /// The features of the device.
    pub features: Vec<PrintFeature>,
}

/// The mathematical value of a [`PrintCapabilitiesDocument`].
#[verifier::ext_equal]
pub struct PrintCapabilitiesDocumentV {
    /// The document properties, in document order.
    pub properties: Seq<PropertyV>,
    /// The parameter declarations, in document order.
    pub parameter_defs: Seq<ParameterDefV>,
    /// The features, in document order.
    pub features: Seq<PrintFeatureV>,
}

impl View for PrintCapabilitiesDocument {
    type V = PrintCapabilitiesDocumentV;

    open spec fn view(&self) -> PrintCapabilitiesDocumentV {
        PrintCapabilitiesDocumentV {
            properties: views_of(self.properties@),
            parameter_defs: views_of(self.parameter_defs@),
            features: views_of(self.features@),
        }
    }
}

/// The root of a PrintTicket document.
#[derive(Debug, PartialEq)]
pub struct PrintTicketDocument {
    /// Properties of the document.
    pub properties: Vec<Property>,
    /// The parameter initializations.
    pub parameter_inits: Vec<ParameterInit>,
    /// The features selected by the ticket.
    pub features: Vec<PrintFeature>,
}

/// The mathematical value of a [`PrintTicketDocument`].
#[verifier::ext_equal]
pub struct PrintTicketDocumentV {
    /// The document properties, in document order.
    pub properties: Seq<PropertyV>,
    /// The parameter initializations, in document order.
    pub parameter_inits: Seq<ParameterInitV>,
    /// The features, in document order.
    pub features: Seq<PrintFeatureV>,
}

impl View for PrintTicketDocument {
    type V = PrintTicketDocumentV;

    open spec fn view(&self) -> PrintTicketDocumentV {
        PrintTicketDocumentV {
            properties: views_of(self.properties@),
            parameter_inits: views_of(self.parameter_inits@),
            features: views_of(self.features@),
        }
    }
}

/// A parsed Print Schema document of either kind.
#[derive(Debug, PartialEq)]
pub enum PrintSchemaDocument {
    /// A PrintCapabilities document.
    PrintCapabilities(PrintCapabilitiesDocument),
    /// A PrintTicket document.
    PrintTicket(PrintTicketDocument),
}

/// The mathematical value of a [`PrintSchemaDocument`].
#[verifier::ext_equal]
pub enum PrintSchemaDocumentV {
    /// A PrintCapabilities document.
    PrintCapabilities(PrintCapabilitiesDocumentV),
    /// A PrintTicket document.
    PrintTicket(PrintTicketDocumentV),
}

impl View for PrintSchemaDocument {
    type V = PrintSchemaDocumentV;

    open spec fn view(&self) -> PrintSchemaDocumentV {
        match self {
            PrintSchemaDocument::PrintCapabilities(d) => {
                PrintSchemaDocumentV::PrintCapabilities(d@)
            },
            PrintSchemaDocument::PrintTicket(d) => PrintSchemaDocumentV::PrintTicket(d@),
        }
    }
}

/// The sequence of views of a sequence of viewable values.
pub open spec fn views_of<T: View>(s: Seq<T>) -> Seq<T::V> {
    Seq::new(s.len(), |i: int| s[i]@)
}

/// The view of a property lists the views of its sub-properties.
pub broadcast proof fn lemma_property_view(p: Property)
    ensures
        (#[trigger] p@).properties == views_of(p.properties@),
{
    assert(p@.properties =~~= views_of(p.properties@));
}

/// The view of a scored property lists the views of its children.
pub broadcast proof fn lemma_scored_property_view(p: ScoredProperty)
    ensures
        (#[trigger] p@).properties == views_of(p.properties@),
        p@.scored_properties == views_of(p.scored_properties@),
{
    assert(p@.properties =~~= views_of(p.properties@));
    assert(p@.scored_properties =~~= views_of(p.scored_properties@));
}

/// The view of an option lists the views of its children.
pub broadcast proof fn lemma_option_view(p: PrintFeatureOption)
    ensures
        (#[trigger] p@).properties == views_of(p.properties@),
        p@.scored_properties == views_of(p.scored_properties@),
{
    assert(p@.properties =~~= views_of(p.properties@));
    assert(p@.scored_properties =~~= views_of(p.scored_properties@));
}

/// The view of a feature lists the views of its children.
pub broadcast proof fn lemma_feature_view(p: PrintFeature)
    ensures
        (#[trigger] p@).properties == views_of(p.properties@),
        p@.options == views_of(p.options@),
        p@.features == views_of(p.features@),
{
    assert(p@.properties =~~= views_of(p.properties@));
    assert(p@.options =~~= views_of(p.options@));
    assert(p@.features =~~= views_of(p.features@));
}

/// The view of a parameter declaration lists the views of its properties.
pub broadcast proof fn lemma_parameter_def_view(p: ParameterDef)
    ensures
        (#[trigger] p@).properties == views_of(p.properties@),
{
    assert(p@.properties =~~= views_of(p.properties@));
}

/// Pushing onto a list pushes the view onto the list of views.
pub broadcast proof fn lemma_views_of_push<T: View>(s: Seq<T>, x: T)
    ensures
        #[trigger] views_of(s.push(x)) == views_of(s).push(x@),
{
    assert(views_of(s.push(x)) =~= views_of(s).push(x@));
}

/// The node views agree with [`views_of`] on every child list.
pub broadcast group group_schema_views {
    lemma_property_view,
    lemma_scored_property_view,
    lemma_option_view,
    lemma_feature_view,
    lemma_parameter_def_view,
    lemma_views_of_push,
}

} // verus!
