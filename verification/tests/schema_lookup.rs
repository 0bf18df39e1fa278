use printschema::lookup::WithProperties;
use printschema::qname::QName;
use printschema::schema::{
    ParameterDef, PrintCapabilitiesDocument, PrintFeature, PrintFeatureOption,
    PrintSchemaDocument, PrintTicketDocument, Property, PropertyValue, ScoredProperty,
};

fn new_test_properties() -> Vec<Property> {
    vec![
        Property {
            name: QName::local("Property1"),
            value: Some(PropertyValue::String("Value1".to_string())),
            properties: vec![],
        },
        Property {
            name: QName::qualified("Property2", "http://test.namespace/", Some("test")),
            value: Some(PropertyValue::Integer(2)),
            properties: vec![],
        },
    ]
}

fn check_test_properties<W: WithProperties>(w: &W) {
    assert_eq!(w.properties().len(), 2);

    // the properties can be looked up
    assert_eq!(
        w.get_property("Property1", None)
            .and_then(|p| p.value.as_ref())
            .and_then(|v| v.string()),
        Some("Value1")
    );
    assert_eq!(
        w.get_property("Property2", Some("http://test.namespace/"))
            .and_then(|p| p.value.as_ref())
            .and_then(|v| v.integer()),
        Some(2)
    );

    // the namespace takes part in the lookup
    assert!(w
        .get_property("Property1", Some("http://wrong.namespace/"))
        .is_none());
    assert!(w
        .get_property("Property2", Some("http://wrong.namespace/"))
        .is_none());
    assert!(w.get_property("Property2", None).is_none());

    // a property that does not exist is not found
    assert!(w.get_property("PROPERTY_NOT_EXIST", None).is_none());
}

#[test]
fn get_properties_from_ticket() {
    let document1 = PrintSchemaDocument::PrintTicket(PrintTicketDocument {
        properties: new_test_properties(),
        parameter_inits: vec![],
        features: vec![],
    });
    check_test_properties(&document1);
}

#[test]
fn get_properties_from_capabilities() {
    let document1 = PrintSchemaDocument::PrintCapabilities(PrintCapabilitiesDocument {
        properties: new_test_properties(),
        parameter_defs: vec![],
        features: vec![],
    });
    check_test_properties(&document1);
}

#[test]
fn get_properties_from_parameter_def() {
    let parameter_def = ParameterDef {
        name: QName::local("Test"),
        properties: new_test_properties(),
    };
    check_test_properties(&parameter_def);
}

#[test]
fn get_properties_from_option() {
    let option = PrintFeatureOption {
        name: None,
        scored_properties: vec![],
        properties: new_test_properties(),
    };
    check_test_properties(&option);
}

#[test]
fn get_properties_from_feature() {
    let feature = PrintFeature {
        name: QName::local("Test"),
        properties: new_test_properties(),
        options: vec![],
        features: vec![],
    };
    check_test_properties(&feature);
}

#[test]
fn get_properties_from_scored_property() {
    let scored_property = ScoredProperty {
        name: None,
        parameter_ref: None,
        value: None,
        scored_properties: vec![],
        properties: new_test_properties(),
    };
    check_test_properties(&scored_property);
}

#[test]
fn get_properties_from_property() {
    let property = Property {
        name: QName::local("Test"),
        value: None,
        properties: new_test_properties(),
    };
    check_test_properties(&property);
}
