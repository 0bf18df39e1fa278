use printschema::caps::{Copies, PrintCapabilities};
use printschema::qname::{QName, NS_PSF, NS_PSK};
use printschema::schema::{
    ParameterDef, ParameterInit, PrintCapabilitiesDocument, PrintFeatureOption, Property,
    PropertyValue, ScoredProperty,
};

fn default_value_property(v: PropertyValue) -> Property {
    Property {
        name: QName::qualified("DefaultValue", NS_PSF, Some("psf")),
        value: Some(v),
        properties: vec![],
    }
}

fn def(local: &str, default: Option<PropertyValue>) -> ParameterDef {
    ParameterDef {
        name: QName::qualified(local, NS_PSK, Some("psk")),
        properties: match default {
            Some(v) => vec![default_value_property(v)],
            None => vec![],
        },
    }
}

fn ref_scored_property(param_local: &str) -> ScoredProperty {
    ScoredProperty {
        name: Some(QName::qualified("X", NS_PSK, Some("psk"))),
        parameter_ref: Some(QName::qualified(param_local, NS_PSK, Some("psk"))),
        value: None,
        scored_properties: vec![],
        properties: vec![],
    }
}

#[test]
fn default_value_extraction() {
    let parameter_def = def("JobCopiesAllDocuments", Some(PropertyValue::Integer(1)));
    assert_eq!(
        parameter_def.default_value(),
        Some(&PropertyValue::Integer(1))
    );
}

#[test]
fn default_value_requires_the_framework_namespace() {
    let parameter_def = ParameterDef {
        name: QName::qualified("P", NS_PSK, Some("psk")),
        properties: vec![Property {
            name: QName::qualified("DefaultValue", NS_PSK, Some("psk")),
            value: Some(PropertyValue::Integer(1)),
            properties: vec![],
        }],
    };
    assert!(parameter_def.default_value().is_none());
}

#[test]
fn dependent_parameter_filtering() {
    // five declared parameters, an option whose scored properties
    // reference two of them
    let document = PrintCapabilitiesDocument {
        properties: vec![],
        parameter_defs: vec![
            def("ParamA", Some(PropertyValue::Integer(10))),
            def("ParamB", Some(PropertyValue::Integer(20))),
            def("ParamC", Some(PropertyValue::Integer(30))),
            def("ParamD", Some(PropertyValue::Integer(40))),
            def("ParamE", Some(PropertyValue::Integer(50))),
        ],
        features: vec![],
    };
    let capabilities = PrintCapabilities { document };
    let option = PrintFeatureOption {
        name: Some(QName::qualified("O", NS_PSK, Some("psk"))),
        scored_properties: vec![ref_scored_property("ParamB"), ref_scored_property("ParamD")],
        properties: vec![],
    };
    let deps = option.parameters_dependent();
    assert_eq!(deps.len(), 2);
    let inits = capabilities.default_parameters_for(&deps);
    assert_eq!(inits.len(), 2);
    assert_eq!(inits[0].name.local_name, "ParamB");
    assert_eq!(inits[0].value, PropertyValue::Integer(20));
    assert_eq!(inits[1].name.local_name, "ParamD");
    assert_eq!(inits[1].value, PropertyValue::Integer(40));
}

#[test]
fn parameters_without_defaults_are_skipped() {
    let document = PrintCapabilitiesDocument {
        properties: vec![],
        parameter_defs: vec![
            def("ParamA", None),
            def("ParamB", Some(PropertyValue::Integer(20))),
        ],
        features: vec![],
    };
    let capabilities = PrintCapabilities { document };
    let inits = capabilities.default_parameters();
    assert_eq!(inits.len(), 1);
    assert_eq!(inits[0].name.local_name, "ParamB");
}

#[test]
fn nested_parameter_references_are_collected_in_order() {
    let mut outer = ref_scored_property("Outer");
    outer.scored_properties = vec![ref_scored_property("Inner")];
    let deps = outer.parameters_dependent();
    assert_eq!(deps.len(), 2);
    assert_eq!(deps[0].local_name, "Outer");
    assert_eq!(deps[1].local_name, "Inner");
}

#[test]
fn value_with_resolves_references() {
    let parameters = vec![ParameterInit {
        name: QName::qualified("P", NS_PSK, Some("psk")),
        value: PropertyValue::Integer(7),
    }];

    let by_ref = ref_scored_property("P");
    assert_eq!(
        by_ref.value_with(&parameters),
        Some(&PropertyValue::Integer(7))
    );

    let literal = ScoredProperty {
        name: None,
        parameter_ref: None,
        value: Some(PropertyValue::Integer(9)),
        scored_properties: vec![],
        properties: vec![],
    };
    assert_eq!(
        literal.value_with(&parameters),
        Some(&PropertyValue::Integer(9))
    );

    let dangling = ref_scored_property("Unknown");
    assert!(dangling.value_with(&parameters).is_none());
}

#[test]
fn value_with_matches_names_without_the_prefix() {
    let parameters = vec![ParameterInit {
        name: QName::qualified("P", NS_PSK, Some("other")),
        value: PropertyValue::Integer(7),
    }];
    let by_ref = ref_scored_property("P");
    assert_eq!(
        by_ref.value_with(&parameters),
        Some(&PropertyValue::Integer(7))
    );
}

#[test]
fn use_max_copies() {
    let document = PrintCapabilitiesDocument {
        properties: vec![],
        parameter_defs: vec![ParameterDef {
            name: QName::qualified("JobCopiesAllDocuments", NS_PSK, Some("psk")),
            properties: vec![Property {
                name: QName::qualified("MaxValue", NS_PSF, Some("psf")),
                value: Some(PropertyValue::Integer(9999)),
                properties: vec![],
            }],
        }],
        features: vec![],
    };
    let capabilities = PrintCapabilities { document };
    assert_eq!(capabilities.max_copies(), Some(Copies(9999)));
}

#[test]
fn max_copies_is_absent_without_the_declaration() {
    let capabilities = PrintCapabilities {
        document: PrintCapabilitiesDocument {
            properties: vec![],
            parameter_defs: vec![],
            features: vec![],
        },
    };
    assert!(capabilities.max_copies().is_none());
}

#[test]
fn copies_ticket_holds_the_parameter() {
    let ticket = Copies(3).to_print_ticket();
    let doc =
        printschema::schema::PrintTicketDocument::parse_from_bytes(ticket.get_xml()).unwrap();
    assert_eq!(doc.parameter_inits.len(), 1);
    assert_eq!(doc.parameter_inits[0].name.local_name, "JobCopiesAllDocuments");
    assert_eq!(doc.parameter_inits[0].value, PropertyValue::Integer(3));
}
