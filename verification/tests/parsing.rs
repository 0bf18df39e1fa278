use printschema::parse_util::ParsePrintSchemaError;
use printschema::schema::{
    PrintCapabilitiesDocument, PrintSchemaDocument, PrintTicketDocument, PropertyValue,
};

const PRINT_TICKET_XML: &str = r#"<?xml version="1.0" encoding="UTF-8"?>
<psf:PrintTicket version="1"
    xmlns:psf="http://schemas.microsoft.com/windows/2003/08/printing/printschemaframework"
    xmlns:xsi="http://www.w3.org/2001/XMLSchema-instance"
    xmlns:xsd="http://www.w3.org/2001/XMLSchema"
    xmlns:psk="http://schemas.microsoft.com/windows/2003/08/printing/printschemakeywords">
    <psf:ParameterInit name="psk:PageMediaSizeMediaSizeWidth">
        <psf:Value xsi:type="xsd:integer">210000</psf:Value>
    </psf:ParameterInit>
    <psf:Feature name="psk:PageMediaSize">
        <psf:Option name="psk:ISOA4">
            <psf:ScoredProperty name="psk:MediaSizeWidth">
                <psf:ParameterRef name="psk:PageMediaSizeMediaSizeWidth"/>
            </psf:ScoredProperty>
            <psf:ScoredProperty name="psk:MediaSizeHeight">
                <psf:Value xsi:type="xsd:integer">297000</psf:Value>
            </psf:ScoredProperty>
            <psf:Property name="psk:DisplayName">
                <psf:Value xsi:type="xsd:string">A4</psf:Value>
            </psf:Property>
        </psf:Option>
    </psf:Feature>
</psf:PrintTicket>"#;

const PRINT_CAPABILITIES_XML: &str = r#"<?xml version="1.0" encoding="UTF-8"?>
<psf:PrintCapabilities version="1"
    xmlns:psf="http://schemas.microsoft.com/windows/2003/08/printing/printschemaframework"
    xmlns:xsi="http://www.w3.org/2001/XMLSchema-instance"
    xmlns:xsd="http://www.w3.org/2001/XMLSchema"
    xmlns:psk="http://schemas.microsoft.com/windows/2003/08/printing/printschemakeywords">
    <psf:ParameterDef name="psk:JobCopiesAllDocuments">
        <psf:Property name="psf:DataType">
            <psf:Value xsi:type="xsd:QName">xsd:integer</psf:Value>
        </psf:Property>
        <psf:Property name="psf:DefaultValue">
            <psf:Value xsi:type="xsd:integer">1</psf:Value>
        </psf:Property>
        <psf:Property name="psf:MaxValue">
            <psf:Value xsi:type="xsd:integer">9999</psf:Value>
        </psf:Property>
    </psf:ParameterDef>
    <psf:Feature name="psk:PageMediaSize">
        <psf:Property name="psk:DisplayName">
            <psf:Value xsi:type="xsd:string">Paper Size</psf:Value>
        </psf:Property>
        <psf:Option name="psk:ISOA4">
            <psf:ScoredProperty name="psk:MediaSizeWidth">
                <psf:Value xsi:type="xsd:integer">210000</psf:Value>
            </psf:ScoredProperty>
            <psf:ScoredProperty name="psk:MediaSizeHeight">
                <psf:Value xsi:type="xsd:integer">297000</psf:Value>
            </psf:ScoredProperty>
            <psf:Property name="psk:DisplayName">
                <psf:Value xsi:type="xsd:string">A4</psf:Value>
            </psf:Property>
        </psf:Option>
        <psf:Option name="psk:NorthAmericaLetter">
            <psf:ScoredProperty name="psk:MediaSizeWidth">
                <psf:Value xsi:type="xsd:integer">215900</psf:Value>
            </psf:ScoredProperty>
            <psf:ScoredProperty name="psk:MediaSizeHeight">
                <psf:Value xsi:type="xsd:integer">279400</psf:Value>
            </psf:ScoredProperty>
            <psf:Property name="psk:DisplayName">
                <psf:Value xsi:type="xsd:string">Letter</psf:Value>
            </psf:Property>
        </psf:Option>
    </psf:Feature>
</psf:PrintCapabilities>"#;

#[test]
fn wrong_type_should_return_error() {
    let xml = PRINT_TICKET_XML.as_bytes();
    let result = PrintCapabilitiesDocument::parse_from_bytes(xml);
    assert!(matches!(
        result,
        Err(ParsePrintSchemaError::WrongDocumentType { .. })
    ));

    let xml = PRINT_CAPABILITIES_XML.as_bytes();
    let result = PrintTicketDocument::parse_from_bytes(xml);
    assert!(matches!(
        result,
        Err(ParsePrintSchemaError::WrongDocumentType { .. })
    ));
}

#[test]
fn parameter_def_should_not_in_print_ticket() {
    let xml = r#"<psf:PrintTicket version="1"
    xmlns:psf="http://schemas.microsoft.com/windows/2003/08/printing/printschemaframework"
    xmlns:xsi="http://www.w3.org/2001/XMLSchema-instance" xmlns:xsd="http://www.w3.org/2001/XMLSchema"
    xmlns:psk="http://schemas.microsoft.com/windows/2003/08/printing/printschemakeywords">
    <psf:ParameterDef name="psk:JobCopiesAllDocuments">
        <psf:Property name="psf:DataType">
            <psf:Value xsi:type="xsd:QName">xsd:integer</psf:Value>
        </psf:Property>
        <psf:Property name="psf:UnitType">
            <psf:Value xsi:type="xsd:string">copies</psf:Value>
        </psf:Property>
        <psf:Property name="psf:Multiple">
            <psf:Value xsi:type="xsd:integer">1</psf:Value>
        </psf:Property>
        <psf:Property name="psf:MaxValue">
            <psf:Value xsi:type="xsd:integer">9999</psf:Value>
        </psf:Property>
        <psf:Property name="psf:MinValue">
            <psf:Value xsi:type="xsd:integer">1</psf:Value>
        </psf:Property>
        <psf:Property name="psf:DefaultValue">
            <psf:Value xsi:type="xsd:integer">1</psf:Value>
        </psf:Property>
        <psf:Property name="psf:Mandatory">
            <psf:Value xsi:type="xsd:QName">psk:Unconditional</psf:Value>
        </psf:Property>
        <psf:Property name="psk:DisplayName">
            <psf:Value xsi:type="xsd:string">份数</psf:Value>
        </psf:Property>
    </psf:ParameterDef>
</psf:PrintTicket>"#;
    let result = PrintSchemaDocument::parse_from_bytes(xml.as_bytes());
    assert!(matches!(
        result,
        Err(ParsePrintSchemaError::InvalidPrintSchema { .. })
    ));
}

#[test]
fn parameter_init_should_not_in_print_capabilities() {
    let xml = r#"<psf:PrintCapabilities version="1"
    xmlns:psf="http://schemas.microsoft.com/windows/2003/08/printing/printschemaframework"
    xmlns:xsi="http://www.w3.org/2001/XMLSchema-instance"
    xmlns:xsd="http://www.w3.org/2001/XMLSchema"
    xmlns:psk="http://schemas.microsoft.com/windows/2003/08/printing/printschemakeywords">
    <psf:ParameterInit name="psk:PageMediaSizeMediaSizeWidth">
        <psf:Value xsi:type="xsd:integer">2540</psf:Value>
    </psf:ParameterInit>
</psf:PrintCapabilities>"#;
    let result = PrintSchemaDocument::parse_from_bytes(xml.as_bytes());
    assert!(matches!(
        result,
        Err(ParsePrintSchemaError::InvalidPrintSchema { .. })
    ));
}

#[test]
fn reader_parse_print_ticket() {
    let document = PrintTicketDocument::parse_from_bytes(PRINT_TICKET_XML.as_bytes()).unwrap();
    assert_eq!(document.parameter_inits.len(), 1);
    assert_eq!(
        document.parameter_inits[0].name.local_name,
        "PageMediaSizeMediaSizeWidth"
    );
    assert_eq!(
        document.parameter_inits[0].value,
        PropertyValue::Integer(210000)
    );
    assert_eq!(document.features.len(), 1);
    let feature = &document.features[0];
    assert_eq!(feature.name.local_name, "PageMediaSize");
    assert_eq!(
        feature.name.namespace.as_deref(),
        Some("http://schemas.microsoft.com/windows/2003/08/printing/printschemakeywords")
    );
    assert_eq!(feature.options.len(), 1);
    let option = &feature.options[0];
    assert_eq!(option.name.as_ref().unwrap().local_name, "ISOA4");
    assert_eq!(option.scored_properties.len(), 2);
    let width = &option.scored_properties[0];
    assert_eq!(
        width.parameter_ref.as_ref().unwrap().local_name,
        "PageMediaSizeMediaSizeWidth"
    );
    assert!(width.value.is_none());
    let height = &option.scored_properties[1];
    assert!(height.parameter_ref.is_none());
    assert_eq!(height.value, Some(PropertyValue::Integer(297000)));
}

#[test]
fn reader_parse_print_capabilities() {
    let document =
        PrintCapabilitiesDocument::parse_from_bytes(PRINT_CAPABILITIES_XML.as_bytes()).unwrap();
    assert_eq!(document.parameter_defs.len(), 1);
    assert_eq!(document.features.len(), 1);
    assert_eq!(document.features[0].options.len(), 2);
    assert_eq!(document.features[0].properties.len(), 1);
}

#[test]
fn print_schema_parser_parse_print_ticket() {
    let document = PrintSchemaDocument::parse(PRINT_TICKET_XML.as_bytes().to_vec()).unwrap();
    assert!(matches!(document, PrintSchemaDocument::PrintTicket(_)));
}

#[test]
fn print_schema_parser_parse_print_capabilities() {
    let document = PrintSchemaDocument::parse_as_capabilities(
        PRINT_CAPABILITIES_XML.as_bytes().to_vec(),
    )
    .unwrap();
    assert_eq!(document.features.len(), 1);
}

#[test]
fn serialize_for_print_ticket() {
    let origin_document =
        PrintTicketDocument::parse_from_bytes(PRINT_TICKET_XML.as_bytes()).unwrap();
    let xml1 = origin_document.to_xml();
    let document = PrintTicketDocument::parse_from_bytes(&xml1).unwrap();
    let xml2 = document.to_xml();
    assert_eq!(xml1, xml2);
}

#[test]
fn serialize_print_capabilities() {
    let origin_document =
        PrintCapabilitiesDocument::parse_from_bytes(PRINT_CAPABILITIES_XML.as_bytes()).unwrap();
    let xml1 = origin_document.to_xml();
    let document = PrintCapabilitiesDocument::parse_from_bytes(&xml1).unwrap();
    let xml2 = document.to_xml();
    assert_eq!(xml1, xml2);
}

#[test]
fn round_trip_preserves_the_tree() {
    let d1 = PrintCapabilitiesDocument::parse_from_bytes(PRINT_CAPABILITIES_XML.as_bytes())
        .unwrap();
    let d2 = PrintCapabilitiesDocument::parse_from_bytes(&d1.to_xml()).unwrap();
    assert_eq!(d1, d2);

    let t1 = PrintTicketDocument::parse_from_bytes(PRINT_TICKET_XML.as_bytes()).unwrap();
    let t2 = PrintTicketDocument::parse_from_bytes(&t1.to_xml()).unwrap();
    assert_eq!(t1, t2);
}

#[test]
fn unknown_value_round_trips_intact() {
    let xml = r#"<psf:PrintTicket version="1"
    xmlns:psf="http://schemas.microsoft.com/windows/2003/08/printing/printschemaframework"
    xmlns:xsi="http://www.w3.org/2001/XMLSchema-instance"
    xmlns:foo="http://vendor.example/schema">
    <psf:Property name="psf:JobComment">
        <psf:Value xsi:type="foo:Bar">baz</psf:Value>
    </psf:Property>
</psf:PrintTicket>"#;
    let d1 = PrintTicketDocument::parse_from_bytes(xml.as_bytes()).unwrap();
    let d2 = PrintTicketDocument::parse_from_bytes(&d1.to_xml()).unwrap();
    assert_eq!(d1, d2);
    match &d2.properties[0].value {
        Some(PropertyValue::Unknown(t, s)) => {
            assert_eq!(t.local_name, "Bar");
            assert_eq!(t.namespace.as_deref(), Some("http://vendor.example/schema"));
            assert_eq!(t.prefix.as_deref(), Some("foo"));
            assert_eq!(s, "baz");
        },
        other => panic!("expected an unknown-typed value, got {:?}", other),
    }
}

#[test]
fn malformed_xml_is_a_lexical_error() {
    let result = PrintSchemaDocument::parse_from_bytes(b"<unclosed");
    assert!(matches!(result, Err(ParsePrintSchemaError::InvalidXml { .. })));
}

#[test]
fn unknown_framework_element_is_rejected() {
    let xml = r#"<psf:PrintTicket version="1"
    xmlns:psf="http://schemas.microsoft.com/windows/2003/08/printing/printschemaframework">
    <psf:Bogus/>
</psf:PrintTicket>"#;
    let result = PrintSchemaDocument::parse_from_bytes(xml.as_bytes());
    assert!(matches!(
        result,
        Err(ParsePrintSchemaError::InvalidPrintSchema { .. })
    ));
}

#[test]
fn feature_without_name_is_rejected() {
    let xml = r#"<psf:PrintTicket version="1"
    xmlns:psf="http://schemas.microsoft.com/windows/2003/08/printing/printschemaframework">
    <psf:Feature/>
</psf:PrintTicket>"#;
    let result = PrintSchemaDocument::parse_from_bytes(xml.as_bytes());
    assert!(matches!(
        result,
        Err(ParsePrintSchemaError::InvalidPrintSchema { .. })
    ));
}

#[test]
fn root_below_top_level_is_rejected() {
    let xml = r#"<psf:PrintTicket version="1"
    xmlns:psf="http://schemas.microsoft.com/windows/2003/08/printing/printschemaframework">
    <psf:Feature name="psf:F">
        <psf:PrintTicket/>
    </psf:Feature>
</psf:PrintTicket>"#;
    let result = PrintSchemaDocument::parse_from_bytes(xml.as_bytes());
    assert!(matches!(
        result,
        Err(ParsePrintSchemaError::InvalidPrintSchema { .. })
    ));
}

#[test]
fn foreign_elements_are_skipped() {
    let xml = r#"<psf:PrintTicket version="1"
    xmlns:psf="http://schemas.microsoft.com/windows/2003/08/printing/printschemaframework"
    xmlns:v="http://vendor.example/extensions">
    <v:Extension><v:Inner>text</v:Inner></v:Extension>
</psf:PrintTicket>"#;
    let document = PrintTicketDocument::parse_from_bytes(xml.as_bytes()).unwrap();
    assert!(document.properties.is_empty());
    assert!(document.parameter_inits.is_empty());
    assert!(document.features.is_empty());
}

#[test]
fn bad_integer_value_is_rejected() {
    let xml = r#"<psf:PrintTicket version="1"
    xmlns:psf="http://schemas.microsoft.com/windows/2003/08/printing/printschemaframework"
    xmlns:xsi="http://www.w3.org/2001/XMLSchema-instance"
    xmlns:xsd="http://www.w3.org/2001/XMLSchema">
    <psf:Property name="psf:P">
        <psf:Value xsi:type="xsd:integer">2147483648</psf:Value>
    </psf:Property>
</psf:PrintTicket>"#;
    let result = PrintSchemaDocument::parse_from_bytes(xml.as_bytes());
    assert!(matches!(
        result,
        Err(ParsePrintSchemaError::InvalidPrintSchema { .. })
    ));
}

#[test]
fn integer_values_parse_like_the_integer_type() {
    let xml = r#"<psf:PrintTicket version="1"
    xmlns:psf="http://schemas.microsoft.com/windows/2003/08/printing/printschemaframework"
    xmlns:xsi="http://www.w3.org/2001/XMLSchema-instance"
    xmlns:xsd="http://www.w3.org/2001/XMLSchema">
    <psf:Property name="psf:A">
        <psf:Value xsi:type="xsd:integer">-2147483648</psf:Value>
    </psf:Property>
    <psf:Property name="psf:B">
        <psf:Value xsi:type="xsd:integer">+0042</psf:Value>
    </psf:Property>
</psf:PrintTicket>"#;
    let d = PrintTicketDocument::parse_from_bytes(xml.as_bytes()).unwrap();
    assert_eq!(d.properties[0].value, Some(PropertyValue::Integer(i32::MIN)));
    assert_eq!(d.properties[1].value, Some(PropertyValue::Integer(42)));
}

#[test]
fn empty_and_cdata_string_values() {
    let xml = r#"<psf:PrintTicket version="1"
    xmlns:psf="http://schemas.microsoft.com/windows/2003/08/printing/printschemaframework"
    xmlns:xsi="http://www.w3.org/2001/XMLSchema-instance"
    xmlns:xsd="http://www.w3.org/2001/XMLSchema">
    <psf:Property name="psf:A">
        <psf:Value xsi:type="xsd:string"></psf:Value>
    </psf:Property>
    <psf:Property name="psf:B">
        <psf:Value xsi:type="xsd:string"><![CDATA[a<b]]></psf:Value>
    </psf:Property>
</psf:PrintTicket>"#;
    let d = PrintTicketDocument::parse_from_bytes(xml.as_bytes()).unwrap();
    assert_eq!(d.properties[0].value, Some(PropertyValue::String(String::new())));
    assert_eq!(
        d.properties[1].value,
        Some(PropertyValue::String("a<b".to_string()))
    );
    let d2 = PrintTicketDocument::parse_from_bytes(&d.to_xml()).unwrap();
    assert_eq!(d, d2);
}

#[test]
fn qname_values_resolve_their_prefix() {
    let xml = r#"<psf:PrintCapabilities version="1"
    xmlns:psf="http://schemas.microsoft.com/windows/2003/08/printing/printschemaframework"
    xmlns:xsi="http://www.w3.org/2001/XMLSchema-instance"
    xmlns:xsd="http://www.w3.org/2001/XMLSchema"
    xmlns:psk="http://schemas.microsoft.com/windows/2003/08/printing/printschemakeywords">
    <psf:Property name="psf:P">
        <psf:Value xsi:type="xsd:QName">psk:Unconditional</psf:Value>
    </psf:Property>
</psf:PrintCapabilities>"#;
    let d = PrintCapabilitiesDocument::parse_from_bytes(xml.as_bytes()).unwrap();
    match &d.properties[0].value {
        Some(PropertyValue::QName(q)) => {
            assert_eq!(q.local_name, "Unconditional");
            assert_eq!(
                q.namespace.as_deref(),
                Some("http://schemas.microsoft.com/windows/2003/08/printing/printschemakeywords")
            );
        },
        other => panic!("expected a qualified-name value, got {:?}", other),
    }
}
