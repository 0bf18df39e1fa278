use printschema::caps::PrintCapabilities;
use printschema::predefined::{
    PredefinedDuplexType, PredefinedMediaName, PredefinedPageOrientation,
    PredefinedPageOutputColor,
};
use printschema::packs::{PageMediaSize, PageResolution};
use printschema::qname::{QName, NS_PSK};
use printschema::schema::{PrintCapabilitiesDocument, PrintTicketDocument};

const CAPS_XML: &str = r#"<?xml version="1.0" encoding="UTF-8"?>
<psf:PrintCapabilities version="1"
    xmlns:psf="http://schemas.microsoft.com/windows/2003/08/printing/printschemaframework"
    xmlns:xsi="http://www.w3.org/2001/XMLSchema-instance"
    xmlns:xsd="http://www.w3.org/2001/XMLSchema"
    xmlns:psk="http://schemas.microsoft.com/windows/2003/08/printing/printschemakeywords">
    <psf:Feature name="psk:PageMediaSize">
        <psf:Option name="psk:ISOA4">
            <psf:ScoredProperty name="psk:MediaSizeWidth">
                <psf:Value xsi:type="xsd:integer">210000</psf:Value>
            </psf:ScoredProperty>
            <psf:ScoredProperty name="psk:MediaSizeHeight">
                <psf:Value xsi:type="xsd:integer">297000</psf:Value>
            </psf:ScoredProperty>
            <psf:Property name="psk:DisplayName">
                <psf:Value xsi:type="xsd:string">A4</psf:Value>
            </psf:Property>
        </psf:Option>
        <psf:Option name="psk:NorthAmericaLetter">
            <psf:ScoredProperty name="psk:MediaSizeWidth">
                <psf:Value xsi:type="xsd:integer">215900</psf:Value>
            </psf:ScoredProperty>
            <psf:ScoredProperty name="psk:MediaSizeHeight">
                <psf:Value xsi:type="xsd:integer">279400</psf:Value>
            </psf:ScoredProperty>
            <psf:Property name="psk:DisplayName">
                <psf:Value xsi:type="xsd:string">Letter</psf:Value>
            </psf:Property>
        </psf:Option>
    </psf:Feature>
    <psf:Feature name="psk:PageResolution">
        <psf:Option name="psk:Default">
            <psf:ScoredProperty name="psk:ResolutionX">
                <psf:Value xsi:type="xsd:integer">600</psf:Value>
            </psf:ScoredProperty>
            <psf:ScoredProperty name="psk:ResolutionY">
                <psf:Value xsi:type="xsd:integer">600</psf:Value>
            </psf:ScoredProperty>
        </psf:Option>
    </psf:Feature>
</psf:PrintCapabilities>"#;

fn capabilities() -> PrintCapabilities {
    let document = PrintCapabilitiesDocument::parse_from_bytes(CAPS_XML.as_bytes()).unwrap();
    PrintCapabilities { document }
}

#[test]
fn predefined_name_mapping() {
    let a4 = QName::qualified("ISOA4", NS_PSK, Some("psk"));
    assert_eq!(
        PredefinedMediaName::from_name(&a4),
        Some(PredefinedMediaName::ISOA4)
    );

    let vendor = QName::qualified("ISOA4", "http://vendor.example/names", Some("v"));
    assert_eq!(PredefinedMediaName::from_name(&vendor), None);

    let custom = QName::qualified("VendorSpecialSize", NS_PSK, Some("psk"));
    assert_eq!(PredefinedMediaName::from_name(&custom), None);
}

#[test]
fn predefined_orientation_duplex_and_color() {
    let landscape = QName::qualified("Landscape", NS_PSK, Some("psk"));
    assert_eq!(
        PredefinedPageOrientation::from_name(&landscape),
        Some(PredefinedPageOrientation::Landscape)
    );
    let duplex = QName::qualified("TwoSidedLongEdge", NS_PSK, Some("psk"));
    assert_eq!(
        PredefinedDuplexType::from_name(&duplex),
        Some(PredefinedDuplexType::TwoSidedLongEdge)
    );
    let color = QName::qualified("Grayscale", NS_PSK, Some("psk"));
    assert_eq!(
        PredefinedPageOutputColor::from_name(&color),
        Some(PredefinedPageOutputColor::Grayscale)
    );
    let unknown = QName::qualified("Sideways", NS_PSK, Some("psk"));
    assert_eq!(PredefinedPageOrientation::from_name(&unknown), None);
}

#[test]
fn media_size_end_to_end() {
    let capabilities = capabilities();
    let media = capabilities.page_media_sizes();
    assert_eq!(media.len(), 2);

    let size = media[0].size();
    assert_eq!(size.width_in_micron(), 210000);
    assert_eq!(size.height_in_micron(), 297000);
    assert_eq!(
        media[0].as_predefined_name(),
        Some(PredefinedMediaName::ISOA4)
    );
    assert_eq!(media[0].display_name(), Some("A4"));

    let size = media[1].size();
    assert_eq!(size.width_in_micron(), 215900);
    assert_eq!(size.height_in_micron(), 279400);
    assert_eq!(
        media[1].as_predefined_name(),
        Some(PredefinedMediaName::NorthAmericaLetter)
    );
}

#[test]
fn get_dpi() {
    let capabilities = capabilities();
    for resolution in capabilities.page_resolutions() {
        let (x, y) = resolution.dpi();
        assert!(x > 0);
        assert!(y > 0);
        assert_eq!((x, y), (600, 600));
    }
}

#[test]
fn listing_a_missing_feature_is_empty() {
    let capabilities = capabilities();
    assert!(capabilities.duplexes().is_empty());
    assert!(capabilities.page_orientations().is_empty());
    assert!(capabilities.page_output_colors().is_empty());
}

#[test]
fn media_size_converts_into_a_single_feature_ticket() {
    let capabilities = capabilities();
    let media = PageMediaSize::list(&capabilities);
    let ticket = media.into_iter().next().unwrap().to_print_ticket();
    let doc = PrintTicketDocument::parse_from_bytes(ticket.get_xml()).unwrap();
    assert_eq!(doc.features.len(), 1);
    assert_eq!(doc.features[0].name.local_name, "PageMediaSize");
    assert_eq!(doc.features[0].options.len(), 1);
    assert_eq!(
        doc.features[0].options[0].name.as_ref().unwrap().local_name,
        "ISOA4"
    );
}

#[test]
fn resolution_list_reads_missing_axes_as_zero() {
    let xml = r#"<psf:PrintCapabilities version="1"
    xmlns:psf="http://schemas.microsoft.com/windows/2003/08/printing/printschemaframework"
    xmlns:psk="http://schemas.microsoft.com/windows/2003/08/printing/printschemakeywords">
    <psf:Feature name="psk:PageResolution">
        <psf:Option name="psk:Default"/>
    </psf:Feature>
</psf:PrintCapabilities>"#;
    let document = PrintCapabilitiesDocument::parse_from_bytes(xml.as_bytes()).unwrap();
    let capabilities = PrintCapabilities { document };
    let rs = PageResolution::list(&capabilities);
    assert_eq!(rs.len(), 1);
    assert_eq!(rs[0].dpi(), (0, 0));
}
