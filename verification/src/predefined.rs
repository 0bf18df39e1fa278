//! The closed sets of well-known option names: media sizes, orientations,
//! duplex modes, and output colors. A name maps to a predefined value only
//! when it lies in the Print Schema Keywords namespace; vendor names map
//! to nothing, which is not an error.

use vstd::prelude::*;
use crate::qname::{str_eq, QName, QNameV, NS_PSK};

verus! {

/// A well-known media size name.
#[derive(Clone, Copy, PartialEq, Eq, Hash, Debug, Structural)]
pub enum PredefinedMediaName {
    /// ISO A3.
    ISOA3,
    /// ISO A4.
    ISOA4,
    /// ISO A5.
    ISOA5,
    /// ISO A6.
    ISOA6,
    /// ISO B4.
    ISOB4,
    /// ISO B5 extra.
    ISOB5Extra,
    /// ISO C5 envelope.
    ISOC5Envelope,
    /// ISO DL envelope.
    ISODLEnvelope,
    /// JIS B4.
    JISB4,
    /// JIS B5.
    JISB5,
    /// Japanese Hagaki postcard.
    JapanHagakiPostcard,
    /// North America letter.
    NorthAmericaLetter,
    /// North America legal.
    NorthAmericaLegal,
    /// North America tabloid.
    NorthAmericaTabloid,
    /// North America executive.
    NorthAmericaExecutive,
    /// North America statement.
    NorthAmericaStatement,
    /// North America number 10 envelope.
    NorthAmericaNumber10Envelope,
    /// North America 4 by 6 inches.
    NorthAmerica4x6,
    /// North America 5 by 7 inches.
    NorthAmerica5x7,
    /// Credit card size.
    CreditCard,
    /// Business card size.
    BusinessCard,
}

/// The predefined media size a qualified name denotes, if any.
pub open spec fn media_name_spec(n: QNameV) -> Option<PredefinedMediaName> {
    if n.namespace == Some(NS_PSK@) {
        if n.local_name == "ISOA3"@ {
            Some(PredefinedMediaName::ISOA3)
        } else if n.local_name == "ISOA4"@ {
            Some(PredefinedMediaName::ISOA4)
        } else if n.local_name == "ISOA5"@ {
            Some(PredefinedMediaName::ISOA5)
        } else if n.local_name == "ISOA6"@ {
            Some(PredefinedMediaName::ISOA6)
        } else if n.local_name == "ISOB4"@ {
            Some(PredefinedMediaName::ISOB4)
        } else if n.local_name == "ISOB5Extra"@ {
            Some(PredefinedMediaName::ISOB5Extra)
        } else if n.local_name == "ISOC5Envelope"@ {
            Some(PredefinedMediaName::ISOC5Envelope)
        } else if n.local_name == "ISODLEnvelope"@ {
            Some(PredefinedMediaName::ISODLEnvelope)
        } else if n.local_name == "JISB4"@ {
            Some(PredefinedMediaName::JISB4)
        } else if n.local_name == "JISB5"@ {
            Some(PredefinedMediaName::JISB5)
        } else if n.local_name == "JapanHagakiPostcard"@ {
            Some(PredefinedMediaName::JapanHagakiPostcard)
        } else if n.local_name == "NorthAmericaLetter"@ {
            Some(PredefinedMediaName::NorthAmericaLetter)
        } else if n.local_name == "NorthAmericaLegal"@ {
            Some(PredefinedMediaName::NorthAmericaLegal)
        } else if n.local_name == "NorthAmericaTabloid"@ {
            Some(PredefinedMediaName::NorthAmericaTabloid)
        } else if n.local_name == "NorthAmericaExecutive"@ {
            Some(PredefinedMediaName::NorthAmericaExecutive)
        } else if n.local_name == "NorthAmericaStatement"@ {
            Some(PredefinedMediaName::NorthAmericaStatement)
        } else if n.local_name == "NorthAmericaNumber10Envelope"@ {
            Some(PredefinedMediaName::NorthAmericaNumber10Envelope)
        } else if n.local_name == "NorthAmerica4x6"@ {
            Some(PredefinedMediaName::NorthAmerica4x6)
        } else if n.local_name == "NorthAmerica5x7"@ {
            Some(PredefinedMediaName::NorthAmerica5x7)
        } else if n.local_name == "CreditCard"@ {
            Some(PredefinedMediaName::CreditCard)
        } else if n.local_name == "BusinessCard"@ {
            Some(PredefinedMediaName::BusinessCard)
        } else {
            None
        }
    } else {
        None
    }
}

impl PredefinedMediaName {
    /// The predefined media size a qualified name denotes: matched by
    /// local name within the keywords namespace; any other name, or a
    /// vendor namespace, yields nothing.
    pub fn from_name(name: &QName) -> (r: Option<Self>)
        ensures
            r == media_name_spec(name@),
    {
        if !name.has_ns(NS_PSK) {
            return None;
        }
        let l = name.local_name.as_str();
        if str_eq(l, "ISOA3") {
            Some(PredefinedMediaName::ISOA3)
        } else if str_eq(l, "ISOA4") {
            Some(PredefinedMediaName::ISOA4)
        } else if str_eq(l, "ISOA5") {
            Some(PredefinedMediaName::ISOA5)
        } else if str_eq(l, "ISOA6") {
            Some(PredefinedMediaName::ISOA6)
        } else if str_eq(l, "ISOB4") {
            Some(PredefinedMediaName::ISOB4)
        } else if str_eq(l, "ISOB5Extra") {
            Some(PredefinedMediaName::ISOB5Extra)
        } else if str_eq(l, "ISOC5Envelope") {
            Some(PredefinedMediaName::ISOC5Envelope)
        } else if str_eq(l, "ISODLEnvelope") {
            Some(PredefinedMediaName::ISODLEnvelope)
        } else if str_eq(l, "JISB4") {
            Some(PredefinedMediaName::JISB4)
        } else if str_eq(l, "JISB5") {
            Some(PredefinedMediaName::JISB5)
        } else if str_eq(l, "JapanHagakiPostcard") {
            Some(PredefinedMediaName::JapanHagakiPostcard)
        } else if str_eq(l, "NorthAmericaLetter") {
            Some(PredefinedMediaName::NorthAmericaLetter)
        } else if str_eq(l, "NorthAmericaLegal") {
            Some(PredefinedMediaName::NorthAmericaLegal)
        } else if str_eq(l, "NorthAmericaTabloid") {
            Some(PredefinedMediaName::NorthAmericaTabloid)
        } else if str_eq(l, "NorthAmericaExecutive") {
            Some(PredefinedMediaName::NorthAmericaExecutive)
        } else if str_eq(l, "NorthAmericaStatement") {
            Some(PredefinedMediaName::NorthAmericaStatement)
        } else if str_eq(l, "NorthAmericaNumber10Envelope") {
            Some(PredefinedMediaName::NorthAmericaNumber10Envelope)
        } else if str_eq(l, "NorthAmerica4x6") {
            Some(PredefinedMediaName::NorthAmerica4x6)
        } else if str_eq(l, "NorthAmerica5x7") {
            Some(PredefinedMediaName::NorthAmerica5x7)
        } else if str_eq(l, "CreditCard") {
            Some(PredefinedMediaName::CreditCard)
        } else if str_eq(l, "BusinessCard") {
            Some(PredefinedMediaName::BusinessCard)
        } else {
            None
        }
    }
}

/// A well-known page orientation name.
#[derive(Clone, Copy, PartialEq, Eq, Hash, Debug, Structural)]
pub enum PredefinedPageOrientation {
    /// Portrait.
    Portrait,
    /// Landscape.
    Landscape,
    /// Portrait, rotated half a turn.
    ReversePortrait,
    /// Landscape, rotated half a turn.
    ReverseLandscape,
}

/// The predefined orientation a qualified name denotes, if any.
pub open spec fn orientation_spec(n: QNameV) -> Option<PredefinedPageOrientation> {
    if n.namespace == Some(NS_PSK@) {
        if n.local_name == "Portrait"@ {
            Some(PredefinedPageOrientation::Portrait)
        } else if n.local_name == "Landscape"@ {
            Some(PredefinedPageOrientation::Landscape)
        } else if n.local_name == "ReversePortrait"@ {
            Some(PredefinedPageOrientation::ReversePortrait)
        } else if n.local_name == "ReverseLandscape"@ {
            Some(PredefinedPageOrientation::ReverseLandscape)
        } else {
            None
        }
    } else {
        None
    }
}

impl PredefinedPageOrientation {
    /// The predefined orientation a qualified name denotes, if any.
    pub fn from_name(name: &QName) -> (r: Option<Self>)
        ensures
            r == orientation_spec(name@),
    {
        if !name.has_ns(NS_PSK) {
            return None;
        }
        let l = name.local_name.as_str();
        if str_eq(l, "Portrait") {
            Some(PredefinedPageOrientation::Portrait)
        } else if str_eq(l, "Landscape") {
            Some(PredefinedPageOrientation::Landscape)
        } else if str_eq(l, "ReversePortrait") {
            Some(PredefinedPageOrientation::ReversePortrait)
        } else if str_eq(l, "ReverseLandscape") {
            Some(PredefinedPageOrientation::ReverseLandscape)
        } else {
            None
        }
    }
}

/// A well-known duplex mode name.
#[derive(Clone, Copy, PartialEq, Eq, Hash, Debug, Structural)]
pub enum PredefinedDuplexType {
    /// One-sided printing.
    OneSided,
    /// Two-sided printing flipped along the short edge.
    TwoSidedShortEdge,
    /// Two-sided printing flipped along the long edge.
    TwoSidedLongEdge,
}

/// The predefined duplex mode a qualified name denotes, if any.
pub open spec fn duplex_spec(n: QNameV) -> Option<PredefinedDuplexType> {
    if n.namespace == Some(NS_PSK@) {
        if n.local_name == "OneSided"@ {
            Some(PredefinedDuplexType::OneSided)
        } else if n.local_name == "TwoSidedShortEdge"@ {
            Some(PredefinedDuplexType::TwoSidedShortEdge)
        } else if n.local_name == "TwoSidedLongEdge"@ {
            Some(PredefinedDuplexType::TwoSidedLongEdge)
        } else {
            None
        }
    } else {
        None
    }
}

impl PredefinedDuplexType {
    /// The predefined duplex mode a qualified name denotes, if any.
    pub fn from_name(name: &QName) -> (r: Option<Self>)
        ensures
            r == duplex_spec(name@),
    {
        if !name.has_ns(NS_PSK) {
            return None;
        }
        let l = name.local_name.as_str();
        if str_eq(l, "OneSided") {
            Some(PredefinedDuplexType::OneSided)
        } else if str_eq(l, "TwoSidedShortEdge") {
            Some(PredefinedDuplexType::TwoSidedShortEdge)
        } else if str_eq(l, "TwoSidedLongEdge") {
            Some(PredefinedDuplexType::TwoSidedLongEdge)
        } else {
            None
        }
    }
}

/// A well-known output color name.
#[derive(Clone, Copy, PartialEq, Eq, Hash, Debug, Structural)]
pub enum PredefinedPageOutputColor {
    /// Color output.
    Color,
    /// Grayscale output.
    Grayscale,
    /// Monochrome output.
    Monochrome,
}

/// The predefined output color a qualified name denotes, if any.
pub open spec fn output_color_spec(n: QNameV) -> Option<PredefinedPageOutputColor> {
    if n.namespace == Some(NS_PSK@) {
        if n.local_name == "Color"@ {
            Some(PredefinedPageOutputColor::Color)
        } else if n.local_name == "Grayscale"@ {
            Some(PredefinedPageOutputColor::Grayscale)
        } else if n.local_name == "Monochrome"@ {
            Some(PredefinedPageOutputColor::Monochrome)
        } else {
            None
        }
    } else {
        None
    }
}

impl PredefinedPageOutputColor {
    /// The predefined output color a qualified name denotes, if any.
    pub fn from_name(name: &QName) -> (r: Option<Self>)
        ensures
            r == output_color_spec(name@),
    {
        if !name.has_ns(NS_PSK) {
            return None;
        }
        let l = name.local_name.as_str();
        if str_eq(l, "Color") {
            Some(PredefinedPageOutputColor::Color)
        } else if str_eq(l, "Grayscale") {
            Some(PredefinedPageOutputColor::Grayscale)
        } else if str_eq(l, "Monochrome") {
            Some(PredefinedPageOutputColor::Monochrome)
        } else {
            None
        }
    }
}

} // verus!
