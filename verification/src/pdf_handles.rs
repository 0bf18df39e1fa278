//! Marker types for the objects of the platform's PDF renderer. The
//! renderer itself is an outside service that only the unverified
//! printing plumbing drives; these uninhabited-in-practice markers give
//! its object handles distinct types there, so a handle to one kind of
//! object cannot stand in for another.

use vstd::prelude::*;

verus! {

/// A marker for a renderer action t object.
#[allow(non_camel_case_types)]
pub struct fpdf_action_t__ {
    _unused: [u8; 0],
}

/// A marker for a renderer annotation t object.
#[allow(non_camel_case_types)]
pub struct fpdf_annotation_t__ {
    _unused: [u8; 0],
}

/// A marker for a renderer attachment t object.
#[allow(non_camel_case_types)]
pub struct fpdf_attachment_t__ {
    _unused: [u8; 0],
}

/// A marker for a renderer avail t object.
#[allow(non_camel_case_types)]
pub struct fpdf_avail_t__ {
    _unused: [u8; 0],
}

/// A marker for a renderer bitmap t object.
#[allow(non_camel_case_types)]
pub struct fpdf_bitmap_t__ {
    _unused: [u8; 0],
}

/// A marker for a renderer bookmark t object.
#[allow(non_camel_case_types)]
pub struct fpdf_bookmark_t__ {
    _unused: [u8; 0],
}

/// A marker for a renderer clippath t object.
#[allow(non_camel_case_types)]
pub struct fpdf_clippath_t__ {
    _unused: [u8; 0],
}

/// A marker for a renderer dest t object.
#[allow(non_camel_case_types)]
pub struct fpdf_dest_t__ {
    _unused: [u8; 0],
}

/// A marker for a renderer document t object.
#[allow(non_camel_case_types)]
pub struct fpdf_document_t__ {
    _unused: [u8; 0],
}

/// A marker for a renderer font t object.
#[allow(non_camel_case_types)]
pub struct fpdf_font_t__ {
    _unused: [u8; 0],
}

/// A marker for a renderer form handle t object.
#[allow(non_camel_case_types)]
pub struct fpdf_form_handle_t__ {
    _unused: [u8; 0],
}

/// A marker for a renderer glyphpath t object.
#[allow(non_camel_case_types)]
pub struct fpdf_glyphpath_t__ {
    _unused: [u8; 0],
}

/// A marker for a renderer javascript action t object.
#[allow(non_camel_case_types)]
pub struct fpdf_javascript_action_t {
    _unused: [u8; 0],
}

/// A marker for a renderer link t object.
#[allow(non_camel_case_types)]
pub struct fpdf_link_t__ {
    _unused: [u8; 0],
}

/// A marker for a renderer page t object.
#[allow(non_camel_case_types)]
pub struct fpdf_page_t__ {
    _unused: [u8; 0],
}

/// A marker for a renderer pagelink t object.
#[allow(non_camel_case_types)]
pub struct fpdf_pagelink_t__ {
    _unused: [u8; 0],
}

/// A marker for a renderer pageobject t object.
#[allow(non_camel_case_types)]
pub struct fpdf_pageobject_t__ {
    _unused: [u8; 0],
}

/// A marker for a renderer pageobjectmark t object.
#[allow(non_camel_case_types)]
pub struct fpdf_pageobjectmark_t__ {
    _unused: [u8; 0],
}

/// A marker for a renderer pagerange t object.
#[allow(non_camel_case_types)]
pub struct fpdf_pagerange_t__ {
    _unused: [u8; 0],
}

/// A marker for a renderer pathsegment t object.
#[allow(non_camel_case_types)]
pub struct fpdf_pathsegment_t {
    _unused: [u8; 0],
}

/// A marker for a renderer schhandle t object.
#[allow(non_camel_case_types)]
pub struct fpdf_schhandle_t__ {
    _unused: [u8; 0],
}

/// A marker for a renderer signature t object.
#[allow(non_camel_case_types)]
pub struct fpdf_signature_t__ {
    _unused: [u8; 0],
}

/// A marker for a renderer structelement t object.
#[allow(non_camel_case_types)]
pub struct fpdf_structelement_t__ {
    _unused: [u8; 0],
}

/// A marker for a renderer structtree t object.
#[allow(non_camel_case_types)]
pub struct fpdf_structtree_t__ {
    _unused: [u8; 0],
}

/// A marker for a renderer textpage t object.
#[allow(non_camel_case_types)]
pub struct fpdf_textpage_t__ {
    _unused: [u8; 0],
}

/// A marker for a renderer widget t object.
#[allow(non_camel_case_types)]
pub struct fpdf_widget_t__ {
    _unused: [u8; 0],
}

/// A marker for a renderer xobject t object.
#[allow(non_camel_case_types)]
pub struct fpdf_xobject_t__ {
    _unused: [u8; 0],
}

} // verus!
