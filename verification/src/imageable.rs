//! The imageable area of a page, read from a capabilities document.

use vstd::prelude::*;
use crate::qname::NS_PSK;
use crate::lookup::{find_prop_spec, find_property};
use crate::media::{lemma_size_eq, lemma_size_of, size_of, MediaSizeTuple};
use crate::schema::{PrintCapabilitiesDocument, Property, PropertyV, PropertyValueV, views_of};

verus! {

broadcast use vstd::std_specs::vec::axiom_vec_index_decreases, crate::schema::group_schema_views;

/// The imageable size of a page: the page size, and the origin and extent
/// of the area the device can mark, all in microns.
#[derive(Clone, Copy, PartialEq, Eq, Hash, Structural, Debug)]
pub struct PageImageableSize {
    /// The size of the page.
    pub size: MediaSizeTuple,
    /// The origin of the imageable area.
    pub origin: MediaSizeTuple,
    /// The extent of the imageable area.
    pub extent: MediaSizeTuple,
}

/// An error reading the imageable size from a capabilities document.
#[derive(Debug)]
pub enum PageImageableSizeError {
    /// A property the imageable size needs is missing or not an unsigned
    /// integer; carries the property's name.
    FieldError {
        /// The name of the missing or ill-typed property.
        field: &'static str,
    },
}

/// The unsigned integer value of the named keyword property, when the
/// property is present, holds an integer, and that integer is in range.
pub open spec fn u32_prop_spec(props: Seq<PropertyV>, local: Seq<char>) -> Option<int> {
    match find_prop_spec(props, local, Some(NS_PSK@)) {
        Some(p) => match p.value {
            Some(PropertyValueV::Integer(v)) => if 0 <= v <= 0xffff_ffff {
                Some(v)
            } else {
                None
            },
            _ => None,
        },
        None => None,
    }
}

/// The imageable size a capabilities document reports: the
/// `PageImageableSize` property with its two dimensions, and inside it the
/// `ImageableArea` property with origin and extent; absent or ill-typed
/// fields make the whole reading fail.
pub open spec fn imageable_spec(props: Seq<PropertyV>) -> Option<PageImageableSize> {
    match find_prop_spec(props, "PageImageableSize"@, Some(NS_PSK@)) {
        Some(ps) => match (
            u32_prop_spec(ps.properties, "ImageableSizeWidth"@),
            u32_prop_spec(ps.properties, "ImageableSizeHeight"@),
        ) {
            (Some(w), Some(h)) => match find_prop_spec(
                ps.properties,
                "ImageableArea"@,
                Some(NS_PSK@),
            ) {
                Some(area) => match (
                    u32_prop_spec(area.properties, "OriginWidth"@),
                    u32_prop_spec(area.properties, "OriginHeight"@),
                    u32_prop_spec(area.properties, "ExtentWidth"@),
                    u32_prop_spec(area.properties, "ExtentHeight"@),
                ) {
                    (Some(ow), Some(oh), Some(ew), Some(eh)) => Some(
                        PageImageableSize {
                            size: size_of(w as u32, h as u32),
                            origin: size_of(ow as u32, oh as u32),
                            extent: size_of(ew as u32, eh as u32),
                        },
                    ),
                    _ => None,
                },
                None => None,
            },
            _ => None,
        },
        None => None,
    }
}

/// The unsigned integer value of the named keyword property.
fn get_u32_property(props: &Vec<Property>, name: &'static str) -> (r: Result<
    u32,
    PageImageableSizeError,
>)
    ensures
        match r {
            Ok(v) => u32_prop_spec(views_of(props@), name@) == Some(v as int),
            Err(_) => u32_prop_spec(views_of(props@), name@) is None,
        },
{
    match find_property(props, name, Some(NS_PSK)) {
        Option::Some(p) => {
            match &p.value {
                Option::Some(v) => {
                    match v.integer() {
                        Option::Some(n) => {
                            if 0 <= n {
                                Ok(n as u32)
                            } else {
                                Err(PageImageableSizeError::FieldError { field: name })
                            }
                        },
                        Option::None => Err(PageImageableSizeError::FieldError { field: name }),
                    }
                },
                Option::None => Err(PageImageableSizeError::FieldError { field: name }),
            }
        },
        Option::None => Err(PageImageableSizeError::FieldError { field: name }),
    }
}

impl PageImageableSize {
    /// Read the imageable size from a parsed capabilities document:
    /// succeeds exactly when the document carries the `PageImageableSize`
    /// property with both dimensions and an `ImageableArea` with origin
    /// and extent, all unsigned integers.
    pub fn from_capabilities(caps: &PrintCapabilitiesDocument) -> (r: Result<
        Self,
        PageImageableSizeError,
    >)
        ensures
            match r {
                Ok(s) => imageable_spec(views_of(caps.properties@)) == Some(s),
                Err(_) => imageable_spec(views_of(caps.properties@)) is None,
            },
    {
        let ps = match find_property(&caps.properties, "PageImageableSize", Some(NS_PSK)) {
            Option::Some(p) => p,
            Option::None => {
                return Err(
                    PageImageableSizeError::FieldError { field: "PageImageableSize" },
                );
            },
        };
        let w = get_u32_property(&ps.properties, "ImageableSizeWidth")?;
        let h = get_u32_property(&ps.properties, "ImageableSizeHeight")?;
        let area = match find_property(&ps.properties, "ImageableArea", Some(NS_PSK)) {
            Option::Some(p) => p,
            Option::None => {
                return Err(PageImageableSizeError::FieldError { field: "ImageableArea" });
            },
        };
        let ow = get_u32_property(&area.properties, "OriginWidth")?;
        let oh = get_u32_property(&area.properties, "OriginHeight")?;
        let ew = get_u32_property(&area.properties, "ExtentWidth")?;
        let eh = get_u32_property(&area.properties, "ExtentHeight")?;
        let size = MediaSizeTuple::micron(w, h);
        let origin = MediaSizeTuple::micron(ow, oh);
        let extent = MediaSizeTuple::micron(ew, eh);
        proof {
            lemma_size_of(w, h);
            lemma_size_of(ow, oh);
            lemma_size_of(ew, eh);
            lemma_size_eq(size, size_of(w, h));
            lemma_size_eq(origin, size_of(ow, oh));
            lemma_size_eq(extent, size_of(ew, eh));
        }
        Ok(PageImageableSize { size, origin, extent })
    }
}

} // verus!
