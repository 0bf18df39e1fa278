//! The XML token alphabet: what the tokenizer hands the parser and what
//! the serializer hands the emitter. Start tokens carry resolved names,
//! attributes, and the namespace bindings in scope at the element.

use vstd::prelude::*;
use crate::qname::{QName, QNameV};

verus! {

/// A position in the source text, as the tokenizer reports it.
#[derive(Clone, Copy, PartialEq, Eq, Structural, Debug)]
pub struct TextPos {
    /// Row, counting from 0.
    pub row: u64,
    /// Column, counting from 0.
    pub column: u64,
}

/// An attribute of an element: a resolved name and a raw value.
pub struct XmlAttr {
    /// The attribute name.
    pub name: QName,
    /// The attribute value, unescaped.
    pub value: String,
}

/// The mathematical value of an [`XmlAttr`].
#[verifier::ext_equal]
pub struct XmlAttrV {
    /// The attribute name.
    pub name: QNameV,
    /// The attribute value.
    pub value: Seq<char>,
}

impl View for XmlAttr {
    type V = XmlAttrV;

    open spec fn view(&self) -> XmlAttrV {
        XmlAttrV { name: self.name@, value: self.value@ }
    }
}

/// One namespace binding: a prefix and the URI it is bound to.
pub struct NsBinding {
    /// The prefix.
    pub prefix: String,
    /// The namespace URI.
    pub uri: String,
}

/// The mathematical value of an [`NsBinding`].
#[verifier::ext_equal]
pub struct NsBindingV {
    /// The prefix.
    pub prefix: Seq<char>,
    /// The namespace URI.
    pub uri: Seq<char>,
}

impl View for NsBinding {
    type V = NsBindingV;

    open spec fn view(&self) -> NsBindingV {
        NsBindingV { prefix: self.prefix@, uri: self.uri@ }
    }
}

/// One XML token.
pub enum XmlTok {
    /// The start of an element: its resolved name, its attributes, the
    /// namespace bindings in scope at the element, and its position.
    ElemStart {
        /// The element name.
        name: QName,
        /// The attributes of the element.
        attrs: Vec<XmlAttr>,
        /// The namespace bindings in scope.
        bindings: Vec<NsBinding>,
        /// The position of the element.
        pos: TextPos,
    },
    /// The end of an element.
    ElemEnd {
        /// The position of the end tag.
        pos: TextPos,
    },
    /// Character data.
    Text {
        /// The unescaped text.
        text: String,
    },
    /// CDATA content, kept verbatim.
    Cdata {
        /// The raw text.
        text: String,
    },
    /// Whitespace between markup.
    Space,
    /// The end of the document; the tokenizer repeats it if asked again.
    DocEnd {
        /// The position of the end of the document.
        pos: TextPos,
    },
    /// A tokenizer error; the tokenizer repeats it if asked again.
    Fault {
        /// The error, rendered as text.
        msg: String,
        /// The position of the error.
        pos: TextPos,
    },
    /// A token the document model ignores (declarations, comments,
    /// processing instructions).
    Skip,
}

/// The mathematical value of an [`XmlTok`].
#[verifier::ext_equal]
pub enum XmlTokV {
    /// The start of an element.
    ElemStart {
        /// The element name.
        name: QNameV,
        /// The attributes.
        attrs: Seq<XmlAttrV>,
        /// The namespace bindings in scope.
        bindings: Seq<NsBindingV>,
        /// The position.
        pos: TextPos,
    },
    /// The end of an element.
    ElemEnd {
        /// The position.
        pos: TextPos,
    },
    /// Character data.
    Text {
        /// The text.
        text: Seq<char>,
    },
    /// CDATA content.
    Cdata {
        /// The text.
        text: Seq<char>,
    },
    /// Whitespace between markup.
    Space,
    /// The end of the document.
    DocEnd {
        /// The position.
        pos: TextPos,
    },
    /// A tokenizer error.
    Fault {
        /// The rendered error.
        msg: Seq<char>,
        /// The position.
        pos: TextPos,
    },
    /// An ignored token.
    Skip,
}

impl View for XmlTok {
    type V = XmlTokV;

    open spec fn view(&self) -> XmlTokV {
        match self {
            XmlTok::ElemStart { name, attrs, bindings, pos } => XmlTokV::ElemStart {
                name: name@,
                attrs: crate::schema::views_of(attrs@),
                bindings: crate::schema::views_of(bindings@),
                pos: *pos,
            },
            XmlTok::ElemEnd { pos } => XmlTokV::ElemEnd { pos: *pos },
            XmlTok::Text { text } => XmlTokV::Text { text: text@ },
            XmlTok::Cdata { text } => XmlTokV::Cdata { text: text@ },
            XmlTok::Space => XmlTokV::Space,
            XmlTok::DocEnd { pos } => XmlTokV::DocEnd { pos: *pos },
            XmlTok::Fault { msg, pos } => XmlTokV::Fault { msg: msg@, pos: *pos },
            XmlTok::Skip => XmlTokV::Skip,
        }
    }
}

impl XmlTokV {
    /// Whether the token ends the token stream: the end of the document or
    /// a tokenizer error.
    pub open spec fn is_terminal(self) -> bool {
        self is DocEnd || self is Fault
    }
}

impl XmlTok {
    /// Whether the token ends the token stream.
    pub fn is_terminal(&self) -> (r: bool)
        ensures
            r == self@.is_terminal(),
    {
        match self {
            XmlTok::DocEnd { .. } => true,
            XmlTok::Fault { .. } => true,
            _ => false,
        }
    }
}

} // verus!
