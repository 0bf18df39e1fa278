//! Qualified names and the namespace URIs of the Print Schema vocabulary.

use vstd::prelude::*;

verus! {

/// The namespace URI for the Print Schema Framework.
pub const NS_PSF: &'static str = "http://schemas.microsoft.com/windows/2003/08/printing/printschemaframework";

/// The namespace URI for the Print Schema Keywords.
pub const NS_PSK: &'static str = "http://schemas.microsoft.com/windows/2003/08/printing/printschemakeywords";

/// The namespace URI for the XML Schema.
pub const NS_XSD: &'static str = "http://www.w3.org/2001/XMLSchema";

/// The namespace URI for the XML Schema Instance.
pub const NS_XSI: &'static str = "http://www.w3.org/2001/XMLSchema-instance";

/// A qualified XML name: a local name, an optional namespace URI, and an
/// optional prefix. The prefix is cosmetic: it is kept so that a document
/// serializes back with the prefixes it was read with, but name identity
/// is the (namespace, local name) pair alone.
#[derive(Debug, PartialEq)]
pub struct QName {
    /// The local part of the name, e.g. `string` in `xsd:string`.
    pub local_name: String,
    /// The namespace URI the name is bound to, if any.
    pub namespace: Option<String>,
    /// The prefix the name was written with, if any.
    pub prefix: Option<String>,
}

/// The mathematical value of a [`QName`].
#[verifier::ext_equal]
pub struct QNameV {
    /// The local part of the name.
    pub local_name: Seq<char>,
    /// The namespace URI, if any.
    pub namespace: Option<Seq<char>>,
    /// The prefix, if any.
    pub prefix: Option<Seq<char>>,
}

impl View for QName {
    type V = QNameV;

    open spec fn view(&self) -> QNameV {
        QNameV {
            local_name: self.local_name@,
            namespace: match self.namespace {
                Option::Some(ref s) => Option::Some(s@),
                Option::None => Option::None,
            },
            prefix: match self.prefix {
                Option::Some(ref s) => Option::Some(s@),
                Option::None => Option::None,
            },
        }
    }
}

impl QNameV {
    /// Name identity: namespace and local name, ignoring the prefix.
    pub open spec fn same_name(self, other: QNameV) -> bool {
        self.local_name == other.local_name && self.namespace == other.namespace
    }

    /// Whether the name has the given namespace and local name.
    pub open spec fn is_named(self, ns: Option<Seq<char>>, local: Seq<char>) -> bool {
        self.local_name == local && self.namespace == ns
    }
}

impl QName {
    /// Build a name with no namespace and no prefix.
    pub fn local(local_name: &str) -> (r: QName)
        ensures
            r@ == (QNameV { local_name: local_name@, namespace: None, prefix: None }),
    {
        QName { local_name: local_name.to_owned(), namespace: None, prefix: None }
    }

    /// Build a name bound to the given namespace, with an optional prefix.
    pub fn qualified(local_name: &str, namespace: &str, prefix: Option<&str>) -> (r: QName)
        ensures
            r@ == (QNameV {
                local_name: local_name@,
                namespace: Some(namespace@),
                prefix: match prefix {
                    Option::Some(p) => Some(p@),
                    Option::None => None::<Seq<char>>,
                },
            }),
    {
        QName {
            local_name: local_name.to_owned(),
            namespace: Some(namespace.to_owned()),
            prefix: match prefix {
                Option::Some(p) => Some(p.to_owned()),
                Option::None => None,
            },
        }
    }

    /// Whether this name and `other` denote the same name: equal namespace
    /// and local name; the prefix does not take part in identity.
    pub fn same_name(&self, other: &QName) -> (r: bool)
        ensures
            r == self@.same_name(other@),
    {
        self.local_name == other.local_name && opt_string_eq(&self.namespace, &other.namespace)
    }

    /// Whether the name is bound to the namespace `ns` and has local name `local`.
    pub fn is_in_ns(&self, ns: &str, local: &str) -> (r: bool)
        ensures
            r == self@.is_named(Some(ns@), local@),
    {
        match self.namespace {
            Option::Some(ref n) => {
                str_eq(n.as_str(), ns) && str_eq(self.local_name.as_str(), local)
            },
            Option::None => false,
        }
    }

    /// Whether the name is bound to the given namespace, whatever its
    /// local name.
    pub fn has_ns(&self, ns: &str) -> (r: bool)
        ensures
            r == (self@.namespace == Some(ns@)),
    {
        match self.namespace {
            Option::Some(ref n) => str_eq(n.as_str(), ns),
            Option::None => false,
        }
    }

    /// Whether the name matches an optional namespace and a local name,
    /// as the lookup helpers of the document tree take them.
    pub fn matches(&self, local: &str, ns: Option<&str>) -> (r: bool)
        ensures
            r == self@.is_named(
                match ns {
                    Option::Some(n) => Some(n@),
                    Option::None => None::<Seq<char>>,
                },
                local@,
            ),
    {
        let local_ok = str_eq(self.local_name.as_str(), local);
        match (&self.namespace, ns) {
            (Option::Some(a), Option::Some(b)) => local_ok && str_eq(a.as_str(), b),
            (Option::None, Option::None) => local_ok,
            _ => false,
        }
    }
}

impl Clone for QName {
    /// Clone the name, keeping its value.
    fn clone(&self) -> (r: Self)
        ensures
            r@ == self@,
    {
        QName {
            local_name: clone_string(&self.local_name),
            namespace: clone_opt_string(&self.namespace),
            prefix: clone_opt_string(&self.prefix),
        }
    }
}

/// Clone a string, keeping its character sequence.
pub fn clone_string(s: &String) -> (r: String)
    ensures
        r@ == s@,
{
    s.as_str().to_owned()
}

/// Clone an optional string, keeping its character sequence.
pub fn clone_opt_string(s: &Option<String>) -> (r: Option<String>)
    ensures
        match s {
            Option::Some(x) => r matches Some(y) && x@ == y@,
            Option::None => r is None,
        },
{
    match s {
        Option::Some(x) => Some(x.as_str().to_owned()),
        Option::None => None,
    }
}

/// Compare two string slices by their character sequences.
pub fn str_eq(a: &str, b: &str) -> (r: bool)
    ensures
        r == (a@ == b@),
{
    let x: String = a.to_owned();
    let y: String = b.to_owned();
    x == y
}

/// Compare two optional strings by their character sequences.
pub fn opt_string_eq(a: &Option<String>, b: &Option<String>) -> (r: bool)
    ensures
        r == (match (a, b) {
            (Option::Some(x), Option::Some(y)) => x@ == y@,
            (Option::None, Option::None) => true,
            _ => false,
        }),
{
    match (a, b) {
        (Option::Some(x), Option::Some(y)) => str_eq(x.as_str(), y.as_str()),
        (Option::None, Option::None) => true,
        _ => false,
    }
}

/// The text a name is written as: `prefix:local` when it has a prefix,
/// else the bare local name. The namespace URI is never inlined; it is
/// only declared at the root.
pub open spec fn fmt_name(n: QNameV) -> Seq<char> {
    match n.prefix {
        Some(p) => p + seq![':'] + n.local_name,
        None => n.local_name,
    }
}

/// Format a name as `prefix:local`, or the bare local name.
pub fn format_name(n: &QName) -> (r: String)
    ensures
        r@ == fmt_name(n@),
{
    match n.prefix {
        Option::Some(ref p) => {
            let mut out = clone_string(p);
            proof {
                reveal_strlit(":");
            }
            out.append(":");
            out.append(n.local_name.as_str());
            proof {
                assert(":"@ =~= seq![':']);
                assert(out@ =~= fmt_name(n@));
            }
            out
        },
        Option::None => clone_string(&n.local_name),
    }
}

} // verus!
