//! A verified document model for Microsoft Print Schema XML.
//!
//! The crate parses PrintCapabilities and PrintTicket documents into a tree
//! of owned nodes, serializes such trees back to a canonical XML encoding,
//! and resolves parameters and typed feature options on top of the tree.
//! XML tokenization itself is delegated to the `xml` crate behind a small
//! trusted boundary; everything that interprets or produces the token
//! stream is verified.

pub mod qname;
pub mod schema;
pub mod lookup;
pub mod numeric;
pub mod tokens;
pub mod parse_spec;
pub mod parse_util;
pub mod parser;
pub mod ser_spec;
pub mod serializer;
pub mod xmlio;
pub mod document;
pub mod roundtrip;
pub mod clone;
pub mod caps;
pub mod media;
pub mod predefined;
pub mod ticket;
pub mod packs;
pub mod imageable;
pub mod pdf_handles;
pub mod printer;
