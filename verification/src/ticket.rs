//! Print tickets as XML bytes, ready to hand to the platform's merge and
//! submission services.

use vstd::prelude::*;
use vstd::string::StringSliceAdditionalSpecFns;
use crate::schema::PrintTicketDocument;
use crate::xmlio::emit_of;
use crate::ser_spec::ser_ticket;

verus! {

/// The XML of an empty print ticket: a bare root declaring the
/// conventional namespaces.
pub const DEFAULT_PRINT_TICKET_XML: &'static str = "<psf:PrintTicket xmlns:psf=\"http://schemas.microsoft.com/windows/2003/08/printing/printschemaframework\" xmlns:xsi=\"http://www.w3.org/2001/XMLSchema-instance\" xmlns:xsd=\"http://www.w3.org/2001/XMLSchema\" version=\"1\" xmlns:psk=\"http://schemas.microsoft.com/windows/2003/08/printing/printschemakeywords\"></psf:PrintTicket>";

/// A print ticket: XML bytes specifying a concrete configuration for one
/// job.
pub struct PrintTicket {
    pub(crate) xml: Vec<u8>,
}

impl View for PrintTicket {
    type V = Seq<u8>;

    closed spec fn view(&self) -> Seq<u8> {
        self.xml@
    }
}

impl PrintTicket {
    /// A print ticket holding the given XML bytes, unexamined.
    pub fn from_xml(xml: Vec<u8>) -> (r: Self)
        ensures
            r@ == xml@,
    {
        PrintTicket { xml }
    }

    /// Take the XML bytes of the ticket.
    pub fn into_xml(self) -> (r: Vec<u8>)
        ensures
            r@ == self@,
    {
        self.xml
    }

    /// The XML bytes of the ticket.
    pub fn get_xml(&self) -> (r: &[u8])
        ensures
            r@ == self@,
    {
        self.xml.as_slice()
    }

    /// A print ticket holding the canonical serialization of a document.
    pub fn from_document(d: &PrintTicketDocument) -> (r: Self)
        ensures
            r@ == emit_of(ser_ticket(d@)),
    {
        PrintTicket { xml: d.to_xml() }
    }
}

impl Default for PrintTicket {
    /// The empty print ticket.
    fn default() -> (r: Self)
        ensures
            r@ == DEFAULT_PRINT_TICKET_XML.spec_bytes(),
    {
        PrintTicket { xml: vstd::slice::slice_to_vec(DEFAULT_PRINT_TICKET_XML.as_bytes()) }
    }
}

} // verus!
