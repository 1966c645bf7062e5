//! The XML tokenizer boundary of the catalog-service response.
//!
//! Tokenizing XML is the `quick_xml` crate's business; this module
//! names the event sequence its tokenizer yields for a document and
//! hands that sequence to the verified column scan.  Tokenizing an
//! in-memory document is deterministic — the events depend on the
//! document's bytes alone — so the result bears a name, and the
//! columns returned here are pinned to exactly what the scan collects
//! from that named sequence.

use vstd::prelude::*;

use quick_xml::events::Event;
use quick_xml::reader::Reader;

use crate::simbad::{scan_events, scan_fold, XmlEvent};

verus! {

/// The events the tokenizer yields for a document, in order, up to its
/// end-of-document report.  What the events are is the tokenizer's
/// business; nothing is assumed of them beyond their determinism in
/// the document bytes.
pub uninterp spec fn tokens_of(doc: Seq<u8>) -> Seq<XmlEvent>;

/// Relies on `quick_xml::reader::Reader::read_event`, driven over the
/// whole document: element names and unescaped character data are
/// taken over as plain bytes; every other event kind, ill-formed
/// markup and unresolvable escapes reduce to the no-op event.  Every
/// event but the end report stands for at least one byte of input, so
/// one event per byte bounds the drive.
#[verifier::external_body]
fn tokenize(xml: &[u8]) -> (events: Vec<XmlEvent>)
    ensures
        events@ == tokens_of(xml@),
{
    let mut reader = Reader::from_reader(xml);
    let mut out: Vec<XmlEvent> = Vec::new();
    while out.len() <= xml.len() {
        match reader.read_event() {
            Ok(Event::Start(e)) => out.push(XmlEvent::Start(e.name().as_ref().to_vec())),
            Ok(Event::End(e)) => out.push(XmlEvent::End(e.name().as_ref().to_vec())),
            Ok(Event::Text(e)) => match e.unescape() {
                Ok(t) => out.push(XmlEvent::Text(t.as_bytes().to_vec())),
                Err(_) => out.push(XmlEvent::Other),
            },
            Ok(Event::Eof) => break,
            _ => out.push(XmlEvent::Other),
        }
    }
    out
}

/// The table-cell columns of a VOTable document, in document order:
/// exactly what the verified column scan collects from the document's
/// event sequence.
pub fn votable_columns(xml: &[u8]) -> (cols: Vec<Vec<u8>>)
    ensures
        cols.deep_view() == scan_fold(tokens_of(xml@)).columns,
{
    let events = tokenize(xml);
    scan_events(&events)
}

} // verus!
