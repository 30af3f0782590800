//! The boundary to the XML pull reader.
//!
//! The reader itself is not verified. Its values pass through this library
//! unopened; what it hands out is turned into plain data here, and each call
//! into it is given a contract that the proofs of the library rest on.

use quick_xml::events::Event;
use quick_xml::name::QName;
use quick_xml::Error;
use quick_xml::Reader;
use vstd::prelude::*;

verus! {

/// `quick_xml::Reader`, a pull reader over some source of bytes.
#[verifier::external_type_specification]
#[verifier::external_body]
#[verifier::reject_recursive_types(R)]
pub struct ExReader<R>(Reader<R>);

/// `quick_xml::Error`, what the reader reports when it cannot go on.
#[verifier::external_type_specification]
#[verifier::external_body]
pub struct ExError(Error);

/// One attribute of an opening tag: its name and its value, both as they
/// stand in the document.
pub struct XmlAttr {
    pub key: Vec<u8>,
    pub value: Vec<u8>,
}

/// What the reader hands out in one step, as far as this library reads it.
pub enum XmlEvent {
    /// An opening tag, with its name and its attributes in document order.
    /// An attribute that the reader could not make out stands as `None`.
    Start { name: Vec<u8>, attrs: Vec<Option<XmlAttr>> },
    /// A closing tag, with its name.
    End { name: Vec<u8> },
    /// The end of the input.
    Eof,
    /// Anything else: text, comments, empty elements, declarations.
    Other,
}

/// An [`XmlAttr`] as sequences of bytes.
pub struct XmlAttrView {
    pub key: Seq<u8>,
    pub value: Seq<u8>,
}

/// An [`XmlEvent`] as sequences of bytes.
pub enum XmlEventView {
    Start { name: Seq<u8>, attrs: Seq<Option<XmlAttrView>> },
    End { name: Seq<u8> },
    Eof,
    Other,
}

impl View for XmlAttr {
    type V = XmlAttrView;

    open spec fn view(&self) -> XmlAttrView {
        XmlAttrView { key: self.key@, value: self.value@ }
    }
}

/// The attributes of an opening tag as sequences of bytes.
pub open spec fn attrs_view(attrs: Seq<Option<XmlAttr>>) -> Seq<Option<XmlAttrView>> {
    attrs.map_values(
        |a: Option<XmlAttr>|
            match a {
                Some(attr) => Some(attr@),
                None => None,
            },
    )
}

impl View for XmlEvent {
    type V = XmlEventView;

    open spec fn view(&self) -> XmlEventView {
        match self {
            XmlEvent::Start { name, attrs } => XmlEventView::Start {
                name: name@,
                attrs: attrs_view(attrs@),
            },
            XmlEvent::End { name } => XmlEventView::End { name: name@ },
            XmlEvent::Eof => XmlEventView::Eof,
            XmlEvent::Other => XmlEventView::Other,
        }
    }
}

/// The outcome of one step of the reader as sequences of bytes.
pub open spec fn event_view(outcome: Result<XmlEvent, Error>) -> Result<XmlEventView, Error> {
    match outcome {
        Ok(event) => Ok(event@),
        Err(error) => Err(error),
    }
}

/// The outcome of reading the text of an element as a sequence of characters.
pub open spec fn text_view(outcome: Result<String, Error>) -> Result<Seq<char>, Error> {
    match outcome {
        Ok(text) => Ok(text@),
        Err(error) => Err(error),
    }
}

/// The reader that `Reader::from_reader` makes on the bytes `input`.
pub uninterp spec fn xml_reader(input: Seq<u8>) -> Reader<&'static [u8]>;

/// The reader that `Reader::trim_text` leaves when called on `reader` with `on`.
pub uninterp spec fn trim_text_of(reader: Reader<&[u8]>, on: bool) -> Reader<&[u8]>;

/// What `Reader::read_event` does when called on `reader`: what it hands out,
/// and the reader it leaves.
pub uninterp spec fn read_event_of(reader: Reader<&[u8]>) -> (
    Result<XmlEventView, Error>,
    Reader<&[u8]>,
);

/// What `Reader::read_text` does when called on `reader` for the closing tag
/// `name`: what it hands out, and the reader it leaves.
pub uninterp spec fn read_text_of(reader: Reader<&[u8]>, name: Seq<u8>) -> (
    Result<Seq<char>, Error>,
    Reader<&[u8]>,
);

/// A bound on the work left in `reader`: twice the number of bytes it has not
/// consumed yet, and one more while the closing half of an expanded empty
/// element is still to be handed out.
pub uninterp spec fn reader_budget(reader: Reader<&[u8]>) -> nat;

/// The message that a `quick_xml::Error` shows through `Display`.
pub uninterp spec fn xml_error_text(error: Error) -> Seq<char>;

/// `Reader::from_reader` on a byte slice. The reader it makes depends on the
/// bytes alone.
#[verifier::external_body]
pub(crate) fn open_reader<'a>(input: &'a [u8]) -> (reader: Reader<&'a [u8]>)
    ensures
        reader == xml_reader(input@),
{
    Reader::from_reader(input)
}

/// `Reader::trim_text`, which sets whether white space around text is
/// dropped. The reader it leaves depends on the reader and the flag alone.
#[verifier::external_body]
pub(crate) fn set_trim_text(reader: &mut Reader<&[u8]>, on: bool)
    ensures
        *final(reader) == trim_text_of(*old(reader), on),
{
    reader.trim_text(on);
}

/// `Reader::read_event` on a byte slice, with the event turned into plain
/// data. What comes out and the reader left behind depend on the reader
/// alone. An event other than the end of the input consumes at least one
/// byte, or is the closing half of an expanded empty element: either way the
/// budget falls.
#[verifier::external_body]
pub(crate) fn next_event(reader: &mut Reader<&[u8]>) -> (outcome: Result<XmlEvent, Error>)
    ensures
        (event_view(outcome), *final(reader)) == read_event_of(*old(reader)),
        outcome is Ok && !(outcome->Ok_0 is Eof) ==> reader_budget(*final(reader)) < reader_budget(
            *old(reader),
        ),
{
    match reader.read_event() {
        Ok(Event::Start(e)) => Ok(XmlEvent::Start {
            name: e.name().as_ref().to_vec(),
            attrs: e.attributes().map(|a| a.ok().map(|a| XmlAttr {
                key: a.key.as_ref().to_vec(),
                value: a.value.to_vec(),
            })).collect(),
        }),
        Ok(Event::End(e)) => Ok(XmlEvent::End { name: e.name().as_ref().to_vec() }),
        Ok(Event::Eof) => Ok(XmlEvent::Eof),
        Ok(_) => Ok(XmlEvent::Other),
        Err(e) => Err(e),
    }
}

/// `Reader::read_text` on a byte slice: the raw text between the opening tag
/// just read and the closing tag `name` that matches it. What comes out and
/// the reader left behind depend on the reader and the name alone. The call
/// only reads on, so the budget does not grow.
#[verifier::external_body]
pub(crate) fn read_text(reader: &mut Reader<&[u8]>, name: &[u8]) -> (outcome: Result<String, Error>)
    ensures
        (text_view(outcome), *final(reader)) == read_text_of(*old(reader), name@),
        reader_budget(*final(reader)) <= reader_budget(*old(reader)),
{
    reader.read_text(QName(name)).map(|text| text.into_owned())
}

/// The `Display` text of a `quick_xml::Error`.
#[verifier::external_body]
pub(crate) fn error_text(error: &Error) -> (text: String)
    ensures
        text@ == xml_error_text(*error),
{
    error.to_string()
}

} // verus!
