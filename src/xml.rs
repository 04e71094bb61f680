//! Reading a report document: quick-xml splits the text into markup events,
//! and `report` makes findings of them.
//!
//! What quick-xml reads is a function of the text alone. It is named here
//! (`markup_items` and the names beside it) rather than written out: the
//! wrappers below state each step of the reading over those names, and the
//! code that drives them is proved to hand on exactly the events named.
use vstd::prelude::*;

use vstd::string::StringExecFns;

use quick_xml::events::attributes::{AttrError, Attribute as RawAttribute, Attributes};
use quick_xml::events::{BytesStart, BytesText, Event};
use quick_xml::Error as XmlError;
use quick_xml::Reader;

use crate::report::{
    attributes_view, events_view, report_of, results_from_events, EventView, MalformedReport, Results,
    XmlAttribute, XmlEvent,
};

verus! {

#[verifier::external_type_specification]
#[verifier::external_body]
#[verifier::reject_recursive_types(R)]
pub struct ExReader<R>(Reader<R>);

#[verifier::external_type_specification]
#[verifier::external_body]
pub struct ExXmlError(XmlError);

#[verifier::external_type_specification]
#[verifier::external_body]
pub struct ExBytesStart<'a>(BytesStart<'a>);

#[verifier::external_type_specification]
#[verifier::external_body]
pub struct ExBytesText<'a>(BytesText<'a>);

#[verifier::external_type_specification]
#[verifier::external_body]
pub struct ExAttributes<'a>(Attributes<'a>);

#[verifier::external_type_specification]
#[verifier::external_body]
pub struct ExRawAttribute<'a>(RawAttribute<'a>);

#[verifier::external_type_specification]
#[verifier::external_body]
pub struct ExAttrError(AttrError);

/// The events that quick-xml's reader, dropping the white space around
/// character data, reads from `text`, in order: up to its end, or up to and
/// including the first error (`None`).
pub uninterp spec fn markup_items(text: Seq<char>) -> Seq<Option<RawView>>;

/// The events that `reader` has still to give, as `markup_items` counts them.
pub uninterp spec fn reader_items(reader: Reader<&[u8]>) -> Seq<Option<RawView>>;

/// The name of the element that `e` starts.
pub uninterp spec fn start_name(e: BytesStart) -> Seq<char>;

/// The attributes of the element that `e` starts, in order, each with its
/// value unescaped: up to the last one, or up to and including the first
/// that is malformed (`None`).
pub uninterp spec fn start_attributes(e: BytesStart) -> Seq<Option<(Seq<char>, Seq<char>)>>;

/// The attributes that `a` has still to give, as `start_attributes` counts
/// them.
pub uninterp spec fn attribute_items(a: Attributes) -> Seq<Option<(Seq<char>, Seq<char>)>>;

/// The character data of `t` with its references replaced; `None` where a
/// reference is malformed.
pub uninterp spec fn text_content(t: BytesText) -> Option<Seq<char>>;

/// One event of quick-xml's reader, before the names, attributes and texts
/// of tags and text are decoded.
enum RawEvent<'a> {
    Open(BytesStart<'a>),
    Leaf(BytesStart<'a>),
    Close,
    Text(BytesText<'a>),
    CData(String),
    Comment(String),
    Declaration(String),
    Instruction(String),
    DocType(String),
    End,
}

/// A raw event as a value.
pub enum RawView {
    Open(Seq<char>, Seq<Option<(Seq<char>, Seq<char>)>>),
    Leaf(Seq<char>, Seq<Option<(Seq<char>, Seq<char>)>>),
    Close,
    Text(Option<Seq<char>>),
    CData(Seq<char>),
    Comment(Seq<char>),
    Declaration(Seq<char>),
    Instruction(Seq<char>),
    DocType(Seq<char>),
}

/// A raw event as a value. `End` is no event of the document: `read_raw`
/// states it apart, and it never reaches this view.
spec fn raw_view(r: RawEvent) -> RawView {
    match r {
        RawEvent::Open(e) => RawView::Open(start_name(e), start_attributes(e)),
        RawEvent::Leaf(e) => RawView::Leaf(start_name(e), start_attributes(e)),
        RawEvent::Close => RawView::Close,
        RawEvent::Text(t) => RawView::Text(text_content(t)),
        RawEvent::CData(s) => RawView::CData(s@),
        RawEvent::Comment(s) => RawView::Comment(s@),
        RawEvent::Declaration(s) => RawView::Declaration(s@),
        RawEvent::Instruction(s) => RawView::Instruction(s@),
        RawEvent::DocType(s) => RawView::DocType(s@),
        RawEvent::End => RawView::Close,
    }
}

/// The attributes, where none is malformed.
pub open spec fn attributes_decoded(items: Seq<Option<(Seq<char>, Seq<char>)>>) -> Option<
    Seq<(Seq<char>, Seq<char>)>,
>
    decreases items.len(),
{
    if items.len() == 0 {
        Some(Seq::empty())
    } else {
        match (items[0], attributes_decoded(items.drop_first())) {
            (Some(a), Some(rest)) => Some(seq![a] + rest),
            _ => None,
        }
    }
}

/// The event that a raw event decodes to; `None` where its attributes or its
/// text are malformed.
pub open spec fn event_decoded(r: RawView) -> Option<EventView> {
    match r {
        RawView::Open(name, items) => match attributes_decoded(items) {
            Some(a) => Some(EventView::Open(name, a)),
            None => None,
        },
        RawView::Leaf(name, items) => match attributes_decoded(items) {
            Some(a) => Some(EventView::Leaf(name, a)),
            None => None,
        },
        RawView::Close => Some(EventView::Close),
        RawView::Text(t) => match t {
            Some(t) => Some(EventView::Text(t)),
            None => None,
        },
        RawView::CData(t) => Some(EventView::CData(t)),
        RawView::Comment(t) => Some(EventView::Comment(t)),
        RawView::Declaration(t) => Some(EventView::Declaration(t)),
        RawView::Instruction(t) => Some(EventView::Instruction(t)),
        RawView::DocType(t) => Some(EventView::DocType(t)),
    }
}

/// The events of a document, decoded; `None` where quick-xml met an error or
/// an event does not decode.
pub open spec fn events_decoded(items: Seq<Option<RawView>>) -> Option<Seq<EventView>>
    decreases items.len(),
{
    if items.len() == 0 {
        Some(Seq::empty())
    } else {
        match items[0] {
            Some(r) => match (event_decoded(r), events_decoded(items.drop_first())) {
                (Some(e), Some(rest)) => Some(seq![e] + rest),
                _ => None,
            },
            None => None,
        }
    }
}

/// The events of the document `text`; `None` where it is not well-formed
/// markup.
pub open spec fn document_markup(text: Seq<char>) -> Option<Seq<EventView>> {
    events_decoded(markup_items(text))
}

/// Relies on quick_xml::Reader::from_str and Reader::trim_text: a reader
/// over `text` that drops the white space around character data.
#[verifier::external_body]
fn reader_for<'a>(text: &'a str) -> (r: Reader<&'a [u8]>)
    ensures
        reader_items(r) == markup_items(text@),
{
    let mut reader = Reader::from_str(text);
    reader.trim_text(true);
    reader
}

/// Relies on quick_xml::Reader::read_event: the next event, `End` at the
/// end of the document, or the error that stopped the reader.
#[verifier::external_body]
fn read_raw<'a>(reader: &mut Reader<&'a [u8]>) -> (r: Result<RawEvent<'a>, XmlError>)
    ensures
        match r {
            Ok(RawEvent::End) => reader_items(*old(reader)).len() == 0,
            Ok(raw) => reader_items(*old(reader)).len() > 0 && reader_items(*old(reader))[0] == Some(
                raw_view(raw),
            ) && reader_items(*final(reader)) == reader_items(*old(reader)).drop_first(),
            Err(_) => reader_items(*old(reader)).len() > 0 && reader_items(*old(reader))[0] is None,
        },
{
    let lossy = |b: &[u8]| String::from_utf8_lossy(b).into_owned();
    Ok(
        match reader.read_event()? {
            Event::Start(e) => RawEvent::Open(e),
            Event::Empty(e) => RawEvent::Leaf(e),
            Event::End(_) => RawEvent::Close,
            Event::Text(t) => RawEvent::Text(t),
            Event::CData(t) => RawEvent::CData(lossy(&t)),
            Event::Comment(t) => RawEvent::Comment(lossy(&t)),
            Event::Decl(t) => RawEvent::Declaration(lossy(&t)),
            Event::PI(t) => RawEvent::Instruction(lossy(&t)),
            Event::DocType(t) => RawEvent::DocType(lossy(&t)),
            Event::Eof => RawEvent::End,
        },
    )
}

/// Relies on quick_xml::events::BytesStart::name: the element's name.
#[verifier::external_body]
fn element_name(e: &BytesStart) -> (r: String)
    ensures
        r@ == start_name(*e),
{
    String::from_utf8_lossy(e.name().as_ref()).into_owned()
}

/// Relies on quick_xml::events::BytesStart::attributes: the element's
/// attributes, in order, checked for duplicates.
#[verifier::external_body]
fn attributes_of<'b>(e: &'b BytesStart) -> (r: Attributes<'b>)
    ensures
        attribute_items(r) == start_attributes(*e),
{
    e.attributes()
}

/// Relies on quick-xml's `Iterator` impl for Attributes and on quick-xml's
/// Attribute::unescape_value: the next attribute with its value unescaped.
#[verifier::external_body]
fn next_attribute(it: &mut Attributes) -> (r: Option<Result<XmlAttribute, XmlError>>)
    ensures
        match r {
            None => attribute_items(*old(it)).len() == 0,
            Some(Ok(a)) => attribute_items(*old(it)).len() > 0 && attribute_items(*old(it))[0] == Some(
                a@,
            ) && attribute_items(*final(it)) == attribute_items(*old(it)).drop_first(),
            Some(Err(_)) => attribute_items(*old(it)).len() > 0 && attribute_items(*old(it))[0] is None,
        },
{
    match it.next() {
        None => None,
        Some(Err(e)) => Some(Err(XmlError::InvalidAttr(e))),
        Some(Ok(a)) => match a.unescape_value() {
            Ok(v) => Some(
                Ok(XmlAttribute { name: String::from_utf8_lossy(a.key.as_ref()).into_owned(), value: v.into_owned() }),
            ),
            Err(e) => Some(Err(e)),
        },
    }
}

/// Relies on quick_xml::events::BytesText::unescape: the character data with
/// its entity and character references replaced.
#[verifier::external_body]
fn text_of(t: &BytesText) -> (r: Result<String, XmlError>)
    ensures
        match r {
            Ok(s) => text_content(*t) == Some(s@),
            Err(_) => text_content(*t) is None,
        },
{
    match t.unescape() {
        Ok(c) => Ok(c.into_owned()),
        Err(e) => Err(e),
    }
}

/// Relies on quick-xml's `Display` impl for its Error: a description of
/// what stopped the reader.
#[verifier::external_body]
fn describe(e: &XmlError) -> String {
    e.to_string()
}

/// The error for a document that quick-xml could not read, with quick-xml's
/// description of the fault.
fn markup_error(e: XmlError) -> (r: MalformedReport) {
    let mut detail = "the markup is not well-formed: ".to_owned();
    detail.append(describe(&e).as_str());
    MalformedReport { detail }
}

/// The attributes of the element that `e` starts.
fn read_attributes(e: &BytesStart) -> (r: Result<Vec<XmlAttribute>, MalformedReport>)
    ensures
        match r {
            Ok(v) => attributes_decoded(start_attributes(*e)) == Some(attributes_view(v)),
            Err(_) => attributes_decoded(start_attributes(*e)) == None::<Seq<(Seq<char>, Seq<char>)>>,
        },
{
    let mut it = attributes_of(e);
    let mut attrs: Vec<XmlAttribute> = Vec::new();
    loop
        invariant
            attributes_decoded(start_attributes(*e)) == match attributes_decoded(attribute_items(it)) {
                Some(rest) => Some(attributes_view(attrs) + rest),
                None => None,
            },
        decreases attribute_items(it).len(),
    {
        let ghost items = attribute_items(it);
        match next_attribute(&mut it) {
            None => {
                assert(attributes_view(attrs) + Seq::empty() =~= attributes_view(attrs));
                return Ok(attrs);
            },
            Some(Err(err)) => {
                return Err(markup_error(err));
            },
            Some(Ok(a)) => {
                let ghost before = attributes_view(attrs);
                attrs.push(a);
                assert(attributes_view(attrs) =~= before.push(a@));
                proof {
                    if let Some(rest) = attributes_decoded(attribute_items(it)) {
                        assert(before + (seq![a@] + rest) =~= attributes_view(attrs) + rest);
                    }
                }
            },
        }
    }
}

/// Splits `text` into its markup events, decoded.
fn read_events(text: &str) -> (r: Result<Vec<XmlEvent>, MalformedReport>)
    ensures
        match r {
            Ok(v) => document_markup(text@) == Some(events_view(v@)),
            Err(_) => document_markup(text@) == None::<Seq<EventView>>,
        },
{
    let mut reader = reader_for(text);
    let mut events: Vec<XmlEvent> = Vec::new();
    loop
        invariant
            document_markup(text@) == match events_decoded(reader_items(reader)) {
                Some(rest) => Some(events_view(events@) + rest),
                None => None,
            },
        decreases reader_items(reader).len(),
    {
        let raw = match read_raw(&mut reader) {
            Ok(raw) => raw,
            Err(err) => {
                return Err(markup_error(err));
            },
        };
        let ghost rv = raw_view(raw);
        let event = match raw {
            RawEvent::Open(e) => XmlEvent::Open { name: element_name(&e), attributes: read_attributes(&e)? },
            RawEvent::Leaf(e) => XmlEvent::Leaf { name: element_name(&e), attributes: read_attributes(&e)? },
            RawEvent::Close => XmlEvent::Close,
            RawEvent::Text(t) => match text_of(&t) {
                Ok(text) => XmlEvent::Text { text },
                Err(err) => {
                    return Err(markup_error(err));
                },
            },
            RawEvent::CData(text) => XmlEvent::CData { text },
            RawEvent::Comment(text) => XmlEvent::Comment { text },
            RawEvent::Declaration(text) => XmlEvent::Declaration { text },
            RawEvent::Instruction(text) => XmlEvent::Instruction { text },
            RawEvent::DocType(text) => XmlEvent::DocType { text },
            RawEvent::End => {
                assert(events_view(events@) + Seq::empty() =~= events_view(events@));
                return Ok(events);
            },
        };
        assert(event_decoded(rv) == Some(event@));
        let ghost before = events_view(events@);
        events.push(event);
        assert(events_view(events@) =~= before.push(event@));
        proof {
            if let Some(rest) = events_decoded(reader_items(reader)) {
                assert(before + (seq![event@] + rest) =~= events_view(events@) + rest);
            }
        }
    }
}

impl Results {
    /// Reads a report from the text of its document: `Ok` with the findings
    /// of its markup exactly where the text is well-formed markup and that
    /// markup is a report.
    pub fn parse(text: &str) -> (r: Result<Results, MalformedReport>)
        ensures
            match document_markup(text@) {
                None => r is Err,
                Some(events) => match r {
                    Ok(res) => report_of(events) == Some(res@),
                    Err(_) => report_of(events) == None::<Seq<crate::report::ErrorView>>,
                },
            },
    {
        let events = read_events(text)?;
        results_from_events(&events)
    }
}

} // verus!
