//! The findings of one Cppcheck XML report, and how they are read from the
//! document's sequence of markup events.
use vstd::prelude::*;

use crate::text::{coordinate_of, parse_coordinate, same_text};

verus! {

broadcast use vstd::string::group_string_axioms;

/// One source position of a finding. A line or column of 0 means unknown.
#[derive(Debug)]
pub struct Location {
    pub file: String,
    pub line: u32,
    pub column: u32,
}

/// One finding of the report (an `error` element).
#[derive(Debug)]
pub struct Error {
    /// The rule identifier (`id`).
    pub id: String,
    pub severity: String,
    /// The short message (`msg`).
    pub msg: String,
    /// The long message (`verbose`).
    pub verbose: String,
    /// The source file whose analysis gave the finding (`file0`).
    pub file0: Option<String>,
    /// The weakness classification (`cwe`).
    pub cwe: Option<String>,
    /// The `location` children, in document order; `None` where there are none.
    pub location: Option<Vec<Location>>,
    /// The text of the `symbol` child.
    pub symbol: Option<String>,
}

/// The container of the findings (the `errors` element).
#[derive(Debug)]
pub struct Errors {
    pub error: Vec<Error>,
}

/// One report: the root element of the document.
#[derive(Debug)]
pub struct Results {
    pub errors: Errors,
}

/// Why a document was not accepted as a report.
#[derive(Debug)]
pub struct MalformedReport {
    pub detail: String,
}

/// An attribute of an element, with its value unescaped.
#[derive(Debug)]
pub struct XmlAttribute {
    pub name: String,
    pub value: String,
}

/// One event of a document's markup, as the report reader needs them.
#[derive(Debug)]
pub enum XmlEvent {
    /// A start tag, `<name ...>`.
    Open { name: String, attributes: Vec<XmlAttribute> },
    /// An empty element, `<name .../>`.
    Leaf { name: String, attributes: Vec<XmlAttribute> },
    /// An end tag.
    Close,
    /// Character data, unescaped and trimmed.
    Text { text: String },
    /// A CDATA section, `<![CDATA[text]]>`: character data taken as it stands.
    CData { text: String },
    /// A comment, `<!--text-->`.
    Comment { text: String },
    /// The XML declaration, `<?xml text?>`.
    Declaration { text: String },
    /// A processing instruction, `<?text?>`.
    Instruction { text: String },
    /// A document type declaration, `<!DOCTYPE text>`.
    DocType { text: String },
}

/// A location as a value: what `Location` holds.
pub struct LocationView {
    pub file: Seq<char>,
    pub line: u32,
    pub column: u32,
}

/// A finding as a value: what `Error` holds.
pub struct ErrorView {
    pub id: Seq<char>,
    pub severity: Seq<char>,
    pub msg: Seq<char>,
    pub verbose: Seq<char>,
    pub file0: Option<Seq<char>>,
    pub cwe: Option<Seq<char>>,
    pub location: Option<Seq<LocationView>>,
    pub symbol: Option<Seq<char>>,
}

/// An event as a value: names and texts as characters, attributes as
/// (name, value) pairs in document order.
pub enum EventView {
    Open(Seq<char>, Seq<(Seq<char>, Seq<char>)>),
    Leaf(Seq<char>, Seq<(Seq<char>, Seq<char>)>),
    Close,
    Text(Seq<char>),
    CData(Seq<char>),
    Comment(Seq<char>),
    Declaration(Seq<char>),
    Instruction(Seq<char>),
    DocType(Seq<char>),
}

/// The characters of an optional string.
pub open spec fn text_view(o: Option<String>) -> Option<Seq<char>> {
    match o {
        Some(s) => Some(s@),
        None => None,
    }
}

impl View for Location {
    type V = LocationView;

    open spec fn view(&self) -> LocationView {
        LocationView { file: self.file@, line: self.line, column: self.column }
    }
}

impl View for Error {
    type V = ErrorView;

    open spec fn view(&self) -> ErrorView {
        ErrorView {
            id: self.id@,
            severity: self.severity@,
            msg: self.msg@,
            verbose: self.verbose@,
            file0: text_view(self.file0),
            cwe: text_view(self.cwe),
            location: match self.location {
                Some(v) => Some(v@.map_values(|l: Location| l@)),
                None => None,
            },
            symbol: text_view(self.symbol),
        }
    }
}

impl View for Errors {
    type V = Seq<ErrorView>;

    open spec fn view(&self) -> Seq<ErrorView> {
        self.error@.map_values(|e: Error| e@)
    }
}

impl View for Results {
    type V = Seq<ErrorView>;

    open spec fn view(&self) -> Seq<ErrorView> {
        self.errors@
    }
}

impl View for XmlAttribute {
    type V = (Seq<char>, Seq<char>);

    open spec fn view(&self) -> (Seq<char>, Seq<char>) {
        (self.name@, self.value@)
    }
}

/// The attributes as (name, value) pairs, in order.
pub open spec fn attributes_view(a: Vec<XmlAttribute>) -> Seq<(Seq<char>, Seq<char>)> {
    a@.map_values(|x: XmlAttribute| x@)
}

impl View for XmlEvent {
    type V = EventView;

    open spec fn view(&self) -> EventView {
        match self {
            XmlEvent::Open { name, attributes } => EventView::Open(name@, attributes_view(*attributes)),
            XmlEvent::Leaf { name, attributes } => EventView::Leaf(name@, attributes_view(*attributes)),
            XmlEvent::Close => EventView::Close,
            XmlEvent::Text { text } => EventView::Text(text@),
            XmlEvent::CData { text } => EventView::CData(text@),
            XmlEvent::Comment { text } => EventView::Comment(text@),
            XmlEvent::Declaration { text } => EventView::Declaration(text@),
            XmlEvent::Instruction { text } => EventView::Instruction(text@),
            XmlEvent::DocType { text } => EventView::DocType(text@),
        }
    }
}

/// The events as values, in order.
pub open spec fn events_view(events: Seq<XmlEvent>) -> Seq<EventView> {
    events.map_values(|e: XmlEvent| e@)
}

/// The value of the first attribute called `name`.
pub open spec fn attribute(attrs: Seq<(Seq<char>, Seq<char>)>, name: Seq<char>) -> Option<Seq<char>>
    decreases attrs.len(),
{
    if attrs.len() == 0 {
        None
    } else if attrs[0].0 == name {
        Some(attrs[0].1)
    } else {
        attribute(attrs.drop_first(), name)
    }
}

/// The finding that an `error` element with these attributes starts; `None`
/// where `id`, `severity`, `msg` or `verbose` is missing.
pub open spec fn finding_of(attrs: Seq<(Seq<char>, Seq<char>)>) -> Option<ErrorView> {
    let id = attribute(attrs, "id"@);
    let severity = attribute(attrs, "severity"@);
    let msg = attribute(attrs, "msg"@);
    let verbose = attribute(attrs, "verbose"@);
    if id is Some && severity is Some && msg is Some && verbose is Some {
        Some(
            ErrorView {
                id: id->0,
                severity: severity->0,
                msg: msg->0,
                verbose: verbose->0,
                file0: attribute(attrs, "file0"@),
                cwe: attribute(attrs, "cwe"@),
                location: None,
                symbol: None,
            },
        )
    } else {
        None
    }
}

/// The location that a `location` element with these attributes gives;
/// `None` where `file`, `line` or `column` is missing, or a coordinate is not
/// a decimal number that fits in 32 bits.
pub open spec fn location_of(attrs: Seq<(Seq<char>, Seq<char>)>) -> Option<LocationView> {
    let file = attribute(attrs, "file"@);
    let line = attribute(attrs, "line"@);
    let column = attribute(attrs, "column"@);
    if file is Some && line is Some && column is Some && coordinate_of(line->0) is Some
        && coordinate_of(column->0) is Some {
        Some(
            LocationView {
                file: file->0,
                line: coordinate_of(line->0)->0,
                column: coordinate_of(column->0)->0,
            },
        )
    } else {
        None
    }
}

/// `f` with one more location at the end.
pub open spec fn with_location(f: ErrorView, l: LocationView) -> ErrorView {
    ErrorView {
        location: match f.location {
            Some(ls) => Some(ls.push(l)),
            None => Some(seq![l]),
        },
        ..f
    }
}

/// Where the reading of a document stands.
///
/// `depth` counts the elements open: 1 inside the root, 2 inside one of its
/// children (the finding container among them), 3 inside a finding, 4 inside
/// a child of a finding.
pub struct ReadState {
    pub depth: nat,
    pub rooted: bool,
    pub in_errors: bool,
    pub in_symbol: bool,
    pub current: Option<ErrorView>,
    pub findings: Seq<ErrorView>,
}

/// Where reading starts: nothing open, nothing found.
pub open spec fn initial_state() -> ReadState {
    ReadState {
        depth: 0,
        rooted: false,
        in_errors: false,
        in_symbol: false,
        current: None,
        findings: Seq::empty(),
    }
}

/// What opening an element does, before the depth grows.
pub open spec fn enter(s: ReadState, name: Seq<char>, attrs: Seq<(Seq<char>, Seq<char>)>) -> Option<ReadState> {
    if s.depth == 1 && name == "errors"@ {
        Some(ReadState { in_errors: true, ..s })
    } else if s.depth == 2 && s.in_errors && name == "error"@ {
        match finding_of(attrs) {
            Some(f) => Some(ReadState { current: Some(f), ..s }),
            None => None,
        }
    } else if s.depth == 3 && s.current is Some && name == "location"@ {
        match location_of(attrs) {
            Some(l) => Some(ReadState { current: Some(with_location(s.current->0, l)), ..s }),
            None => None,
        }
    } else if s.depth == 3 && s.current is Some && name == "symbol"@ {
        Some(ReadState { in_symbol: true, ..s })
    } else {
        Some(s)
    }
}

/// What a start tag does: `enter`, then one more element is open.
pub open spec fn open_element(s: ReadState, name: Seq<char>, attrs: Seq<(Seq<char>, Seq<char>)>) -> Option<ReadState> {
    match enter(s, name, attrs) {
        Some(t) => Some(ReadState { depth: t.depth + 1, rooted: true, ..t }),
        None => None,
    }
}

/// What an end tag does; `None` where no element is open.
pub open spec fn close_element(s: ReadState) -> Option<ReadState> {
    if s.depth == 0 {
        None
    } else {
        let t = if s.depth == 2 {
            ReadState { in_errors: false, ..s }
        } else if s.depth == 3 && s.current is Some {
            ReadState { findings: s.findings.push(s.current->0), current: None, ..s }
        } else if s.depth == 4 {
            ReadState { in_symbol: false, ..s }
        } else {
            s
        };
        Some(ReadState { depth: (t.depth - 1) as nat, ..t })
    }
}

/// What character data does: inside a finding's `symbol` child it becomes
/// the finding's symbol; elsewhere it is passed over.
pub open spec fn character_data(s: ReadState, t: Seq<char>) -> ReadState {
    if s.depth == 4 && s.in_symbol && s.current is Some {
        ReadState { current: Some(ErrorView { symbol: Some(t), ..s.current->0 }), ..s }
    } else {
        s
    }
}

/// What one event does to the reading; `None` where it makes the document
/// malformed. Text and CDATA sections are both character data; comments,
/// declarations and processing instructions change nothing.
pub open spec fn step(s: ReadState, e: EventView) -> Option<ReadState> {
    match e {
        EventView::Open(name, attrs) => open_element(s, name, attrs),
        EventView::Leaf(name, attrs) => match open_element(s, name, attrs) {
            Some(t) => close_element(t),
            None => None,
        },
        EventView::Close => close_element(s),
        EventView::Text(t) => Some(character_data(s, t)),
        EventView::CData(t) => Some(character_data(s, t)),
        EventView::Comment(_) => Some(s),
        EventView::Declaration(_) => Some(s),
        EventView::Instruction(_) => Some(s),
        EventView::DocType(_) => Some(s),
    }
}

/// The state after the events, from `s`; `None` once one was refused.
pub open spec fn run_from(s: ReadState, events: Seq<EventView>) -> Option<ReadState>
    decreases events.len(),
{
    if events.len() == 0 {
        Some(s)
    } else {
        match step(s, events[0]) {
            Some(t) => run_from(t, events.drop_first()),
            None => None,
        }
    }
}

/// The findings of a document given as its events, in document order; `None`
/// where the document is malformed: an event was refused, an element is left
/// open, or there is no root element.
pub open spec fn report_of(events: Seq<EventView>) -> Option<Seq<ErrorView>> {
    match run_from(initial_state(), events) {
        Some(s) => if s.depth == 0 && s.rooted {
            Some(s.findings)
        } else {
            None
        },
        None => None,
    }
}

/// The reading of a document in progress.
struct Reading {
    depth: usize,
    rooted: bool,
    in_errors: bool,
    in_symbol: bool,
    current: Option<Error>,
    findings: Vec<Error>,
}

impl View for Reading {
    type V = ReadState;

    closed spec fn view(&self) -> ReadState {
        ReadState {
            depth: self.depth as nat,
            rooted: self.rooted,
            in_errors: self.in_errors,
            in_symbol: self.in_symbol,
            current: match self.current {
                Some(e) => Some(e@),
                None => None,
            },
            findings: self.findings@.map_values(|e: Error| e@),
        }
    }
}

/// The error for a document that is not a report.
fn malformed(detail: &str) -> (r: MalformedReport) {
    MalformedReport { detail: detail.to_owned() }
}

/// The value of the first attribute called `name`.
fn attribute_value(attrs: &Vec<XmlAttribute>, name: &str) -> (r: Option<String>)
    ensures
        text_view(r) == attribute(attributes_view(*attrs), name@),
{
    let ghost all = attributes_view(*attrs);
    let mut i: usize = 0;
    assert(all.subrange(0, all.len() as int) =~= all);
    while i < attrs.len()
        invariant
            all == attributes_view(*attrs),
            i <= attrs@.len(),
            attribute(all, name@) == attribute(all.subrange(i as int, all.len() as int), name@),
        decreases attrs@.len() - i,
    {
        assert(all.subrange(i as int, all.len() as int).drop_first() =~= all.subrange(i + 1, all.len() as int));
        if same_text(attrs[i].name.as_str(), name) {
            return Some(attrs[i].value.clone());
        }
        i = i + 1;
    }
    None
}

/// The finding that an `error` element with these attributes starts.
fn finding_from(attrs: &Vec<XmlAttribute>) -> (r: Option<Error>)
    ensures
        match r {
            Some(e) => finding_of(attributes_view(*attrs)) == Some(e@),
            None => finding_of(attributes_view(*attrs)) == None::<ErrorView>,
        },
{
    let id = attribute_value(attrs, "id");
    let severity = attribute_value(attrs, "severity");
    let msg = attribute_value(attrs, "msg");
    let verbose = attribute_value(attrs, "verbose");
    match (id, severity, msg, verbose) {
        (Some(id), Some(severity), Some(msg), Some(verbose)) => Some(
            Error {
                id,
                severity,
                msg,
                verbose,
                file0: attribute_value(attrs, "file0"),
                cwe: attribute_value(attrs, "cwe"),
                location: None,
                symbol: None,
            },
        ),
        _ => None,
    }
}

/// The location that a `location` element with these attributes gives.
fn location_from(attrs: &Vec<XmlAttribute>) -> (r: Option<Location>)
    ensures
        match r {
            Some(l) => location_of(attributes_view(*attrs)) == Some(l@),
            None => location_of(attributes_view(*attrs)) == None::<LocationView>,
        },
{
    let file = attribute_value(attrs, "file");
    let line = attribute_value(attrs, "line");
    let column = attribute_value(attrs, "column");
    match (file, line, column) {
        (Some(file), Some(line), Some(column)) => {
            match (parse_coordinate(line.as_str()), parse_coordinate(column.as_str())) {
                (Some(line), Some(column)) => Some(Location { file, line, column }),
                _ => None,
            }
        },
        _ => None,
    }
}

/// Applies a start tag to the reading.
fn open_element_in(s: Reading, name: &String, attrs: &Vec<XmlAttribute>) -> (r: Result<Reading, MalformedReport>)
    requires
        s.depth < usize::MAX,
    ensures
        match r {
            Ok(t) => open_element(s@, name@, attributes_view(*attrs)) == Some(t@),
            Err(_) => open_element(s@, name@, attributes_view(*attrs)) == None::<ReadState>,
        },
{
    let ghost s0 = s@;
    let mut s = s;
    if s.depth == 1 && same_text(name.as_str(), "errors") {
        s.in_errors = true;
    } else if s.depth == 2 && s.in_errors && same_text(name.as_str(), "error") {
        match finding_from(attrs) {
            Some(f) => {
                s.current = Some(f);
            },
            None => {
                return Err(malformed("a finding lacks id, severity, msg or verbose"));
            },
        }
    } else if s.depth == 3 && s.current.is_some() && same_text(name.as_str(), "location") {
        match location_from(attrs) {
            Some(l) => {
                let cur = s.current.take();
                if let Some(mut f) = cur {
                    let ghost f0 = f@;
                    let locs = match f.location.take() {
                        Some(mut v) => {
                            v.push(l);
                            v
                        },
                        None => {
                            let mut v: Vec<Location> = Vec::new();
                            v.push(l);
                            v
                        },
                    };
                    f.location = Some(locs);
                    assert(f@.location =~= with_location(f0, l@).location);
                    s.current = Some(f);
                }
            },
            None => {
                return Err(malformed("a location lacks file, line or column, or a coordinate is not a number"));
            },
        }
    } else if s.depth == 3 && s.current.is_some() && same_text(name.as_str(), "symbol") {
        s.in_symbol = true;
    }
    s.depth = s.depth + 1;
    s.rooted = true;
    Ok(s)
}

/// Applies an end tag to the reading.
fn close_element_in(s: Reading) -> (r: Result<Reading, MalformedReport>)
    ensures
        match r {
            Ok(t) => close_element(s@) == Some(t@),
            Err(_) => close_element(s@) == None::<ReadState>,
        },
{
    let mut s = s;
    if s.depth == 0 {
        return Err(malformed("an end tag closes no element"));
    }
    if s.depth == 2 {
        s.in_errors = false;
    } else if s.depth == 3 && s.current.is_some() {
        let ghost before = s@.findings;
        let cur = s.current.take();
        if let Some(f) = cur {
            s.findings.push(f);
            assert(s@.findings =~= before.push(f@));
        }
    } else if s.depth == 4 {
        s.in_symbol = false;
    }
    s.depth = s.depth - 1;
    Ok(s)
}

/// Applies one event to the reading.
fn apply(s: Reading, e: &XmlEvent) -> (r: Result<Reading, MalformedReport>)
    requires
        s.depth < usize::MAX,
    ensures
        match r {
            Ok(t) => step(s@, e@) == Some(t@) && t.depth <= s.depth + 1,
            Err(_) => step(s@, e@) == None::<ReadState>,
        },
{
    match e {
        XmlEvent::Open { name, attributes } => open_element_in(s, name, attributes),
        XmlEvent::Leaf { name, attributes } => {
            let t = open_element_in(s, name, attributes)?;
            close_element_in(t)
        },
        XmlEvent::Close => close_element_in(s),
        XmlEvent::Text { text } => Ok(take_character_data(s, text)),
        XmlEvent::CData { text } => Ok(take_character_data(s, text)),
        XmlEvent::Comment { .. } => Ok(s),
        XmlEvent::Declaration { .. } => Ok(s),
        XmlEvent::Instruction { .. } => Ok(s),
        XmlEvent::DocType { .. } => Ok(s),
    }
}

/// Applies character data to the reading.
fn take_character_data(s: Reading, text: &String) -> (r: Reading)
    ensures
        r@ == character_data(s@, text@),
        r.depth == s.depth,
{
    let mut s = s;
    if s.depth == 4 && s.in_symbol && s.current.is_some() {
        let cur = s.current.take();
        if let Some(mut f) = cur {
            f.symbol = Some(text.clone());
            s.current = Some(f);
        }
    }
    s
}

/// Reads the findings out of a document given as its sequence of events.
///
/// Succeeds exactly where the document is a report: every element closed, a
/// root element present, every finding with `id`, `severity`, `msg` and
/// `verbose`, every location with `file` and numeric `line` and `column`.
/// The findings, and the locations of each, keep document order. A document
/// without a finding container holds no findings.
pub fn results_from_events(events: &Vec<XmlEvent>) -> (r: Result<Results, MalformedReport>)
    ensures
        match r {
            Ok(res) => report_of(events_view(events@)) == Some(res@),
            Err(_) => report_of(events_view(events@)) == None::<Seq<ErrorView>>,
        },
{
    let ghost all = events_view(events@);
    let mut s = Reading {
        depth: 0,
        rooted: false,
        in_errors: false,
        in_symbol: false,
        current: None,
        findings: Vec::new(),
    };
    assert(s@.findings =~= Seq::<ErrorView>::empty());
    let mut i: usize = 0;
    assert(all.subrange(0, all.len() as int) =~= all);
    while i < events.len()
        invariant
            all == events_view(events@),
            i <= events@.len(),
            s.depth <= i,
            run_from(initial_state(), all) == run_from(s@, all.subrange(i as int, all.len() as int)),
        decreases events@.len() - i,
    {
        assert(all.subrange(i as int, all.len() as int).drop_first() =~= all.subrange(i + 1, all.len() as int));
        s = match apply(s, &events[i]) {
            Ok(t) => t,
            Err(e) => {
                return Err(e);
            },
        };
        i = i + 1;
    }
    if s.depth != 0 || !s.rooted {
        return Err(malformed("the document is incomplete or has no root element"));
    }
    let res = Results { errors: Errors { error: s.findings } };
    Ok(res)
}

} // verus!
