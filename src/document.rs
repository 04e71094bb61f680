//! What reading gives for whole documents: every finding of a well-formed
//! report comes out, in order, and a bad finding or location spoils the
//! whole document.
use vstd::prelude::*;

use crate::report::{
    attribute, close_element, finding_of, initial_state, location_of, open_element, report_of,
    run_from, step, ErrorView, EventView, LocationView, ReadState,
};
use crate::text::coordinate_of;
use crate::xml::document_markup;

verus! {

/// A finding as a document writes it: the attributes of its `error` element,
/// in order those of its `location` children, and the text of its `symbol`
/// child where it has one.
pub struct FindingMarkup {
    pub attributes: Seq<(Seq<char>, Seq<char>)>,
    pub locations: Seq<Seq<(Seq<char>, Seq<char>)>>,
    pub symbol: Option<Seq<char>>,
}

/// The event of an empty `location` element with these attributes.
pub open spec fn location_event(l: Seq<(Seq<char>, Seq<char>)>) -> EventView {
    EventView::Leaf("location"@, l)
}

/// The events of the `location` elements, in order.
pub open spec fn locations_events(ls: Seq<Seq<(Seq<char>, Seq<char>)>>) -> Seq<EventView> {
    ls.map_values(|l: Seq<(Seq<char>, Seq<char>)>| location_event(l))
}

/// The events of a `symbol` element holding `t`, if there is one.
pub open spec fn symbol_events(symbol: Option<Seq<char>>) -> Seq<EventView> {
    match symbol {
        Some(t) => seq![EventView::Open("symbol"@, Seq::empty()), EventView::Text(t), EventView::Close],
        None => Seq::empty(),
    }
}

/// The events of one `error` element.
pub open spec fn finding_events(f: FindingMarkup) -> Seq<EventView> {
    seq![EventView::Open("error"@, f.attributes)] + locations_events(f.locations) + symbol_events(
        f.symbol,
    ) + seq![EventView::Close]
}

/// The events of the `error` elements, one after the other.
pub open spec fn findings_events(fs: Seq<FindingMarkup>) -> Seq<EventView>
    decreases fs.len(),
{
    if fs.len() == 0 {
        Seq::empty()
    } else {
        findings_events(fs.drop_last()) + finding_events(fs.last())
    }
}

/// A report document: a root element holding a finding container that holds
/// the findings.
pub open spec fn document_events(
    root: Seq<char>,
    root_attributes: Seq<(Seq<char>, Seq<char>)>,
    fs: Seq<FindingMarkup>,
) -> Seq<EventView> {
    seq![EventView::Open(root, root_attributes), EventView::Open("errors"@, Seq::empty())]
        + findings_events(fs) + seq![EventView::Close, EventView::Close]
}

/// A finding element with every required attribute, and locations with a
/// file and numeric coordinates.
pub open spec fn markup_is_valid(f: FindingMarkup) -> bool {
    &&& finding_of(f.attributes) is Some
    &&& forall|i: int| 0 <= i < f.locations.len() ==> (#[trigger] location_of(f.locations[i])) is Some
}

/// The locations that the `location` elements give, in order.
pub open spec fn locations_read(ls: Seq<Seq<(Seq<char>, Seq<char>)>>) -> Seq<LocationView> {
    ls.map_values(|l: Seq<(Seq<char>, Seq<char>)>| location_of(l)->0)
}

/// The finding that the markup describes: its attributes' values, its
/// locations where it has any, and its symbol where it has one.
pub open spec fn finding_read(f: FindingMarkup) -> ErrorView {
    ErrorView {
        location: if f.locations.len() == 0 {
            None
        } else {
            Some(locations_read(f.locations))
        },
        symbol: f.symbol,
        ..finding_of(f.attributes)->0
    }
}

/// Reading the events of `a` then `b` is reading `a`, then `b` from where
/// `a` left off.
proof fn lemma_run_concat(s: ReadState, a: Seq<EventView>, b: Seq<EventView>)
    ensures
        run_from(s, a + b) == match run_from(s, a) {
            Some(t) => run_from(t, b),
            None => None,
        },
    decreases a.len(),
{
    if a.len() > 0 {
        assert((a + b).drop_first() =~= a.drop_first() + b);
        assert((a + b)[0] == a[0]);
        if let Some(t) = step(s, a[0]) {
            lemma_run_concat(t, a.drop_first(), b);
        }
    }
}

/// Reading one event is taking one step.
proof fn lemma_run_one(s: ReadState, e: EventView)
    ensures
        run_from(s, seq![e]) == step(s, e),
{
    assert(seq![e].drop_first() =~= Seq::<EventView>::empty());
    assert(seq![e][0] == e);
    if let Some(t) = step(s, e) {
        assert(run_from(t, Seq::<EventView>::empty()) == Some(t));
    }
}

/// Inside a finding, each location element adds its location.
proof fn lemma_locations(s: ReadState, c: ErrorView, ls: Seq<Seq<(Seq<char>, Seq<char>)>>)
    requires
        s.depth == 3,
        s.rooted,
        !s.in_symbol,
        s.current == Some(c),
        c.location is None,
        forall|i: int| 0 <= i < ls.len() ==> (#[trigger] location_of(ls[i])) is Some,
    ensures
        run_from(s, locations_events(ls)) == Some(
            ReadState {
                current: Some(
                    ErrorView {
                        location: if ls.len() == 0 {
                            None
                        } else {
                            Some(locations_read(ls))
                        },
                        ..c
                    },
                ),
                ..s
            },
        ),
    decreases ls.len(),
{
    if ls.len() == 0 {
        assert(locations_events(ls) =~= Seq::<EventView>::empty());
        assert(ErrorView { location: None, ..c } == c);
        assert(ReadState { current: Some(c), ..s } == s);
    } else {
        let init = ls.drop_last();
        assert(locations_events(ls) =~= locations_events(init) + seq![location_event(ls.last())]);
        assert forall|i: int| 0 <= i < init.len() implies (#[trigger] location_of(init[i])) is Some by {
            assert(init[i] == ls[i]);
        }
        lemma_locations(s, c, init);
        lemma_run_concat(s, locations_events(init), seq![location_event(ls.last())]);
        let mid = ReadState {
            current: Some(
                ErrorView {
                    location: if init.len() == 0 {
                        None
                    } else {
                        Some(locations_read(init))
                    },
                    ..c
                },
            ),
            ..s
        };
        lemma_run_one(mid, location_event(ls.last()));
        assert(location_of(ls[ls.len() - 1]) is Some);
        assert(locations_read(ls) =~= locations_read(init).push(location_of(ls.last())->0));
        if init.len() == 0 {
            assert(locations_read(ls) =~= seq![location_of(ls.last())->0]);
        }
    }
}

/// A state inside the finding container, with `found` read so far.
pub open spec fn in_container(s: ReadState, found: Seq<ErrorView>) -> bool {
    &&& s.depth == 2
    &&& s.rooted
    &&& s.in_errors
    &&& !s.in_symbol
    &&& s.current is None
    &&& s.findings == found
}

/// Inside a finding, a `symbol` element sets the finding's symbol.
proof fn lemma_symbol(s: ReadState, c: ErrorView, symbol: Option<Seq<char>>)
    requires
        s.depth == 3,
        s.rooted,
        !s.in_symbol,
        s.current == Some(c),
        c.symbol is None,
    ensures
        run_from(s, symbol_events(symbol)) == Some(
            ReadState { current: Some(ErrorView { symbol: symbol, ..c }), ..s },
        ),
{
    if let Some(t) = symbol {
        reveal_strlit("symbol");
        reveal_strlit("location");
        assert("symbol"@.len() != "location"@.len());
        assert("symbol"@ != "location"@);
        let open = EventView::Open("symbol"@, Seq::empty());
        let s1 = ReadState { depth: 4, in_symbol: true, ..s };
        let s2 = ReadState { current: Some(ErrorView { symbol: symbol, ..c }), ..s1 };
        assert(step(s, open) == Some(s1));
        assert(step(s1, EventView::Text(t)) == Some(s2));
        lemma_run_one(s2, EventView::Close);
        lemma_run_one(s1, EventView::Text(t));
        lemma_run_one(s, open);
        lemma_run_concat(s, seq![open], seq![EventView::Text(t)]);
        lemma_run_concat(s, seq![open, EventView::Text(t)], seq![EventView::Close]);
        assert(seq![open] + seq![EventView::Text(t)] =~= seq![open, EventView::Text(t)]);
        assert(seq![open, EventView::Text(t)] + seq![EventView::Close] =~= symbol_events(symbol));
    } else {
        assert(ErrorView { symbol: None, ..c } == c);
        assert(ReadState { current: Some(c), ..s } == s);
    }
}

/// Inside the container, a valid finding element adds its finding.
proof fn lemma_finding(s: ReadState, found: Seq<ErrorView>, f: FindingMarkup)
    requires
        in_container(s, found),
        markup_is_valid(f),
    ensures
        run_from(s, finding_events(f)) matches Some(t) && in_container(t, found.push(finding_read(f))),
{
    let c = finding_of(f.attributes)->0;
    let open = EventView::Open("error"@, f.attributes);
    let locs = locations_events(f.locations);
    let sym = symbol_events(f.symbol);
    let s1 = ReadState { current: Some(c), depth: 3, ..s };
    assert(step(s, open) == Some(s1));
    lemma_run_one(s, open);
    lemma_locations(s1, c, f.locations);
    let c2 = ErrorView {
        location: if f.locations.len() == 0 {
            None
        } else {
            Some(locations_read(f.locations))
        },
        ..c
    };
    let s2 = ReadState { current: Some(c2), ..s1 };
    lemma_symbol(s2, c2, f.symbol);
    let s3 = ReadState { current: Some(finding_read(f)), ..s1 };
    assert(ErrorView { symbol: f.symbol, ..c2 } == finding_read(f));
    lemma_run_one(s3, EventView::Close);
    lemma_run_concat(s, seq![open], locs);
    lemma_run_concat(s, seq![open] + locs, sym);
    lemma_run_concat(s, seq![open] + locs + sym, seq![EventView::Close]);
    let s4 = close_element(s3)->0;
    assert(in_container(s4, found.push(finding_read(f))));
}

/// Inside the container, valid finding elements add their findings in order.
proof fn lemma_findings(s: ReadState, fs: Seq<FindingMarkup>)
    requires
        in_container(s, Seq::empty()),
        forall|i: int| 0 <= i < fs.len() ==> markup_is_valid(#[trigger] fs[i]),
    ensures
        run_from(s, findings_events(fs)) matches Some(t) && in_container(
            t,
            fs.map_values(|f: FindingMarkup| finding_read(f)),
        ),
    decreases fs.len(),
{
    if fs.len() == 0 {
        assert(fs.map_values(|f: FindingMarkup| finding_read(f)) =~= Seq::<ErrorView>::empty());
    } else {
        let init = fs.drop_last();
        assert forall|i: int| 0 <= i < init.len() implies markup_is_valid(#[trigger] init[i]) by {
            assert(init[i] == fs[i]);
        }
        lemma_findings(s, init);
        let t = run_from(s, findings_events(init))->0;
        lemma_run_concat(s, findings_events(init), finding_events(fs.last()));
        assert(markup_is_valid(fs[fs.len() - 1]));
        lemma_finding(t, init.map_values(|f: FindingMarkup| finding_read(f)), fs.last());
        assert(init.map_values(|f: FindingMarkup| finding_read(f)).push(finding_read(fs.last()))
            =~= fs.map_values(|f: FindingMarkup| finding_read(f)));
    }
}

/// A well-formed report with N findings reads as exactly N findings, in
/// document order, each with the values its attributes give: an optional
/// field is there exactly where its attribute is, the locations are those
/// of the finding's location elements, in order, and the symbol is the text
/// of its symbol element.
pub proof fn reading_keeps_every_finding(
    root: Seq<char>,
    root_attributes: Seq<(Seq<char>, Seq<char>)>,
    fs: Seq<FindingMarkup>,
)
    requires
        forall|i: int| 0 <= i < fs.len() ==> markup_is_valid(#[trigger] fs[i]),
    ensures
        report_of(document_events(root, root_attributes, fs)) == Some(
            fs.map_values(|f: FindingMarkup| finding_read(f)),
        ),
{
    let head = seq![EventView::Open(root, root_attributes), EventView::Open("errors"@, Seq::empty())];
    let tail = seq![EventView::Close, EventView::Close];
    let s0 = initial_state();
    let s1 = open_element(s0, root, root_attributes)->0;
    let s2 = open_element(s1, "errors"@, Seq::empty())->0;
    assert(head.drop_first() =~= seq![EventView::Open("errors"@, Seq::<(Seq<char>, Seq<char>)>::empty())]);
    lemma_run_one(s1, EventView::Open("errors"@, Seq::empty()));
    assert(run_from(s0, head) == Some(s2));
    assert(s2.findings =~= Seq::<ErrorView>::empty());
    assert(in_container(s2, Seq::empty()));
    lemma_findings(s2, fs);
    let s3 = run_from(s2, findings_events(fs))->0;
    lemma_run_concat(s0, head, findings_events(fs));
    lemma_run_concat(s0, head + findings_events(fs), tail);
    let s4 = close_element(s3)->0;
    assert(tail.drop_first() =~= seq![EventView::Close]);
    lemma_run_one(s4, EventView::Close);
    assert(document_events(root, root_attributes, fs) == head + findings_events(fs) + tail);
}

/// A text whose markup is a report with N valid findings parses, by
/// `Results::parse`, to exactly those N findings in document order.
pub proof fn parsing_keeps_every_finding(
    text: Seq<char>,
    root: Seq<char>,
    root_attributes: Seq<(Seq<char>, Seq<char>)>,
    fs: Seq<FindingMarkup>,
)
    requires
        document_markup(text) == Some(document_events(root, root_attributes, fs)),
        forall|i: int| 0 <= i < fs.len() ==> markup_is_valid(#[trigger] fs[i]),
    ensures
        report_of(document_markup(text)->0) == Some(fs.map_values(|f: FindingMarkup| finding_read(f))),
{
    reading_keeps_every_finding(root, root_attributes, fs);
}

/// A report whose finding container is empty, or which has none, reads as no
/// findings, not as an error.
pub proof fn empty_report_has_no_findings(root: Seq<char>, root_attributes: Seq<(Seq<char>, Seq<char>)>)
    ensures
        report_of(document_events(root, root_attributes, Seq::empty())) == Some(Seq::<ErrorView>::empty()),
        report_of(seq![EventView::Open(root, root_attributes), EventView::Close]) == Some(
            Seq::<ErrorView>::empty(),
        ),
{
    reading_keeps_every_finding(root, root_attributes, Seq::empty());
    assert(Seq::<FindingMarkup>::empty().map_values(|f: FindingMarkup| finding_read(f))
        =~= Seq::<ErrorView>::empty());
    let s1 = open_element(initial_state(), root, root_attributes)->0;
    lemma_run_one(s1, EventView::Close);
    assert(seq![EventView::Open(root, root_attributes), EventView::Close].drop_first() =~= seq![
        EventView::Close,
    ]);
    assert(s1.findings =~= Seq::<ErrorView>::empty());
}

/// The event of an element named `name`, as a start tag or as an empty
/// element.
pub open spec fn element_event(name: Seq<char>, attrs: Seq<(Seq<char>, Seq<char>)>, leaf: bool) -> EventView {
    if leaf {
        EventView::Leaf(name, attrs)
    } else {
        EventView::Open(name, attrs)
    }
}

/// An event that is refused spoils the whole document.
proof fn lemma_refused_event(before: Seq<EventView>, e: EventView, after: Seq<EventView>)
    requires
        run_from(initial_state(), before) matches Some(s) && step(s, e) is None,
    ensures
        report_of(before + seq![e] + after) is None,
{
    let s = run_from(initial_state(), before)->0;
    lemma_run_concat(initial_state(), before, seq![e] + after);
    assert(before + seq![e] + after =~= before + (seq![e] + after));
    assert((seq![e] + after)[0] == e);
}

/// A finding element in the container that lacks `id`, `severity` or `msg`
/// makes the whole document malformed, whatever follows it.
pub proof fn finding_without_required_attribute_is_refused(
    before: Seq<EventView>,
    attrs: Seq<(Seq<char>, Seq<char>)>,
    leaf: bool,
    after: Seq<EventView>,
)
    requires
        run_from(initial_state(), before) matches Some(s) && s.depth == 2 && s.in_errors,
        attribute(attrs, "id"@) is None || attribute(attrs, "severity"@) is None || attribute(
            attrs,
            "msg"@,
        ) is None,
    ensures
        report_of(before + seq![element_event("error"@, attrs, leaf)] + after) is None,
{
    lemma_refused_event(before, element_event("error"@, attrs, leaf), after);
}

/// A location element of a finding whose `line` or `column` is not a number
/// makes the whole document malformed, whatever follows it.
pub proof fn non_numeric_coordinate_is_refused(
    before: Seq<EventView>,
    attrs: Seq<(Seq<char>, Seq<char>)>,
    leaf: bool,
    after: Seq<EventView>,
)
    requires
        run_from(initial_state(), before) matches Some(s) && s.depth == 3 && s.current is Some,
        (attribute(attrs, "line"@) matches Some(v) && coordinate_of(v) is None) || (attribute(
            attrs,
            "column"@,
        ) matches Some(v) && coordinate_of(v) is None),
    ensures
        report_of(before + seq![element_event("location"@, attrs, leaf)] + after) is None,
{
    lemma_refused_event(before, element_event("location"@, attrs, leaf), after);
}

} // verus!
