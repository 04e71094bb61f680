use cppcheck_report::report::{results_from_events, Results, XmlAttribute, XmlEvent};

const SAMPLE: &str = r##"
    <?xml version="1.0" encoding="UTF-8"?>
    <results version="2">
        <cppcheck version="2.10.3"/>
        <errors>
            <error id="missingReturn" severity="error" msg="Found an exit path from function with non-void return type that has missing return statement" verbose="Found an exit path from function with non-void return type that has missing return statement" cwe="758" file0="test/checks/a1002.c">
                <location file="test/checks/a1002.c" line="4" column="5"/>
            </error>
            <error id="misra-c2012-2.3" severity="style" msg="misra violation (use --rule-texts=&lt;file&gt; to get proper output)" verbose="misra violation (use --rule-texts=&lt;file&gt; to get proper output)">
                <location file="test/checks/use-using.cpp" line="196" column="45"/>
            </error>
            <error id="misra-c2012-2.3" severity="style" msg="misra violation (use --rule-texts=&lt;file&gt; to get proper output)" verbose="misra violation (use --rule-texts=&lt;file&gt; to get proper output)">
                <location file="test/checks/use-using.cpp" line="198" column="90"/>
            </error>
            <error id="misra-c2012-2.3" severity="style" msg="misra violation (use --rule-texts=&lt;file&gt; to get proper output)" verbose="misra violation (use --rule-texts=&lt;file&gt; to get proper output)">
                <location file="test/checks/use-using.cpp" line="200" column="111"/>
            </error>
            <error id="misra-c2012-2.5" severity="style" msg="misra violation (use --rule-texts=&lt;file&gt; to get proper output)" verbose="misra violation (use --rule-texts=&lt;file&gt; to get proper output)">
                <location file="test/checks/test_line_len_limit.c" line="1" column="0"/>
            </error>
            <error id="misra-c2012-5.8" severity="style" msg="misra violation (use --rule-texts=&lt;file&gt; to get proper output)" verbose="misra violation (use --rule-texts=&lt;file&gt; to get proper output)">
                <location file="test/checks/flp30-c.c" line="9" column="9"/>
            </error>
            <error id="misra-c2012-5.8" severity="style" msg="misra violation (use --rule-texts=&lt;file&gt; to get proper output)" verbose="misra violation (use --rule-texts=&lt;file&gt; to get proper output)">
                <location file="test/checks/msc32-c.c" line="26" column="7"/>
            </error>
        </errors>
    </results>
    "##;

fn wrap(findings: &str) -> String {
    format!(
        "<?xml version=\"1.0\"?>\n<results version=\"2\">\n<errors>\n{}\n</errors>\n</results>\n",
        findings
    )
}

#[test]
fn t_xml() {
    let _value: Results = Results::parse(SAMPLE).unwrap();
}

#[test]
fn sample_keeps_every_finding_in_order() {
    let r = Results::parse(SAMPLE).unwrap();
    let e = &r.errors.error;
    assert_eq!(e.len(), 7);
    let ids: Vec<&str> = e.iter().map(|f| f.id.as_str()).collect();
    assert_eq!(
        ids,
        vec![
            "missingReturn",
            "misra-c2012-2.3",
            "misra-c2012-2.3",
            "misra-c2012-2.3",
            "misra-c2012-2.5",
            "misra-c2012-5.8",
            "misra-c2012-5.8"
        ]
    );
    assert_eq!(e[0].cwe.as_deref(), Some("758"));
    assert_eq!(e[0].file0.as_deref(), Some("test/checks/a1002.c"));
    assert_eq!(e[1].cwe, None);
    assert_eq!(e[1].file0, None);
    assert_eq!(e[1].msg, "misra violation (use --rule-texts=<file> to get proper output)");
    let last = e[6].location.as_ref().unwrap();
    assert_eq!(last.len(), 1);
    assert_eq!(last[0].file, "test/checks/msc32-c.c");
    assert_eq!((last[0].line, last[0].column), (26, 7));
}

#[test]
fn one_finding_with_one_location() {
    let doc = wrap(
        "<error id=\"missingReturn\" severity=\"error\" msg=\"...\" verbose=\"...\">\
         <location file=\"a.c\" line=\"4\" column=\"5\"/></error>",
    );
    let r = Results::parse(&doc).unwrap();
    assert_eq!(r.errors.error.len(), 1);
    let f = &r.errors.error[0];
    assert_eq!(f.id, "missingReturn");
    assert_eq!(f.severity, "error");
    assert_eq!(f.msg, "...");
    let locs = f.location.as_ref().unwrap();
    assert_eq!(locs.len(), 1);
    assert_eq!(locs[0].file, "a.c");
    assert_eq!(locs[0].line, 4);
    assert_eq!(locs[0].column, 5);
    assert_eq!(cppcheck_report::rules::mapping(&f.id).as_deref(), Some("CXX-W3551"));
}

#[test]
fn three_findings_share_one_code() {
    let one = |line: u32| {
        format!(
            "<error id=\"misra-c2012-2.3\" severity=\"style\" msg=\"m\" verbose=\"v\">\
             <location file=\"u.cpp\" line=\"{}\" column=\"1\"/></error>",
            line
        )
    };
    let doc = wrap(&format!("{}{}{}", one(196), one(198), one(200)));
    let r = Results::parse(&doc).unwrap();
    assert_eq!(r.errors.error.len(), 3);
    let lines: Vec<u32> =
        r.errors.error.iter().map(|f| f.location.as_ref().unwrap()[0].line).collect();
    assert_eq!(lines, vec![196, 198, 200]);
    let codes: Vec<Option<String>> =
        r.errors.error.iter().map(|f| cppcheck_report::rules::mapping(&f.id)).collect();
    assert_eq!(codes[0].as_deref(), Some("CXX-W3007"));
    assert_eq!(codes[0], codes[1]);
    assert_eq!(codes[1], codes[2]);
}

#[test]
fn empty_container_gives_no_findings() {
    let r = Results::parse(&wrap("")).unwrap();
    assert!(r.errors.error.is_empty());
    let r = Results::parse("<results version=\"2\"><errors/></results>").unwrap();
    assert!(r.errors.error.is_empty());
}

#[test]
fn absent_container_gives_no_findings() {
    let r = Results::parse("<results version=\"2\"><cppcheck version=\"2.10.3\"/></results>").unwrap();
    assert!(r.errors.error.is_empty());
}

#[test]
fn missing_required_attribute_is_rejected() {
    for doc in [
        "<error severity=\"error\" msg=\"m\" verbose=\"v\"/>",
        "<error id=\"x\" msg=\"m\" verbose=\"v\"/>",
        "<error id=\"x\" severity=\"error\" verbose=\"v\"/>",
        "<error id=\"x\" severity=\"error\" msg=\"m\"/>",
    ] {
        let good = wrap("<error id=\"y\" severity=\"style\" msg=\"m\" verbose=\"v\"/>");
        assert!(Results::parse(&good).is_ok());
        assert!(Results::parse(&wrap(doc)).is_err(), "{}", doc);
    }
}

#[test]
fn non_numeric_coordinate_is_rejected() {
    let loc = |line: &str, column: &str| {
        wrap(&format!(
            "<error id=\"x\" severity=\"error\" msg=\"m\" verbose=\"v\">\
             <location file=\"a.c\" line=\"{}\" column=\"{}\"/></error>",
            line, column
        ))
    };
    assert!(Results::parse(&loc("4", "5")).is_ok());
    assert!(Results::parse(&loc("four", "5")).is_err());
    assert!(Results::parse(&loc("4", "5x")).is_err());
    assert!(Results::parse(&loc("", "5")).is_err());
    assert!(Results::parse(&loc("-1", "5")).is_err());
    assert!(Results::parse(&loc("4294967296", "5")).is_err());
    let r = Results::parse(&loc("4294967295", "0")).unwrap();
    let l = &r.errors.error[0].location.as_ref().unwrap()[0];
    assert_eq!((l.line, l.column), (4294967295, 0));
}

#[test]
fn unparseable_markup_is_rejected() {
    assert!(Results::parse("<results><errors></results>").is_err());
    assert!(Results::parse("<results><errors>").is_err());
    assert!(Results::parse("").is_err());
    assert!(Results::parse("<results><error id=\"a\" id=\"b\"/></results>").is_err());
    let err = Results::parse("<results><errors></results>").unwrap_err();
    assert!(err.detail.starts_with("the markup is not well-formed: "));
    assert!(err.detail.len() > "the markup is not well-formed: ".len());
}

#[test]
fn optional_fields_follow_the_document() {
    let doc = wrap(
        "<error id=\"nullPointer\" severity=\"error\" msg=\"m\" verbose=\"v\" cwe=\"476\" file0=\"t.c\">\
         <location file=\"a.c\" line=\"1\" column=\"2\"/>\
         <location file=\"b.c\" line=\"3\" column=\"4\"/>\
         <symbol>ptr</symbol></error>\
         <error id=\"unusedFunction\" severity=\"style\" msg=\"m\" verbose=\"v\"/>",
    );
    let r = Results::parse(&doc).unwrap();
    let e = &r.errors.error;
    assert_eq!(e.len(), 2);
    assert_eq!(e[0].cwe.as_deref(), Some("476"));
    assert_eq!(e[0].file0.as_deref(), Some("t.c"));
    assert_eq!(e[0].symbol.as_deref(), Some("ptr"));
    let locs = e[0].location.as_ref().unwrap();
    assert_eq!(locs.len(), 2);
    assert_eq!(locs[0].file, "a.c");
    assert_eq!(locs[1].file, "b.c");
    assert_eq!((locs[1].line, locs[1].column), (3, 4));
    assert!(e[1].location.is_none());
    assert!(e[1].symbol.is_none());
    assert!(e[1].cwe.is_none());
    assert!(e[1].file0.is_none());
}

fn attr(name: &str, value: &str) -> XmlAttribute {
    XmlAttribute { name: name.to_string(), value: value.to_string() }
}

fn finding_attrs(id: &str) -> Vec<XmlAttribute> {
    vec![attr("id", id), attr("severity", "style"), attr("msg", "m"), attr("verbose", "v")]
}

#[test]
fn events_give_findings_in_order() {
    let events = vec![
        XmlEvent::Open { name: "results".to_string(), attributes: vec![] },
        XmlEvent::Open { name: "errors".to_string(), attributes: vec![] },
        XmlEvent::Leaf { name: "error".to_string(), attributes: finding_attrs("a") },
        XmlEvent::Open { name: "error".to_string(), attributes: finding_attrs("b") },
        XmlEvent::Open { name: "symbol".to_string(), attributes: vec![] },
        XmlEvent::Text { text: "x".to_string() },
        XmlEvent::Close,
        XmlEvent::Close,
        XmlEvent::Close,
        XmlEvent::Close,
    ];
    let r = results_from_events(&events).unwrap();
    let e = &r.errors.error;
    assert_eq!(e.len(), 2);
    assert_eq!(e[0].id, "a");
    assert_eq!(e[1].id, "b");
    assert_eq!(e[1].symbol.as_deref(), Some("x"));
}

#[test]
fn events_left_open_are_rejected() {
    let events = vec![
        XmlEvent::Open { name: "results".to_string(), attributes: vec![] },
        XmlEvent::Open { name: "errors".to_string(), attributes: vec![] },
        XmlEvent::Close,
    ];
    assert!(results_from_events(&events).is_err());
    assert!(results_from_events(&vec![XmlEvent::Close]).is_err());
    assert!(results_from_events(&vec![]).is_err());
}

#[test]
fn finding_outside_the_container_is_not_read() {
    let events = vec![
        XmlEvent::Open { name: "results".to_string(), attributes: vec![] },
        XmlEvent::Leaf { name: "error".to_string(), attributes: vec![] },
        XmlEvent::Close,
    ];
    let r = results_from_events(&events).unwrap();
    assert!(r.errors.error.is_empty());
}

#[test]
fn cdata_symbol_is_character_data() {
    let doc = wrap(
        "<!-- produced by a test --><error id=\"nullPointer\" severity=\"error\" msg=\"m\" verbose=\"v\">\
         <symbol><![CDATA[p<q]]></symbol></error>",
    );
    let r = Results::parse(&doc).unwrap();
    assert_eq!(r.errors.error.len(), 1);
    assert_eq!(r.errors.error[0].symbol.as_deref(), Some("p<q"));
}

#[test]
fn comments_and_instructions_change_nothing() {
    let events = vec![
        XmlEvent::Declaration { text: "xml version=\"1.0\"".to_string() },
        XmlEvent::DocType { text: "results".to_string() },
        XmlEvent::Open { name: "results".to_string(), attributes: vec![] },
        XmlEvent::Comment { text: "c".to_string() },
        XmlEvent::Instruction { text: "pi".to_string() },
        XmlEvent::Open { name: "errors".to_string(), attributes: vec![] },
        XmlEvent::Leaf { name: "error".to_string(), attributes: finding_attrs("a") },
        XmlEvent::CData { text: "outside".to_string() },
        XmlEvent::Close,
        XmlEvent::Close,
    ];
    let r = results_from_events(&events).unwrap();
    assert_eq!(r.errors.error.len(), 1);
    assert!(r.errors.error[0].symbol.is_none());
}
