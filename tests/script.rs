use dioxus_inspector::{
    build_diagnose_script, build_dom_script, build_inspect_script, build_query_script,
    build_resize_script, build_script, build_validate_classes_script, json_string_array,
    json_string_literal, parse_resize_sentinel, resize_sentinel_text, same_text, DomQuery, EvalRequest, Operation,
    QueryProperty, QueryRequest, ResizeRequest, ValidateClassesRequest, DEFAULT_DOM_DEPTH,
    DEFAULT_DOM_NODES,
};

#[test]
fn test_build_query_script_text() {
    let script = build_query_script(".btn", "text");
    assert!(script.contains("textContent"));
    assert!(script.contains("\".btn\""));
}

#[test]
fn test_build_query_script_html() {
    let script = build_query_script("#main", "html");
    assert!(script.contains("innerHTML"));
}

#[test]
fn test_build_query_script_outer_html() {
    let script = build_query_script("div", "outerHTML");
    assert!(script.contains("outerHTML"));
    assert!(script.contains("\"div\""));
}

#[test]
fn test_build_query_script_value() {
    let script = build_query_script("input", "value");
    assert!(script.contains(".value"));
}

#[test]
fn test_build_query_script_attribute() {
    let script = build_query_script("a", "href");
    assert!(script.contains("getAttribute"));
    assert!(script.contains("\"href\""));
}

#[test]
fn test_build_query_script_data_attribute() {
    let script = build_query_script("[data-id]", "data-id");
    assert!(script.contains("getAttribute"));
    assert!(script.contains("\"data-id\""));
}

#[test]
fn test_build_query_script_escapes_selector() {
    let script = build_query_script("div[data-name=\"test\"]", "text");
    assert!(script.contains("\\\"test\\\""));
}

#[test]
fn test_dom_query_default() {
    let query = DomQuery::default();
    assert!(query.depth.is_none());
    assert!(query.max_nodes.is_none());
    assert!(query.selector.is_none());
}

#[test]
fn query_script_exact_text() {
    let script = build_query_script(".btn", "text");
    assert_eq!(
        script,
        "return (() => {\n    const el = document.querySelector(\".btn\");\n    return el ? el.textContent : null;\n})()"
    );
}

#[test]
fn query_properties_are_exclusive() {
    let html = build_query_script("#main", "html");
    assert!(html.contains("el.innerHTML"));
    assert!(!html.contains("textContent"));
    assert!(!html.contains("getAttribute"));
    let text = build_query_script("#main", "text");
    assert!(text.contains("el.textContent"));
    assert!(!text.contains("innerHTML"));
    let attr = build_query_script("#main", "Text");
    assert!(attr.contains("el.getAttribute(\"Text\")"));
}

#[test]
fn query_property_from_name() {
    assert!(matches!(QueryProperty::from_name("text"), QueryProperty::Text));
    assert!(matches!(QueryProperty::from_name("html"), QueryProperty::Html));
    assert!(matches!(QueryProperty::from_name("outerHTML"), QueryProperty::OuterHtml));
    assert!(matches!(QueryProperty::from_name("value"), QueryProperty::Value));
    match QueryProperty::from_name("aria-label") {
        QueryProperty::Attribute(a) => assert_eq!(a, "aria-label"),
        _ => panic!("expected an attribute"),
    }
    assert_eq!(QueryProperty::from_name("html").accessor_text(), "el.innerHTML");
}

#[test]
fn same_text_compares_characters() {
    assert!(same_text("", ""));
    assert!(same_text("héllo", "héllo"));
    assert!(!same_text("hello", "hellO"));
    assert!(!same_text("hell", "hello"));
}

#[test]
fn json_literal_escapes_special_characters() {
    let input = "a\"b\\c\nd\te\r\u{8}\u{c}\u{1}/é";
    let lit = json_string_literal(input);
    assert_eq!(lit, "\"a\\\"b\\\\c\\nd\\te\\r\\b\\f\\u0001/é\"");
    assert_eq!(lit, serde_json::to_string(input).unwrap());
    let back: String = serde_json::from_str(&lit).unwrap();
    assert_eq!(back, input);
}

#[test]
fn json_literal_of_empty_text() {
    assert_eq!(json_string_literal(""), "\"\"");
}

#[test]
fn json_array_of_classes() {
    let classes = vec!["flex".to_string(), "p-4".to_string()];
    assert_eq!(json_string_array(&classes), "[\"flex\",\"p-4\"]");
    assert_eq!(json_string_array(&Vec::new()), "[]");
    assert_eq!(json_string_array(&vec!["a\"b".to_string()]), "[\"a\\\"b\"]");
}

#[test]
fn query_selector_with_quote_stays_one_literal() {
    let selector = "x\"); alert(1); (\"";
    let script = build_query_script(selector, "text");
    let lit = serde_json::to_string(selector).unwrap();
    assert!(script.contains(&format!("document.querySelector({});", lit)));
}

#[test]
fn dom_script_defaults() {
    let script = build_dom_script(DEFAULT_DOM_DEPTH, DEFAULT_DOM_NODES, &None);
    assert!(script.contains("MAX_DEPTH = 10"));
    assert!(script.contains("MAX_NODES = 500"));
    assert!(script.contains("ROOT_SELECTOR = null;"));
    let op = build_script(&Operation::Dom(DomQuery::default()));
    assert_eq!(op, script);
}

#[test]
fn dom_script_with_parameters() {
    let query = DomQuery {
        depth: Some(5),
        max_nodes: Some(100),
        selector: Some(".container".to_string()),
    };
    let script = build_script(&Operation::Dom(query));
    assert!(script.contains("MAX_DEPTH = 5"));
    assert!(script.contains("MAX_NODES = 100"));
    assert!(script.contains("\".container\""));
}

#[test]
fn inspect_script_embeds_selector() {
    let script = build_inspect_script(".modal");
    assert!(script.starts_with("const SELECTOR = \".modal\";\n"));
}

#[test]
fn validate_classes_script_embeds_classes() {
    let classes = vec!["flex".to_string(), "p-4".to_string()];
    let script = build_validate_classes_script(&classes);
    assert!(script.starts_with("const CLASSES = [\"flex\",\"p-4\"];\n"));
    let op = build_script(&Operation::ValidateClasses(ValidateClassesRequest { classes }));
    assert_eq!(op, script);
}

#[test]
fn diagnose_script_is_fixed() {
    let a = build_diagnose_script();
    assert!(!a.is_empty());
    assert_eq!(a, build_script(&Operation::Diagnose));
}

#[test]
fn resize_script_carries_sentinel() {
    assert_eq!(resize_sentinel_text(800, 600), "__BRIDGE_RESIZE__800x600__");
    assert_eq!(build_resize_script(800, 600), "return '__BRIDGE_RESIZE__800x600__'");
    let op = build_script(&Operation::Resize(ResizeRequest { width: 800, height: 600 }));
    assert_eq!(op, "return '__BRIDGE_RESIZE__800x600__'");
    assert_eq!(resize_sentinel_text(0, u32::MAX), "__BRIDGE_RESIZE__0x4294967295__");
}

#[test]
fn eval_operation_passes_script_through() {
    let op = Operation::Eval(EvalRequest { script: "return 41+1".to_string() });
    assert_eq!(build_script(&op), "return 41+1");
}

#[test]
fn query_operation_defaults_to_text() {
    let op = Operation::Query(QueryRequest { selector: ".btn".to_string(), property: None });
    assert_eq!(build_script(&op), build_query_script(".btn", "text"));
    let op = Operation::Query(QueryRequest {
        selector: "#main".to_string(),
        property: Some("html".to_string()),
    });
    assert!(build_script(&op).contains("innerHTML"));
}

#[test]
fn resize_sentinel_round_trip() {
    assert_eq!(parse_resize_sentinel("__BRIDGE_RESIZE__800x600__"), Some((800, 600)));
    assert_eq!(parse_resize_sentinel("__BRIDGE_RESIZE__0x4294967295__"), Some((0, u32::MAX)));
    for (w, h) in [(1u32, 1u32), (1024, 768), (u32::MAX, 7)] {
        assert_eq!(parse_resize_sentinel(&resize_sentinel_text(w, h)), Some((w, h)));
    }
}

#[test]
fn resize_sentinel_rejects_other_text() {
    assert_eq!(parse_resize_sentinel(""), None);
    assert_eq!(parse_resize_sentinel("__BRIDGE_RESIZE__800x600_"), None);
    assert_eq!(parse_resize_sentinel("__BRIDGE_RESIZE__0800x600__"), None);
    assert_eq!(parse_resize_sentinel("__BRIDGE_RESIZE__4294967296x1__"), None);
    assert_eq!(parse_resize_sentinel("__BRIDGE_RESIZE__x600__"), None);
    assert_eq!(parse_resize_sentinel("__BRIDGE_RESIZE__800y600__"), None);
    assert_eq!(parse_resize_sentinel("return '__BRIDGE_RESIZE__800x600__'"), None);
    assert_eq!(parse_resize_sentinel("__bridge_resize__800x600__"), None);
}
