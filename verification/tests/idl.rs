use velocity_fuzz::idl::{strip_redundant_const_generics, Entry, Json};

fn text(s: &str) -> Json {
    Json::Text(s.to_string())
}

fn object(entries: Vec<(&str, Json)>) -> Json {
    Json::Object(
        entries.into_iter().map(|(k, value)| Entry { key: k.to_string(), value }).collect(),
    )
}

fn constant(n: &str) -> Json {
    object(vec![("kind", text("const")), ("value", text(n))])
}

fn written(j: &Json) -> String {
    match j {
        Json::Null => "null".to_string(),
        Json::Bool(b) => b.to_string(),
        Json::Number(n) => n.clone(),
        Json::Text(t) => format!("\"{}\"", t),
        Json::Array(items) => {
            let parts: Vec<String> = items.iter().map(written).collect();
            format!("[{}]", parts.join(","))
        }
        Json::Object(entries) => {
            let parts: Vec<String> =
                entries.iter().map(|e| format!("\"{}\":{}", e.key, written(&e.value))).collect();
            format!("{{{}}}", parts.join(","))
        }
    }
}

fn stripped(mut j: Json) -> String {
    strip_redundant_const_generics(&mut j);
    written(&j)
}

#[test]
fn constant_arguments_are_taken_out() {
    let reference = object(vec![(
        "defined",
        object(vec![
            ("name", text("RelayBlock2x8")),
            ("generics", Json::Array(vec![constant("2"), constant("8")])),
        ]),
    )]);
    assert_eq!(stripped(reference), "{\"defined\":{\"name\":\"RelayBlock2x8\"}}");
}

#[test]
fn type_arguments_stay() {
    let generics = || {
        Json::Array(vec![constant("2"), object(vec![("kind", text("type"))])])
    };
    let reference =
        || object(vec![("defined", object(vec![("name", text("T")), ("generics", generics())]))]);
    assert_eq!(stripped(reference()), written(&reference()));
}

#[test]
fn empty_or_odd_lists_stay() {
    for generics in [Json::Array(vec![]), text("const"), Json::Array(vec![Json::Null])] {
        let expected = format!("{{\"defined\":{{\"generics\":{}}}}}", written(&generics));
        let reference = object(vec![("defined", object(vec![("generics", generics)]))]);
        assert_eq!(stripped(reference), expected);
    }
}

#[test]
fn lists_outside_a_reference_stay() {
    let elsewhere = object(vec![("other", object(vec![("generics", Json::Array(vec![constant("1")]))]))]);
    let expected = written(&elsewhere);
    assert_eq!(stripped(elsewhere), expected);
}

#[test]
fn references_are_found_at_any_depth() {
    let inner = object(vec![(
        "defined",
        object(vec![("generics", Json::Array(vec![constant("1")])), ("name", text("A"))]),
    )]);
    let tree = Json::Array(vec![
        Json::Bool(true),
        object(vec![("type", object(vec![("vec", inner)])), ("n", Json::Number("7".to_string()))]),
    ]);
    assert_eq!(
        stripped(tree),
        "[true,{\"type\":{\"vec\":{\"defined\":{\"name\":\"A\"}}},\"n\":7}]"
    );
}

#[test]
fn stripping_twice_changes_nothing() {
    let mut tree = object(vec![(
        "defined",
        object(vec![
            ("generics", Json::Array(vec![constant("1")])),
            (
                "defined",
                object(vec![("generics", Json::Array(vec![constant("3"), Json::Null]))]),
            ),
        ]),
    )]);
    strip_redundant_const_generics(&mut tree);
    let once = written(&tree);
    strip_redundant_const_generics(&mut tree);
    assert_eq!(written(&tree), once);
    assert!(once.contains("\"3\"") && !once.contains("\"1\""));
}
