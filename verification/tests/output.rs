use bugsink::json::Json;
use bugsink::output::Output;

fn s(x: &str) -> Json {
    Json::Str(x.to_string())
}

fn n(x: &str) -> Json {
    Json::Number(x.to_string())
}

fn obj(members: Vec<(&str, Json)>) -> Json {
    Json::Object(members.into_iter().map(|(k, v)| (k.to_string(), v)).collect())
}

#[test]
fn test_filter_fields_object() {
    let output = Output::new(false, Some("id,name".to_string()));
    let input = obj(vec![("extra", s("removed")), ("id", n("1")), ("name", s("test"))]);
    let result = output.filter_fields(input);
    assert_eq!(result, obj(vec![("id", n("1")), ("name", s("test"))]));
}

#[test]
fn test_filter_fields_array() {
    let output = Output::new(false, Some("id".to_string()));
    let input = Json::Array(vec![
        obj(vec![("id", n("1")), ("name", s("a"))]),
        obj(vec![("id", n("2")), ("name", s("b"))]),
    ]);
    let result = output.filter_fields(input);
    assert_eq!(result, Json::Array(vec![obj(vec![("id", n("1"))]), obj(vec![("id", n("2"))])]));
}

#[test]
fn test_filter_fields_none_passes_through() {
    let output = Output::new(false, None);
    let input = obj(vec![("id", n("1")), ("name", s("test"))]);
    let result = output.filter_fields(input);
    assert_eq!(result, obj(vec![("id", n("1")), ("name", s("test"))]));
}

#[test]
fn test_force_json_disables_pretty() {
    let output = Output::new(true, None);
    assert!(!output.is_pretty(true));
    assert!(!output.is_pretty(false));
}

#[test]
fn pretty_only_on_a_terminal() {
    let output = Output::new(false, None);
    assert!(output.is_pretty(true));
    assert!(!output.is_pretty(false));
}

#[test]
fn field_list_is_split_and_trimmed() {
    let output = Output::new(false, Some(" id , name,,\tslug ".to_string()));
    assert_eq!(
        output.fields,
        Some(vec!["id".to_string(), "name".to_string(), "".to_string(), "slug".to_string()])
    );
    assert!(output.fields.is_some());
    let output = Output::new(true, Some("".to_string()));
    assert_eq!(output.fields, Some(vec!["".to_string()]));
}

#[test]
fn nested_objects_are_not_filtered() {
    let output = Output::new(false, Some("data".to_string()));
    let inner = obj(vec![("keep", s("all")), ("of", s("it"))]);
    let input = obj(vec![("data", inner), ("id", n("7"))]);
    let result = output.filter_fields(input);
    let inner = obj(vec![("keep", s("all")), ("of", s("it"))]);
    assert_eq!(result, obj(vec![("data", inner)]));
    let output = Output::new(false, Some("id".to_string()));
    assert_eq!(output.filter_fields(s("x")), s("x"));
    assert_eq!(output.filter_fields(Json::Null), Json::Null);
}

#[test]
fn filtering_twice_is_filtering_once() {
    let output = Output::new(false, Some("id".to_string()));
    let input = Json::Array(vec![
        obj(vec![("id", n("1")), ("name", s("a"))]),
        Json::Array(vec![obj(vec![("name", s("b")), ("id", n("2"))])]),
    ]);
    let once = output.filter_fields(input);
    let expected = Json::Array(vec![
        obj(vec![("id", n("1"))]),
        Json::Array(vec![obj(vec![("id", n("2"))])]),
    ]);
    assert_eq!(once, expected);
    let twice = output.filter_fields(once);
    assert_eq!(twice, expected);
}

#[test]
fn error_report_shape() {
    assert_eq!(Output::error_report("boom"), obj(vec![("error", s("boom"))]));
}
