use jlf::ColorTag;
use jlf::Config;
use jlf::LogTransformer;
use jlf::Output;
use jlf::RenderPlan;

fn rendered(out: Output) -> RenderPlan {
    match out {
        Output::Rendered(plan) => plan,
        _ => panic!("expected a rendered plan"),
    }
}

fn texts(plan: &RenderPlan) -> Vec<String> {
    plan.segments.iter().map(|s| s.text.clone()).collect()
}

#[test]
fn default_record_inline_extras() {
    let t = LogTransformer::new(Config::default());
    let out = t.transform_line(r#"{"msg":"hi","level":"info","ts":1000,"a":1,"b":"x"}"#);
    let plan = rendered(out);
    let ts = texts(&plan);
    assert_eq!(ts.len(), 12);
    assert!(ts[0].starts_with('['));
    assert!(ts[0].ends_with(']'));
    assert_eq!(plan.segments[0].color, ColorTag::Magenta);
    assert_eq!(ts[1], "[info] ");
    assert_eq!(plan.segments[1].color, ColorTag::Blue);
    assert_eq!(ts[2], "hi");
    assert_eq!(plan.segments[2].color, ColorTag::Neutral);
    assert_eq!(ts[3], " | ");
    assert_eq!(ts[4], "a");
    assert_eq!(plan.segments[4].color, ColorTag::Green);
    assert_eq!(ts[5], "=");
    assert_eq!(ts[6], "1");
    assert_eq!(ts[7], " | ");
    assert_eq!(ts[8], "b");
    assert_eq!(plan.segments[8].color, ColorTag::Green);
    assert_eq!(ts[9], "=");
    assert_eq!(ts[10], "x");
    assert_eq!(ts[11], "\n");
    assert_eq!(plan.blank_lines, 0);
}

#[test]
fn message_field_rendered_verbatim() {
    let t = LogTransformer::new(Config::default());
    let plan = rendered(t.transform_line(r#"{"msg":"exact text here","level":"info"}"#));
    assert_eq!(plan.segments[1].text, "exact text here");
}

#[test]
fn missing_level_renders_fallback() {
    let t = LogTransformer::new(Config::default());
    let plan = rendered(t.transform_line(r#"{"msg":"hi"}"#));
    assert_eq!(plan.segments[0].text, "[???] ");
    assert_eq!(plan.segments[0].color, ColorTag::Neutral);
    assert_eq!(plan.segments[1].text, "hi");
}

#[test]
fn missing_message_renders_fallback() {
    let t = LogTransformer::new(Config::default());
    let plan = rendered(t.transform_line(r#"{"level":"info"}"#));
    assert_eq!(plan.segments[1].text, "???");
}

#[test]
fn level_filter_drops_and_keeps() {
    let cfg = Config {
        filter_levels: Some(vec!["error".to_string()]),
        ..Config::default()
    };
    let t = LogTransformer::new(cfg);
    let dropped = t.transform_line(r#"{"msg":"m","level":"info"}"#);
    assert!(matches!(dropped, Output::Dropped));
    let kept = t.transform_line(r#"{"msg":"m","level":"error"}"#);
    assert!(matches!(kept, Output::Rendered(_)));
}

#[test]
fn level_filter_is_case_sensitive() {
    let cfg = Config {
        filter_levels: Some(vec!["error".to_string()]),
        ..Config::default()
    };
    let t = LogTransformer::new(cfg);
    let dropped = t.transform_line(r#"{"msg":"m","level":"ERROR"}"#);
    assert!(matches!(dropped, Output::Dropped));
}

#[test]
fn non_json_line_echoed_unchanged() {
    let t = LogTransformer::new(Config::default());
    let out = t.transform_line("plain text log");
    match out {
        Output::Passthrough(s) => assert_eq!(s, "plain text log"),
        _ => panic!("expected passthrough"),
    }
}

#[test]
fn non_json_line_hidden_when_configured() {
    let cfg = Config {
        hide_non_json: true,
        ..Config::default()
    };
    let t = LogTransformer::new(cfg);
    assert!(matches!(t.transform_line("plain text log"), Output::Dropped));
}

#[test]
fn non_object_json_is_passthrough() {
    let t = LogTransformer::new(Config::default());
    match t.transform_line("[1,2,3]") {
        Output::Passthrough(s) => assert_eq!(s, "[1,2,3]"),
        _ => panic!("expected passthrough"),
    }
    match t.transform_line("42") {
        Output::Passthrough(s) => assert_eq!(s, "42"),
        _ => panic!("expected passthrough"),
    }
}

#[test]
fn gate_query_empty_match_drops_record() {
    let cfg = Config {
        gate_query: Some(String::new()),
        ..Config::default()
    };
    let t = LogTransformer::new(cfg);
    let out = t.transform_line(r#"{"msg":"m","level":"info","a":1}"#);
    assert!(matches!(out, Output::Dropped));
}

#[test]
fn gate_query_match_keeps_record() {
    let cfg = Config {
        gate_query: Some(r#""a""#.to_string()),
        ..Config::default()
    };
    let t = LogTransformer::new(cfg);
    let out = t.transform_line(r#"{"msg":"m","level":"info","a":1}"#);
    assert!(matches!(out, Output::Rendered(_)));
}

#[test]
fn gate_query_missing_key_drops_record() {
    let cfg = Config {
        gate_query: Some(r#""nope""#.to_string()),
        ..Config::default()
    };
    let t = LogTransformer::new(cfg);
    let out = t.transform_line(r#"{"msg":"m","level":"info","a":1}"#);
    assert!(matches!(out, Output::Dropped));
}

#[test]
fn gate_query_applies_when_extras_hidden() {
    let cfg = Config {
        gate_query: Some(String::new()),
        hide_extra_fields: true,
        ..Config::default()
    };
    let t = LogTransformer::new(cfg);
    let out = t.transform_line(r#"{"msg":"m","level":"info","a":1}"#);
    assert!(matches!(out, Output::Dropped));
}

#[test]
fn gate_query_empty_collection_drops_record() {
    let cfg = Config {
        gate_query: Some(r#""e""#.to_string()),
        ..Config::default()
    };
    let t = LogTransformer::new(cfg);
    let out = t.transform_line(r#"{"msg":"m","level":"info","e":[],"a":1}"#);
    assert!(matches!(out, Output::Dropped));
}

#[test]
fn gate_query_bad_syntax_is_fatal() {
    let cfg = Config {
        gate_query: Some("###".to_string()),
        ..Config::default()
    };
    let t = LogTransformer::new(cfg);
    let out = t.transform_line(r#"{"msg":"m","level":"info","a":1}"#);
    assert!(matches!(out, Output::Fatal(_)));
}

#[test]
fn select_query_applies_when_extras_hidden() {
    let cfg = Config {
        select_query: Some(r#""nope""#.to_string()),
        hide_extra_fields: true,
        ..Config::default()
    };
    let t = LogTransformer::new(cfg);
    let out = t.transform_line(r#"{"msg":"m","level":"info","a":1}"#);
    assert!(matches!(out, Output::Dropped));
    let cfg = Config {
        select_query: Some(r#""sub""#.to_string()),
        hide_extra_fields: true,
        ..Config::default()
    };
    let t = LogTransformer::new(cfg);
    let plan = rendered(t.transform_line(r#"{"msg":"m","level":"info","sub":{"x":1}}"#));
    assert_eq!(texts(&plan), vec!["[info] ", "m", "\n"]);
}

#[test]
fn select_query_empty_collection_drops_record() {
    let cfg = Config {
        select_query: Some(r#""e""#.to_string()),
        ..Config::default()
    };
    let t = LogTransformer::new(cfg);
    let out = t.transform_line(r#"{"msg":"m","level":"info","e":{}}"#);
    assert!(matches!(out, Output::Dropped));
    let out = t.transform_line(r#"{"msg":"m","level":"info","e":[]}"#);
    assert!(matches!(out, Output::Dropped));
}

#[test]
fn spacing_appends_blank_lines_to_records_only() {
    let cfg = Config {
        spacing: 2,
        ..Config::default()
    };
    let t = LogTransformer::new(cfg);
    let plan = rendered(t.transform_line(r#"{"msg":"m","level":"info"}"#));
    assert_eq!(plan.blank_lines, 2);
    match t.transform_line("raw line") {
        Output::Passthrough(s) => assert_eq!(s, "raw line"),
        _ => panic!("expected passthrough"),
    }
}

#[test]
fn select_query_replaces_extra_fields() {
    let cfg = Config {
        select_query: Some(r#""sub""#.to_string()),
        ..Config::default()
    };
    let t = LogTransformer::new(cfg);
    let plan = rendered(t.transform_line(
        r#"{"msg":"m","level":"info","sub":{"x":1,"y":"z"}}"#,
    ));
    assert_eq!(
        texts(&plan),
        vec!["[info] ", "m", " | ", "x", "=", "1", " | ", "y", "=", "z", "\n"]
    );
}

#[test]
fn select_query_wraps_non_object_result() {
    let cfg = Config {
        select_query: Some(r#""n""#.to_string()),
        ..Config::default()
    };
    let t = LogTransformer::new(cfg);
    let plan = rendered(t.transform_line(r#"{"msg":"m","level":"info","n":5}"#));
    assert_eq!(
        texts(&plan),
        vec!["[info] ", "m", " | ", "_jlf_inner", "=", "5", "\n"]
    );
}

#[test]
fn select_query_missing_key_drops_record() {
    let cfg = Config {
        select_query: Some(r#""nope""#.to_string()),
        ..Config::default()
    };
    let t = LogTransformer::new(cfg);
    let out = t.transform_line(r#"{"msg":"m","level":"info","a":1}"#);
    assert!(matches!(out, Output::Dropped));
}

#[test]
fn select_query_empty_drops_record() {
    let cfg = Config {
        select_query: Some(String::new()),
        ..Config::default()
    };
    let t = LogTransformer::new(cfg);
    let out = t.transform_line(r#"{"msg":"m","level":"info","a":1}"#);
    assert!(matches!(out, Output::Dropped));
}

#[test]
fn select_query_bad_syntax_is_fatal() {
    let cfg = Config {
        select_query: Some("###".to_string()),
        ..Config::default()
    };
    let t = LogTransformer::new(cfg);
    let out = t.transform_line(r#"{"msg":"m","level":"info","a":1}"#);
    assert!(matches!(out, Output::Fatal(_)));
}

#[test]
fn excluded_fields_are_not_rendered() {
    let cfg = Config {
        exclude_fields: Some(vec!["a".to_string()]),
        ..Config::default()
    };
    let t = LogTransformer::new(cfg);
    let plan = rendered(t.transform_line(r#"{"msg":"m","level":"info","a":1,"b":2}"#));
    assert_eq!(texts(&plan), vec!["[info] ", "m", " | ", "b", "=", "2", "\n"]);
}

#[test]
fn hide_extra_fields_drops_extras() {
    let cfg = Config {
        hide_extra_fields: true,
        ..Config::default()
    };
    let t = LogTransformer::new(cfg);
    let plan = rendered(t.transform_line(r#"{"msg":"m","level":"info","a":1,"b":2}"#));
    assert_eq!(texts(&plan), vec!["[info] ", "m", "\n"]);
}

#[test]
fn multiline_fields_each_on_own_line() {
    let cfg = Config {
        multiline_fields: true,
        ..Config::default()
    };
    let t = LogTransformer::new(cfg);
    let plan = rendered(t.transform_line(r#"{"msg":"m","level":"info","a":"b"}"#));
    assert_eq!(texts(&plan), vec!["[info] ", "m", "\n  ", "a", "=", "b", "\n"]);
}

#[test]
fn multiline_long_value_gets_own_lines() {
    let cfg = Config {
        multiline_fields: true,
        field_wrap_threshold: 3,
        ..Config::default()
    };
    let t = LogTransformer::new(cfg);
    let plan = rendered(t.transform_line(r#"{"msg":"m","level":"info","a":"abcdef"}"#));
    assert_eq!(
        texts(&plan),
        vec!["[info] ", "m", "\n  ", "a", ":\n", "abcdef", "\n", "\n"]
    );
}

#[test]
fn multiline_value_with_line_break_gets_own_lines() {
    let cfg = Config {
        multiline_fields: true,
        ..Config::default()
    };
    let t = LogTransformer::new(cfg);
    let plan = rendered(t.transform_line(r#"{"msg":"m","level":"info","a":"x\ny"}"#));
    assert_eq!(
        texts(&plan),
        vec!["[info] ", "m", "\n  ", "a", ":\n", "x\ny", "\n", "\n"]
    );
}

#[test]
fn long_message_breaks_before_inline_extras() {
    let cfg = Config {
        message_wrap_threshold: 4,
        ..Config::default()
    };
    let t = LogTransformer::new(cfg);
    let plan = rendered(t.transform_line(r#"{"msg":"hello there","level":"info","a":1}"#));
    assert_eq!(
        texts(&plan),
        vec!["[info] ", "hello there", "\n", " | ", "a", "=", "1", "\n"]
    );
}

#[test]
fn long_message_does_not_break_in_multiline_mode() {
    let cfg = Config {
        message_wrap_threshold: 4,
        multiline_fields: true,
        ..Config::default()
    };
    let t = LogTransformer::new(cfg);
    let plan = rendered(t.transform_line(r#"{"msg":"hello there","level":"info","a":1}"#));
    assert_eq!(
        texts(&plan),
        vec!["[info] ", "hello there", "\n  ", "a", "=", "1", "\n"]
    );
}

#[test]
fn timestamp_segment_present_for_numeric_ts() {
    let t = LogTransformer::new(Config::default());
    let plan = rendered(t.transform_line(r#"{"msg":"m","level":"info","ts":1700000000}"#));
    assert_eq!(plan.segments.len(), 4);
    assert_eq!(plan.segments[0].color, ColorTag::Magenta);
    assert!(plan.segments[0].text.starts_with('['));
    assert!(plan.segments[0].text.ends_with(']'));
    assert!(plan.segments[0].text.len() > 2);
}

#[test]
fn timestamp_segment_absent_for_non_numeric_ts() {
    let t = LogTransformer::new(Config::default());
    let plan = rendered(t.transform_line(r#"{"msg":"m","level":"info","ts":"abc"}"#));
    assert_eq!(plan.segments[0].text, "[info] ");
}

#[test]
fn fractional_timestamp_truncates_to_seconds() {
    let t = LogTransformer::new(Config::default());
    let whole = rendered(t.transform_line(r#"{"msg":"m","level":"info","ts":1000}"#));
    let fractional = rendered(t.transform_line(r#"{"msg":"m","level":"info","ts":1000.75}"#));
    assert_eq!(whole.segments[0].text, fractional.segments[0].text);
}

#[test]
fn absurd_timestamp_renders_no_time_segment() {
    let t = LogTransformer::new(Config::default());
    let plan = rendered(t.transform_line(r#"{"msg":"m","level":"info","ts":1e40}"#));
    assert_eq!(plan.segments[0].text, "[info] ");
}

#[test]
fn custom_field_names_and_separator() {
    let cfg = Config {
        message_field: "note".to_string(),
        level_field: "severity".to_string(),
        timestamp_field: "when".to_string(),
        separator: "~".to_string(),
        ..Config::default()
    };
    let t = LogTransformer::new(cfg);
    let plan = rendered(t.transform_line(r#"{"note":"n","severity":"error","extra":true}"#));
    assert_eq!(
        texts(&plan),
        vec!["[error] ", "n", " ~ ", "extra", "=", "true", "\n"]
    );
    assert_eq!(plan.segments[0].color, ColorTag::Red);
}

#[test]
fn nested_values_render_in_debug_style() {
    let t = LogTransformer::new(Config::default());
    let plan = rendered(t.transform_line(
        r#"{"msg":"m","level":"info","a":[1,"x",null],"o":{"k":true}}"#,
    ));
    let ts = texts(&plan);
    assert_eq!(ts[5], "[1, \"x\", null]");
    assert_eq!(ts[9], "{\"k\": true}");
}

#[test]
fn null_and_bool_extras_render_as_words() {
    let t = LogTransformer::new(Config::default());
    let plan = rendered(t.transform_line(r#"{"msg":"m","level":"info","n":null,"f":false}"#));
    let ts = texts(&plan);
    assert_eq!(ts[5], "NULL");
    assert_eq!(ts[9], "false");
}
