use jlf::ColorTag;
use jlf::Config;
use jlf::JsonValue;
use jlf::format_value;
use jlf::level_color;
use jlf::whole_seconds;

#[test]
fn whole_seconds_plain_integers() {
    assert_eq!(whole_seconds("0"), Some(0));
    assert_eq!(whole_seconds("1000"), Some(1000));
    assert_eq!(whole_seconds("007"), Some(7));
    assert_eq!(whole_seconds("-42"), Some(-42));
}

#[test]
fn whole_seconds_truncates_fractions_toward_zero() {
    assert_eq!(whole_seconds("10.99"), Some(10));
    assert_eq!(whole_seconds("1000.5"), Some(1000));
    assert_eq!(whole_seconds("-1.5"), Some(-1));
    assert_eq!(whole_seconds("0.25"), Some(0));
}

#[test]
fn whole_seconds_rejects_malformed_text() {
    assert_eq!(whole_seconds(""), None);
    assert_eq!(whole_seconds("-"), None);
    assert_eq!(whole_seconds("."), None);
    assert_eq!(whole_seconds(".5"), None);
    assert_eq!(whole_seconds("12."), None);
    assert_eq!(whole_seconds("1e3"), None);
    assert_eq!(whole_seconds("abc"), None);
    assert_eq!(whole_seconds("1 2"), None);
    assert_eq!(whole_seconds("1.2.3"), None);
    assert_eq!(whole_seconds("+5"), None);
}

#[test]
fn whole_seconds_at_the_i64_edges() {
    assert_eq!(whole_seconds("9223372036854775807"), Some(i64::MAX));
    assert_eq!(whole_seconds("9223372036854775808"), None);
    assert_eq!(whole_seconds("-9223372036854775808"), Some(i64::MIN));
    assert_eq!(whole_seconds("-9223372036854775809"), None);
    assert_eq!(whole_seconds("99999999999999999999999999"), None);
}

#[test]
fn level_colors_follow_the_fixed_map() {
    assert_eq!(level_color("trace"), ColorTag::Neutral);
    assert_eq!(level_color("debug"), ColorTag::Neutral);
    assert_eq!(level_color("info"), ColorTag::Blue);
    assert_eq!(level_color("notice"), ColorTag::Blue);
    assert_eq!(level_color("warning"), ColorTag::Yellow);
    assert_eq!(level_color("error"), ColorTag::Red);
    assert_eq!(level_color("err"), ColorTag::Red);
    assert_eq!(level_color("critical"), ColorTag::Red);
    assert_eq!(level_color("crit"), ColorTag::Red);
    assert_eq!(level_color("fatal"), ColorTag::Red);
    assert_eq!(level_color("emerg"), ColorTag::Red);
    assert_eq!(level_color("emergency"), ColorTag::Red);
    assert_eq!(level_color("alert"), ColorTag::Red);
}

#[test]
fn level_color_ignores_case_and_surrounding_space() {
    assert_eq!(level_color("ERROR"), ColorTag::Red);
    assert_eq!(level_color("ErRoR"), ColorTag::Red);
    assert_eq!(level_color(" warning "), ColorTag::Yellow);
    assert_eq!(level_color("\tINFO\n"), ColorTag::Blue);
}

#[test]
fn unknown_levels_stay_neutral() {
    assert_eq!(level_color("silly"), ColorTag::Neutral);
    assert_eq!(level_color("warn"), ColorTag::Neutral);
    assert_eq!(level_color(""), ColorTag::Neutral);
    assert_eq!(level_color("???"), ColorTag::Neutral);
}

#[test]
fn format_value_scalars() {
    assert_eq!(format_value(&JsonValue::Null), "NULL");
    assert_eq!(format_value(&JsonValue::Bool(true)), "true");
    assert_eq!(format_value(&JsonValue::Bool(false)), "false");
    assert_eq!(format_value(&JsonValue::Num("1.5".to_string())), "1.5");
    assert_eq!(format_value(&JsonValue::Str("verbatim".to_string())), "verbatim");
}

#[test]
fn format_value_collections_in_debug_style() {
    let arr = JsonValue::Arr(vec![
        JsonValue::Num("1".to_string()),
        JsonValue::Str("x".to_string()),
        JsonValue::Null,
    ]);
    assert_eq!(format_value(&arr), "[1, \"x\", null]");
    let obj = JsonValue::Obj(vec![
        ("a".to_string(), JsonValue::Num("1".to_string())),
        ("b".to_string(), JsonValue::Bool(true)),
    ]);
    assert_eq!(format_value(&obj), "{\"a\": 1, \"b\": true}");
    let nested = JsonValue::Arr(vec![JsonValue::Arr(vec![])]);
    assert_eq!(format_value(&nested), "[[]]");
    let empty_obj = JsonValue::Obj(vec![]);
    assert_eq!(format_value(&empty_obj), "{}");
}

#[test]
fn default_config_values() {
    let c = Config::default();
    assert_eq!(c.message_field, "msg");
    assert_eq!(c.level_field, "level");
    assert_eq!(c.timestamp_field, "ts");
    assert_eq!(c.separator, "|");
    assert!(c.exclude_fields.is_none());
    assert!(c.filter_levels.is_none());
    assert!(!c.hide_extra_fields);
    assert!(!c.disable_colors);
    assert!(!c.hide_non_json);
    assert!(!c.multiline_fields);
    assert_eq!(c.spacing, 0);
    assert!(c.select_query.is_none());
    assert!(c.gate_query.is_none());
    assert_eq!(c.message_wrap_threshold, 120);
    assert_eq!(c.field_wrap_threshold, 120);
}
