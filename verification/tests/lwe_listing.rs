use omywall::lua::{format_config_as_lua, json_is_ordered, json_val_to_lua};
use omywall::json::{JsonNumber, JsonValue};
use omywall::lwe::{parse_properties, LweProperty, PropertyType};

/// The colour an `R:` line spells out, as the listing tool's caller reads
/// it: the first four components that read as numbers.
fn colour_of_line(line: &str) -> Option<String> {
    let t = line.trim_end().trim_start_matches(['\t', ' ']);
    let rest = t.strip_prefix("R:")?;
    let mut c: Vec<f32> = Vec::new();
    for component in rest.split([' ', '\t']) {
        if component.is_empty() || c.len() == 4 {
            continue;
        }
        if let Ok(v) = component.parse::<f32>() {
            c.push(v);
        }
    }
    if c.len() < 4 {
        return None;
    }
    Some(format!("{:.6}, {:.6}, {:.6}, {:.6}", c[0], c[1], c[2], c[3]))
}

fn parse(out: &str) -> Vec<LweProperty> {
    let colours: Vec<Option<String>> = out.lines().map(colour_of_line).collect();
    parse_properties(out, &colours)
}

fn num(t: &Option<String>) -> Option<f64> {
    t.as_deref().and_then(|s| s.parse::<f64>().ok())
}

#[test]
fn parses_current_main_branch_format() {
    let out = "\
barcount - slider
\tText: Bar Count
\tMin: 16
\tMax: 64
\tStep: 1
\tValue: 32

bloom - boolean
\tText: Bloom
\tValue: 0

frequency - combo
\tText: Frequency
\tValue: 32
Values:
\t\t16 = 16
\t\t32 = 32
\t\t64 = 64

schemecolor - color
\tText: Scheme Color
\tValue: 0.149020, 0.231373, 0.400000, 1.000000

label - text
\tText: Caption
\tValue: hello world
";
    let props = parse(out);
    assert_eq!(props.len(), 5);

    let slider = &props[0];
    assert_eq!(slider.name, "barcount");
    assert_eq!(slider.prop_type, PropertyType::Slider);
    assert_eq!(num(&slider.min), Some(16.0));
    assert_eq!(num(&slider.max), Some(64.0));
    assert_eq!(num(&slider.step), Some(1.0));
    assert_eq!(slider.value, "32");
    assert_eq!(slider.description, "Bar Count");

    assert_eq!(props[1].prop_type, PropertyType::Boolean);
    assert_eq!(props[1].value, "0");

    let combo = &props[2];
    assert_eq!(combo.prop_type, PropertyType::Combolist);
    assert_eq!(combo.value, "32");
    assert_eq!(
        combo.options,
        vec![
            ("16".to_string(), "16".to_string()),
            ("32".to_string(), "32".to_string()),
            ("64".to_string(), "64".to_string()),
        ]
    );

    assert_eq!(props[3].prop_type, PropertyType::Color);
    assert_eq!(props[3].value, "0.149020, 0.231373, 0.400000, 1.000000");

    assert_eq!(props[4].prop_type, PropertyType::Text);
    assert_eq!(props[4].value, "hello world");
}

#[test]
fn parses_legacy_readme_format() {
    let out = "\
owl - boolean
\tDescription: Owl
\tValue: 1

rain - slider
\tDescription: Rain
\tValue: 2
\tMinimum value: 0
\tMaximum value: 4
\tStep: 0.5

schemecolor - color
\tDescription: ui_browse_properties_scheme_color
\tR: 0.14902 G: 0.23137 B: 0.4 A: 1

visualizer - combolist
\tDescription: Add Visualizer
\tValue: 2
\t\tPosible values:
\t\t16 -> 1
\t\t32 -> 2
";
    let props = parse(out);
    assert_eq!(props.len(), 4);

    assert_eq!(props[0].prop_type, PropertyType::Boolean);
    assert_eq!(props[0].value, "1");

    assert_eq!(props[1].prop_type, PropertyType::Slider);
    assert_eq!(num(&props[1].min), Some(0.0));
    assert_eq!(num(&props[1].max), Some(4.0));
    assert_eq!(num(&props[1].step), Some(0.5));

    assert_eq!(props[2].prop_type, PropertyType::Color);
    assert_eq!(props[2].value, "0.149020, 0.231370, 0.400000, 1.000000");

    assert_eq!(props[3].prop_type, PropertyType::Combolist);
    assert_eq!(props[3].value, "2");
    assert_eq!(
        props[3].options,
        vec![("16".to_string(), "1".to_string()), ("32".to_string(), "2".to_string())]
    );
}

#[test]
fn lines_before_the_first_header_are_ignored() {
    let out = "Text: stray\nValue: 3\nx - file\n  Value: /a.png\n";
    let props = parse(out);
    assert_eq!(props.len(), 1);
    assert_eq!(props[0].prop_type, PropertyType::File);
    assert_eq!(props[0].value, "/a.png");
    assert_eq!(props[0].description, "");
    assert!(parse("").is_empty());
}

fn obj(entries: Vec<(&str, JsonValue)>) -> JsonValue {
    JsonValue::Object(entries.into_iter().map(|(k, v)| (k.to_string(), v)).collect())
}

#[test]
fn lua_rendering() {
    assert_eq!(json_val_to_lua(&JsonValue::Null, 0), "nil");
    assert_eq!(json_val_to_lua(&JsonValue::Bool(true), 0), "true");
    assert_eq!(json_val_to_lua(&JsonValue::Number(JsonNumber::NegInt(-7)), 0), "-7");
    assert_eq!(json_val_to_lua(&JsonValue::Number(JsonNumber::Float("1.0".to_string())), 0), "1.0");
    assert_eq!(json_val_to_lua(&JsonValue::Str("a \"q\"\n".to_string()), 0), "\"a \\\"q\\\"\\n\"");
    assert_eq!(json_val_to_lua(&JsonValue::Array(vec![]), 0), "{}");
    let v = obj(vec![
        ("eDP-1", JsonValue::Str("/w.mp4".to_string())),
        ("list", JsonValue::Array(vec![JsonValue::Number(JsonNumber::PosInt(1)), obj(vec![])])),
        ("volume", JsonValue::Number(JsonNumber::PosInt(30))),
    ]);
    assert!(json_is_ordered(&v));
    assert_eq!(
        json_val_to_lua(&v, 0),
        "{\n  [\"eDP-1\"] = \"/w.mp4\",\n  list = {\n    1,\n    {}\n  },\n  volume = 30\n}"
    );
    assert_eq!(
        format_config_as_lua(&obj(vec![("mute", JsonValue::Bool(false))])),
        "-- OMYWALL Wallpaper Engine Configuration (Lua Script)\nreturn {\n  mute = false\n}\n"
    );
    assert!(!json_is_ordered(&obj(vec![("b", JsonValue::Null), ("a", JsonValue::Null)])));
}
