use mermaid_render::render::bootstrap;
use mermaid_render::render_mermaid;
use mermaid_render::render_mermaid_simple;

/// A small script library with the same interface as the bundled
/// diagramming library: `initialize` records the theme, `render` answers
/// with an object whose `svg` field embeds the diagram text and the theme,
/// and throws on text it does not recognize as a diagram.
fn lib_source() -> &'static str {
    r#"
    var mermaid = {
        theme: '',
        initialize: function(cfg) { this.theme = cfg.theme; },
        render: function(id, text) {
            if (text.indexOf('graph') !== 0) {
                throw new Error('Parse error in diagram: ' + text);
            }
            if (text === 'graph NUM') {
                return { svg: 123 };
            }
            return { svg: '<svg data-theme="' + this.theme + '">' + text + '</svg>' };
        }
    };
    "#
}

fn text(s: &str) -> ciborium::value::Value {
    ciborium::value::Value::Text(s.to_string())
}

fn payload(entries: Vec<(ciborium::value::Value, ciborium::value::Value)>) -> Vec<u8> {
    let v = ciborium::value::Value::Map(entries);
    let mut out = Vec::new();
    ciborium::ser::into_writer(&v, &mut out).unwrap();
    out
}

fn decode_svg(bytes: &[u8]) -> String {
    let v: ciborium::value::Value = ciborium::de::from_reader(bytes).unwrap();
    match v {
        ciborium::value::Value::Text(s) => s,
        other => panic!("response is not a CBOR text value: {:?}", other),
    }
}

#[test]
fn end_to_end_renders_svg() {
    let input = payload(vec![(text("diagram"), text("graph TD; A-->B"))]);
    let out = render_mermaid(lib_source(), &input).unwrap();
    let svg = decode_svg(&out);
    assert!(svg.starts_with("<svg"));
    assert!(svg.contains("A"));
    assert!(svg.contains("B"));
}

#[test]
fn end_to_end_invalid_diagram_is_script_error() {
    let input = payload(vec![(text("diagram"), text("this is not a valid diagram"))]);
    let err = render_mermaid(lib_source(), &input).unwrap_err();
    assert!(err.contains("Failed to render diagram"));
    assert!(err.contains("Mermaid render error"));
    assert!(err.contains("Parse error"));
}

#[test]
fn omitted_theme_equals_explicit_default() {
    let absent = payload(vec![(text("diagram"), text("graph TD; A-->B"))]);
    let explicit = payload(vec![
        (text("diagram"), text("graph TD; A-->B")),
        (text("theme"), text("default")),
    ]);
    let out_absent = render_mermaid(lib_source(), &absent).unwrap();
    let out_explicit = render_mermaid(lib_source(), &explicit).unwrap();
    assert_eq!(out_absent, out_explicit);
}

#[test]
fn rendering_twice_is_identical() {
    let input = payload(vec![(text("diagram"), text("graph TD; A-->B"))]);
    let first = render_mermaid(lib_source(), &input).unwrap();
    let second = render_mermaid(lib_source(), &input).unwrap();
    assert_eq!(first, second);
}

#[test]
fn malformed_payload_fails_before_any_script_runs() {
    // The library source here is not even valid script: had anything been
    // evaluated, the error would name the library load, not the decode.
    let err = render_mermaid("this is not script ((", &[0xff, 0xff]).unwrap_err();
    assert!(err.starts_with("Failed to deserialize input: "));
}

#[test]
fn simple_invalid_utf8_fails_before_any_script_runs() {
    let err = render_mermaid_simple("this is not script ((", &[0xff]).unwrap_err();
    assert!(err.starts_with("Invalid UTF-8 input: "));
}

#[test]
fn skipping_the_sanitizer_breaks_evaluation() {
    // Splicing a diagram with a raw backtick straight into the render
    // expression corrupts the generated script...
    let raw = "graph T` D";
    let mut host = bootstrap(lib_source(), "default").unwrap();
    let script = format!(
        "(function() {{ var result = mermaid.render('diagram', `{}`); return result.svg; }})()",
        raw
    );
    assert!(host.evaluate(&script).is_err());
    // ...while the sanitized pipeline hands the same text through intact.
    let out = render_mermaid_simple(lib_source(), raw.as_bytes()).unwrap();
    let svg = String::from_utf8(out).unwrap();
    assert!(svg.contains("graph T` D"));
}

#[test]
fn simple_end_to_end() {
    let out = render_mermaid_simple(lib_source(), "graph X".as_bytes()).unwrap();
    let svg = String::from_utf8(out).unwrap();
    assert!(svg.starts_with("<svg"));
    assert!(svg.contains("graph X"));
}

#[test]
fn theme_is_passed_to_initialization() {
    let input = payload(vec![
        (text("diagram"), text("graph TD; A-->B")),
        (text("theme"), text("dark")),
    ]);
    let out = render_mermaid(lib_source(), &input).unwrap();
    let svg = decode_svg(&out);
    assert!(svg.contains("data-theme=\"dark\""));
}

#[test]
fn theme_with_backtick_cannot_break_the_init_script() {
    let input = payload(vec![
        (text("diagram"), text("graph TD; A-->B")),
        (text("theme"), text("da`rk")),
    ]);
    let out = render_mermaid(lib_source(), &input).unwrap();
    let svg = decode_svg(&out);
    assert!(svg.contains("da`rk"));
}

#[test]
fn non_string_render_result_is_not_a_string_error() {
    let input = payload(vec![(text("diagram"), text("graph NUM"))]);
    let err = render_mermaid(lib_source(), &input).unwrap_err();
    assert_eq!(err, "Result is not a string");
    let err_simple = render_mermaid_simple(lib_source(), "graph NUM".as_bytes()).unwrap_err();
    assert_eq!(err_simple, "Result is not a string");
}

#[test]
fn unloadable_library_is_script_error() {
    let input = payload(vec![(text("diagram"), text("graph TD; A-->B"))]);
    let err = render_mermaid("syntax error ((", &input).unwrap_err();
    assert!(err.starts_with("Failed to load Mermaid library: "));
}

#[test]
fn failing_initialization_is_script_error() {
    // An empty library leaves `mermaid` undefined, so initialization throws.
    let input = payload(vec![(text("diagram"), text("graph TD; A-->B"))]);
    let err = render_mermaid("var unrelated = 1;", &input).unwrap_err();
    assert!(err.starts_with("Failed to initialize Mermaid: "));
}

#[test]
fn fresh_context_keeps_no_state_between_calls() {
    // A first call that poisons the interpreter's global state must not be
    // visible to a second, independent call.
    let poison = payload(vec![(text("diagram"), text("graph A; ${mermaid.render = null}"))]);
    let _ = render_mermaid(lib_source(), &poison);
    let input = payload(vec![(text("diagram"), text("graph TD; A-->B"))]);
    assert!(render_mermaid(lib_source(), &input).is_ok());
}
