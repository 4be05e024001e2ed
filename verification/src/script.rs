//! Generation of the script source evaluated by the embedded interpreter:
//! the initialization statement carrying the rendering configuration, and
//! the self-contained render expressions for the two entry points.
//!
//! Every caller-controlled value spliced into generated source is embedded
//! inside a backtick-delimited template literal and must first pass through
//! [`crate::sanitize::escape`]; that includes the theme, which is as
//! untrusted as the diagram text.

use vstd::prelude::*;
use vstd::string::StringExecFns;

use crate::sanitize::escape_spec;

verus! {

/// The theme actually used for a request: the caller's, or `"default"`
/// when none was supplied.
pub open spec fn effective_theme_spec(theme: Option<Seq<char>>) -> Seq<char> {
    match theme {
        Some(t) => t,
        None => "default"@,
    }
}

/// Picks the theme for a request, falling back to `"default"`.
pub fn effective_theme(theme: &Option<String>) -> (r: &str)
    ensures
        r@ == effective_theme_spec(
            match theme {
                Some(t) => Some(t@),
                None => None,
            },
        ),
{
    match theme {
        Some(t) => t.as_str(),
        None => "default",
    }
}

/// Law: omitting the theme is the same as asking for `"default"`. The
/// effective theme — and with it every generated script of the pipeline —
/// is identical in the two cases.
pub proof fn lemma_omitted_theme_is_default()
    ensures
        effective_theme_spec(None) == effective_theme_spec(Some("default"@)),
        init_script_spec(escape_spec(effective_theme_spec(None))) == init_script_spec(
            escape_spec(effective_theme_spec(Some("default"@))),
        ),
{
}

/// The initialization statement: fixed configuration except for the theme,
/// which is spliced as a template literal. `startOnLoad` and
/// `securityLevel` are invariants of this system, never caller-chosen.
pub open spec fn init_script_spec(escaped_theme: Seq<char>) -> Seq<char> {
    "mermaid.initialize({ startOnLoad: false, theme: `"@ + escaped_theme
        + "`, securityLevel: 'strict', logLevel: 'error' });"@
}

/// Builds the initialization statement around an already-escaped theme.
pub fn init_script(escaped_theme: &str) -> (r: String)
    ensures
        r@ == init_script_spec(escaped_theme@),
{
    let mut s = String::from_str("mermaid.initialize({ startOnLoad: false, theme: `");
    s.append(escaped_theme);
    s.append("`, securityLevel: 'strict', logLevel: 'error' });");
    s
}

/// The initialization statement of the simple entry point: entirely
/// constant, with the theme fixed to `'default'` and no log level — a
/// documented divergence from the rich entry point.
pub open spec fn simple_init_script_spec() -> Seq<char> {
    "mermaid.initialize({ startOnLoad: false, theme: 'default', securityLevel: 'strict' });"@
}

/// Builds the constant initialization statement of the simple entry point.
pub fn simple_init_script() -> (r: String)
    ensures
        r@ == simple_init_script_spec(),
{
    String::from_str(
        "mermaid.initialize({ startOnLoad: false, theme: 'default', securityLevel: 'strict' });",
    )
}

/// The render expression of the rich entry point: an immediately-invoked
/// function that calls the library's synchronous render routine on the
/// escaped diagram text, checks that a result with an `svg` field came
/// back, and re-throws any library error with a descriptive message.
pub open spec fn render_script_spec(escaped_diagram: Seq<char>) -> Seq<char> {
    "(function() { try { var result = mermaid.render('mermaid-diagram', `"@ + escaped_diagram
        + "`); if (result && result.svg) { return result.svg; } else { throw new Error('No SVG returned from mermaid.render'); } } catch (error) { throw new Error('Mermaid render error: ' + error.message); } })()"@
}

/// Builds the rich render expression around an already-escaped diagram.
pub fn render_script(escaped_diagram: &str) -> (r: String)
    ensures
        r@ == render_script_spec(escaped_diagram@),
{
    let mut s = String::from_str("(function() { try { var result = mermaid.render('mermaid-diagram', `");
    s.append(escaped_diagram);
    s.append(
        "`); if (result && result.svg) { return result.svg; } else { throw new Error('No SVG returned from mermaid.render'); } } catch (error) { throw new Error('Mermaid render error: ' + error.message); } })()",
    );
    s
}

/// The render expression of the simple entry point: no script-level
/// try/catch and no check of the result shape — a narrower failure surface
/// than the rich entry point, kept as a documented divergence.
pub open spec fn simple_render_script_spec(escaped_diagram: Seq<char>) -> Seq<char> {
    "(function() { var result = mermaid.render('diagram', `"@ + escaped_diagram
        + "`); return result.svg; })()"@
}

/// Builds the simple render expression around an already-escaped diagram.
pub fn simple_render_script(escaped_diagram: &str) -> (r: String)
    ensures
        r@ == simple_render_script_spec(escaped_diagram@),
{
    let mut s = String::from_str("(function() { var result = mermaid.render('diagram', `");
    s.append(escaped_diagram);
    s.append("`); return result.svg; })()");
    s
}

} // verus!
