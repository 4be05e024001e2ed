//! The library bootstrapper and the render invoker.
//!
//! Bootstrapping evaluates the bundled diagramming library's source into a
//! fresh execution context and then an initialization statement carrying
//! the rendering configuration. Rendering constructs a self-contained
//! script expression around the sanitized diagram text, evaluates it, and
//! reads the SVG string out of the result. Each step short-circuits on
//! first failure.

use vstd::prelude::*;

use crate::engine::ScriptHost;
use crate::errors::RenderError;
use crate::errors::convert_failed_prefix;
use crate::errors::init_failed_prefix;
use crate::errors::lemma_prefix_of_concat;
use crate::errors::load_failed_prefix;
use crate::errors::not_string_message;
use crate::errors::render_failed_prefix;
use crate::sanitize::escape;
use crate::script::init_script;
use crate::script::render_script;
use crate::script::simple_init_script;
use crate::script::simple_render_script;
use crate::text::prefixed;

verus! {

/// Labels a `Script` error with the stage that produced it; any other
/// variant passes through unchanged.
fn prefix_script(prefix: &str, e: RenderError) -> (r: RenderError)
    ensures
        e is Script ==> r is Script,
        e is Script ==> r.spec_message() == prefix@ + e.spec_message(),
        e is Script ==> prefix@.is_prefix_of(r.spec_message()),
        !(e is Script) ==> r == e,
{
    proof {
        lemma_prefix_of_concat(prefix@, e.spec_message());
    }
    match e {
        RenderError::Script(m) => RenderError::Script(prefixed(prefix, m.as_str())),
        other => other,
    }
}

/// Bootstraps a fresh execution context for the rich entry point: evaluates
/// the diagramming library's bundled source into it, then the
/// initialization statement for the given theme. The theme is
/// caller-controlled, so it passes through the same sanitizer as the
/// diagram text before being spliced into the generated statement; the
/// remaining configuration is fixed.
pub fn bootstrap(library_source: &str, theme: &str) -> (r: Result<ScriptHost, RenderError>)
    ensures
        r matches Ok(h) ==> h.is_initialized(),
        r matches Err(e) ==> e is Script && (load_failed_prefix().is_prefix_of(e.spec_message())
            || init_failed_prefix().is_prefix_of(e.spec_message())),
{
    let mut host = ScriptHost::new();
    match host.evaluate(library_source) {
        Ok(_) => {},
        Err(e) => {
            return Err(prefix_script("Failed to load Mermaid library: ", e));
        },
    }
    let escaped_theme = escape(theme);
    let init = init_script(escaped_theme.as_str());
    match host.evaluate(init.as_str()) {
        Ok(_) => {},
        Err(e) => {
            return Err(prefix_script("Failed to initialize Mermaid: ", e));
        },
    }
    host.mark_initialized();
    Ok(host)
}

/// Bootstraps a fresh execution context for the simple entry point: the
/// initialization statement is entirely constant, with the theme fixed to
/// `'default'`.
pub fn bootstrap_simple(library_source: &str) -> (r: Result<ScriptHost, RenderError>)
    ensures
        r matches Ok(h) ==> h.is_initialized(),
        r matches Err(e) ==> e is Script && (load_failed_prefix().is_prefix_of(e.spec_message())
            || init_failed_prefix().is_prefix_of(e.spec_message())),
{
    let mut host = ScriptHost::new();
    match host.evaluate(library_source) {
        Ok(_) => {},
        Err(e) => {
            return Err(prefix_script("Failed to load Mermaid library: ", e));
        },
    }
    let init = simple_init_script();
    match host.evaluate(init.as_str()) {
        Ok(_) => {},
        Err(e) => {
            return Err(prefix_script("Failed to initialize Mermaid: ", e));
        },
    }
    host.mark_initialized();
    Ok(host)
}

/// Renders one diagram in an initialized context, for the rich entry point:
/// sanitizes the diagram text, builds the guarded render expression around
/// it, evaluates that expression, and reads the result as text. A library
/// throw surfaces as a `Script` error; a non-string result as `NotAString`.
/// One evaluation attempt, no retry.
pub fn render_diagram(host: &mut ScriptHost, diagram: &str) -> (r: Result<String, RenderError>)
    requires
        old(host).is_initialized(),
    ensures
        r matches Err(e) ==> (e is Script && render_failed_prefix().is_prefix_of(e.spec_message()))
            || (e is NotAString && (e.spec_message() == not_string_message()
                || convert_failed_prefix().is_prefix_of(e.spec_message()))),
{
    let escaped = escape(diagram);
    let script = render_script(escaped.as_str());
    let value = match host.evaluate(script.as_str()) {
        Ok(v) => v,
        Err(e) => {
            return Err(prefix_script("Failed to render diagram: ", e));
        },
    };
    value.into_text()
}

/// Renders one diagram in an initialized context, for the simple entry
/// point: the render expression carries no script-level guard, so a library
/// throw surfaces with less detail — a documented divergence from the rich
/// entry point.
pub fn render_diagram_simple(host: &mut ScriptHost, diagram: &str) -> (r: Result<
    String,
    RenderError,
>)
    requires
        old(host).is_initialized(),
    ensures
        r matches Err(e) ==> (e is Script && render_failed_prefix().is_prefix_of(e.spec_message()))
            || (e is NotAString && (e.spec_message() == not_string_message()
                || convert_failed_prefix().is_prefix_of(e.spec_message()))),
{
    let escaped = escape(diagram);
    let script = simple_render_script(escaped.as_str());
    let value = match host.evaluate(script.as_str()) {
        Ok(v) => v,
        Err(e) => {
            return Err(prefix_script("Failed to render diagram: ", e));
        },
    };
    value.into_text()
}

} // verus!
