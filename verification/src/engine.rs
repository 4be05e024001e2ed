//! The script runtime host: a freshly created, single-use JavaScript
//! execution context per render call, owned exclusively by that call.
//!
//! The interpreter is the `boa_engine` crate, reached only through the
//! trusted declarations here. Evaluation runs arbitrary script with full
//! capability inside the context and its outcome depends on the context's
//! accumulated state, so nothing is assumed of the value that comes back;
//! every parse or execution failure is surfaced as a `Script` error carrying
//! the interpreter's message text, never a panic.

use vstd::prelude::*;
use vstd::string::StringExecFns;

use crate::errors::RenderError;
use crate::errors::convert_failed_prefix;
use crate::errors::lemma_prefix_of_concat;
use crate::errors::not_string_message;
use crate::text::prefixed;

verus! {

#[verifier::external_type_specification]
#[verifier::external_body]
pub struct ExContext(boa_engine::Context);

#[verifier::external_type_specification]
#[verifier::external_body]
pub struct ExJsValue(boa_engine::JsValue);

#[verifier::external_type_specification]
#[verifier::external_body]
pub struct ExJsString(boa_engine::JsString);

/// Relies on `boa_engine::Context::default`: builds a fresh interpreter
/// context holding only the built-in globals.
#[verifier::external_body]
fn new_context() -> boa_engine::Context {
    boa_engine::Context::default()
}

/// Relies on `boa_engine::Context::eval`: parses and executes the script
/// source against the context, returning the completion value, or the
/// thrown error's display text on any parse or execution failure.
#[verifier::external_body]
fn eval_in_context(context: &mut boa_engine::Context, source: &str) -> (r: Result<
    boa_engine::JsValue,
    String,
>) {
    match context.eval(boa_engine::Source::from_bytes(source)) {
        Ok(v) => Ok(v),
        Err(e) => Err(format!("{}", e)),
    }
}

/// Relies on `boa_engine::JsValue::as_string`: returns the underlying
/// string when the value is a string value, and nothing otherwise.
#[verifier::external_body]
fn value_as_jsstring(value: &boa_engine::JsValue) -> Option<boa_engine::JsString> {
    value.as_string()
}

/// Relies on `boa_engine::JsString::to_std_string`: converts the
/// interpreter's UTF-16 string to a `String`, or returns the error's
/// display text when the string holds an unpaired surrogate.
#[verifier::external_body]
fn jsstring_to_string(s: &boa_engine::JsString) -> Result<String, String> {
    match s.to_std_string() {
        Ok(r) => Ok(r),
        Err(e) => Err(format!("{}", e)),
    }
}

/// An isolated, single-use interpreter instance: created fresh for one
/// render call, loaded and configured by the bootstrapper, used for one
/// render, then discarded. No state crosses calls. The ghost flag records
/// that the bootstrapper has loaded the library and completed
/// initialization: no render is attempted against a context that does not
/// carry it.
pub struct ScriptHost {
    context: boa_engine::Context,
    initialized: Ghost<bool>,
}

/// A value produced by evaluating script source; opaque until read as text.
pub struct EvalValue {
    value: boa_engine::JsValue,
}

impl ScriptHost {
    /// Whether the bootstrapper has loaded the diagramming library into
    /// this context and completed initialization.
    pub closed spec fn is_initialized(&self) -> bool {
        self.initialized@
    }

    /// Records that the bootstrapper has loaded the library into this
    /// context and completed initialization.
    pub(crate) fn mark_initialized(&mut self)
        ensures
            final(self).is_initialized(),
    {
        self.initialized = Ghost(true);
    }

    /// Creates a fresh execution context holding only the interpreter's
    /// built-in globals; the library is not loaded yet.
    pub fn new() -> (r: ScriptHost)
        ensures
            !r.is_initialized(),
    {
        ScriptHost { context: new_context(), initialized: Ghost(false) }
    }

    /// Evaluates arbitrary script source against this context, mutating the
    /// context's global state. Any parse or execution failure is returned
    /// as a `Script` error carrying the interpreter's message text.
    /// Evaluating more script never unloads the library, so an initialized
    /// context stays initialized.
    pub fn evaluate(&mut self, source: &str) -> (r: Result<EvalValue, RenderError>)
        ensures
            r matches Err(e) ==> e is Script,
            final(self).is_initialized() == old(self).is_initialized(),
    {
        match eval_in_context(&mut self.context, source) {
            Ok(v) => Ok(EvalValue { value: v }),
            Err(m) => Err(RenderError::Script(m)),
        }
    }
}

impl EvalValue {
    /// Reads this value as text, as the render pipeline requires of the
    /// produced SVG. A value that is not a string value, or whose string
    /// cannot be represented as text, yields a `NotAString` error whose
    /// message says which of the two happened.
    pub fn into_text(self) -> (r: Result<String, RenderError>)
        ensures
            r matches Err(e) ==> e is NotAString && (e.spec_message() == not_string_message()
                || convert_failed_prefix().is_prefix_of(e.spec_message())),
    {
        match value_as_jsstring(&self.value) {
            None => Err(RenderError::NotAString(String::from_str("Result is not a string"))),
            Some(js) => match jsstring_to_string(&js) {
                Ok(s) => Ok(s),
                Err(m) => {
                    proof {
                        lemma_prefix_of_concat(convert_failed_prefix(), m@);
                    }
                    Err(
                        RenderError::NotAString(
                            prefixed("Failed to convert to string: ", m.as_str()),
                        ),
                    )
                },
            },
        }
    }
}

} // verus!
