//! The error taxonomy of the render pipeline.
//!
//! Every failure of a render call is one of these variants; each carries a
//! human-readable message naming the stage that failed and why. The first
//! failure short-circuits the pipeline and is returned immediately.

use vstd::prelude::*;

verus! {

/// A typed failure of one stage of the render pipeline.
///
/// - `Decode`: the input payload was malformed (bad binary encoding or
///   invalid UTF-8); nothing was evaluated.
/// - `Script`: the embedded interpreter failed to parse or execute script
///   source (library load, initialization, or the render call itself); the
///   message carries the interpreter's own text.
/// - `NotAString`: the render expression produced a value that is not text
///   where text was required.
/// - `Encode`: the produced SVG text could not be serialized into the
///   response encoding.
#[derive(Debug)]
pub enum RenderError {
    Decode(String),
    Script(String),
    NotAString(String),
    Encode(String),
}

impl RenderError {
    /// The message carried by this error, whichever variant it is.
    pub open spec fn spec_message(&self) -> Seq<char> {
        match self {
            RenderError::Decode(m) => m@,
            RenderError::Script(m) => m@,
            RenderError::NotAString(m) => m@,
            RenderError::Encode(m) => m@,
        }
    }

    /// Returns the human-readable message describing this failure.
    pub fn message(&self) -> (r: String)
        ensures
            r@ == self.spec_message(),
    {
        match self {
            RenderError::Decode(m) => m.clone(),
            RenderError::Script(m) => m.clone(),
            RenderError::NotAString(m) => m.clone(),
            RenderError::Encode(m) => m.clone(),
        }
    }
}

/// The fixed prefix of every message of a failed rich-entry-point decode.
pub open spec fn decode_failed_prefix() -> Seq<char> {
    "Failed to deserialize input: "@
}

/// The fixed prefix of every message of a failed simple-entry-point decode.
pub open spec fn invalid_utf8_prefix() -> Seq<char> {
    "Invalid UTF-8 input: "@
}

/// The fixed prefix of every message of a failed library load.
pub open spec fn load_failed_prefix() -> Seq<char> {
    "Failed to load Mermaid library: "@
}

/// The fixed prefix of every message of a failed initialization.
pub open spec fn init_failed_prefix() -> Seq<char> {
    "Failed to initialize Mermaid: "@
}

/// The fixed prefix of every message of a failed render evaluation.
pub open spec fn render_failed_prefix() -> Seq<char> {
    "Failed to render diagram: "@
}

/// The message of a render result that is not a string value.
pub open spec fn not_string_message() -> Seq<char> {
    "Result is not a string"@
}

/// The fixed prefix of every message of a string result that cannot be
/// represented as text.
pub open spec fn convert_failed_prefix() -> Seq<char> {
    "Failed to convert to string: "@
}

/// A sequence is a prefix of itself followed by anything.
pub proof fn lemma_prefix_of_concat(p: Seq<char>, rest: Seq<char>)
    ensures
        p.is_prefix_of(p + rest),
{
    assert(p =~= (p + rest).subrange(0, p.len() as int));
}

/// Two sequences that disagree at some position cannot both be prefixes of
/// the same message.
proof fn lemma_prefixes_differ(a: Seq<char>, b: Seq<char>, m: Seq<char>, i: int)
    requires
        0 <= i < a.len(),
        i < b.len(),
        a[i] != b[i],
        a.is_prefix_of(m),
    ensures
        !b.is_prefix_of(m),
{
    assert(a =~= m.subrange(0, a.len() as int));
    assert(a[i] == m[i]);
    if b.is_prefix_of(m) {
        assert(b =~= m.subrange(0, b.len() as int));
        assert(b[i] == m[i]);
    }
}

/// Law: the stage prefixes identify the failing stage unambiguously — a
/// message carrying the prefix of the library-load, initialization, render,
/// or string-conversion stage, or reporting a non-string result, never
/// carries a decode-stage prefix.
pub proof fn lemma_stage_prefixes_distinct(m: Seq<char>)
    ensures
        load_failed_prefix().is_prefix_of(m) ==> !decode_failed_prefix().is_prefix_of(m)
            && !invalid_utf8_prefix().is_prefix_of(m),
        init_failed_prefix().is_prefix_of(m) ==> !decode_failed_prefix().is_prefix_of(m)
            && !invalid_utf8_prefix().is_prefix_of(m),
        render_failed_prefix().is_prefix_of(m) ==> !decode_failed_prefix().is_prefix_of(m)
            && !invalid_utf8_prefix().is_prefix_of(m),
        convert_failed_prefix().is_prefix_of(m) ==> !decode_failed_prefix().is_prefix_of(m)
            && !invalid_utf8_prefix().is_prefix_of(m),
        m == not_string_message() ==> !decode_failed_prefix().is_prefix_of(m)
            && !invalid_utf8_prefix().is_prefix_of(m),
{
    reveal_strlit("Failed to deserialize input: ");
    reveal_strlit("Invalid UTF-8 input: ");
    reveal_strlit("Failed to load Mermaid library: ");
    reveal_strlit("Failed to initialize Mermaid: ");
    reveal_strlit("Failed to render diagram: ");
    reveal_strlit("Result is not a string");
    reveal_strlit("Failed to convert to string: ");
    if load_failed_prefix().is_prefix_of(m) {
        lemma_prefixes_differ(load_failed_prefix(), decode_failed_prefix(), m, 10);
        lemma_prefixes_differ(load_failed_prefix(), invalid_utf8_prefix(), m, 0);
    }
    if init_failed_prefix().is_prefix_of(m) {
        lemma_prefixes_differ(init_failed_prefix(), decode_failed_prefix(), m, 10);
        lemma_prefixes_differ(init_failed_prefix(), invalid_utf8_prefix(), m, 0);
    }
    if render_failed_prefix().is_prefix_of(m) {
        lemma_prefixes_differ(render_failed_prefix(), decode_failed_prefix(), m, 10);
        lemma_prefixes_differ(render_failed_prefix(), invalid_utf8_prefix(), m, 0);
    }
    if convert_failed_prefix().is_prefix_of(m) {
        lemma_prefixes_differ(convert_failed_prefix(), decode_failed_prefix(), m, 10);
        lemma_prefixes_differ(convert_failed_prefix(), invalid_utf8_prefix(), m, 0);
    }
    if m == not_string_message() {
        assert(decode_failed_prefix().len() > m.len());
        if invalid_utf8_prefix().is_prefix_of(m) {
            assert(invalid_utf8_prefix() =~= m.subrange(0, invalid_utf8_prefix().len() as int));
            assert(invalid_utf8_prefix()[0] == m[0]);
        }
    }
}

} // verus!
