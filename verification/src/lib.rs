//! Renders Mermaid diagram text to SVG by executing a bundled JavaScript
//! diagramming library inside an embedded interpreter.
//!
//! Each entry point runs one pipeline — decode the request payload,
//! bootstrap a fresh script context with the library source and a theme,
//! sanitize the untrusted diagram text, evaluate a generated render
//! expression, and encode the resulting SVG back into the response format —
//! and every stage fails fast with a typed error; no stage panics. The
//! bundled library's source is fetched by a build step outside this crate
//! and handed in by the caller.

pub mod codec;
pub mod engine;
pub mod errors;
pub mod render;
pub mod sanitize;
pub mod script;
pub mod text;

use vstd::prelude::*;

use crate::codec::decode_request;
use crate::codec::decode_simple;
use crate::codec::encode_response;
use crate::codec::encode_simple;
use crate::render::bootstrap;
use crate::render::bootstrap_simple;
use crate::render::render_diagram;
use crate::render::render_diagram_simple;
use crate::script::effective_theme;

verus! {

/// The rich entry point: the payload is a CBOR-encoded map
/// `{diagram: text, theme?: text}`, the response a CBOR-encoded text value
/// holding the SVG. The theme defaults to `"default"` when absent.
///
/// A malformed payload — not well-formed CBOR, or not the request shape —
/// is rejected before any script is evaluated; the pipeline runs decode,
/// bootstrap, sanitize, render, encode, in that order, and returns the
/// first failure's message, prefixed with the stage that failed: exactly
/// the malformed payloads yield the decode-stage message, and every error
/// message names its stage.
pub fn render_mermaid(library_source: &str, input: &[u8]) -> (r: Result<Vec<u8>, String>)
    ensures
        codec::spec_decode(input@) is None <==> (r matches Err(m)
            && errors::decode_failed_prefix().is_prefix_of(m@)),
        r matches Err(m) ==> {
            ||| errors::decode_failed_prefix().is_prefix_of(m@)
            ||| errors::load_failed_prefix().is_prefix_of(m@)
            ||| errors::init_failed_prefix().is_prefix_of(m@)
            ||| errors::render_failed_prefix().is_prefix_of(m@)
            ||| m@ == errors::not_string_message()
            ||| errors::convert_failed_prefix().is_prefix_of(m@)
        },
        r matches Ok(out) ==> exists|svg: Seq<char>| out@ == codec::cbor_of_text(svg),
{
    let request = match decode_request(input) {
        Ok(q) => q,
        Err(e) => {
            return Err(e.message());
        },
    };
    let theme = effective_theme(&request.theme);
    let mut host = match bootstrap(library_source, theme) {
        Ok(h) => h,
        Err(e) => {
            proof {
                errors::lemma_stage_prefixes_distinct(e.spec_message());
            }
            return Err(e.message());
        },
    };
    let svg = match render_diagram(&mut host, request.diagram.as_str()) {
        Ok(s) => s,
        Err(e) => {
            proof {
                errors::lemma_stage_prefixes_distinct(e.spec_message());
            }
            return Err(e.message());
        },
    };
    match encode_response(svg.as_str()) {
        Ok(out) => {
            proof {
                assert(exists|s: Seq<char>| out@ == codec::cbor_of_text(s)) by {
                    assert(out@ == codec::cbor_of_text(svg@));
                }
            }
            Ok(out)
        },
        Err(e) => Err(e.message()),
    }
}

/// The simple entry point: the payload is the diagram text itself as raw
/// UTF-8 bytes, the response the raw UTF-8 bytes of the SVG. The theme is
/// fixed to `"default"`.
///
/// Bytes that are not valid UTF-8 are rejected before any script is
/// evaluated, and exactly those payloads yield the decode-stage message;
/// every error message names its stage.
pub fn render_mermaid_simple(library_source: &str, input: &[u8]) -> (r: Result<Vec<u8>, String>)
    ensures
        !vstd::utf8::valid_utf8(input@) <==> (r matches Err(m)
            && errors::invalid_utf8_prefix().is_prefix_of(m@)),
        r matches Err(m) ==> {
            ||| errors::invalid_utf8_prefix().is_prefix_of(m@)
            ||| errors::load_failed_prefix().is_prefix_of(m@)
            ||| errors::init_failed_prefix().is_prefix_of(m@)
            ||| errors::render_failed_prefix().is_prefix_of(m@)
            ||| m@ == errors::not_string_message()
            ||| errors::convert_failed_prefix().is_prefix_of(m@)
        },
        r matches Ok(out) ==> exists|svg: Seq<char>| out@ == vstd::utf8::encode_utf8(svg),
{
    let diagram = match decode_simple(input) {
        Ok(d) => d,
        Err(e) => {
            return Err(e.message());
        },
    };
    let mut host = match bootstrap_simple(library_source) {
        Ok(h) => h,
        Err(e) => {
            proof {
                errors::lemma_stage_prefixes_distinct(e.spec_message());
            }
            return Err(e.message());
        },
    };
    let svg = match render_diagram_simple(&mut host, diagram.as_str()) {
        Ok(s) => s,
        Err(e) => {
            proof {
                errors::lemma_stage_prefixes_distinct(e.spec_message());
            }
            return Err(e.message());
        },
    };
    let ghost svg_chars = svg@;
    let out = encode_simple(svg);
    proof {
        assert(exists|s: Seq<char>| out@ == vstd::utf8::encode_utf8(s)) by {
            assert(out@ == vstd::utf8::encode_utf8(svg_chars));
        }
    }
    Ok(out)
}

} // verus!
