//! The input and output codecs.
//!
//! The rich entry point receives a CBOR-encoded map `{diagram: text,
//! theme?: text}` and answers with a CBOR-encoded text value (the SVG). The
//! simple entry point receives raw UTF-8 bytes and answers with raw UTF-8
//! bytes. The CBOR work itself is done by the `ciborium` crate behind
//! trusted declarations; the request-shape logic — which keys are read, how
//! a missing, duplicate or mistyped field is treated — is verified here
//! against a full specification over the decoded document model.

use vstd::prelude::*;
use vstd::string::StringExecFns;

use crate::errors::RenderError;
use crate::errors::decode_failed_prefix;
use crate::errors::invalid_utf8_prefix;
use crate::errors::lemma_prefix_of_concat;
use crate::text::prefixed;

verus! {

/// The model of a decoded CBOR document, as far as this protocol reads it:
/// a text string, a null, a map of documents, or anything else. Nested
/// values inside a map that are themselves maps are read by this protocol
/// only as "other".
pub enum CborDoc {
    Text(Seq<char>),
    Null,
    Entries(Seq<(CborDoc, CborDoc)>),
    Other,
}

/// The document that a byte payload decodes to, or `None` when the payload
/// is not well-formed CBOR. Named here, stated only by the trusted
/// declarations below: CBOR decoding is a function of the bytes alone.
pub uninterp spec fn cbor_doc(bytes: Seq<u8>) -> Option<CborDoc>;

/// The document model carried by a `ciborium` value.
pub uninterp spec fn value_doc(v: ciborium::value::Value) -> CborDoc;

/// The CBOR encoding of a text value; a function of the text alone.
pub uninterp spec fn cbor_of_text(s: Seq<char>) -> Seq<u8>;

#[verifier::external_type_specification]
#[verifier::external_body]
pub struct ExCborValue(ciborium::value::Value);

/// Relies on `ciborium::de::from_reader`: decodes one CBOR value from the
/// byte payload, deterministically, failing exactly on a malformed payload;
/// the error's display text is returned on failure.
#[verifier::external_body]
fn parse_cbor(input: &[u8]) -> (r: Result<ciborium::value::Value, String>)
    ensures
        r is Ok <==> cbor_doc(input@) is Some,
        r matches Ok(v) ==> cbor_doc(input@) == Some(value_doc(v)),
{
    match ciborium::de::from_reader::<ciborium::value::Value, &[u8]>(input) {
        Ok(v) => Ok(v),
        Err(e) => Err(format!("{}", e)),
    }
}

/// Relies on `ciborium::value::Value`: the `Map` variant holds its entries
/// as a vector of key-value pairs, in the order they appear in the payload.
#[verifier::external_body]
fn value_entries(v: ciborium::value::Value) -> (r: Option<
    Vec<(ciborium::value::Value, ciborium::value::Value)>,
>)
    ensures
        r is Some <==> value_doc(v) is Entries,
        r matches Some(m) ==> {
            &&& m@.len() == value_doc(v)->Entries_0.len()
            &&& forall|i: int|
                0 <= i < m@.len() ==> #[trigger] value_doc(m@[i].0) == value_doc(v)->Entries_0[i].0
                    && value_doc(m@[i].1) == value_doc(v)->Entries_0[i].1
        },
{
    match v {
        ciborium::value::Value::Map(m) => Some(m),
        _ => None,
    }
}

/// A shallow reading of one CBOR value: its text if it is a text string,
/// null if it is null, and nothing else — all this protocol ever reads of a
/// key or a field value.
pub enum ScalarItem {
    Text(String),
    Null,
    Other,
}

/// Relies on `ciborium::value::Value`: the `Text` variant holds the string,
/// the `Null` variant holds nothing; every other variant is read as
/// "other".
#[verifier::external_body]
fn value_scalar(v: &ciborium::value::Value) -> (r: ScalarItem)
    ensures
        r matches ScalarItem::Text(s) ==> value_doc(*v) == CborDoc::Text(s@),
        value_doc(*v) is Text ==> r is Text,
        r is Null <==> value_doc(*v) is Null,
{
    match v {
        ciborium::value::Value::Text(s) => ScalarItem::Text(s.clone()),
        ciborium::value::Value::Null => ScalarItem::Null,
        _ => ScalarItem::Other,
    }
}

/// Relies on `ciborium::ser::into_writer`: writes the CBOR text encoding of
/// the string into a fresh vector; the encoding is a function of the string
/// alone. Serializing a string only pushes a text header and the string's
/// bytes, and writing into a vector cannot fail, so the call always
/// succeeds; the `Err` arm only mirrors the signature of the outside call.
#[verifier::external_body]
fn cbor_encode_text(s: &str) -> (r: Result<Vec<u8>, String>)
    ensures
        r is Ok,
        r matches Ok(out) ==> out@ == cbor_of_text(s@),
{
    let mut out: Vec<u8> = Vec::new();
    match ciborium::ser::into_writer(s, &mut out) {
        Ok(()) => Ok(out),
        Err(e) => Err(format!("{}", e)),
    }
}

/// Relies on `String::from_utf8`: succeeds exactly when the bytes are valid
/// UTF-8, returning the text they encode; the error's display text is
/// returned otherwise.
#[verifier::external_body]
fn utf8_to_string(input: &[u8]) -> (r: Result<String, String>)
    ensures
        r is Ok <==> vstd::utf8::valid_utf8(input@),
        r matches Ok(s) ==> s@ == vstd::utf8::decode_utf8(input@),
{
    match String::from_utf8(input.to_vec()) {
        Ok(s) => Ok(s),
        Err(e) => Err(format!("{}", e)),
    }
}

/// Relies on `String::into_bytes`: returns the string's UTF-8 bytes.
#[verifier::external_body]
fn string_into_bytes(s: String) -> (r: Vec<u8>)
    ensures
        r@ == vstd::utf8::encode_utf8(s@),
{
    s.into_bytes()
}

/// A decoded render request: the diagram text, and the caller's theme if
/// one was supplied.
#[derive(Debug)]
pub struct RenderRequest {
    pub diagram: String,
    pub theme: Option<String>,
}

/// The mathematical shape of a render request.
pub struct SpecRequest {
    pub diagram: Seq<char>,
    pub theme: Option<Seq<char>>,
}

pub open spec fn opt_str_view(o: Option<String>) -> Option<Seq<char>> {
    match o {
        Some(s) => Some(s@),
        None => None,
    }
}

pub open spec fn opt_theme_view(o: Option<Option<String>>) -> Option<Option<Seq<char>>> {
    match o {
        Some(x) => Some(opt_str_view(x)),
        None => None,
    }
}

impl View for RenderRequest {
    type V = SpecRequest;

    open spec fn view(&self) -> SpecRequest {
        SpecRequest { diagram: self.diagram@, theme: opt_str_view(self.theme) }
    }
}

/// Walks the entries of the request map in payload order, accumulating the
/// diagram and theme fields. `None` is a decode failure: a duplicate field,
/// or a field of the wrong type. An entry whose key is not the text
/// `"diagram"` or `"theme"` is ignored. The theme accumulator distinguishes
/// "not seen yet" (outer `None`) from "seen as null" (inner `None`).
pub open spec fn scan_entries(
    entries: Seq<(CborDoc, CborDoc)>,
    diagram: Option<Seq<char>>,
    theme: Option<Option<Seq<char>>>,
) -> Option<(Option<Seq<char>>, Option<Option<Seq<char>>>)>
    decreases entries.len(),
{
    if entries.len() == 0 {
        Some((diagram, theme))
    } else {
        let key = entries[0].0;
        let value = entries[0].1;
        let rest = entries.skip(1);
        if key == CborDoc::Text("diagram"@) {
            if diagram is Some {
                None
            } else {
                match value {
                    CborDoc::Text(d) => scan_entries(rest, Some(d), theme),
                    _ => None,
                }
            }
        } else if key == CborDoc::Text("theme"@) {
            if theme is Some {
                None
            } else {
                match value {
                    CborDoc::Text(t) => scan_entries(rest, diagram, Some(Some(t))),
                    CborDoc::Null => scan_entries(rest, diagram, Some(None)),
                    _ => None,
                }
            }
        } else {
            scan_entries(rest, diagram, theme)
        }
    }
}

/// The request a decoded document describes: the document must be a map,
/// the scan of its entries must succeed, and the diagram field must be
/// present. An absent theme and a null theme both leave the request without
/// one.
pub open spec fn request_of_doc(doc: CborDoc) -> Option<SpecRequest> {
    match doc {
        CborDoc::Entries(entries) => match scan_entries(entries, None, None) {
            Some((d_opt, t_opt)) => match d_opt {
                Some(d) => Some(
                    SpecRequest {
                        diagram: d,
                        theme: match t_opt {
                            Some(t) => t,
                            None => None,
                        },
                    },
                ),
                None => None,
            },
            None => None,
        },
        _ => None,
    }
}

/// The request a byte payload decodes to, or `None` when the payload is
/// malformed — not well-formed CBOR, or not the shape this protocol asks
/// for.
pub open spec fn spec_decode(bytes: Seq<u8>) -> Option<SpecRequest> {
    match cbor_doc(bytes) {
        Some(doc) => request_of_doc(doc),
        None => None,
    }
}

/// Builds a decode failure whose message carries the decode-stage prefix.
fn decode_failure(detail: &str) -> (r: RenderError)
    ensures
        r is Decode,
        decode_failed_prefix().is_prefix_of(r.spec_message()),
{
    proof {
        lemma_prefix_of_concat(decode_failed_prefix(), detail@);
    }
    RenderError::Decode(prefixed("Failed to deserialize input: ", detail))
}

/// Decodes the rich entry point's binary payload into a render request.
///
/// Succeeds exactly on the payloads that decode to a request, returning
/// that request; every other payload yields a `Decode` error whose message
/// carries the decode-stage prefix, and nothing else is done with it.
pub fn decode_request(input: &[u8]) -> (r: Result<RenderRequest, RenderError>)
    ensures
        r is Ok <==> spec_decode(input@) is Some,
        r matches Ok(req) ==> Some(req@) == spec_decode(input@),
        r matches Err(e) ==> e is Decode && decode_failed_prefix().is_prefix_of(e.spec_message()),
{
    let v = match parse_cbor(input) {
        Ok(v) => v,
        Err(m) => {
            return Err(decode_failure(m.as_str()));
        },
    };
    let ghost doc = value_doc(v);
    let entries = match value_entries(v) {
        Some(m) => m,
        None => {
            return Err(decode_failure("the payload is not a map"));
        },
    };
    let ghost es = doc->Entries_0;
    let diagram_key = String::from_str("diagram");
    let theme_key = String::from_str("theme");
    let mut diagram: Option<String> = None;
    let mut theme: Option<Option<String>> = None;
    let n = entries.len();
    let mut i: usize = 0;
    proof {
        assert(es.skip(0) =~= es);
    }
    while i < n
        invariant
            i <= n,
            n == entries@.len(),
            es.len() == entries@.len(),
            diagram_key@ == "diagram"@,
            theme_key@ == "theme"@,
            doc == CborDoc::Entries(es),
            doc == value_doc(v),
            cbor_doc(input@) == Some(doc),
            forall|j: int|
                0 <= j < es.len() ==> #[trigger] value_doc(entries@[j].0) == es[j].0 && value_doc(
                    entries@[j].1,
                ) == es[j].1,
            scan_entries(es, None, None) == scan_entries(
                es.skip(i as int),
                opt_str_view(diagram),
                opt_theme_view(theme),
            ),
        decreases n - i,
    {
        let ghost rest = es.skip(i as int);
        proof {
            assert(rest[0] == es[i as int]);
            assert(rest.skip(1) =~= es.skip(i as int + 1));
        }
        let key_item = value_scalar(&entries[i].0);
        match key_item {
            ScalarItem::Text(k) => {
                if k == diagram_key {
                    if diagram.is_some() {
                        return Err(decode_failure("duplicate field 'diagram'"));
                    }
                    let val_item = value_scalar(&entries[i].1);
                    match val_item {
                        ScalarItem::Text(d) => {
                            diagram = Some(d);
                        },
                        _ => {
                            return Err(decode_failure("the field 'diagram' is not a text string"));
                        },
                    }
                } else if k == theme_key {
                    if theme.is_some() {
                        return Err(decode_failure("duplicate field 'theme'"));
                    }
                    let val_item = value_scalar(&entries[i].1);
                    match val_item {
                        ScalarItem::Text(t) => {
                            theme = Some(Some(t));
                        },
                        ScalarItem::Null => {
                            theme = Some(None);
                        },
                        ScalarItem::Other => {
                            return Err(
                                decode_failure("the field 'theme' is not a text string or null"),
                            );
                        },
                    }
                }
            },
            _ => {},
        }
        i = i + 1;
    }
    proof {
        assert(es.skip(n as int) =~= Seq::<(CborDoc, CborDoc)>::empty());
    }
    match diagram {
        None => Err(decode_failure("the field 'diagram' is missing")),
        Some(d) => {
            let t = match theme {
                Some(x) => x,
                None => None,
            };
            Ok(RenderRequest { diagram: d, theme: t })
        },
    }
}

/// Decodes the simple entry point's payload: the raw bytes must be valid
/// UTF-8, and are the diagram text themselves.
pub fn decode_simple(input: &[u8]) -> (r: Result<String, RenderError>)
    ensures
        r is Ok <==> vstd::utf8::valid_utf8(input@),
        r matches Ok(s) ==> s@ == vstd::utf8::decode_utf8(input@),
        r matches Err(e) ==> e is Decode && invalid_utf8_prefix().is_prefix_of(e.spec_message()),
{
    match utf8_to_string(input) {
        Ok(s) => Ok(s),
        Err(m) => {
            proof {
                lemma_prefix_of_concat(invalid_utf8_prefix(), m@);
            }
            Err(RenderError::Decode(prefixed("Invalid UTF-8 input: ", m.as_str())))
        },
    }
}

/// Encodes the rendered SVG for the rich entry point: the CBOR text
/// encoding of the string. Always succeeds; the `Err` arm only mirrors the
/// shape of the outside call.
pub fn encode_response(svg: &str) -> (r: Result<Vec<u8>, RenderError>)
    ensures
        r is Ok,
        r matches Ok(out) ==> out@ == cbor_of_text(svg@),
        r matches Err(e) ==> e is Encode,
{
    match cbor_encode_text(svg) {
        Ok(out) => Ok(out),
        Err(m) => Err(RenderError::Encode(prefixed("Failed to serialize output: ", m.as_str()))),
    }
}

/// Encodes the rendered SVG for the simple entry point: the raw UTF-8
/// bytes of the string, with no further framing.
pub fn encode_simple(svg: String) -> (r: Vec<u8>)
    ensures
        r@ == vstd::utf8::encode_utf8(svg@),
{
    string_into_bytes(svg)
}

} // verus!
