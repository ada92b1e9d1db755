//! The rendering contract: a content-typed byte payload produced from the
//! accumulated state of a backend's storage.

use std::str::Utf8Error;
use vstd::prelude::*;
use vstd::string::StringSliceAdditionalSpecFns;
use vstd::utf8::valid_utf8;

verus! {

#[verifier::external_type_specification]
#[verifier::external_body]
pub struct ExUtf8Error(std::str::Utf8Error);

/// Relies on `std::str::from_utf8`: `Ok` exactly when the bytes are valid
/// UTF-8, and then a string slice over those same bytes.
#[verifier::external_body]
fn str_from_utf8(bytes: &[u8]) -> (r: Result<&str, Utf8Error>)
    ensures
        r is Ok <==> valid_utf8(bytes@),
        r is Ok ==> r->Ok_0.spec_bytes() == bytes@,
{
    std::str::from_utf8(bytes)
}

/// Storage that can render its metrics as an exposition payload.
pub trait MetricsRenderer {
    /// Error type for rendering failures.
    type Error;

    /// The content type that every successful render carries.
    spec fn spec_content_type(&self) -> Seq<char>;

    /// Rendering this storage cannot fail.
    spec fn spec_infallible(&self) -> bool;

    /// `out` is a payload this storage may render.
    spec fn spec_renders(&self, out: RenderedMetrics) -> bool;

    /// Render the metrics in this storage's exposition format.
    fn render(&self) -> (r: Result<RenderedMetrics, Self::Error>)
        ensures
            self.spec_infallible() ==> r is Ok,
            r is Ok ==> r->Ok_0.content_type@ == self.spec_content_type(),
            r is Ok ==> self.spec_renders(r->Ok_0),
    ;
}

/// A rendered exposition payload with its MIME content type.
pub struct RenderedMetrics {
    /// The MIME content type (e.g. `text/plain; version=0.0.4`).
    pub content_type: String,
    /// The raw bytes of the rendered output.
    pub body: Vec<u8>,
}

impl RenderedMetrics {
    /// Pair a content type with a body.
    pub fn new(content_type: &str, body: Vec<u8>) -> (r: Self)
        ensures
            r.content_type@ == content_type@,
            r.body@ == body@,
    {
        RenderedMetrics { content_type: content_type.to_owned(), body }
    }

    /// The body as text, when it is valid UTF-8.
    pub fn as_str(&self) -> (r: Result<&str, Utf8Error>)
        ensures
            r is Ok <==> valid_utf8(self.body@),
            r is Ok ==> r->Ok_0.spec_bytes() == self.body@,
    {
        str_from_utf8(self.body.as_slice())
    }

    /// The body as bytes.
    pub fn as_bytes(&self) -> (r: &[u8])
        ensures
            r@ == self.body@,
    {
        self.body.as_slice()
    }

    /// Consume the payload and return its body.
    pub fn into_bytes(self) -> (r: Vec<u8>)
        ensures
            r@ == self.body@,
    {
        self.body
    }
}

} // verus!
