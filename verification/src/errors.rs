//! The gateway's error taxonomy and its uniform mapping to an HTTP error
//! response.
//!
//! Every failure in the resolution chain is carried by [`AppError`]: a kind
//! that classifies the failure and a detail string with the diagnostic
//! payload. All of them surface to the caller as a 500 response whose body
//! embeds the detail.

use vstd::prelude::*;
use vstd::string::*;

verus! {

/// Classifies a failure of the gateway.
#[derive(Clone, Copy, Debug, PartialEq, Eq, Structural)]
pub enum ErrorKind {
    /// The client-supplied filename does not match the expected
    /// `<repository>-<tag><extension>` pattern.
    MalformedName,
    /// The upstream registry answered with a status other than 200.
    Upstream,
    /// An upstream response body could not be parsed into the expected shape.
    Decode,
    /// The image manifest has no layer descriptors to expose.
    EmptyManifest,
    /// A descriptor digest does not carry the expected algorithm prefix.
    InvalidDigest,
}

/// An application-level error: a classification plus a diagnostic detail
/// string that is embedded in the error response body.
#[derive(Debug)]
pub struct AppError {
    pub kind: ErrorKind,
    pub detail: String,
}

/// The detail message reporting that a filename lacks the
/// `<repository>-` prefix.
pub open spec fn spec_prefix_error(repository: Seq<char>, filename: Seq<char>) -> Seq<char> {
    "failed to strip prefix "@ + repository + "- from "@ + filename
}

/// The detail message reporting that a filename remainder ends in no
/// recognized extension.
pub open spec fn spec_suffix_error(rest: Seq<char>) -> Seq<char> {
    "failed to strip suffix from "@ + rest
}

/// The detail message reporting a digest without the expected algorithm
/// prefix.
pub open spec fn spec_invalid_digest_error(digest: Seq<char>) -> Seq<char> {
    "invalid digest: "@ + digest
}

/// The body of the HTTP error response: a generic message with the detail
/// embedded as the `inner` payload.
pub open spec fn spec_http_body(detail: Seq<char>) -> Seq<char> {
    "{\"message\":\"internal server error\",\"inner\":"@ + detail + "}"@
}

impl AppError {
    /// A malformed-name error for a filename that does not start with
    /// `<repository>-`.
    pub fn malformed_prefix(repository: &str, filename: &str) -> (r: AppError)
        ensures
            r.kind == ErrorKind::MalformedName,
            r.detail@ == spec_prefix_error(repository@, filename@),
    {
        let mut detail = "failed to strip prefix ".to_owned();
        detail.append(repository);
        detail.append("- from ");
        detail.append(filename);
        AppError { kind: ErrorKind::MalformedName, detail }
    }

    /// A malformed-name error for a filename remainder that ends in no
    /// recognized extension.
    pub fn malformed_suffix(rest: &str) -> (r: AppError)
        ensures
            r.kind == ErrorKind::MalformedName,
            r.detail@ == spec_suffix_error(rest@),
    {
        let mut detail = "failed to strip suffix from ".to_owned();
        detail.append(rest);
        AppError { kind: ErrorKind::MalformedName, detail }
    }

    /// An upstream error carrying the registry's response body verbatim as
    /// diagnostic detail.
    pub fn upstream(body: String) -> (r: AppError)
        ensures
            r.kind == ErrorKind::Upstream,
            r.detail == body,
    {
        AppError { kind: ErrorKind::Upstream, detail: body }
    }

    /// A decode error for an upstream body that could not be read as an
    /// image manifest.
    pub fn manifest_decode() -> (r: AppError)
        ensures
            r.kind == ErrorKind::Decode,
            r.detail@ == "reading image manifest"@,
    {
        AppError { kind: ErrorKind::Decode, detail: "reading image manifest".to_owned() }
    }

    /// An error for a manifest whose layer list is empty.
    pub fn empty_manifest() -> (r: AppError)
        ensures
            r.kind == ErrorKind::EmptyManifest,
            r.detail@ == "no layers"@,
    {
        AppError { kind: ErrorKind::EmptyManifest, detail: "no layers".to_owned() }
    }

    /// An error for a descriptor digest without the `sha256:` prefix.
    pub fn invalid_digest(digest: &str) -> (r: AppError)
        ensures
            r.kind == ErrorKind::InvalidDigest,
            r.detail@ == spec_invalid_digest_error(digest@),
    {
        let mut detail = "invalid digest: ".to_owned();
        detail.append(digest);
        AppError { kind: ErrorKind::InvalidDigest, detail }
    }

    /// The HTTP status this error surfaces with: always an internal server
    /// error, whatever the kind.
    pub fn status_code(&self) -> (r: u16)
        ensures
            r == 500,
    {
        500
    }

    /// The response body this error surfaces with: a generic message with
    /// the detail embedded as the `inner` payload.
    pub fn http_body(&self) -> (r: String)
        ensures
            r@ == spec_http_body(self.detail@),
    {
        let mut body = "{\"message\":\"internal server error\",\"inner\":".to_owned();
        body.append(self.detail.as_str());
        body.append("}");
        body
    }
}

} // verus!
