//! The resolution pipeline: from a manifest's layer list to the descriptor
//! to expose, from a descriptor to its checksum line, from a digest to the
//! redirect target, and the upstream URLs and status check used by the
//! registry client around it.
//!
//! The pipeline always exposes the *first* layer descriptor of a manifest;
//! a manifest with no layers is an error. A descriptor's digest must carry
//! the `sha256:` prefix, whose remainder is the hex checksum.

use vstd::prelude::*;
use vstd::string::*;
use crate::codec::spec_encode;
use crate::codec::encode;
use crate::errors::AppError;
use crate::errors::ErrorKind;
use crate::errors::spec_invalid_digest_error;
use crate::text::seq_has_prefix;
use crate::text::str_has_prefix;

verus! {

/// The part of an upstream layer descriptor that the gateway reads: the
/// media type (choosing the file extension), the content-addressed digest,
/// and the blob size in bytes.
#[derive(Debug)]
pub struct Descriptor {
    pub media_type: String,
    pub digest: String,
    pub size: u64,
}

/// The digest prefix naming the expected algorithm.
pub open spec fn sha256_prefix() -> Seq<char> {
    "sha256:"@
}

/// The hex checksum of a digest: what follows the algorithm prefix.
pub open spec fn spec_hex_of(digest: Seq<char>) -> Seq<char> {
    digest.skip(sha256_prefix().len() as int)
}

/// One line of the checksum document: the hex checksum, two spaces, the
/// synthetic filename, and a newline.
pub open spec fn spec_checksum_line(
    repository: Seq<char>,
    tag: Seq<char>,
    media_type: Seq<char>,
    digest: Seq<char>,
) -> Seq<char> {
    spec_hex_of(digest) + "  "@ + spec_encode(repository, tag, media_type) + "\n"@
}

/// The upstream URL listing a repository's tags.
pub fn tags_url(registry: &str, repository: &str) -> (r: String)
    ensures
        r@ == registry@ + "/v2/"@ + repository@ + "/tags/list"@,
{
    let mut url = registry.to_owned();
    url.append("/v2/");
    url.append(repository);
    url.append("/tags/list");
    url
}

/// The upstream URL of a manifest, for a tag or digest reference.
pub fn manifest_url(registry: &str, repository: &str, reference: &str) -> (r: String)
    ensures
        r@ == registry@ + "/v2/"@ + repository@ + "/manifests/"@ + reference@,
{
    let mut url = registry.to_owned();
    url.append("/v2/");
    url.append(repository);
    url.append("/manifests/");
    url.append(reference);
    url
}

/// The redirect target: the upstream URL of the blob a digest addresses.
pub fn blob_url(registry: &str, repository: &str, digest: &str) -> (r: String)
    ensures
        r@ == registry@ + "/v2/"@ + repository@ + "/blobs/"@ + digest@,
{
    let mut url = registry.to_owned();
    url.append("/v2/");
    url.append(repository);
    url.append("/blobs/");
    url.append(digest);
    url
}

/// Accepts an upstream response exactly when its status is 200, handing the
/// body on; any other status is an upstream error carrying the body as
/// diagnostic detail.
pub fn upstream_check(status: u16, body: String) -> (r: Result<String, AppError>)
    ensures
        status == 200 ==> (r matches Ok(b) && b == body),
        status != 200 ==> (r matches Err(e) && e.kind == ErrorKind::Upstream && e.detail == body),
{
    if status == 200 {
        Ok(body)
    } else {
        Err(AppError::upstream(body))
    }
}

/// Selects the descriptor to expose for a manifest: always the first entry
/// of its layer list; a manifest with no layers is an error.
pub fn first_layer(layers: Vec<Descriptor>) -> (r: Result<Descriptor, AppError>)
    ensures
        layers@.len() > 0 ==> (r matches Ok(d) && d == layers@[0]),
        layers@.len() == 0 ==> (r matches Err(e) && e.kind == ErrorKind::EmptyManifest
            && e.detail@ == "no layers"@),
{
    let mut layers = layers;
    if layers.len() == 0 {
        Err(AppError::empty_manifest())
    } else {
        Ok(layers.remove(0))
    }
}

/// Builds the checksum line for one tag's descriptor: the digest must carry
/// the `sha256:` prefix; its remainder is the hex checksum, followed by two
/// spaces, the encoded filename and a newline.
pub fn checksum_line(repository: &str, tag: &str, desc: &Descriptor) -> (r: Result<
    String,
    AppError,
>)
    ensures
        seq_has_prefix(desc.digest@, sha256_prefix()) ==> (r matches Ok(line) && line@
            == spec_checksum_line(repository@, tag@, desc.media_type@, desc.digest@)),
        !seq_has_prefix(desc.digest@, sha256_prefix()) ==> (r matches Err(e) && e.kind
            == ErrorKind::InvalidDigest && e.detail@ == spec_invalid_digest_error(desc.digest@)),
{
    if !str_has_prefix(desc.digest.as_str(), "sha256:") {
        return Err(AppError::invalid_digest(desc.digest.as_str()));
    }
    let d_len = desc.digest.as_str().unicode_len();
    let p_len = "sha256:".unicode_len();
    let checksum = desc.digest.as_str().substring_char(p_len, d_len);
    proof {
        assert(checksum@ =~= spec_hex_of(desc.digest@));
    }
    let mut line = checksum.to_owned();
    line.append("  ");
    let filename = encode(repository, tag, desc.media_type.as_str());
    line.append(filename.as_str());
    line.append("\n");
    Ok(line)
}

/// Reattaching the algorithm prefix to the hex checksum yields the original
/// digest: the checksum line loses no information about the digest.
pub proof fn lemma_checksum_round_trip(digest: Seq<char>)
    requires
        seq_has_prefix(digest, sha256_prefix()),
    ensures
        sha256_prefix() + spec_hex_of(digest) == digest,
{
    assert(sha256_prefix() + spec_hex_of(digest) =~= digest);
}

} // verus!
