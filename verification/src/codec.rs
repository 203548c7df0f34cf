//! The name codec: a (repository, tag, media type) triple is encoded into a
//! synthetic filename `<repository>-<tag><extension>`, and a filename is
//! decoded back into the tag it names.
//!
//! The extension is `.tar.gz` exactly when the media type is the Docker
//! layer diff type, `.raw` for every other media type. Decoding strips the
//! `<repository>-` prefix, then whichever recognized extension is a suffix,
//! `.tar.gz` being tried first; a filename lacking either is malformed.

use vstd::prelude::*;
use vstd::string::*;
use crate::errors::AppError;
use crate::errors::ErrorKind;
use crate::errors::spec_prefix_error;
use crate::errors::spec_suffix_error;
use crate::text::seq_has_prefix;
use crate::text::seq_has_suffix;
use crate::text::str_has_prefix;
use crate::text::str_has_suffix;
use crate::text::str_eq;

verus! {

/// The media type of a gzipped Docker image layer.
pub open spec fn docker_layer_media_type() -> Seq<char> {
    "application/vnd.docker.image.rootfs.diff.tar.gzip"@
}

/// The extension chosen for gzipped Docker layers.
pub open spec fn ext_tar_gz() -> Seq<char> {
    ".tar.gz"@
}

/// The extension chosen for every other media type.
pub open spec fn ext_raw() -> Seq<char> {
    ".raw"@
}

/// The separator between the repository name and the tag in a filename.
pub open spec fn separator() -> Seq<char> {
    "-"@
}

/// The extension a descriptor's media type maps to.
pub open spec fn spec_extension_for(media_type: Seq<char>) -> Seq<char> {
    if media_type == docker_layer_media_type() {
        ext_tar_gz()
    } else {
        ext_raw()
    }
}

/// The synthetic filename for a repository, tag and media type.
pub open spec fn spec_encode(repository: Seq<char>, tag: Seq<char>, media_type: Seq<char>) -> Seq<
    char,
> {
    repository + separator() + tag + spec_extension_for(media_type)
}

/// The tag a filename decodes to under a repository, or `None` when the
/// filename is malformed: the `<repository>-` prefix is stripped, then the
/// `.tar.gz` extension if it is a suffix, else the `.raw` extension.
pub open spec fn spec_decode(repository: Seq<char>, filename: Seq<char>) -> Option<Seq<char>> {
    let prefix = repository + separator();
    if seq_has_prefix(filename, prefix) {
        let rest = filename.skip(prefix.len() as int);
        if seq_has_suffix(rest, ext_tar_gz()) {
            Some(rest.take(rest.len() - ext_tar_gz().len()))
        } else if seq_has_suffix(rest, ext_raw()) {
            Some(rest.take(rest.len() - ext_raw().len()))
        } else {
            None
        }
    } else {
        None
    }
}

/// Selects the file extension for a media type: `.tar.gz` for the Docker
/// layer diff type, `.raw` for anything else.
pub fn extension_for(media_type: &str) -> (r: &'static str)
    ensures
        r@ == spec_extension_for(media_type@),
{
    if str_eq(media_type, "application/vnd.docker.image.rootfs.diff.tar.gzip") {
        ".tar.gz"
    } else {
        ".raw"
    }
}

/// Encodes a repository, tag and media type into the synthetic filename
/// `<repository>-<tag><extension>`.
pub fn encode(repository: &str, tag: &str, media_type: &str) -> (r: String)
    ensures
        r@ == spec_encode(repository@, tag@, media_type@),
{
    let mut out = repository.to_owned();
    out.append("-");
    out.append(tag);
    out.append(extension_for(media_type));
    out
}

/// Decodes a synthetic filename back into the tag it names, under the given
/// repository. Fails with a malformed-name error when the filename does not
/// start with `<repository>-`, or when the remainder ends in no recognized
/// extension.
pub fn decode(repository: &str, filename: &str) -> (r: Result<String, AppError>)
    ensures
        r is Ok <==> spec_decode(repository@, filename@) is Some,
        r matches Ok(tag) ==> spec_decode(repository@, filename@) == Some(tag@),
        r matches Err(e) ==> e.kind == ErrorKind::MalformedName && (
        if !seq_has_prefix(filename@, repository@ + separator()) {
            e.detail@ == spec_prefix_error(repository@, filename@)
        } else {
            e.detail@ == spec_suffix_error(
                filename@.skip(repository@.len() + separator().len() as int),
            )
        }),
{
    let mut prefix = repository.to_owned();
    prefix.append("-");
    if !str_has_prefix(filename, prefix.as_str()) {
        return Err(AppError::malformed_prefix(repository, filename));
    }
    let f_len = filename.unicode_len();
    let p_len = prefix.as_str().unicode_len();
    let rest = filename.substring_char(p_len, f_len);
    let r_len = f_len - p_len;
    proof {
        assert(rest@ =~= filename@.skip(repository@.len() + separator().len() as int));
    }
    if str_has_suffix(rest, ".tar.gz") {
        let e_len = ".tar.gz".unicode_len();
        let tag = rest.substring_char(0, r_len - e_len);
        proof {
            assert(tag@ =~= rest@.take(rest@.len() - ext_tar_gz().len()));
        }
        Ok(tag.to_owned())
    } else if str_has_suffix(rest, ".raw") {
        let e_len = ".raw".unicode_len();
        let tag = rest.substring_char(0, r_len - e_len);
        proof {
            assert(tag@ =~= rest@.take(rest@.len() - ext_raw().len()));
        }
        Ok(tag.to_owned())
    } else {
        Err(AppError::malformed_suffix(rest))
    }
}

/// The codec round-trips: decoding the encoding of any repository, tag and
/// media type yields the tag back. The repository is supplied separately to
/// the decoder, so prefix stripping is unambiguous; and no tag followed by
/// `.raw` can end in `.tar.gz`, so suffix stripping recovers exactly the
/// extension that encoding appended.
pub proof fn lemma_decode_encode(repository: Seq<char>, tag: Seq<char>, media_type: Seq<char>)
    ensures
        spec_decode(repository, spec_encode(repository, tag, media_type)) == Some(tag),
{
    reveal_strlit("-");
    reveal_strlit(".tar.gz");
    reveal_strlit(".raw");
    let prefix = repository + separator();
    let ext = spec_extension_for(media_type);
    let filename = spec_encode(repository, tag, media_type);
    assert(filename =~= prefix + (tag + ext));
    assert(seq_has_prefix(filename, prefix)) by {
        assert(filename.subrange(0, prefix.len() as int) =~= prefix);
    }
    let rest = filename.skip(prefix.len() as int);
    assert(rest =~= tag + ext);
    if media_type == docker_layer_media_type() {
        assert(seq_has_suffix(rest, ext_tar_gz())) by {
            assert(rest.subrange(rest.len() - ext_tar_gz().len(), rest.len() as int)
                =~= ext_tar_gz());
        }
        assert(rest.take(rest.len() - ext_tar_gz().len()) =~= tag);
    } else {
        assert(rest =~= tag + ext_raw());
        assert(!seq_has_suffix(rest, ext_tar_gz())) by {
            if seq_has_suffix(rest, ext_tar_gz()) {
                let s7 = rest.subrange(rest.len() - ext_tar_gz().len(), rest.len() as int);
                assert(s7[4] == rest[rest.len() - 3]);
                assert(rest[rest.len() - 3] == ext_raw()[1]);
                assert(s7[4] == ext_tar_gz()[4]);
            }
        }
        assert(seq_has_suffix(rest, ext_raw())) by {
            assert(rest.subrange(rest.len() - ext_raw().len(), rest.len() as int) =~= ext_raw());
        }
        assert(rest.take(rest.len() - ext_raw().len()) =~= tag);
    }
}

} // verus!
