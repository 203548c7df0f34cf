//! The pure bodies of the two read-only operations.
//!
//! The list operation assembles the checksum document: one line per tag, in
//! tag-list order, each built from that tag's descriptor; the first
//! descriptor whose digest lacks the `sha256:` prefix aborts the whole
//! listing, so no partial document is ever produced. The resolve operation
//! is the composition of the name codec's decoder, the manifest fetch that
//! happens outside the library, the first-layer selection and the blob URL.

use vstd::prelude::*;
use vstd::string::*;
use crate::errors::AppError;
use crate::errors::ErrorKind;
use crate::errors::spec_invalid_digest_error;
use crate::pipeline::Descriptor;
use crate::pipeline::checksum_line;
use crate::pipeline::sha256_prefix;
use crate::pipeline::spec_checksum_line;
use crate::text::seq_has_prefix;

verus! {

/// The checksum document for a repository and a list of (tag, descriptor)
/// entries: the concatenation of the entries' checksum lines in order, or,
/// at the first descriptor whose digest lacks the `sha256:` prefix, the
/// detail of the invalid-digest error that aborts the listing.
pub open spec fn spec_checksum_body(
    repository: Seq<char>,
    entries: Seq<(String, Descriptor)>,
) -> Result<Seq<char>, Seq<char>>
    decreases entries.len(),
{
    if entries.len() == 0 {
        Ok(Seq::<char>::empty())
    } else {
        let tag = entries[0].0;
        let desc = entries[0].1;
        if seq_has_prefix(desc.digest@, sha256_prefix()) {
            match spec_checksum_body(repository, entries.skip(1)) {
                Ok(rest) => Ok(
                    spec_checksum_line(repository, tag@, desc.media_type@, desc.digest@) + rest,
                ),
                Err(detail) => Err(detail),
            }
        } else {
            Err(spec_invalid_digest_error(desc.digest@))
        }
    }
}

/// Assembles the checksum document for a repository from its tags and their
/// descriptors, in the order given. Any entry with an invalid digest aborts
/// the whole listing with that entry's error: no partial document.
pub fn checksum_body(repository: &str, entries: &Vec<(String, Descriptor)>) -> (r: Result<
    String,
    AppError,
>)
    ensures
        r is Ok <==> spec_checksum_body(repository@, entries@) is Ok,
        r matches Ok(body) ==> spec_checksum_body(repository@, entries@) == Ok::<_, Seq<char>>(
            body@,
        ),
        r matches Err(e) ==> e.kind == ErrorKind::InvalidDigest && spec_checksum_body(
            repository@,
            entries@,
        ) == Err::<Seq<char>, _>(e.detail@),
{
    let mut out = String::new();
    proof {
        assert(entries@.skip(0) =~= entries@);
        if spec_checksum_body(repository@, entries@) is Ok {
            let tail = spec_checksum_body(repository@, entries@)->Ok_0;
            assert(out@ + tail =~= tail);
        }
    }
    let mut i: usize = 0;
    while i < entries.len()
        invariant
            i <= entries@.len(),
            spec_checksum_body(repository@, entries@) == (match spec_checksum_body(
                repository@,
                entries@.skip(i as int),
            ) {
                Ok(tail) => Ok::<Seq<char>, Seq<char>>(out@ + tail),
                Err(detail) => Err::<Seq<char>, Seq<char>>(detail),
            }),
        decreases entries@.len() - i,
    {
        let pair = &entries[i];
        proof {
            assert(entries@.skip(i as int)[0] == entries@[i as int]);
            assert(entries@.skip(i as int).skip(1) =~= entries@.skip(i as int + 1));
        }
        match checksum_line(repository, pair.0.as_str(), &pair.1) {
            Ok(line) => {
                let ghost out_before = out@;
                out.append(line.as_str());
                proof {
                    if spec_checksum_body(repository@, entries@.skip(i as int + 1)) is Ok {
                        let tail = spec_checksum_body(
                            repository@,
                            entries@.skip(i as int + 1),
                        )->Ok_0;
                        assert(out_before + (line@ + tail) =~= out@ + tail);
                    }
                }
            },
            Err(e) => {
                proof {
                    assert(!seq_has_prefix(pair.1.digest@, sha256_prefix()));
                    assert(spec_checksum_body(repository@, entries@.skip(i as int)) == Err::<
                        Seq<char>,
                        Seq<char>,
                    >(spec_invalid_digest_error(pair.1.digest@)));
                }
                return Err(e);
            },
        }
        i = i + 1;
    }
    proof {
        assert(entries@.skip(i as int) =~= Seq::<(String, Descriptor)>::empty());
        assert(out@ + Seq::<char>::empty() =~= out@);
    }
    Ok(out)
}

} // verus!
