use oci_file_gateway::codec::{decode, encode, extension_for};
use oci_file_gateway::errors::ErrorKind;

const DOCKER_TGZ: &str = "application/vnd.docker.image.rootfs.diff.tar.gzip";

#[test]
fn extension_docker_layer_is_tar_gz() {
    assert_eq!(extension_for(DOCKER_TGZ), ".tar.gz");
}

#[test]
fn extension_other_media_types_are_raw() {
    assert_eq!(extension_for("application/vnd.oci.image.layer.v1.tar"), ".raw");
    assert_eq!(extension_for("application/octet-stream"), ".raw");
    assert_eq!(extension_for(""), ".raw");
    // a near miss of the Docker layer type still maps to .raw
    assert_eq!(extension_for("application/vnd.docker.image.rootfs.diff.tar.gz"), ".raw");
}

#[test]
fn encode_builds_the_synthetic_filename() {
    assert_eq!(encode("myrepo", "v1", DOCKER_TGZ), "myrepo-v1.tar.gz");
    assert_eq!(encode("myrepo", "v2", "application/unknown"), "myrepo-v2.raw");
    assert_eq!(encode("myrepo", "", ""), "myrepo-.raw");
}

#[test]
fn decode_strips_prefix_and_extension() {
    assert_eq!(decode("myrepo", "myrepo-v1.tar.gz").unwrap(), "v1");
    assert_eq!(decode("myrepo", "myrepo-v2.raw").unwrap(), "v2");
}

#[test]
fn decode_inverts_encode() {
    let cases: &[(&str, &str, &str)] = &[
        ("myrepo", "v1", DOCKER_TGZ),
        ("myrepo", "v1", "application/unknown"),
        ("my-repo", "v1", DOCKER_TGZ),
        ("myrepo", "a-b-c", "application/unknown"),
        ("myrepo", "v1.tar.gz", "application/unknown"),
        ("myrepo", "v1.raw", DOCKER_TGZ),
        ("myrepo", "", DOCKER_TGZ),
    ];
    for (repo, tag, media) in cases {
        let filename = encode(repo, tag, media);
        assert_eq!(decode(repo, &filename).unwrap(), *tag);
    }
}

#[test]
fn decode_wrong_prefix_is_malformed() {
    let e = decode("myrepo", "unrelated-v1.raw").unwrap_err();
    assert_eq!(e.kind, ErrorKind::MalformedName);
    assert_eq!(
        e.detail,
        "failed to strip prefix myrepo- from unrelated-v1.raw"
    );
}

#[test]
fn decode_unknown_extension_is_malformed() {
    let e = decode("myrepo", "myrepo-v1.zip").unwrap_err();
    assert_eq!(e.kind, ErrorKind::MalformedName);
    assert_eq!(e.detail, "failed to strip suffix from v1.zip");
}

#[test]
fn decode_missing_separator_is_malformed() {
    let e = decode("myrepo", "myrepo.tar.gz").unwrap_err();
    assert_eq!(e.kind, ErrorKind::MalformedName);
}
