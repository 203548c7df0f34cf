use oci_file_gateway::errors::ErrorKind;
use oci_file_gateway::pipeline::{
    blob_url, checksum_line, first_layer, manifest_url, tags_url, upstream_check, Descriptor,
};

const DOCKER_TGZ: &str = "application/vnd.docker.image.rootfs.diff.tar.gzip";

fn desc(media_type: &str, digest: &str) -> Descriptor {
    Descriptor {
        media_type: media_type.to_string(),
        digest: digest.to_string(),
        size: 123,
    }
}

#[test]
fn tags_url_matches_distribution_api() {
    assert_eq!(
        tags_url("http://localhost:5000", "myrepo"),
        "http://localhost:5000/v2/myrepo/tags/list"
    );
}

#[test]
fn manifest_url_matches_distribution_api() {
    assert_eq!(
        manifest_url("http://localhost:5000", "myrepo", "v1"),
        "http://localhost:5000/v2/myrepo/manifests/v1"
    );
}

#[test]
fn blob_url_matches_distribution_api() {
    assert_eq!(
        blob_url("http://localhost:5000", "myrepo", "sha256:aaa111"),
        "http://localhost:5000/v2/myrepo/blobs/sha256:aaa111"
    );
}

#[test]
fn upstream_ok_hands_the_body_on() {
    let r = upstream_check(200, "{\"name\":\"myrepo\",\"tags\":[\"v1\"]}".to_string());
    assert_eq!(r.unwrap(), "{\"name\":\"myrepo\",\"tags\":[\"v1\"]}");
}

#[test]
fn upstream_404_is_an_upstream_error_carrying_the_body() {
    let body = "{\"errors\":[{\"code\":\"NAME_UNKNOWN\"}]}";
    let e = upstream_check(404, body.to_string()).unwrap_err();
    assert_eq!(e.kind, ErrorKind::Upstream);
    assert_eq!(e.detail, body);
    // the error surfaces as a 500 whose body embeds the upstream body
    assert_eq!(e.status_code(), 500);
    let http = e.http_body();
    assert_eq!(
        http,
        format!("{{\"message\":\"internal server error\",\"inner\":{}}}", body)
    );
    assert!(http.contains(body));
}

#[test]
fn first_layer_selects_the_first_descriptor() {
    let layers = vec![
        desc(DOCKER_TGZ, "sha256:aaa111"),
        desc("application/unknown", "sha256:bbb222"),
    ];
    let d = first_layer(layers).unwrap();
    assert_eq!(d.digest, "sha256:aaa111");
    assert_eq!(d.media_type, DOCKER_TGZ);
}

#[test]
fn first_layer_of_empty_manifest_is_an_error() {
    let e = first_layer(Vec::new()).unwrap_err();
    assert_eq!(e.kind, ErrorKind::EmptyManifest);
    assert_eq!(e.detail, "no layers");
}

#[test]
fn checksum_line_strips_the_digest_prefix() {
    let line = checksum_line("myrepo", "v1", &desc(DOCKER_TGZ, "sha256:aaa111")).unwrap();
    assert_eq!(line, "aaa111  myrepo-v1.tar.gz\n");
}

#[test]
fn checksum_hex_round_trips_to_the_digest() {
    let digest = "sha256:deadbeef";
    let line = checksum_line("myrepo", "v1", &desc("application/unknown", digest)).unwrap();
    let hex = line.split_whitespace().next().unwrap();
    assert_eq!(format!("sha256:{}", hex), digest);
}

#[test]
fn checksum_line_rejects_a_foreign_digest() {
    let e = checksum_line("myrepo", "v1", &desc(DOCKER_TGZ, "md5:aaa111")).unwrap_err();
    assert_eq!(e.kind, ErrorKind::InvalidDigest);
    assert_eq!(e.detail, "invalid digest: md5:aaa111");
}
