use docker_client::endpoints::{
    container_info_url, containers_url, export_url, filesystem_changes_url, images_url, info_url,
    ping_url, processes_url, version_url,
};
use docker_client::errors::{usize_decimal, Error};

#[test]
fn endpoint_paths_follow_their_templates() {
    assert_eq!(containers_url("all=1"), "/containers/json?all=1");
    assert_eq!(processes_url("abc123"), "/containers/abc123/top");
    assert_eq!(container_info_url("abc123"), "/containers/abc123/json");
    assert_eq!(
        filesystem_changes_url("abc123"),
        "/containers/abc123/changes"
    );
    assert_eq!(export_url("abc123"), "/containers/abc123/export");
    assert_eq!(info_url(), "/info");
    assert_eq!(ping_url(), "/_ping");
    assert_eq!(version_url(), "/version");
}

#[test]
fn image_listing_encodes_the_all_flag() {
    assert_eq!(images_url(true), "/images/json?a=1");
    assert_eq!(images_url(false), "/images/json?a=0");
}

#[test]
fn decimal_rendering_is_exact() {
    assert_eq!(usize_decimal(0), "0");
    assert_eq!(usize_decimal(7), "7");
    assert_eq!(usize_decimal(404), "404");
    assert_eq!(usize_decimal(65535), "65535");
}

#[test]
fn status_error_message_embeds_the_code() {
    let err = Error::HttpStatus { status: 502 };
    assert_eq!(err.message(), "HTTP request failed: 502");
}
