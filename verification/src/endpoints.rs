//! The resource paths of the daemon's endpoints.
//!
//! Each endpoint is a URL template over a container id or a query string;
//! the path built here is handed to the URL builder of the active transport.

use vstd::prelude::*;

verus! {

/// The container-listing path for the given query parameters.
pub fn containers_url(params: &str) -> (r: String)
    ensures
        r@ == "/containers/json?"@ + params@,
{
    let mut url = String::from_str("/containers/json?");
    url.append(params);
    url
}

/// The process-listing path for one container.
pub fn processes_url(container_id: &str) -> (r: String)
    ensures
        r@ == "/containers/"@ + container_id@ + "/top"@,
{
    let mut url = String::from_str("/containers/");
    url.append(container_id);
    url.append("/top");
    url
}

/// The detailed-information path for one container.
pub fn container_info_url(container_id: &str) -> (r: String)
    ensures
        r@ == "/containers/"@ + container_id@ + "/json"@,
{
    let mut url = String::from_str("/containers/");
    url.append(container_id);
    url.append("/json");
    url
}

/// The filesystem-changes path for one container.
pub fn filesystem_changes_url(container_id: &str) -> (r: String)
    ensures
        r@ == "/containers/"@ + container_id@ + "/changes"@,
{
    let mut url = String::from_str("/containers/");
    url.append(container_id);
    url.append("/changes");
    url
}

/// The archive-export path for one container.
pub fn export_url(container_id: &str) -> (r: String)
    ensures
        r@ == "/containers/"@ + container_id@ + "/export"@,
{
    let mut url = String::from_str("/containers/");
    url.append(container_id);
    url.append("/export");
    url
}

/// The image-listing path; `all` asks for intermediate images too.
pub fn images_url(all: bool) -> (r: String)
    ensures
        all ==> r@ == "/images/json?a=1"@,
        !all ==> r@ == "/images/json?a=0"@,
{
    if all {
        String::from_str("/images/json?a=1")
    } else {
        String::from_str("/images/json?a=0")
    }
}

/// The system-information path.
pub fn info_url() -> (r: String)
    ensures
        r@ == "/info"@,
{
    String::from_str("/info")
}

/// The liveness-probe path.
pub fn ping_url() -> (r: String)
    ensures
        r@ == "/_ping"@,
{
    String::from_str("/_ping")
}

/// The daemon-version path.
pub fn version_url() -> (r: String)
    ensures
        r@ == "/version"@,
{
    String::from_str("/version")
}

} // verus!
