use preflight::http::{HttpReply, GetRequest};
use preflight::update::{
    check_for_updates, compare_versions, get_latest_version, latest_version, published_version,
    read_response, registry_request, registry_url, UpdateCheckUnavailable, UpdateComparison,
};
use preflight::version::SemanticVersion;

fn registry_body(max_version: &str) -> String {
    format!("{{\"crate\":{{\"id\":\"adguardian\",\"max_version\":\"{}\"}},\"versions\":[]}}", max_version)
}

fn registry_reply(max_version: &str) -> HttpReply {
    HttpReply::Received { status: 200, body: registry_body(max_version) }
}

#[test]
fn older_running_version_means_update_available() {
    assert_eq!(
        check_for_updates("1.2.0", registry_reply("1.3.0")),
        UpdateComparison::UpdateAvailable(SemanticVersion::new(1, 2, 0), SemanticVersion::new(1, 3, 0))
    );
}

#[test]
fn equal_versions_mean_up_to_date() {
    assert_eq!(
        check_for_updates("1.3.0", registry_reply("1.3.0")),
        UpdateComparison::UpToDate(SemanticVersion::new(1, 3, 0))
    );
}

#[test]
fn newer_running_version_means_pre_release() {
    assert_eq!(
        check_for_updates("1.4.0", registry_reply("1.3.0")),
        UpdateComparison::PreRelease(SemanticVersion::new(1, 4, 0))
    );
}

#[test]
fn failed_fetch_means_unknown() {
    assert_eq!(
        check_for_updates("1.2.0", HttpReply::Failed { cause: "dns error".to_string() }),
        UpdateComparison::Unknown
    );
}

#[test]
fn refused_fetch_means_unknown() {
    for status in [199u16, 300, 403, 404, 429, 500] {
        assert_eq!(
            check_for_updates("1.2.0", HttpReply::Received { status, body: registry_body("1.3.0") }),
            UpdateComparison::Unknown
        );
    }
}

#[test]
fn unreadable_body_means_unknown() {
    for body in ["", "not json", "{}", "{\"crate\":{}}", "{\"crate\":{\"max_version\":3}}", "{\"max_version\":\"1.3.0\"}"] {
        assert_eq!(
            check_for_updates("1.2.0", HttpReply::Received { status: 200, body: body.to_string() }),
            UpdateComparison::Unknown,
            "{:?}",
            body
        );
    }
}

#[test]
fn unparsable_latest_version_means_unknown() {
    assert_eq!(check_for_updates("1.2.0", registry_reply("newest")), UpdateComparison::Unknown);
    assert_eq!(check_for_updates("1.2.0", registry_reply("v1.3.0")), UpdateComparison::Unknown);
    assert_eq!(check_for_updates("1.2.0", registry_reply("1.3.0-rc.1")), UpdateComparison::Unknown);
}

#[test]
fn unparsable_running_version_means_unknown() {
    assert_eq!(check_for_updates("", registry_reply("1.3.0")), UpdateComparison::Unknown);
    assert_eq!(check_for_updates("dev", registry_reply("1.3.0")), UpdateComparison::Unknown);
    assert_eq!(check_for_updates("1.2.0-dev", registry_reply("1.3.0")), UpdateComparison::Unknown);
}

#[test]
fn sentinel_on_either_side_means_unknown() {
    assert_eq!(check_for_updates("0.0.0", registry_reply("1.3.0")), UpdateComparison::Unknown);
    assert_eq!(check_for_updates("1.2.0", registry_reply("0.0.0")), UpdateComparison::Unknown);
    assert_eq!(check_for_updates("0.0.0", registry_reply("0.0.0")), UpdateComparison::Unknown);
    let zero = SemanticVersion::sentinel();
    let one = SemanticVersion::new(1, 0, 0);
    assert_eq!(compare_versions(zero, one), UpdateComparison::Unknown);
    assert_eq!(compare_versions(one, zero), UpdateComparison::Unknown);
    assert_eq!(compare_versions(zero, zero), UpdateComparison::Unknown);
}

#[test]
fn compares_by_each_number() {
    let v = SemanticVersion::new;
    assert_eq!(compare_versions(v(1, 9, 0), v(2, 0, 0)), UpdateComparison::UpdateAvailable(v(1, 9, 0), v(2, 0, 0)));
    assert_eq!(compare_versions(v(1, 9, 0), v(1, 10, 0)), UpdateComparison::UpdateAvailable(v(1, 9, 0), v(1, 10, 0)));
    assert_eq!(compare_versions(v(1, 9, 0), v(1, 9, 1)), UpdateComparison::UpdateAvailable(v(1, 9, 0), v(1, 9, 1)));
    assert_eq!(compare_versions(v(0, 0, 1), v(0, 0, 1)), UpdateComparison::UpToDate(v(0, 0, 1)));
    assert_eq!(compare_versions(v(2, 0, 0), v(1, 9, 9)), UpdateComparison::PreRelease(v(2, 0, 0)));
    assert_eq!(compare_versions(v(1, 10, 0), v(1, 9, 0)), UpdateComparison::PreRelease(v(1, 10, 0)));
    assert_eq!(compare_versions(v(1, 9, 1), v(1, 9, 0)), UpdateComparison::PreRelease(v(1, 9, 1)));
}

#[test]
fn registry_url_ends_in_the_package() {
    assert_eq!(registry_url("adguardian"), "https://crates.io/api/v1/crates/adguardian");
    assert_eq!(registry_url(""), "https://crates.io/api/v1/crates/");
}

#[test]
fn registry_request_names_its_sender() {
    assert_eq!(
        registry_request("adguardian"),
        GetRequest {
            url: "https://crates.io/api/v1/crates/adguardian".to_string(),
            header_name: "User-Agent".to_string(),
            header_value: "version_check (adguardian.as93.net)".to_string(),
            timeout_seconds: None,
        }
    );
}

#[test]
fn reads_the_published_version() {
    assert_eq!(published_version(&registry_body("2.0.0")), Some("2.0.0".to_string()));
    assert_eq!(published_version("{\"crate\":{\"max_version\":\"1.0.0\"}}"), Some("1.0.0".to_string()));
    assert_eq!(published_version("{\"crate\":{\"max_version\":\"\"}}"), Some(String::new()));
}

#[test]
fn published_version_needs_the_nested_text() {
    assert_eq!(published_version("{\"max_version\":\"1.0.0\"}"), None);
    assert_eq!(published_version("{\"crate\":\"1.0.0\"}"), None);
    assert_eq!(published_version("{\"crate\":{\"max_version\":10}}"), None);
    assert_eq!(published_version("{\"crate\":{\"max_version\":null}}"), None);
    assert_eq!(published_version("{\"crate\":{\"newest_version\":\"1.0.0\"}}"), None);
    assert_eq!(published_version("{\"crate\":[{\"max_version\":\"1.0.0\"}]}"), None);
    assert_eq!(published_version("{\"crate/max_version\":\"1.0.0\"}"), None);
    assert_eq!(published_version("nonsense"), None);
    assert_eq!(published_version(""), None);
}

#[test]
fn fetch_tells_why_it_is_unavailable() {
    assert_eq!(
        get_latest_version(HttpReply::Failed { cause: "timed out".to_string() }),
        Err(UpdateCheckUnavailable::Unreachable)
    );
    assert_eq!(
        get_latest_version(HttpReply::Received { status: 404, body: registry_body("1.0.0") }),
        Err(UpdateCheckUnavailable::Refused(404))
    );
    assert_eq!(
        get_latest_version(HttpReply::Received { status: 200, body: "{}".to_string() }),
        Err(UpdateCheckUnavailable::Unreadable)
    );
    assert_eq!(get_latest_version(registry_reply("1.0.0")), Ok("1.0.0".to_string()));
    assert_eq!(get_latest_version(registry_reply("anything")), Ok("anything".to_string()));
}

#[test]
fn response_is_judged_by_status_first() {
    assert_eq!(read_response(500, Some("1.0.0".to_string())), Err(UpdateCheckUnavailable::Refused(500)));
    assert_eq!(read_response(500, None), Err(UpdateCheckUnavailable::Refused(500)));
    assert_eq!(read_response(200, None), Err(UpdateCheckUnavailable::Unreadable));
    assert_eq!(read_response(200, Some("1.0.0".to_string())), Ok("1.0.0".to_string()));
    assert_eq!(read_response(299, Some(String::new())), Ok(String::new()));
}

#[test]
fn latest_version_falls_back_to_sentinel() {
    assert_eq!(latest_version(Ok("2.0.0".to_string())), SemanticVersion::new(2, 0, 0));
    assert_eq!(latest_version(Ok("two".to_string())), SemanticVersion::sentinel());
    assert_eq!(latest_version(Err(UpdateCheckUnavailable::Unreachable)), SemanticVersion::sentinel());
    assert_eq!(latest_version(Err(UpdateCheckUnavailable::Refused(500))), SemanticVersion::sentinel());
    assert_eq!(latest_version(Err(UpdateCheckUnavailable::Unreadable)), SemanticVersion::sentinel());
}

#[test]
fn update_messages() {
    let v = SemanticVersion::new;
    assert_eq!(UpdateComparison::Unknown.message(), "Unable to check for updates");
    assert_eq!(
        UpdateComparison::UpdateAvailable(v(1, 9, 0), v(2, 0, 0)).message(),
        "A new version of AdGuardian is available.\nUpdate from 1.9.0 to 2.0.0 for the best experience"
    );
    assert_eq!(
        UpdateComparison::UpToDate(v(1, 3, 0)).message(),
        "AdGuardian is up-to-date, running version 1.3.0"
    );
    assert_eq!(
        UpdateComparison::PreRelease(v(1, 4, 0)).message(),
        "Running a pre-released edition of AdGuardian, version 1.4.0"
    );
}
