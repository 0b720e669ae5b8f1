//! The update check: is a newer release of the monitor published? Its result
//! is advice; nothing here stops a run.

use vstd::prelude::*;
use crate::http::{
    is_success, status_is_success, HttpReply, HttpReplyView, GetRequest, GetRequestView,
};
use crate::json::{json_string_at, read_string_at};
use crate::text::text_view;
use crate::version::{lemma_parsed_written, SemanticVersion};

verus! {

/// How the running version compares with the latest published one.
#[derive(Clone, Copy, Debug, PartialEq, Eq, Structural)]
pub enum UpdateComparison {
    /// One of the two versions could not be determined.
    Unknown,
    /// A newer version is published: the running one, then the latest.
    UpdateAvailable(SemanticVersion, SemanticVersion),
    /// The running version is the latest.
    UpToDate(SemanticVersion),
    /// The running version is ahead of the latest published one.
    PreRelease(SemanticVersion),
}

/// Why the registry did not tell the latest version.
#[derive(Clone, Copy, Debug, PartialEq, Eq, Structural)]
pub enum UpdateCheckUnavailable {
    /// No response arrived.
    Unreachable,
    /// The registry answered with the given status, which is no success.
    Refused(u16),
    /// The body held no version where one was expected.
    Unreadable,
}

/// The comparison of two versions. The cases are tried in this order: one of
/// them is the sentinel, the running one is older, both are equal, the running
/// one is newer.
pub open spec fn comparison(current: SemanticVersion, latest: SemanticVersion) -> UpdateComparison {
    if current == SemanticVersion::spec_sentinel() || latest == SemanticVersion::spec_sentinel() {
        UpdateComparison::Unknown
    } else if current.is_before(latest) {
        UpdateComparison::UpdateAvailable(current, latest)
    } else if current == latest {
        UpdateComparison::UpToDate(current)
    } else {
        UpdateComparison::PreRelease(current)
    }
}

/// The address at which the registry describes a package.
pub open spec fn registry_url_of(package: Seq<char>) -> Seq<char> {
    "https://crates.io/api/v1/crates/"@ + package
}

/// The request that asks the registry about a package.
pub open spec fn registry_request_of(package: Seq<char>) -> GetRequestView {
    GetRequestView {
        url: registry_url_of(package),
        header_name: "User-Agent"@,
        header_value: "version_check (adguardian.as93.net)"@,
        timeout_seconds: None,
    }
}

/// The latest version that a registry body names: the text of `max_version`
/// inside its member `crate`.
pub open spec fn published_in_body(body: Seq<char>) -> Option<Seq<char>> {
    json_string_at(body, "/crate/max_version"@)
}

/// What a response with the given status tells, where the given version text
/// was found in its body.
pub open spec fn published_in_response(status: u16, found: Option<Seq<char>>) -> Result<
    Seq<char>,
    UpdateCheckUnavailable,
> {
    if !is_success(status) {
        Err(UpdateCheckUnavailable::Refused(status))
    } else {
        match found {
            Some(text) => Ok(text),
            None => Err(UpdateCheckUnavailable::Unreadable),
        }
    }
}

/// What the registry's reply tells about the latest version.
pub open spec fn published(reply: HttpReplyView) -> Result<Seq<char>, UpdateCheckUnavailable> {
    match reply {
        HttpReplyView::Failed { cause } => Err(UpdateCheckUnavailable::Unreachable),
        HttpReplyView::Received { status, body } => published_in_response(
            status,
            published_in_body(body),
        ),
    }
}

/// The latest version as far as the registry told it: the sentinel where it
/// told none.
pub open spec fn latest_version_of(
    fetched: Result<Seq<char>, UpdateCheckUnavailable>,
) -> SemanticVersion {
    match fetched {
        Ok(text) => SemanticVersion::parsed_or_sentinel(text),
        Err(_) => SemanticVersion::spec_sentinel(),
    }
}

/// The result of the whole check, from the running version's text and the
/// registry's reply.
pub open spec fn update_check(current: Seq<char>, reply: HttpReplyView) -> UpdateComparison {
    comparison(SemanticVersion::parsed_or_sentinel(current), latest_version_of(published(reply)))
}

/// The view of a fetched text.
pub open spec fn fetched_view(fetched: Result<String, UpdateCheckUnavailable>) -> Result<
    Seq<char>,
    UpdateCheckUnavailable,
> {
    match fetched {
        Ok(text) => Ok(text@),
        Err(error) => Err(error),
    }
}

impl UpdateComparison {
    /// The line that tells the operator the result.
    pub open spec fn spec_message(self) -> Seq<char> {
        match self {
            UpdateComparison::Unknown => "Unable to check for updates"@,
            UpdateComparison::UpdateAvailable(current, latest) =>
                "A new version of AdGuardian is available.\nUpdate from "@ + current.text()
                    + " to "@ + latest.text() + " for the best experience"@,
            UpdateComparison::UpToDate(current) => "AdGuardian is up-to-date, running version "@
                + current.text(),
            UpdateComparison::PreRelease(current) =>
                "Running a pre-released edition of AdGuardian, version "@ + current.text(),
        }
    }

    /// The line that tells the operator the result.
    pub fn message(&self) -> (line: String)
        ensures
            line@ == self.spec_message(),
    {
        match self {
            UpdateComparison::Unknown => String::from_str("Unable to check for updates"),
            UpdateComparison::UpdateAvailable(current, latest) => {
                let mut line = String::from_str(
                    "A new version of AdGuardian is available.\nUpdate from ",
                );
                line.append(current.to_text().as_str());
                line.append(" to ");
                line.append(latest.to_text().as_str());
                line.append(" for the best experience");
                line
            },
            UpdateComparison::UpToDate(current) => {
                let mut line = String::from_str("AdGuardian is up-to-date, running version ");
                line.append(current.to_text().as_str());
                line
            },
            UpdateComparison::PreRelease(current) => {
                let mut line = String::from_str(
                    "Running a pre-released edition of AdGuardian, version ",
                );
                line.append(current.to_text().as_str());
                line
            },
        }
    }
}

/// Compares the running version with the latest published one.
pub fn compare_versions(current: SemanticVersion, latest: SemanticVersion) -> (result:
    UpdateComparison)
    ensures
        result == comparison(current, latest),
{
    if current.is_sentinel() || latest.is_sentinel() {
        UpdateComparison::Unknown
    } else if current.precedes(&latest) {
        UpdateComparison::UpdateAvailable(current, latest)
    } else if current == latest {
        UpdateComparison::UpToDate(current)
    } else {
        UpdateComparison::PreRelease(current)
    }
}

/// The address at which the registry describes a package.
pub fn registry_url(package: &str) -> (url: String)
    ensures
        url@ == registry_url_of(package@),
{
    let mut url = String::from_str("https://crates.io/api/v1/crates/");
    url.append(package);
    url
}

/// The request that asks the registry about a package. It names its sender,
/// as the registry demands.
pub fn registry_request(package: &str) -> (request: GetRequest)
    ensures
        request@ == registry_request_of(package@),
{
    GetRequest {
        url: registry_url(package),
        header_name: String::from_str("User-Agent"),
        header_value: String::from_str("version_check (adguardian.as93.net)"),
        timeout_seconds: None,
    }
}

/// Reads the latest version out of a registry body.
pub fn published_version(body: &str) -> (version: Option<String>)
    ensures
        text_view(version) == published_in_body(body@),
{
    read_string_at(body, "/crate/max_version")
}

/// What a response tells, from its status and the version text found in its
/// body.
pub fn read_response(status: u16, found: Option<String>) -> (fetched: Result<
    String,
    UpdateCheckUnavailable,
>)
    ensures
        fetched_view(fetched) == published_in_response(status, text_view(found)),
{
    if !status_is_success(status) {
        Err(UpdateCheckUnavailable::Refused(status))
    } else {
        match found {
            Some(text) => Ok(text),
            None => Err(UpdateCheckUnavailable::Unreadable),
        }
    }
}

/// The latest published version as the registry's reply tells it.
pub fn get_latest_version(reply: HttpReply) -> (fetched: Result<String, UpdateCheckUnavailable>)
    ensures
        fetched_view(fetched) == published(reply@),
{
    match reply {
        HttpReply::Failed { cause } => Err(UpdateCheckUnavailable::Unreachable),
        HttpReply::Received { status, body } => {
            if status_is_success(status) {
                read_response(status, published_version(body.as_str()))
            } else {
                read_response(status, None)
            }
        },
    }
}

/// The latest version as a value: the sentinel where the registry told none
/// or told a text that is no version.
pub fn latest_version(fetched: Result<String, UpdateCheckUnavailable>) -> (version: SemanticVersion)
    ensures
        version == latest_version_of(fetched_view(fetched)),
{
    match fetched {
        Ok(text) => SemanticVersion::parse_or_sentinel(text.as_str()),
        Err(_) => SemanticVersion::sentinel(),
    }
}

/// The whole check: reads the running version, takes the latest one from the
/// registry's reply, and compares the two. A reply that tells no version gives
/// `Unknown`.
pub fn check_for_updates(current: &str, reply: HttpReply) -> (result: UpdateComparison)
    ensures
        result == update_check(current@, reply@),
        published(reply@) is Err ==> result == UpdateComparison::Unknown,
{
    let running = SemanticVersion::parse_or_sentinel(current);
    let latest = latest_version(get_latest_version(reply));
    compare_versions(running, latest)
}

/// Each result of the comparison stands for exactly one relation between the
/// two versions.
pub proof fn lemma_comparison_cases(current: SemanticVersion, latest: SemanticVersion)
    ensures
        comparison(current, latest) == UpdateComparison::Unknown <==> (current
            == SemanticVersion::spec_sentinel() || latest == SemanticVersion::spec_sentinel()),
        comparison(current, latest) is UpdateAvailable <==> (current
            != SemanticVersion::spec_sentinel() && current.is_before(latest)),
        comparison(current, latest) is UpToDate <==> (current != SemanticVersion::spec_sentinel()
            && current == latest),
        comparison(current, latest) is PreRelease <==> (latest != SemanticVersion::spec_sentinel()
            && latest.is_before(current)),
{
}

/// Where the running version is written out and the registry names a version
/// written out, the check compares exactly these two.
pub proof fn lemma_check_compares_written(
    current: SemanticVersion,
    latest: SemanticVersion,
    status: u16,
    body: Seq<char>,
)
    requires
        is_success(status),
        published_in_body(body) == Some(latest.text()),
    ensures
        update_check(current.text(), HttpReplyView::Received { status, body }) == comparison(
            current,
            latest,
        ),
{
    lemma_parsed_written(current);
    lemma_parsed_written(latest);
}

/// A check whose fetch failed, or was refused, never reports more than
/// `Unknown`, whatever the running version is.
pub proof fn lemma_failed_fetch_is_unknown(current: Seq<char>, reply: HttpReplyView)
    requires
        reply is Failed || !is_success(reply->status),
    ensures
        update_check(current, reply) == UpdateComparison::Unknown,
{
}

} // verus!
