//! The failures that end a run, and what the operator is told about them.

use vstd::prelude::*;
use crate::config::Setting;
use crate::gate::GateRejection;
use crate::text::text_view;
use crate::version::SemanticVersion;

verus! {

/// What was wrong with the version that the target reported.
#[derive(Clone, Debug, PartialEq, Eq)]
pub enum VersionProblem {
    /// It reported none.
    NotReported,
    /// It reported a text that is no three-part version.
    Unreadable { reported: String },
    /// It reported a version older than the floor.
    TooOld { reported: String, version: SemanticVersion },
}

/// The mathematical value of a [`VersionProblem`].
pub ghost enum VersionProblemView {
    NotReported,
    Unreadable { reported: Seq<char> },
    TooOld { reported: Seq<char>, version: SemanticVersion },
}

impl View for VersionProblem {
    type V = VersionProblemView;

    open spec fn view(&self) -> VersionProblemView {
        match self {
            VersionProblem::NotReported => VersionProblemView::NotReported,
            VersionProblem::Unreadable { reported } => VersionProblemView::Unreadable {
                reported: reported@,
            },
            VersionProblem::TooOld { reported, version } => VersionProblemView::TooOld {
                reported: reported@,
                version: *version,
            },
        }
    }
}

/// The problem that a rejection stands for, with the target's own words.
pub open spec fn problem_of(
    reported: Option<Seq<char>>,
    rejection: GateRejection,
) -> VersionProblemView {
    match (reported, rejection) {
        (Some(text), GateRejection::Unreadable) => VersionProblemView::Unreadable {
            reported: text,
        },
        (Some(text), GateRejection::TooOld(version)) => VersionProblemView::TooOld {
            reported: text,
            version,
        },
        _ => VersionProblemView::NotReported,
    }
}

impl VersionProblem {
    /// Joins a rejection with the text that was rejected.
    pub fn new(reported: Option<String>, rejection: GateRejection) -> (problem: VersionProblem)
        ensures
            problem@ == problem_of(text_view(reported), rejection),
    {
        match reported {
            None => VersionProblem::NotReported,
            Some(text) => match rejection {
                GateRejection::NotReported => VersionProblem::NotReported,
                GateRejection::Unreadable => VersionProblem::Unreadable { reported: text },
                GateRejection::TooOld(version) => VersionProblem::TooOld {
                    reported: text,
                    version,
                },
            },
        }
    }
}

/// A failure that ends the run.
#[derive(Clone, Debug, PartialEq, Eq)]
pub enum PreflightError {
    /// A setting has no value.
    MissingConfiguration(Setting),
    /// No answer arrived from the target, named as host, colon, port.
    NetworkFailure { target: String, cause: String },
    /// The target answered, but not with a success status.
    AuthenticationFailure { target: String },
    /// The target's version did not pass. `floor` is the oldest version that
    /// would have.
    UnsupportedVersion { problem: VersionProblem, floor: SemanticVersion },
}

/// The mathematical value of a [`PreflightError`].
pub ghost enum PreflightErrorView {
    MissingConfiguration(Setting),
    NetworkFailure { target: Seq<char>, cause: Seq<char> },
    AuthenticationFailure { target: Seq<char> },
    UnsupportedVersion { problem: VersionProblemView, floor: SemanticVersion },
}

impl View for PreflightError {
    type V = PreflightErrorView;

    open spec fn view(&self) -> PreflightErrorView {
        match self {
            PreflightError::MissingConfiguration(setting) =>
                PreflightErrorView::MissingConfiguration(*setting),
            PreflightError::NetworkFailure { target, cause } => PreflightErrorView::NetworkFailure {
                target: target@,
                cause: cause@,
            },
            PreflightError::AuthenticationFailure { target } =>
                PreflightErrorView::AuthenticationFailure { target: target@ },
            PreflightError::UnsupportedVersion { problem, floor } =>
                PreflightErrorView::UnsupportedVersion { problem: problem@, floor: *floor },
        }
    }
}

/// The advice that ends every hint about an unsupported version.
pub open spec fn upgrade_advice(floor: SemanticVersion) -> Seq<char> {
    "Please upgrade to v"@ + floor.text() + " or later."@
}

/// The hint that goes with failures of the connection and of the settings.
pub open spec fn settings_hint() -> Seq<char> {
    "Please check your environmental variables and try again."@
}

impl VersionProblemView {
    /// The first line of the message.
    pub open spec fn headline(self) -> Seq<char> {
        match self {
            VersionProblemView::NotReported => "Unsupported AdGuard Home version"@,
            VersionProblemView::Unreadable { reported } => "Unrecognised AdGuard Home version"@,
            VersionProblemView::TooOld { reported, version } =>
                "AdGuard Home version is too old, and is now unsupported"@,
        }
    }

    /// What the operator can do about it. The hint names the floor and, where
    /// the target reported a version, that version in the target's own words.
    pub open spec fn hint(self, floor: SemanticVersion) -> Seq<char> {
        match self {
            VersionProblemView::NotReported =>
                "Failed to get the version number of your AdGuard Home instance.\n"@
                    + "This usually means you're running an old, and unsupported version.\n"@
                    + upgrade_advice(floor),
            VersionProblemView::Unreadable { reported } => "Your instance reports version "@
                + reported
                    + ", which is not of the form major.minor.patch. "@ + upgrade_advice(floor),
            VersionProblemView::TooOld { reported, version } => "You're running AdGuard "@
                + reported + ". "@ + upgrade_advice(floor),
        }
    }
}

impl PreflightErrorView {
    /// The first line of the message.
    pub open spec fn headline(self) -> Seq<char> {
        match self {
            PreflightErrorView::MissingConfiguration(setting) => setting.spec_name()
                + " is not set"@,
            PreflightErrorView::NetworkFailure { target, cause } =>
                "Failed to connect to AdGuard at: "@ + target,
            PreflightErrorView::AuthenticationFailure { target } =>
                "Authentication with AdGuard at "@ + target + " failed"@,
            PreflightErrorView::UnsupportedVersion { problem, floor } => problem.headline(),
        }
    }

    /// The underlying cause, where there is one to show.
    pub open spec fn detail(self) -> Option<Seq<char>> {
        match self {
            PreflightErrorView::NetworkFailure { target, cause } => Some(cause),
            _ => None,
        }
    }

    /// What the operator can do about it.
    pub open spec fn hint(self) -> Seq<char> {
        match self {
            PreflightErrorView::UnsupportedVersion { problem, floor } => problem.hint(floor),
            _ => settings_hint(),
        }
    }

    /// The status with which the process ends: every failure gives 1.
    pub open spec fn exit_code(self) -> i32 {
        1
    }
}

/// Writes the advice that ends every hint about an unsupported version.
pub fn upgrade_advice_text(floor: &SemanticVersion) -> (advice: String)
    ensures
        advice@ == upgrade_advice(*floor),
{
    let mut advice = String::from_str("Please upgrade to v");
    advice.append(floor.to_text().as_str());
    advice.append(" or later.");
    advice
}

impl VersionProblem {
    /// The first line of the message.
    pub fn headline(&self) -> (line: String)
        ensures
            line@ == self@.headline(),
    {
        match self {
            VersionProblem::NotReported => String::from_str("Unsupported AdGuard Home version"),
            VersionProblem::Unreadable { reported } => String::from_str(
                "Unrecognised AdGuard Home version",
            ),
            VersionProblem::TooOld { reported, version } => String::from_str(
                "AdGuard Home version is too old, and is now unsupported",
            ),
        }
    }

    /// What the operator can do about it.
    pub fn hint(&self, floor: &SemanticVersion) -> (line: String)
        ensures
            line@ == self@.hint(*floor),
    {
        let mut line = String::new();
        match self {
            VersionProblem::NotReported => {
                line.append("Failed to get the version number of your AdGuard Home instance.\n");
                line.append(
                    "This usually means you're running an old, and unsupported version.\n",
                );
            },
            VersionProblem::Unreadable { reported } => {
                line.append("Your instance reports version ");
                line.append(reported.as_str());
                line.append(", which is not of the form major.minor.patch. ");
            },
            VersionProblem::TooOld { reported, version } => {
                line.append("You're running AdGuard ");
                line.append(reported.as_str());
                line.append(". ");
            },
        }
        line.append(upgrade_advice_text(floor).as_str());
        assert(line@ =~= self@.hint(*floor));
        line
    }
}

impl PreflightError {
    /// The first line of the message.
    pub fn headline(&self) -> (line: String)
        ensures
            line@ == self@.headline(),
    {
        match self {
            PreflightError::MissingConfiguration(setting) => {
                let mut line = String::from_str(setting.name());
                line.append(" is not set");
                line
            },
            PreflightError::NetworkFailure { target, cause } => {
                let mut line = String::from_str("Failed to connect to AdGuard at: ");
                line.append(target.as_str());
                line
            },
            PreflightError::AuthenticationFailure { target } => {
                let mut line = String::from_str("Authentication with AdGuard at ");
                line.append(target.as_str());
                line.append(" failed");
                line
            },
            PreflightError::UnsupportedVersion { problem, floor } => problem.headline(),
        }
    }

    /// The underlying cause, where there is one to show.
    pub fn detail(&self) -> (cause: Option<String>)
        ensures
            text_view(cause) == self@.detail(),
    {
        match self {
            PreflightError::NetworkFailure { target, cause } => Some(cause.clone()),
            _ => None,
        }
    }

    /// What the operator can do about it.
    pub fn hint(&self) -> (line: String)
        ensures
            line@ == self@.hint(),
    {
        match self {
            PreflightError::UnsupportedVersion { problem, floor } => problem.hint(floor),
            _ => String::from_str("Please check your environmental variables and try again."),
        }
    }

    /// The status with which the process ends: every failure gives 1.
    pub fn exit_code(&self) -> (code: i32)
        ensures
            code == self@.exit_code(),
            code != 0,
    {
        1
    }
}

} // verus!
