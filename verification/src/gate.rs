//! The version gate: a target service older than the floor is turned away.

use vstd::prelude::*;
use crate::text::str_view;
use crate::version::{lemma_parsed_iff_written, strip_marker, Parsed, SemanticVersion};

verus! {

/// Why the version gate turned a service away.
#[derive(Clone, Copy, Debug, PartialEq, Eq, Structural)]
pub enum GateRejection {
    /// The service reported no version, as old releases do.
    NotReported,
    /// The service reported a text that is no three-part version.
    Unreadable,
    /// The service runs the given version, which is older than the floor.
    TooOld(SemanticVersion),
}

/// The version gate, with the oldest version that it lets through.
#[derive(Clone, Copy, Debug, PartialEq, Eq, Structural)]
pub struct VersionGate {
    pub floor: SemanticVersion,
}

/// What the version gate decides: the version that passed, or why none did.
pub type GateDecision = Result<SemanticVersion, GateRejection>;

impl VersionGate {
    /// The decision on a service that runs `version`.
    pub open spec fn decision_on(self, version: SemanticVersion) -> GateDecision {
        if version.is_before(self.floor) {
            Err(GateRejection::TooOld(version))
        } else {
            Ok(version)
        }
    }

    /// The decision on the outcome of reading the reported text.
    pub open spec fn decision_on_parsed(self, parsed: Parsed) -> GateDecision {
        match parsed {
            Ok(version) => self.decision_on(version),
            Err(_) => Err(GateRejection::Unreadable),
        }
    }

    /// The decision on what the service reported.
    pub open spec fn decision(self, reported: Option<Seq<char>>) -> GateDecision {
        match reported {
            None => Err(GateRejection::NotReported),
            Some(text) => self.decision_on_parsed(SemanticVersion::parsed_reported(text)),
        }
    }

    /// The version gate with the standard floor, `0.107.29`.
    pub open spec fn spec_standard() -> VersionGate {
        VersionGate { floor: SemanticVersion::spec_minimum_supported() }
    }

    /// A version gate with the given floor.
    pub fn new(floor: SemanticVersion) -> (gate: VersionGate)
        ensures
            gate.floor == floor,
    {
        VersionGate { floor }
    }

    /// The version gate with the standard floor, `0.107.29`.
    #[verifier::when_used_as_spec(spec_standard)]
    pub fn standard() -> (gate: VersionGate)
        ensures
            gate == Self::spec_standard(),
    {
        VersionGate { floor: SemanticVersion::minimum_supported() }
    }

    /// Decides on a service whose version is known: it passes unless it is
    /// older than the floor.
    pub fn judge(&self, version: SemanticVersion) -> (decision: GateDecision)
        ensures
            decision == self.decision_on(version),
    {
        if version.precedes(&self.floor) {
            Err(GateRejection::TooOld(version))
        } else {
            Ok(version)
        }
    }

    /// Decides on the outcome of reading the reported text: a text that could
    /// not be read never passes.
    pub fn judge_parsed(&self, parsed: Parsed) -> (decision: GateDecision)
        ensures
            decision == self.decision_on_parsed(parsed),
    {
        match parsed {
            Ok(version) => self.judge(version),
            Err(_) => Err(GateRejection::Unreadable),
        }
    }

    /// Decides on what the service reported. No report is a rejection whatever
    /// the floor is. A report is read after its leading marker is dropped, and
    /// passes where it is a version that is not older than the floor.
    pub fn check(&self, reported: Option<&str>) -> (decision: GateDecision)
        ensures
            decision == self.decision(str_view(reported)),
            reported is None ==> decision == GateDecision::Err(GateRejection::NotReported),
    {
        match reported {
            None => Err(GateRejection::NotReported),
            Some(text) => self.judge_parsed(SemanticVersion::parse_reported(text)),
        }
    }
}

impl Default for VersionGate {
    fn default() -> (gate: VersionGate)
        ensures
            gate == VersionGate::spec_standard(),
    {
        VersionGate::standard()
    }
}

/// Checks a reported version against the standard floor.
pub fn check_version(reported: Option<&str>) -> (decision: GateDecision)
    ensures
        decision == VersionGate::spec_standard().decision(str_view(reported)),
{
    VersionGate::standard().check(reported)
}

/// Of two reports that read as versions, the first older than the second, a
/// floor between them parts them: where the first is older than the floor and
/// the second is not, the first is rejected as too old and the second passes.
pub proof fn lemma_gate_separates(gate: VersionGate, older: Seq<char>, newer: Seq<char>)
    requires
        SemanticVersion::parsed_reported(older) is Ok,
        SemanticVersion::parsed_reported(newer) is Ok,
        SemanticVersion::parsed_reported(older)->Ok_0.is_before(
            SemanticVersion::parsed_reported(newer)->Ok_0,
        ),
        SemanticVersion::parsed_reported(older)->Ok_0.is_before(gate.floor),
        !SemanticVersion::parsed_reported(newer)->Ok_0.is_before(gate.floor),
    ensures
        gate.decision(Some(older)) == GateDecision::Err(
            GateRejection::TooOld(SemanticVersion::parsed_reported(older)->Ok_0),
        ),
        gate.decision(Some(newer)) == GateDecision::Ok(
            SemanticVersion::parsed_reported(newer)->Ok_0,
        ),
{
}

/// Whatever its floor, the version gate rejects a service that reported no
/// version.
pub proof fn lemma_gate_rejects_silence(gate: VersionGate)
    ensures
        gate.decision(None) == GateDecision::Err(GateRejection::NotReported),
{
}

/// A version passes exactly if it is the floor or comes after it.
pub proof fn lemma_gate_threshold(gate: VersionGate, version: SemanticVersion)
    ensures
        gate.decision_on(version) is Ok <==> (version == gate.floor || gate.floor.is_before(
            version,
        )),
        gate.decision_on(version) is Ok ==> gate.decision_on(version) == GateDecision::Ok(version),
{
}

/// A report passes exactly if, once its marker is dropped, it is a version
/// written out, and that version is not older than the floor.
pub proof fn lemma_gate_passes_iff(gate: VersionGate, reported: Seq<char>, version: SemanticVersion)
    ensures
        gate.decision(Some(reported)) == GateDecision::Ok(version) <==> (strip_marker(reported)
            == version.text() && !version.is_before(gate.floor)),
{
    lemma_parsed_iff_written(strip_marker(reported), version);
}

/// Raising the floor never lets more through.
pub proof fn lemma_gate_monotone(lower: VersionGate, higher: VersionGate, version: SemanticVersion)
    requires
        lower.floor.is_before(higher.floor) || lower.floor == higher.floor,
        higher.decision_on(version) is Ok,
    ensures
        lower.decision_on(version) is Ok,
{
}

} // verus!
