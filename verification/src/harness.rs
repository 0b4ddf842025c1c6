//! The snapshot regression harness: a strictly sequential state machine run
//! once per discovered fixture, comparing freshly generated artifacts
//! byte-for-byte against committed baselines.
//!
//! The import, simplification and conversion collaborators live in other
//! components, as does all file handling; a driver runs each stage and
//! reports its outcome here. This module owns every decision: whether a
//! descriptor admits the fixture, which stage follows which, what a
//! comparison concludes, what must be backed up on a mismatch, and whether
//! the whole run passed.

use vstd::prelude::*;
use vstd::string::StringExecFns;
use crate::config::ConfigurationError;

verus! {

/// The stages of one fixture's pipeline, in the order they run.
#[derive(Clone, Copy, PartialEq, Eq, Structural, Debug)]
pub enum Stage {
    LoadConfig,
    Import,
    Simplify,
    SerializeIntermediate,
    CompareIntermediate,
    ConvertFinal,
    SerializeFinal,
    CompareFinal,
}

/// The two baseline artifacts a fixture is checked against.
#[derive(Clone, Copy, PartialEq, Eq, Structural, Debug)]
pub enum Artifact {
    /// The geo-referenced serialization of the intermediate map.
    IntermediateMap,
    /// The graph-description text of the final road network.
    FinalGraph,
}

/// Why one fixture failed. A mismatch is an expected outcome awaiting a
/// human decision; the other causes abort the fixture before later stages
/// run.
#[derive(Clone, PartialEq, Eq, Debug)]
pub enum FailureCause {
    /// The descriptor was missing or malformed; the pipeline never ran.
    Configuration(ConfigurationError),
    /// The importer rejected the fixture's source file.
    Import(String),
    /// A file read or write failed.
    Io(String),
    /// A freshly generated artifact differs from its baseline.
    Mismatch(Artifact),
}

/// The two contents of one generated artifact: the baseline captured from
/// disk strictly before the artifact was overwritten, and the freshly
/// written content.
pub struct SnapshotPair {
    pub prior: Vec<u8>,
    pub current: Vec<u8>,
}

/// What a comparison found on a mismatch: which artifact changed, and the
/// stale baseline content that must be preserved under an adjacent backup
/// file before the fixture is reported.
pub struct MismatchReport {
    pub artifact: Artifact,
    pub backup: Vec<u8>,
}

/// The fixed file name of an artifact within its fixture directory.
pub open spec fn spec_artifact_file_name(a: Artifact) -> Seq<char> {
    match a {
        Artifact::IntermediateMap => "raw_map.json"@,
        Artifact::FinalGraph => "road_network.dot"@,
    }
}

/// The adjacent file name under which a stale baseline is preserved.
pub open spec fn spec_backup_file_name(a: Artifact) -> Seq<char> {
    match a {
        Artifact::IntermediateMap => "raw_map.orig.json"@,
        Artifact::FinalGraph => "road_network.orig.dot"@,
    }
}

impl Artifact {
    /// The fixed file name of this artifact within a fixture directory.
    pub fn file_name(&self) -> (r: &'static str)
        ensures
            r@ == spec_artifact_file_name(*self),
    {
        match self {
            Artifact::IntermediateMap => "raw_map.json",
            Artifact::FinalGraph => "road_network.dot",
        }
    }

    /// The adjacent file name under which a stale baseline is preserved on a
    /// mismatch.
    pub fn backup_file_name(&self) -> (r: &'static str)
        ensures
            r@ == spec_backup_file_name(*self),
    {
        match self {
            Artifact::IntermediateMap => "raw_map.orig.json",
            Artifact::FinalGraph => "road_network.orig.dot",
        }
    }
}

/// Compares two byte strings for exact equality.
pub fn bytes_equal(a: &[u8], b: &[u8]) -> (r: bool)
    ensures
        r == (a@ == b@),
{
    if a.len() != b.len() {
        return false;
    }
    let mut j: usize = 0;
    while j < a.len()
        invariant
            0 <= j <= a@.len(),
            a@.len() == b@.len(),
            forall|k: int| 0 <= k < j ==> a@[k] == b@[k],
        decreases a@.len() - j,
    {
        if a[j] != b[j] {
            return false;
        }
        j = j + 1;
    }
    proof {
        assert(a@ =~= b@);
    }
    true
}

impl SnapshotPair {
    /// Pairs the baseline read from disk with freshly generated content. A
    /// fixture whose baseline file does not exist yet is being created, not
    /// failing: the missing file counts as empty prior content.
    pub fn capture(prior_read: Option<Vec<u8>>, current: Vec<u8>) -> (p: SnapshotPair)
        ensures
            p.prior@ == match prior_read {
                Some(c) => c@,
                None => Seq::<u8>::empty(),
            },
            p.current@ == current@,
    {
        match prior_read {
            Some(c) => SnapshotPair { prior: c, current },
            None => SnapshotPair { prior: Vec::new(), current },
        }
    }

    /// True iff the fresh content equals the baseline byte-for-byte.
    pub fn matches(&self) -> (r: bool)
        ensures
            r == (self.prior@ == self.current@),
    {
        bytes_equal(self.prior.as_slice(), self.current.as_slice())
    }

    /// Concludes one comparison stage: the stage passes exactly when the
    /// fresh content equals the baseline; otherwise the stale baseline is
    /// handed back for backup alongside the name of the changed artifact.
    pub fn conclude(self, artifact: Artifact) -> (r: Result<(), MismatchReport>)
        ensures
            match r {
                Ok(_) => self.prior@ == self.current@,
                Err(m) => self.prior@ != self.current@ && m.artifact == artifact && m.backup@
                    == self.prior@,
            },
    {
        if self.matches() {
            Ok(())
        } else {
            Err(MismatchReport { artifact, backup: self.prior })
        }
    }
}

impl MismatchReport {
    /// The message reported for this mismatch: it identifies the changed
    /// artifact and the backup file holding the stale baseline, and tells a
    /// human how to accept the change as the new baseline.
    pub fn advice(&self, fixture: &str) -> (r: String)
        ensures
            r@ == fixture@ + "/"@ + spec_artifact_file_name(self.artifact) + " has changed. Compare it with "@
                + fixture@ + "/"@ + spec_backup_file_name(self.artifact)
                + ": if the new output is correct, commit it as the new baseline, and this fixture will pass."@,
    {
        let mut s = String::new();
        s.append(fixture);
        s.append("/");
        s.append(self.artifact.file_name());
        s.append(" has changed. Compare it with ");
        s.append(fixture);
        s.append("/");
        s.append(self.artifact.backup_file_name());
        s.append(": if the new output is correct, commit it as the new baseline, and this fixture will pass.");
        proof {
            assert(s@ =~= fixture@ + "/"@ + spec_artifact_file_name(self.artifact)
                + " has changed. Compare it with "@ + fixture@ + "/"@ + spec_backup_file_name(
                self.artifact,
            ) + ": if the new output is correct, commit it as the new baseline, and this fixture will pass."@);
        }
        s
    }
}

/// The stage that follows `s`, or nothing after the last stage.
pub open spec fn spec_next_stage(s: Stage) -> Option<Stage> {
    match s {
        Stage::LoadConfig => Some(Stage::Import),
        Stage::Import => Some(Stage::Simplify),
        Stage::Simplify => Some(Stage::SerializeIntermediate),
        Stage::SerializeIntermediate => Some(Stage::CompareIntermediate),
        Stage::CompareIntermediate => Some(Stage::ConvertFinal),
        Stage::ConvertFinal => Some(Stage::SerializeFinal),
        Stage::SerializeFinal => Some(Stage::CompareFinal),
        Stage::CompareFinal => None,
    }
}

/// Where one fixture stands: waiting to run a stage, passed, or failed at a
/// stage. Both outcomes are terminal.
#[derive(Clone, PartialEq, Eq, Debug)]
pub enum FixtureState {
    AtStage(Stage),
    Passed,
    Failed(Stage, FailureCause),
}

impl FixtureState {
    /// The state after the pending stage succeeds: the next stage, or passed
    /// after the last one. Terminal states do not move.
    pub open spec fn spec_after_ok(self) -> FixtureState {
        match self {
            FixtureState::AtStage(s) => match spec_next_stage(s) {
                Some(t) => FixtureState::AtStage(t),
                None => FixtureState::Passed,
            },
            _ => self,
        }
    }

    /// The state after the pending stage fails: the fixture is failed at
    /// that stage and no later stage ever runs. Terminal states do not move.
    pub open spec fn spec_after_failure(self, cause: FailureCause) -> FixtureState {
        match self {
            FixtureState::AtStage(s) => FixtureState::Failed(s, cause),
            _ => self,
        }
    }

    /// A fixture starts at its first stage, loading the descriptor.
    pub fn start() -> (r: FixtureState)
        ensures
            r == FixtureState::AtStage(Stage::LoadConfig),
    {
        FixtureState::AtStage(Stage::LoadConfig)
    }

    /// Records that the pending stage succeeded.
    pub fn on_stage_ok(self) -> (r: FixtureState)
        ensures
            r == self.spec_after_ok(),
    {
        match self {
            FixtureState::AtStage(s) => match s {
                Stage::LoadConfig => FixtureState::AtStage(Stage::Import),
                Stage::Import => FixtureState::AtStage(Stage::Simplify),
                Stage::Simplify => FixtureState::AtStage(Stage::SerializeIntermediate),
                Stage::SerializeIntermediate => FixtureState::AtStage(Stage::CompareIntermediate),
                Stage::CompareIntermediate => FixtureState::AtStage(Stage::ConvertFinal),
                Stage::ConvertFinal => FixtureState::AtStage(Stage::SerializeFinal),
                Stage::SerializeFinal => FixtureState::AtStage(Stage::CompareFinal),
                Stage::CompareFinal => FixtureState::Passed,
            },
            _ => self,
        }
    }

    /// Records that the pending stage failed.
    pub fn on_stage_failed(self, cause: FailureCause) -> (r: FixtureState)
        ensures
            r == self.spec_after_failure(cause),
    {
        match self {
            FixtureState::AtStage(s) => FixtureState::Failed(s, cause),
            _ => self,
        }
    }

    /// The stage the fixture is waiting to run, if any.
    pub fn pending_stage(&self) -> (r: Option<Stage>)
        ensures
            r == match *self {
                FixtureState::AtStage(s) => Some(s),
                _ => None::<Stage>,
            },
    {
        match self {
            FixtureState::AtStage(s) => Some(*s),
            _ => None,
        }
    }
}

/// A fixture that fails to load its configuration is failed at that first
/// stage, and the failed state is terminal under every later transition: in
/// particular the importer is never invoked for it.
pub proof fn lemma_config_failure_skips_import(cause: FailureCause)
    ensures
        ({
            let st = FixtureState::AtStage(Stage::LoadConfig).spec_after_failure(cause);
            st == FixtureState::Failed(Stage::LoadConfig, cause) && forall|c: FailureCause|
                st.spec_after_ok() == st && #[trigger] st.spec_after_failure(c) == st
        }),
{
}

/// Both terminal states stay fixed under every transition, so one fixture's
/// outcome, once reached, cannot change.
pub proof fn lemma_terminal_states_stay(st: FixtureState, cause: FailureCause)
    requires
        st is Passed || st is Failed,
    ensures
        st.spec_after_ok() == st,
        st.spec_after_failure(cause) == st,
{
}

/// Rerunning a comparison stage on an unchanged fixture passes and leaves
/// the baseline bytes as they were: a run's serialize stage overwrites the
/// baseline with that run's output, and deterministic collaborators
/// reproduce the same output from unchanged input, so the next run's fresh
/// content equals the baseline it captures.
pub proof fn lemma_rerun_matches(baseline_after_run: Seq<u8>, run_output: Seq<u8>, rerun_output: Seq<u8>)
    requires
        baseline_after_run == run_output,
        rerun_output == run_output,
    ensures
        rerun_output == baseline_after_run,
{
}

/// One fixture's failure, as aggregated over a whole run.
#[derive(Clone, PartialEq, Eq, Debug)]
pub struct FixtureFailure {
    /// The fixture's directory path.
    pub fixture: String,
    pub stage: Stage,
    pub cause: FailureCause,
}

/// The aggregate outcome of one harness run over every discovered fixture.
/// Fixtures are independent: one fixture's failure is recorded and the run
/// continues with the rest.
pub struct RunReport {
    pub fixtures_run: usize,
    pub failures: Vec<FixtureFailure>,
}

impl RunReport {
    pub fn new() -> (r: RunReport)
        ensures
            r.fixtures_run == 0,
            r.failures@ == Seq::<FixtureFailure>::empty(),
    {
        RunReport { fixtures_run: 0, failures: Vec::new() }
    }

    /// Records a fixture that passed both comparison stages.
    pub fn record_pass(&mut self)
        requires
            old(self).fixtures_run < usize::MAX,
        ensures
            final(self).fixtures_run == old(self).fixtures_run + 1,
            final(self).failures@ == old(self).failures@,
    {
        self.fixtures_run = self.fixtures_run + 1;
    }

    /// Records a fixture that failed, with the stage and cause; the run goes
    /// on with the remaining fixtures.
    pub fn record_failure(&mut self, f: FixtureFailure)
        requires
            old(self).fixtures_run < usize::MAX,
        ensures
            final(self).fixtures_run == old(self).fixtures_run + 1,
            final(self).failures@ == old(self).failures@.push(f),
    {
        self.fixtures_run = self.fixtures_run + 1;
        self.failures.push(f);
    }

    /// True iff the whole run passed: at least one fixture was discovered
    /// (finding none is itself a harness-level failure) and none failed.
    pub fn run_passed(&self) -> (r: bool)
        ensures
            r == (self.fixtures_run > 0 && self.failures@.len() == 0),
    {
        self.fixtures_run > 0 && self.failures.len() == 0
    }
}

} // verus!
