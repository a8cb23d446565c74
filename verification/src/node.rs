//! The node-process supervisor's decision logic.
//!
//! The supervisor owns the lifecycle of one spawned local node. Its states
//! run `NotStarted -> Running -> Terminated`; termination is safe to
//! request in any state and is reached on every exit path of a verification
//! run, so a launched process is never left running after the run returns,
//! whether with success or with any error.

use vstd::prelude::*;
use crate::extract::ExtractError;
use crate::storage_diff::{PalletDiff, PalletEntryDiffs};
use crate::version::VersionDiff;

verus! {

/// A runtime property a verification run can check.
#[derive(Clone, Copy, Debug, PartialEq, Eq, Structural)]
pub enum Property {
    Storage,
    Version,
}

/// Why a verification run failed: the node could not be launched, a
/// transport-level send or receive failed, a response did not match its
/// expected shape, the version extraction failed, or the decoded state uses
/// an unsupported schema version.
#[derive(Clone, Copy, Debug, PartialEq, Eq, Structural)]
pub enum Error {
    LaunchFailure,
    NetworkFailure,
    DecodeFailure,
    Extraction(ExtractError),
    UnsupportedMetadataVersion(u32),
}

/// The lifecycle states of the spawned node.
#[derive(Clone, Copy, Debug, PartialEq, Eq, Structural)]
pub enum SupervisorState {
    NotStarted,
    Running,
    Terminated,
}

/// The sole owner of the spawned node: its lifecycle state and the local
/// port the node is bound to.
#[derive(Clone, Copy, Debug)]
pub struct Supervisor {
    pub state: SupervisorState,
    pub port: u16,
}

impl Supervisor {
    /// A supervisor for a node to be bound to the given local port.
    pub fn new(port: u16) -> (r: Self)
        ensures
            r.state is NotStarted,
            r.port == port,
    {
        Supervisor { state: SupervisorState::NotStarted, port }
    }

    /// Record the outcome of the launch attempt: the supervisor is running
    /// exactly when the executable started.
    pub fn on_spawn(&mut self, launched: bool) -> (r: Result<(), Error>)
        requires
            old(self).state is NotStarted,
        ensures
            final(self).port == old(self).port,
            launched ==> final(self).state is Running && r is Ok,
            !launched ==> final(self).state is NotStarted
                && r == Err::<(), Error>(Error::LaunchFailure),
    {
        if launched {
            self.state = SupervisorState::Running;
            Ok(())
        } else {
            Err(Error::LaunchFailure)
        }
    }

    /// Request termination of the node; safe in any state, including after
    /// the process already exited.
    pub fn terminate(&mut self)
        ensures
            final(self).state is Terminated,
            final(self).port == old(self).port,
    {
        self.state = SupervisorState::Terminated;
    }
}

/// What one property check came back with: a storage diff, a version diff,
/// or a failure.
#[derive(Clone, Debug)]
pub enum PropertyOutcome {
    StorageChecked(Vec<PalletDiff>, Vec<PalletEntryDiffs>),
    VersionChecked(Option<VersionDiff>),
    Failed(Error),
}

/// The error of the first failed outcome, when any outcome failed.
pub open spec fn first_failure(os: Seq<PropertyOutcome>) -> Option<Error>
    decreases os.len(),
{
    if os.len() == 0 {
        None
    } else if os[0] is Failed {
        Some(os[0]->Failed_0)
    } else {
        first_failure(os.drop_first())
    }
}

/// The verification command: the node executable, the chain to launch it
/// with, the live endpoint to compare against, and the properties to check.
#[derive(Clone, Debug)]
pub struct RuntimeCmd {
    pub executable: String,
    pub chain: String,
    pub live: String,
    pub properties: Vec<Property>,
}

impl RuntimeCmd {
    /// Decide a whole verification run from the launch outcome and the
    /// per-property outcomes, releasing the node on every exit path.
    ///
    /// The run fails with `LaunchFailure` when the node never started, and
    /// otherwise with the first failed property's error, the later
    /// properties not being attempted; it succeeds when every property
    /// check came back, differences or none. Whatever the outcome, the
    /// supervisor is never left in the running state.
    pub fn run(
        &self,
        sup: &mut Supervisor,
        launched: bool,
        outcomes: &Vec<PropertyOutcome>,
    ) -> (r: Result<(), Error>)
        requires
            old(sup).state is NotStarted,
            outcomes@.len() == self.properties@.len(),
        ensures
            !(final(sup).state is Running),
            final(sup).port == old(sup).port,
            !launched ==> r == Err::<(), Error>(Error::LaunchFailure)
                && final(sup).state is NotStarted,
            launched ==> final(sup).state is Terminated,
            launched ==> r == (match first_failure(outcomes@) {
                Some(e) => Err::<(), Error>(e),
                None => Ok::<(), Error>(()),
            }),
    {
        match sup.on_spawn(launched) {
            Err(e) => {
                return Err(e);
            },
            Ok(()) => {},
        }
        proof {
            assert(outcomes@.skip(0) =~= outcomes@);
        }
        let mut i: usize = 0;
        while i < outcomes.len()
            invariant
                launched,
                i <= outcomes@.len(),
                sup.state is Running,
                sup.port == old(sup).port,
                first_failure(outcomes@) == first_failure(outcomes@.skip(i as int)),
            decreases outcomes@.len() - i,
        {
            match &outcomes[i] {
                PropertyOutcome::Failed(e) => {
                    proof {
                        assert(outcomes@.skip(i as int)[0] == outcomes@[i as int]);
                    }
                    sup.terminate();
                    return Err(*e);
                },
                _ => {
                    proof {
                        assert(outcomes@.skip(i as int)[0] == outcomes@[i as int]);
                        assert(outcomes@.skip(i as int).drop_first() =~= outcomes@.skip(i + 1));
                    }
                },
            }
            i = i + 1;
        }
        proof {
            assert(outcomes@.skip(i as int).len() == 0);
        }
        sup.terminate();
        Ok(())
    }
}

} // verus!
