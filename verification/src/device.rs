//! The device handle interface and an instrumented implementation.
//!
//! The physical device is an external collaborator: the core only assumes a
//! blocking port that takes one command frame and returns one reply or one
//! device-reported error. The [`DevicePort`] trait captures exactly that
//! interface, instrumented for verification: a port counts its invocations
//! and predetermines the outcome of each, so every theorem about the
//! subsystem speaks of "whatever the device answered" without ever looking
//! inside the port.
//!
//! [`ScriptedPort`] is the library's own verified implementation: it serves
//! a fixed script of outcomes in order and reports a timeout once the script
//! is exhausted. Tests use it as the instrumented device handle that makes
//! call counting observable.

use vstd::prelude::*;

use crate::error::DomainError;
use crate::telemetry::{OverCurrentFaultState, Output, PbuHk, PcuHk, PduHk, PiuHk, SystemStatus};

verus! {

/// One reply a device call can produce.
#[derive(Clone, Debug, PartialEq, Eq)]
pub enum DeviceReply {
    /// Plain acknowledgement of a command with no result payload.
    Ack,
    /// System status record.
    Status(SystemStatus),
    /// Overcurrent fault state record.
    Overcurrent(OverCurrentFaultState),
    /// Distribution-unit housekeeping record.
    PduTelemetry(PduHk),
    /// Battery-unit housekeeping record.
    PbuTelemetry(PbuHk),
    /// Conditioning-unit housekeeping record.
    PcuTelemetry(PcuHk),
    /// Integration-unit housekeeping record.
    PiuTelemetry(PiuHk),
    /// Configuration-parameter result.
    Param(Output),
}

/// What one device call comes back with: a reply or a device-reported error.
pub type DeviceOutcome = Result<DeviceReply, DomainError>;

/// Blocking port to the physical device, instrumented for verification.
///
/// `calls` counts completed invocations and `outcome` fixes what the `k`-th
/// invocation comes back with; `submit` performs exactly one invocation.
/// Nothing constrains the outcomes themselves, so whatever is proved against
/// this interface holds for every answer the device may give. The
/// instrumentation also makes re-entry visible: each `submit` accounts for
/// exactly one invocation, in order.
pub trait DevicePort: Sized {
    /// Well-formedness of the port's own state.
    spec fn wf(&self) -> bool;

    /// Number of completed device invocations.
    spec fn calls(&self) -> nat;

    /// The outcome the port's `k`-th invocation comes back with.
    spec fn outcome(&self, k: nat) -> DeviceOutcome;

    /// Issue one command frame to the device, blocking until its outcome.
    fn submit(&mut self, cmd: &Vec<u8>) -> (out: DeviceOutcome)
        requires
            old(self).wf(),
        ensures
            final(self).wf(),
            final(self).calls() == old(self).calls() + 1,
            out == old(self).outcome(old(self).calls()),
            forall|k: nat| final(self).outcome(k) == old(self).outcome(k),
    ;
}

/// An instrumented device handle serving a fixed script of outcomes.
///
/// The `k`-th invocation returns the `k`-th scripted outcome; once the
/// script is exhausted every further invocation reports a timeout. The port
/// counts every invocation, so a test can observe exactly how many device
/// calls a sequence of operations made.
pub struct ScriptedPort {
    /// Outcomes not yet served, most imminent last.
    pending: Vec<DeviceOutcome>,
    /// The whole script, in serving order.
    full: Ghost<Seq<DeviceOutcome>>,
    /// Invocations served so far.
    served: Ghost<nat>,
    /// Exec-visible invocation counter, saturating at its width.
    hits: u64,
}

impl ScriptedPort {
    /// The outcome script this port serves.
    pub closed spec fn spec_script(&self) -> Seq<DeviceOutcome> {
        self.full@
    }

    /// Build a port that serves `script` in order.
    pub fn new(script: Vec<DeviceOutcome>) -> (p: ScriptedPort)
        ensures
            p.wf(),
            p.calls() == 0,
            p.spec_script() == script@,
    {
        let ghost full = script@;
        let mut input = script;
        let mut pending: Vec<DeviceOutcome> = Vec::new();
        proof {
            assert(input@ =~= full.take(input@.len() as int));
            assert(pending@ =~= full.skip(input@.len() as int).reverse());
        }
        while input.len() > 0
            invariant
                input@.len() <= full.len(),
                input@ == full.take(input@.len() as int),
                pending@ == full.skip(input@.len() as int).reverse(),
            decreases input@.len(),
        {
            let ghost n = input@.len() as int;
            let x = match input.pop() {
                Some(x) => x,
                None => {
                    proof {
                        assert(false);
                    }
                    Err(DomainError::Timeout)
                },
            };
            pending.push(x);
            proof {
                assert(x == full.take(n)[n - 1]);
                assert(input@ =~= full.take(n - 1));
                assert(pending@ =~= full.skip(n - 1).reverse());
            }
        }
        proof {
            assert(full.skip(0).reverse() =~= pending@);
        }
        ScriptedPort { pending, full: Ghost(full), served: Ghost(0nat), hits: 0 }
    }

    /// How many device invocations this port has served, saturating at the
    /// counter's width.
    pub fn calls_made(&self) -> (n: u64)
        requires
            self.wf(),
        ensures
            n as int == vstd::math::min(self.calls() as int, u64::MAX as int),
    {
        self.hits
    }
}

impl DevicePort for ScriptedPort {
    /// The pending tail mirrors the unserved part of the script, and the
    /// saturating counter mirrors the invocation count until its width runs
    /// out.
    closed spec fn wf(&self) -> bool {
        &&& self.pending@ == self.full@.skip(
            vstd::math::min(self.served@ as int, self.full@.len() as int),
        ).reverse()
        &&& self.hits as int == vstd::math::min(self.served@ as int, u64::MAX as int)
    }

    closed spec fn calls(&self) -> nat {
        self.served@
    }

    closed spec fn outcome(&self, k: nat) -> DeviceOutcome {
        if k < self.full@.len() {
            self.full@[k as int]
        } else {
            Err(DomainError::Timeout)
        }
    }

    fn submit(&mut self, cmd: &Vec<u8>) -> (out: DeviceOutcome) {
        let ghost s = self.served@ as int;
        let ghost full = self.full@;
        let out = match self.pending.pop() {
            Some(o) => o,
            None => Err(DomainError::Timeout),
        };
        self.hits = self.hits.saturating_add(1);
        proof {
            self.served@ = self.served@ + 1;
            if s < full.len() {
                assert(self.pending@ =~= full.skip(
                    vstd::math::min(s + 1, full.len() as int),
                ).reverse());
            } else {
                assert(self.pending@ =~= full.skip(full.len() as int).reverse());
            }
        }
        out
    }
}

} // verus!
