//! What the agent carries from one session to the next.
use vstd::prelude::*;
use crate::wire::{DeviceFrame, Hello, Status};

verus! {

/// The state that a device reports when its token was rejected.
pub const NEEDS_REBOOTSTRAP: &'static str = "needs_rebootstrap";

/// What a device says of a rejected token. No endpoint renews a token: a new one comes only from
/// a new bootstrap.
pub const REBOOTSTRAP_DETAIL: &'static str =
    "bulk pull rejected the read/control token; re-run `avocado container dev up`";

/// What can be done to the re-bootstrap flag.
pub ghost enum FlagStep {
    Raise,
    Lower,
    Keep,
}

/// Whether the re-bootstrap flag is up after `step`, where it was `before`.
pub open spec fn flag_next(before: bool, step: FlagStep) -> bool {
    match step {
        FlagStep::Raise => true,
        FlagStep::Lower => false,
        FlagStep::Keep => before,
    }
}

/// Whether the bulk upstream rejected the token since the last report of it. There is one such flag,
/// so it cannot be copied.
#[derive(Debug, PartialEq, Eq, Structural)]
pub struct ReBootstrap {
    raised: bool,
}

impl ReBootstrap {
    /// Whether a new bootstrap has been asked for.
    pub closed spec fn up(self) -> bool {
        self.raised
    }

    /// A flag that is down.
    pub fn new() -> (r: ReBootstrap)
        ensures
            !r.up(),
    {
        ReBootstrap { raised: false }
    }

    /// Raises the flag.
    pub fn raise(&mut self)
        ensures
            final(self).up() == flag_next(old(self).up(), FlagStep::Raise),
    {
        self.raised = true;
    }

    /// Whether the flag is up. Leaves it as it is.
    pub fn is_raised(&self) -> (r: bool)
        ensures
            r == self.up(),
    {
        self.raised
    }

    /// Lowers the flag, and says whether it was up.
    ///
    /// To observe and to lower are one step, so that the flag is down before the report goes out
    /// and a raise that comes meanwhile is not lost.
    pub fn take(&mut self) -> (r: bool)
        ensures
            r == old(self).up(),
            final(self).up() == flag_next(old(self).up(), FlagStep::Lower),
    {
        let was = self.raised;
        self.raised = false;
        was
    }

    /// Lowers the flag.
    pub fn clear(&mut self)
        ensures
            final(self).up() == flag_next(old(self).up(), FlagStep::Lower),
    {
        self.raised = false;
    }
}

impl Default for ReBootstrap {
    fn default() -> (r: ReBootstrap)
        ensures
            !r.up(),
    {
        ReBootstrap::new()
    }
}

/// The agent's state, carried across reconnects.
#[derive(Debug)]
pub struct AgentState {
    /// Who the device is.
    pub device_id: String,
    /// The digest that the device runs; empty until a sync has landed.
    pub running_digest: String,
    /// Raised when the bulk upstream rejects the token.
    pub rebootstrap: ReBootstrap,
}

impl AgentState {
    /// The state of a device that has not synced yet.
    pub fn new(device_id: String) -> (r: AgentState)
        ensures
            r.device_id@ == device_id@,
            r.running_digest@.len() == 0,
            !r.rebootstrap.up(),
    {
        AgentState { device_id, running_digest: String::new(), rebootstrap: ReBootstrap::new() }
    }

    /// Records that the device now runs `digest`.
    pub fn record_digest(&mut self, digest: &str)
        ensures
            final(self).running_digest@ == digest@,
            final(self).device_id == old(self).device_id,
            final(self).rebootstrap == old(self).rebootstrap,
    {
        self.running_digest = digest.to_string();
    }

    /// The `hello` of a device with the CPU architecture `arch`.
    pub open spec fn greets(self, arch: Seq<char>, frame: DeviceFrame) -> bool {
        &&& frame is Hello
        &&& frame->Hello_0.device_id@ == self.device_id@
        &&& frame->Hello_0.arch@ == arch
        &&& frame->Hello_0.running_digest@ == self.running_digest@
    }

    /// The `hello` that opens a session: it carries the digest that the device runs now.
    pub fn hello(&self, arch: &str) -> (frame: DeviceFrame)
        ensures
            self.greets(arch@, frame),
    {
        DeviceFrame::Hello(
            Hello {
                device_id: self.device_id.as_str().to_string(),
                arch: arch.to_string(),
                running_digest: self.running_digest.as_str().to_string(),
            },
        )
    }
}

/// Whether `frame` reports the state `state` of the device `device_id`, with `detail`.
pub open spec fn reports(
    frame: DeviceFrame,
    device_id: Seq<char>,
    state: Seq<char>,
    detail: Seq<char>,
) -> bool {
    &&& frame is Status
    &&& frame->Status_0.device_id@ == device_id
    &&& frame->Status_0.state@ == state
    &&& frame->Status_0.detail is Some
    &&& frame->Status_0.detail->0@ == detail
}

/// The report that the token was rejected.
pub fn rebootstrap_status(state: &AgentState) -> (frame: DeviceFrame)
    ensures
        reports(frame, state.device_id@, NEEDS_REBOOTSTRAP@, REBOOTSTRAP_DETAIL@),
{
    DeviceFrame::Status(
        Status {
            device_id: state.device_id.as_str().to_string(),
            state: NEEDS_REBOOTSTRAP.to_string(),
            detail: Some(REBOOTSTRAP_DETAIL.to_string()),
        },
    )
}

} // verus!
