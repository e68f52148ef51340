//! Identifiers, states and values of the kernel's records.

use std::sync::Arc;
use vstd::prelude::*;

use crate::ids::{v7_number, DeterministicIds};
use crate::store::table::Key;
use crate::text::same_text;

verus! {

// ---------------------------------------------------------------------------
// Identifiers
// ---------------------------------------------------------------------------

/// The identifier of an actor.
#[derive(Clone, Copy, Debug, PartialEq, Eq, PartialOrd, Ord, Hash, Structural)]
pub struct ActorId {
    pub number: u128,
}

impl ActorId {
    /// The next identifier of a source.
    pub fn new(ids: &mut DeterministicIds) -> (r: Self)
        ensures
            r.number == v7_number(old(ids).seed(), old(ids).given()),
            final(ids).seed() == old(ids).seed(),
            final(ids).given() == (old(ids).given() + 1) % 0x1_0000_0000_0000_0000,
    {
        ActorId { number: ids.new_uuid_v7().number }
    }
}

impl Key for ActorId {
    type M = ActorId;

    open spec fn model(&self) -> ActorId {
        *self
    }

    fn same(&self, other: &Self) -> (r: bool) {
        self.number == other.number
    }

    fn copy_key(&self) -> (r: Self) {
        *self
    }
}

/// The identifier of an adapter.
#[derive(Clone, Copy, Debug, PartialEq, Eq, PartialOrd, Ord, Hash, Structural)]
pub struct AdapterId {
    pub number: u128,
}

impl AdapterId {
    /// The next identifier of a source.
    pub fn new(ids: &mut DeterministicIds) -> (r: Self)
        ensures
            r.number == v7_number(old(ids).seed(), old(ids).given()),
            final(ids).seed() == old(ids).seed(),
            final(ids).given() == (old(ids).given() + 1) % 0x1_0000_0000_0000_0000,
    {
        AdapterId { number: ids.new_uuid_v7().number }
    }
}

impl Key for AdapterId {
    type M = AdapterId;

    open spec fn model(&self) -> AdapterId {
        *self
    }

    fn same(&self, other: &Self) -> (r: bool) {
        self.number == other.number
    }

    fn copy_key(&self) -> (r: Self) {
        *self
    }
}

/// The identifier of an adapter instance.
#[derive(Clone, Copy, Debug, PartialEq, Eq, PartialOrd, Ord, Hash, Structural)]
pub struct AdapterInstanceId {
    pub number: u128,
}

impl AdapterInstanceId {
    /// The next identifier of a source.
    pub fn new(ids: &mut DeterministicIds) -> (r: Self)
        ensures
            r.number == v7_number(old(ids).seed(), old(ids).given()),
            final(ids).seed() == old(ids).seed(),
            final(ids).given() == (old(ids).given() + 1) % 0x1_0000_0000_0000_0000,
    {
        AdapterInstanceId { number: ids.new_uuid_v7().number }
    }
}

impl Key for AdapterInstanceId {
    type M = AdapterInstanceId;

    open spec fn model(&self) -> AdapterInstanceId {
        *self
    }

    fn same(&self, other: &Self) -> (r: bool) {
        self.number == other.number
    }

    fn copy_key(&self) -> (r: Self) {
        *self
    }
}

/// The identifier of an agent spec.
#[derive(Clone, Copy, Debug, PartialEq, Eq, PartialOrd, Ord, Hash, Structural)]
pub struct AgentSpecId {
    pub number: u128,
}

impl AgentSpecId {
    /// The next identifier of a source.
    pub fn new(ids: &mut DeterministicIds) -> (r: Self)
        ensures
            r.number == v7_number(old(ids).seed(), old(ids).given()),
            final(ids).seed() == old(ids).seed(),
            final(ids).given() == (old(ids).given() + 1) % 0x1_0000_0000_0000_0000,
    {
        AgentSpecId { number: ids.new_uuid_v7().number }
    }
}

impl Key for AgentSpecId {
    type M = AgentSpecId;

    open spec fn model(&self) -> AgentSpecId {
        *self
    }

    fn same(&self, other: &Self) -> (r: bool) {
        self.number == other.number
    }

    fn copy_key(&self) -> (r: Self) {
        *self
    }
}

/// The identifier of an approval request.
#[derive(Clone, Copy, Debug, PartialEq, Eq, PartialOrd, Ord, Hash, Structural)]
pub struct ApprovalRequestId {
    pub number: u128,
}

impl ApprovalRequestId {
    /// The next identifier of a source.
    pub fn new(ids: &mut DeterministicIds) -> (r: Self)
        ensures
            r.number == v7_number(old(ids).seed(), old(ids).given()),
            final(ids).seed() == old(ids).seed(),
            final(ids).given() == (old(ids).given() + 1) % 0x1_0000_0000_0000_0000,
    {
        ApprovalRequestId { number: ids.new_uuid_v7().number }
    }
}

impl Key for ApprovalRequestId {
    type M = ApprovalRequestId;

    open spec fn model(&self) -> ApprovalRequestId {
        *self
    }

    fn same(&self, other: &Self) -> (r: bool) {
        self.number == other.number
    }

    fn copy_key(&self) -> (r: Self) {
        *self
    }
}

/// The identifier of an artifact.
#[derive(Clone, Copy, Debug, PartialEq, Eq, PartialOrd, Ord, Hash, Structural)]
pub struct ArtifactId {
    pub number: u128,
}

impl ArtifactId {
    /// The next identifier of a source.
    pub fn new(ids: &mut DeterministicIds) -> (r: Self)
        ensures
            r.number == v7_number(old(ids).seed(), old(ids).given()),
            final(ids).seed() == old(ids).seed(),
            final(ids).given() == (old(ids).given() + 1) % 0x1_0000_0000_0000_0000,
    {
        ArtifactId { number: ids.new_uuid_v7().number }
    }
}

impl Key for ArtifactId {
    type M = ArtifactId;

    open spec fn model(&self) -> ArtifactId {
        *self
    }

    fn same(&self, other: &Self) -> (r: bool) {
        self.number == other.number
    }

    fn copy_key(&self) -> (r: Self) {
        *self
    }
}

/// The identifier of a capability grant.
#[derive(Clone, Copy, Debug, PartialEq, Eq, PartialOrd, Ord, Hash, Structural)]
pub struct CapabilityGrantId {
    pub number: u128,
}

impl CapabilityGrantId {
    /// The next identifier of a source.
    pub fn new(ids: &mut DeterministicIds) -> (r: Self)
        ensures
            r.number == v7_number(old(ids).seed(), old(ids).given()),
            final(ids).seed() == old(ids).seed(),
            final(ids).given() == (old(ids).given() + 1) % 0x1_0000_0000_0000_0000,
    {
        CapabilityGrantId { number: ids.new_uuid_v7().number }
    }
}

impl Key for CapabilityGrantId {
    type M = CapabilityGrantId;

    open spec fn model(&self) -> CapabilityGrantId {
        *self
    }

    fn same(&self, other: &Self) -> (r: bool) {
        self.number == other.number
    }

    fn copy_key(&self) -> (r: Self) {
        *self
    }
}

/// The identifier of a command.
#[derive(Clone, Copy, Debug, PartialEq, Eq, PartialOrd, Ord, Hash, Structural)]
pub struct CommandId {
    pub number: u128,
}

impl CommandId {
    /// The next identifier of a source.
    pub fn new(ids: &mut DeterministicIds) -> (r: Self)
        ensures
            r.number == v7_number(old(ids).seed(), old(ids).given()),
            final(ids).seed() == old(ids).seed(),
            final(ids).given() == (old(ids).given() + 1) % 0x1_0000_0000_0000_0000,
    {
        CommandId { number: ids.new_uuid_v7().number }
    }
}

impl Key for CommandId {
    type M = CommandId;

    open spec fn model(&self) -> CommandId {
        *self
    }

    fn same(&self, other: &Self) -> (r: bool) {
        self.number == other.number
    }

    fn copy_key(&self) -> (r: Self) {
        *self
    }
}

/// The identifier of a config generation.
#[derive(Clone, Copy, Debug, PartialEq, Eq, PartialOrd, Ord, Hash, Structural)]
pub struct ConfigGenerationId {
    pub number: u128,
}

impl ConfigGenerationId {
    /// The next identifier of a source.
    pub fn new(ids: &mut DeterministicIds) -> (r: Self)
        ensures
            r.number == v7_number(old(ids).seed(), old(ids).given()),
            final(ids).seed() == old(ids).seed(),
            final(ids).given() == (old(ids).given() + 1) % 0x1_0000_0000_0000_0000,
    {
        ConfigGenerationId { number: ids.new_uuid_v7().number }
    }
}

impl Key for ConfigGenerationId {
    type M = ConfigGenerationId;

    open spec fn model(&self) -> ConfigGenerationId {
        *self
    }

    fn same(&self, other: &Self) -> (r: bool) {
        self.number == other.number
    }

    fn copy_key(&self) -> (r: Self) {
        *self
    }
}

/// The identifier of a daemon instance.
#[derive(Clone, Copy, Debug, PartialEq, Eq, PartialOrd, Ord, Hash, Structural)]
pub struct DaemonInstanceId {
    pub number: u128,
}

impl DaemonInstanceId {
    /// The next identifier of a source.
    pub fn new(ids: &mut DeterministicIds) -> (r: Self)
        ensures
            r.number == v7_number(old(ids).seed(), old(ids).given()),
            final(ids).seed() == old(ids).seed(),
            final(ids).given() == (old(ids).given() + 1) % 0x1_0000_0000_0000_0000,
    {
        DaemonInstanceId { number: ids.new_uuid_v7().number }
    }
}

impl Key for DaemonInstanceId {
    type M = DaemonInstanceId;

    open spec fn model(&self) -> DaemonInstanceId {
        *self
    }

    fn same(&self, other: &Self) -> (r: bool) {
        self.number == other.number
    }

    fn copy_key(&self) -> (r: Self) {
        *self
    }
}

/// The identifier of a decision.
#[derive(Clone, Copy, Debug, PartialEq, Eq, PartialOrd, Ord, Hash, Structural)]
pub struct DecisionId {
    pub number: u128,
}

impl DecisionId {
    /// The next identifier of a source.
    pub fn new(ids: &mut DeterministicIds) -> (r: Self)
        ensures
            r.number == v7_number(old(ids).seed(), old(ids).given()),
            final(ids).seed() == old(ids).seed(),
            final(ids).given() == (old(ids).given() + 1) % 0x1_0000_0000_0000_0000,
    {
        DecisionId { number: ids.new_uuid_v7().number }
    }
}

impl Key for DecisionId {
    type M = DecisionId;

    open spec fn model(&self) -> DecisionId {
        *self
    }

    fn same(&self, other: &Self) -> (r: bool) {
        self.number == other.number
    }

    fn copy_key(&self) -> (r: Self) {
        *self
    }
}

/// The identifier of a delegation chain.
#[derive(Clone, Copy, Debug, PartialEq, Eq, PartialOrd, Ord, Hash, Structural)]
pub struct DelegationChainId {
    pub number: u128,
}

impl DelegationChainId {
    /// The next identifier of a source.
    pub fn new(ids: &mut DeterministicIds) -> (r: Self)
        ensures
            r.number == v7_number(old(ids).seed(), old(ids).given()),
            final(ids).seed() == old(ids).seed(),
            final(ids).given() == (old(ids).given() + 1) % 0x1_0000_0000_0000_0000,
    {
        DelegationChainId { number: ids.new_uuid_v7().number }
    }
}

impl Key for DelegationChainId {
    type M = DelegationChainId;

    open spec fn model(&self) -> DelegationChainId {
        *self
    }

    fn same(&self, other: &Self) -> (r: bool) {
        self.number == other.number
    }

    fn copy_key(&self) -> (r: Self) {
        *self
    }
}

/// The identifier of a dependency.
#[derive(Clone, Copy, Debug, PartialEq, Eq, PartialOrd, Ord, Hash, Structural)]
pub struct DependencyId {
    pub number: u128,
}

impl DependencyId {
    /// The next identifier of a source.
    pub fn new(ids: &mut DeterministicIds) -> (r: Self)
        ensures
            r.number == v7_number(old(ids).seed(), old(ids).given()),
            final(ids).seed() == old(ids).seed(),
            final(ids).given() == (old(ids).given() + 1) % 0x1_0000_0000_0000_0000,
    {
        DependencyId { number: ids.new_uuid_v7().number }
    }
}

impl Key for DependencyId {
    type M = DependencyId;

    open spec fn model(&self) -> DependencyId {
        *self
    }

    fn same(&self, other: &Self) -> (r: bool) {
        self.number == other.number
    }

    fn copy_key(&self) -> (r: Self) {
        *self
    }
}

/// The identifier of a device.
#[derive(Clone, Copy, Debug, PartialEq, Eq, PartialOrd, Ord, Hash, Structural)]
pub struct DeviceId {
    pub number: u128,
}

impl DeviceId {
    /// The next identifier of a source.
    pub fn new(ids: &mut DeterministicIds) -> (r: Self)
        ensures
            r.number == v7_number(old(ids).seed(), old(ids).given()),
            final(ids).seed() == old(ids).seed(),
            final(ids).given() == (old(ids).given() + 1) % 0x1_0000_0000_0000_0000,
    {
        DeviceId { number: ids.new_uuid_v7().number }
    }
}

impl Key for DeviceId {
    type M = DeviceId;

    open spec fn model(&self) -> DeviceId {
        *self
    }

    fn same(&self, other: &Self) -> (r: bool) {
        self.number == other.number
    }

    fn copy_key(&self) -> (r: Self) {
        *self
    }
}

/// The identifier of an effect.
#[derive(Clone, Copy, Debug, PartialEq, Eq, PartialOrd, Ord, Hash, Structural)]
pub struct EffectId {
    pub number: u128,
}

impl EffectId {
    /// The next identifier of a source.
    pub fn new(ids: &mut DeterministicIds) -> (r: Self)
        ensures
            r.number == v7_number(old(ids).seed(), old(ids).given()),
            final(ids).seed() == old(ids).seed(),
            final(ids).given() == (old(ids).given() + 1) % 0x1_0000_0000_0000_0000,
    {
        EffectId { number: ids.new_uuid_v7().number }
    }
}

impl Key for EffectId {
    type M = EffectId;

    open spec fn model(&self) -> EffectId {
        *self
    }

    fn same(&self, other: &Self) -> (r: bool) {
        self.number == other.number
    }

    fn copy_key(&self) -> (r: Self) {
        *self
    }
}

/// The identifier of an environment.
#[derive(Clone, Copy, Debug, PartialEq, Eq, PartialOrd, Ord, Hash, Structural)]
pub struct EnvironmentId {
    pub number: u128,
}

impl EnvironmentId {
    /// The next identifier of a source.
    pub fn new(ids: &mut DeterministicIds) -> (r: Self)
        ensures
            r.number == v7_number(old(ids).seed(), old(ids).given()),
            final(ids).seed() == old(ids).seed(),
            final(ids).given() == (old(ids).given() + 1) % 0x1_0000_0000_0000_0000,
    {
        EnvironmentId { number: ids.new_uuid_v7().number }
    }
}

impl Key for EnvironmentId {
    type M = EnvironmentId;

    open spec fn model(&self) -> EnvironmentId {
        *self
    }

    fn same(&self, other: &Self) -> (r: bool) {
        self.number == other.number
    }

    fn copy_key(&self) -> (r: Self) {
        *self
    }
}

/// The identifier of an event.
#[derive(Clone, Copy, Debug, PartialEq, Eq, PartialOrd, Ord, Hash, Structural)]
pub struct EventId {
    pub number: u128,
}

impl EventId {
    /// The next identifier of a source.
    pub fn new(ids: &mut DeterministicIds) -> (r: Self)
        ensures
            r.number == v7_number(old(ids).seed(), old(ids).given()),
            final(ids).seed() == old(ids).seed(),
            final(ids).given() == (old(ids).given() + 1) % 0x1_0000_0000_0000_0000,
    {
        EventId { number: ids.new_uuid_v7().number }
    }
}

impl Key for EventId {
    type M = EventId;

    open spec fn model(&self) -> EventId {
        *self
    }

    fn same(&self, other: &Self) -> (r: bool) {
        self.number == other.number
    }

    fn copy_key(&self) -> (r: Self) {
        *self
    }
}

/// The identifier of a lease.
#[derive(Clone, Copy, Debug, PartialEq, Eq, PartialOrd, Ord, Hash, Structural)]
pub struct LeaseId {
    pub number: u128,
}

impl LeaseId {
    /// The next identifier of a source.
    pub fn new(ids: &mut DeterministicIds) -> (r: Self)
        ensures
            r.number == v7_number(old(ids).seed(), old(ids).given()),
            final(ids).seed() == old(ids).seed(),
            final(ids).given() == (old(ids).given() + 1) % 0x1_0000_0000_0000_0000,
    {
        LeaseId { number: ids.new_uuid_v7().number }
    }
}

impl Key for LeaseId {
    type M = LeaseId;

    open spec fn model(&self) -> LeaseId {
        *self
    }

    fn same(&self, other: &Self) -> (r: bool) {
        self.number == other.number
    }

    fn copy_key(&self) -> (r: Self) {
        *self
    }
}

/// The identifier of a principal.
#[derive(Clone, Copy, Debug, PartialEq, Eq, PartialOrd, Ord, Hash, Structural)]
pub struct PrincipalId {
    pub number: u128,
}

impl PrincipalId {
    /// The next identifier of a source.
    pub fn new(ids: &mut DeterministicIds) -> (r: Self)
        ensures
            r.number == v7_number(old(ids).seed(), old(ids).given()),
            final(ids).seed() == old(ids).seed(),
            final(ids).given() == (old(ids).given() + 1) % 0x1_0000_0000_0000_0000,
    {
        PrincipalId { number: ids.new_uuid_v7().number }
    }
}

impl Key for PrincipalId {
    type M = PrincipalId;

    open spec fn model(&self) -> PrincipalId {
        *self
    }

    fn same(&self, other: &Self) -> (r: bool) {
        self.number == other.number
    }

    fn copy_key(&self) -> (r: Self) {
        *self
    }
}

/// The identifier of a reservation.
#[derive(Clone, Copy, Debug, PartialEq, Eq, PartialOrd, Ord, Hash, Structural)]
pub struct ReservationId {
    pub number: u128,
}

impl ReservationId {
    /// The next identifier of a source.
    pub fn new(ids: &mut DeterministicIds) -> (r: Self)
        ensures
            r.number == v7_number(old(ids).seed(), old(ids).given()),
            final(ids).seed() == old(ids).seed(),
            final(ids).given() == (old(ids).given() + 1) % 0x1_0000_0000_0000_0000,
    {
        ReservationId { number: ids.new_uuid_v7().number }
    }
}

impl Key for ReservationId {
    type M = ReservationId;

    open spec fn model(&self) -> ReservationId {
        *self
    }

    fn same(&self, other: &Self) -> (r: bool) {
        self.number == other.number
    }

    fn copy_key(&self) -> (r: Self) {
        *self
    }
}

/// The identifier of a run.
#[derive(Clone, Copy, Debug, PartialEq, Eq, PartialOrd, Ord, Hash, Structural)]
pub struct RunId {
    pub number: u128,
}

impl RunId {
    /// The next identifier of a source.
    pub fn new(ids: &mut DeterministicIds) -> (r: Self)
        ensures
            r.number == v7_number(old(ids).seed(), old(ids).given()),
            final(ids).seed() == old(ids).seed(),
            final(ids).given() == (old(ids).given() + 1) % 0x1_0000_0000_0000_0000,
    {
        RunId { number: ids.new_uuid_v7().number }
    }
}

impl Key for RunId {
    type M = RunId;

    open spec fn model(&self) -> RunId {
        *self
    }

    fn same(&self, other: &Self) -> (r: bool) {
        self.number == other.number
    }

    fn copy_key(&self) -> (r: Self) {
        *self
    }
}

/// The identifier of a session.
#[derive(Clone, Copy, Debug, PartialEq, Eq, PartialOrd, Ord, Hash, Structural)]
pub struct SessionId {
    pub number: u128,
}

impl SessionId {
    /// The next identifier of a source.
    pub fn new(ids: &mut DeterministicIds) -> (r: Self)
        ensures
            r.number == v7_number(old(ids).seed(), old(ids).given()),
            final(ids).seed() == old(ids).seed(),
            final(ids).given() == (old(ids).given() + 1) % 0x1_0000_0000_0000_0000,
    {
        SessionId { number: ids.new_uuid_v7().number }
    }
}

impl Key for SessionId {
    type M = SessionId;

    open spec fn model(&self) -> SessionId {
        *self
    }

    fn same(&self, other: &Self) -> (r: bool) {
        self.number == other.number
    }

    fn copy_key(&self) -> (r: Self) {
        *self
    }
}

/// The identifier of a task.
#[derive(Clone, Copy, Debug, PartialEq, Eq, PartialOrd, Ord, Hash, Structural)]
pub struct TaskId {
    pub number: u128,
}

impl TaskId {
    /// The next identifier of a source.
    pub fn new(ids: &mut DeterministicIds) -> (r: Self)
        ensures
            r.number == v7_number(old(ids).seed(), old(ids).given()),
            final(ids).seed() == old(ids).seed(),
            final(ids).given() == (old(ids).given() + 1) % 0x1_0000_0000_0000_0000,
    {
        TaskId { number: ids.new_uuid_v7().number }
    }
}

impl Key for TaskId {
    type M = TaskId;

    open spec fn model(&self) -> TaskId {
        *self
    }

    fn same(&self, other: &Self) -> (r: bool) {
        self.number == other.number
    }

    fn copy_key(&self) -> (r: Self) {
        *self
    }
}

/// The identifier of a timer.
#[derive(Clone, Copy, Debug, PartialEq, Eq, PartialOrd, Ord, Hash, Structural)]
pub struct TimerId {
    pub number: u128,
}

impl TimerId {
    /// The next identifier of a source.
    pub fn new(ids: &mut DeterministicIds) -> (r: Self)
        ensures
            r.number == v7_number(old(ids).seed(), old(ids).given()),
            final(ids).seed() == old(ids).seed(),
            final(ids).given() == (old(ids).given() + 1) % 0x1_0000_0000_0000_0000,
    {
        TimerId { number: ids.new_uuid_v7().number }
    }
}

impl Key for TimerId {
    type M = TimerId;

    open spec fn model(&self) -> TimerId {
        *self
    }

    fn same(&self, other: &Self) -> (r: bool) {
        self.number == other.number
    }

    fn copy_key(&self) -> (r: Self) {
        *self
    }
}

/// The identifier of a turn.
#[derive(Clone, Copy, Debug, PartialEq, Eq, PartialOrd, Ord, Hash, Structural)]
pub struct TurnId {
    pub number: u128,
}

impl TurnId {
    /// The next identifier of a source.
    pub fn new(ids: &mut DeterministicIds) -> (r: Self)
        ensures
            r.number == v7_number(old(ids).seed(), old(ids).given()),
            final(ids).seed() == old(ids).seed(),
            final(ids).given() == (old(ids).given() + 1) % 0x1_0000_0000_0000_0000,
    {
        TurnId { number: ids.new_uuid_v7().number }
    }
}

impl Key for TurnId {
    type M = TurnId;

    open spec fn model(&self) -> TurnId {
        *self
    }

    fn same(&self, other: &Self) -> (r: bool) {
        self.number == other.number
    }

    fn copy_key(&self) -> (r: Self) {
        *self
    }
}

/// The identifier of a workspace.
#[derive(Clone, Copy, Debug, PartialEq, Eq, PartialOrd, Ord, Hash, Structural)]
pub struct WorkspaceId {
    pub number: u128,
}

impl WorkspaceId {
    /// The next identifier of a source.
    pub fn new(ids: &mut DeterministicIds) -> (r: Self)
        ensures
            r.number == v7_number(old(ids).seed(), old(ids).given()),
            final(ids).seed() == old(ids).seed(),
            final(ids).given() == (old(ids).given() + 1) % 0x1_0000_0000_0000_0000,
    {
        WorkspaceId { number: ids.new_uuid_v7().number }
    }
}

impl Key for WorkspaceId {
    type M = WorkspaceId;

    open spec fn model(&self) -> WorkspaceId {
        *self
    }

    fn same(&self, other: &Self) -> (r: bool) {
        self.number == other.number
    }

    fn copy_key(&self) -> (r: Self) {
        *self
    }
}

// ---------------------------------------------------------------------------
// States
// ---------------------------------------------------------------------------

/// The state of a run.
#[derive(Clone, Copy, Debug, PartialEq, Eq, Structural)]
pub enum RunState {
    Created,
    Ready,
    Running,
    WaitingTool,
    Waiting,
    Completed,
    Failed,
    Cancelled,
}

/// How a run goes on after a restart.
#[derive(Clone, Copy, Debug, PartialEq, Eq, Structural)]
pub enum RecoveryDisposition {
    Normal,
    Recovering,
    Quarantined,
}

/// The state of an effect.
#[derive(Clone, Copy, Debug, PartialEq, Eq, Structural)]
pub enum EffectState {
    Prepared,
    Claimed,
    Dispatched,
    Committed,
    Failed,
    Unknown,
}

/// What an effect acts on.
#[derive(Clone, Copy, Debug, PartialEq, Eq, Structural)]
pub enum EffectClass {
    ReadOnly,
    LocalMutation,
    ExternalMutation,
}

/// How an effect may be repeated.
#[derive(Clone, Copy, Debug, PartialEq, Eq, Structural)]
pub enum IdempotencySemantics {
    NotSupported,
    Natural,
    IdempotencyKeySupported,
}

/// How the outcome of an effect is found again.
#[derive(Clone, Copy, Debug, PartialEq, Eq, Structural)]
pub enum ReconciliationSemantics {
    NotSupported,
    StatusLookup,
}

/// The state of a reservation.
#[derive(Clone, Copy, Debug, PartialEq, Eq, Structural)]
pub enum ReservationState {
    Reserved,
    Committed,
    Released,
}

/// The state of a timer.
#[derive(Clone, Copy, Debug, PartialEq, Eq, Structural)]
pub enum TimerState {
    Scheduled,
    Claimed,
    Fired,
    Cancelled,
}

/// What a run waits for in another one.
#[derive(Clone, Copy, Debug, PartialEq, Eq, Structural)]
pub enum DependencyCondition {
    Started,
    CompletedSuccessfully,
    Terminated,
}

/// How a lease lets its owner use a workspace.
#[derive(Clone, Copy, Debug, PartialEq, Eq, Structural)]
pub enum WorkspaceAccessMode {
    Unspecified,
    ReadOnly,
    ExclusiveWrite,
    SharedCoordinatedWrite,
}

/// Whether a lease is in force.
#[derive(Clone, Copy, Debug, PartialEq, Eq, Structural)]
pub enum LeaseEnforcementState {
    Active,
    Revoked,
}

/// The state of a request for approval.
#[derive(Clone, Copy, Debug, PartialEq, Eq, Structural)]
pub enum ApprovalState {
    Pending,
    Approved,
    Denied,
    Expired,
}

/// Whether an adapter is trusted.
#[derive(Clone, Copy, Debug, PartialEq, Eq, Structural)]
pub enum TrustState {
    Untrusted,
    Trusted,
}

/// What the conformance tests say of an adapter.
#[derive(Clone, Copy, Debug, PartialEq, Eq, Structural)]
pub enum ConformanceState {
    Untested,
    Passed,
    Failed,
}

/// Who may see a record.
#[derive(Clone, Copy, Debug, PartialEq, Eq, Structural)]
pub enum SensitivityClass {
    Public,
    Internal,
    Confidential,
    Secret,
}

/// How long a record is kept.
#[derive(Clone, Copy, Debug, PartialEq, Eq, Structural)]
pub enum RetentionClass {
    Ephemeral,
    Standard,
    Audit,
}

/// Where an event was published.
#[derive(Clone, Copy, Debug, PartialEq, Eq, Structural)]
pub enum PublishKind {
    Journal,
    Live,
}

impl RunState {
    /// Whether a run in this state has ended.
    pub open spec fn ended(self) -> bool {
        self == RunState::Completed || self == RunState::Failed || self == RunState::Cancelled
    }

    /// Whether a run in this state has ended.
    pub fn is_terminal(&self) -> (r: bool)
        ensures
            r == self.ended(),
    {
        *self == RunState::Completed || *self == RunState::Failed || *self == RunState::Cancelled
    }
}

// ---------------------------------------------------------------------------
// Values
// ---------------------------------------------------------------------------

/// Bytes that are kept in a record.
#[derive(Debug)]
pub struct Bytes {
    pub data: Arc<Vec<u8>>,
}

impl View for Bytes {
    type V = Seq<u8>;

    open spec fn view(&self) -> Seq<u8> {
        self.data@
    }
}

impl Bytes {
    /// The given bytes.
    pub fn new(data: Vec<u8>) -> (r: Self)
        ensures
            r@ == data@,
    {
        Bytes { data: Arc::new(data) }
    }

    /// The bytes as a slice.
    pub fn as_slice(&self) -> (r: &[u8])
        ensures
            r@ == self@,
    {
        self.data.as_slice()
    }

    /// Whether the bytes are those of `other`.
    pub fn same_bytes(&self, other: &Bytes) -> (r: bool)
        ensures
            r == (self@ == other@),
    {
        let n: usize = self.data.len();
        if n != other.data.len() {
            return false;
        }
        let mut i: usize = 0;
        while i < n
            invariant
                i <= n,
                n == self@.len(),
                n == other@.len(),
                forall|k: int| 0 <= k < i ==> self@[k] == other@[k],
            decreases n - i,
        {
            if self.data[i] != other.data[i] {
                assert(self@[i as int] != other@[i as int]);
                return false;
            }
            i += 1;
        }
        assert(self@ =~= other@);
        true
    }
}

impl Clone for Bytes {
    fn clone(&self) -> (r: Self)
        ensures
            r == *self,
    {
        Bytes { data: self.data.clone() }
    }
}

/// The key of a stream of events.
#[derive(Debug)]
pub struct EventStreamKey {
    pub text: String,
}

impl EventStreamKey {
    /// The key with the given text.
    pub fn new(text: &str) -> (r: Self)
        ensures
            r.text@ == text@,
    {
        EventStreamKey { text: text.to_owned() }
    }
}

impl Clone for EventStreamKey {
    fn clone(&self) -> (r: Self)
        ensures
            r == *self,
    {
        EventStreamKey { text: self.text.clone() }
    }
}

impl Key for EventStreamKey {
    type M = Seq<char>;

    open spec fn model(&self) -> Seq<char> {
        self.text@
    }

    fn same(&self, other: &Self) -> (r: bool) {
        same_text(self.text.as_str(), other.text.as_str())
    }

    fn copy_key(&self) -> (r: Self) {
        self.clone()
    }
}

/// The key by which a repeated command is recognised.
#[derive(Debug)]
pub struct IdempotencyKey {
    pub text: String,
}

impl IdempotencyKey {
    /// The key with the given text.
    pub fn new(text: &str) -> (r: Self)
        ensures
            r.text@ == text@,
    {
        IdempotencyKey { text: text.to_owned() }
    }
}

impl Clone for IdempotencyKey {
    fn clone(&self) -> (r: Self)
        ensures
            r == *self,
    {
        IdempotencyKey { text: self.text.clone() }
    }
}

impl Key for IdempotencyKey {
    type M = Seq<char>;

    open spec fn model(&self) -> Seq<char> {
        self.text@
    }

    fn same(&self, other: &Self) -> (r: bool) {
        same_text(self.text.as_str(), other.text.as_str())
    }

    fn copy_key(&self) -> (r: Self) {
        self.clone()
    }
}

/// A position in a stream of events.
#[derive(Debug)]
pub struct EventCursor {
    pub stream_key: EventStreamKey,
    pub sequence: u64,
}

impl EventCursor {
    /// The position `sequence` in a stream.
    pub fn new(stream_key: EventStreamKey, sequence: u64) -> (r: Self)
        ensures
            r.stream_key == stream_key,
            r.sequence == sequence,
    {
        EventCursor { stream_key, sequence }
    }
}

impl Clone for EventCursor {
    fn clone(&self) -> (r: Self)
        ensures
            r == *self,
    {
        EventCursor { stream_key: self.stream_key.clone(), sequence: self.sequence }
    }
}

/// A run has ended exactly where it was completed, has failed or was cancelled: no state before
/// that is an end.
pub proof fn runs_end_in_three_ways(state: RunState)
    ensures
        RunState::Completed.ended() && RunState::Failed.ended() && RunState::Cancelled.ended(),
        state != RunState::Completed && state != RunState::Failed && state != RunState::Cancelled
            ==> !state.ended(),
{
}

} // verus!
