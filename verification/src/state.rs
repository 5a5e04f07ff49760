//! The authoritative state of the backend and the commands that change it.
//!
//! The state is one record shared by every component. Reading it takes a
//! shared reference and changing it takes an exclusive one, so a lock around
//! the record hands readers to the first kind of method and the single writer
//! to the second.

use vstd::prelude::*;
use crate::error::Failure;
use crate::message::{Message, RelayEndpoint};

verus! {

/// Largest team number the robot link can address: four decimal digits.
pub const MAX_TEAM_NUMBER: u32 = 9999;

/// Whether `n` is a team number within the protocol's bounds.
pub open spec fn valid_team_number(n: int) -> bool {
    0 <= n <= MAX_TEAM_NUMBER
}

/// What the robot link engine must be told after a command was applied.
#[derive(Clone, Copy, Debug, PartialEq, Eq, Structural)]
pub struct EngineUpdate {
    /// The team number the engine must switch to.
    pub team_number: u32,
}

/// The plain values of the state: what contracts and laws speak of.
pub struct StateModel {
    pub team_number: u32,
    pub relay: Option<RelayEndpoint>,
}

impl StateModel {
    /// The state at construction: the persisted team number and no relay.
    pub open spec fn initial(team_number: u32) -> StateModel {
        StateModel { team_number, relay: None }
    }

    /// Well-formedness: the team number is within the protocol's bounds.
    pub open spec fn wf(self) -> bool {
        valid_team_number(self.team_number as int)
    }

    /// The state after a handshake delivered `endpoint`: an absent relay
    /// becomes present, a present one stays.
    pub open spec fn bound(self, endpoint: RelayEndpoint) -> StateModel {
        match self.relay {
            None => StateModel { relay: Some(endpoint), ..self },
            Some(_) => self,
        }
    }

    /// What applying `command` answers: the update for the engine, or the
    /// reason the command was rejected.
    pub open spec fn outcome(command: Message) -> Result<EngineUpdate, Failure> {
        match command {
            Message::UpdateTeamNumber { team_number, .. } => {
                if valid_team_number(team_number as int) {
                    Ok(EngineUpdate { team_number: team_number as u32 })
                } else {
                    Err(Failure::InvalidTeamNumber)
                }
            },
            _ => Err(Failure::NotACommand),
        }
    }

    /// The state after `command` was applied: an accepted command sets the
    /// team number, a rejected one changes nothing.
    pub open spec fn applied(self, command: Message) -> StateModel {
        match Self::outcome(command) {
            Ok(update) => StateModel { team_number: update.team_number, ..self },
            Err(_) => self,
        }
    }
}

/// One change to the state: a handshake delivery or an inbound command.
pub enum Operation {
    /// A handshake delivered this endpoint.
    Handshake(RelayEndpoint),
    /// This message came in as a command.
    Command(Message),
}

impl StateModel {
    /// The state after one operation.
    pub open spec fn performed(self, operation: Operation) -> StateModel {
        match operation {
            Operation::Handshake(endpoint) => self.bound(endpoint),
            Operation::Command(command) => self.applied(command),
        }
    }

    /// The state after the operations of `operations`, one after the other.
    pub open spec fn after(self, operations: Seq<Operation>) -> StateModel
        decreases operations.len(),
    {
        if operations.len() == 0 {
            self
        } else {
            self.after(operations.drop_last()).performed(operations.last())
        }
    }
}

/// The single mutable record of the backend: the robot link engine, the relay
/// endpoint once a handshake has delivered it, and the team number.
///
/// The engine is carried and handed out, never inspected.
pub struct AuthoritativeState<E> {
    ds_engine: E,
    record: Record,
}

/// The plain part of the state, kept within the protocol's bounds.
struct Record {
    relay_endpoint: Option<RelayEndpoint>,
    team_number: u32,
}

impl Record {
    #[verifier::type_invariant]
    spec fn inv(self) -> bool {
        self.team_number <= MAX_TEAM_NUMBER
    }
}

impl<E> View for AuthoritativeState<E> {
    type V = StateModel;

    closed spec fn view(&self) -> StateModel {
        StateModel { team_number: self.record.team_number, relay: self.record.relay_endpoint }
    }
}

impl<E> AuthoritativeState<E> {
    /// The engine the state carries.
    pub closed spec fn engine_of(self) -> E {
        self.ds_engine
    }

    /// Builds the state from the engine and the persisted team number.
    ///
    /// A persisted number outside the protocol's bounds is a malformed
    /// configuration.
    pub fn new(ds_engine: E, persisted_team_number: u32) -> (r: Result<Self, Failure>)
        ensures
            valid_team_number(persisted_team_number as int) ==> r is Ok,
            r matches Ok(s) ==> {
                &&& valid_team_number(persisted_team_number as int)
                &&& s@ == StateModel::initial(persisted_team_number)
                &&& s.engine_of() == ds_engine
            },
            r matches Err(e) ==> e == Failure::MalformedConfig,
    {
        if persisted_team_number <= MAX_TEAM_NUMBER {
            Ok(
                AuthoritativeState {
                    ds_engine,
                    record: Record { relay_endpoint: None, team_number: persisted_team_number },
                },
            )
        } else {
            Err(Failure::MalformedConfig)
        }
    }

    /// The current team number: what is persisted at shutdown.
    pub fn team_number(&self) -> (t: u32)
        ensures
            t == self@.team_number,
            self@.wf(),
    {
        proof {
            use_type_invariant(&self.record);
        }
        self.record.team_number
    }

    /// The relay endpoint, once a handshake has delivered it.
    pub fn relay_endpoint(&self) -> (r: Option<RelayEndpoint>)
        ensures
            r == self@.relay,
    {
        self.record.relay_endpoint
    }

    /// The robot link engine, for reading.
    pub fn engine(&self) -> (e: &E)
        ensures
            *e == self.engine_of(),
    {
        &self.ds_engine
    }

    /// The robot link engine, for the calls that change it.
    pub fn engine_mut(&mut self) -> (e: &mut E)
        ensures
            *e == old(self).engine_of(),
            final(self).engine_of() == *final(e),
            final(self)@ == old(self)@,
    {
        &mut self.ds_engine
    }

    /// Binds the relay endpoint a handshake delivered.
    ///
    /// The endpoint is bound at most once: a delivery that finds one bound
    /// changes nothing and answers `false`.
    pub fn bind_relay(&mut self, endpoint: RelayEndpoint) -> (bound: bool)
        ensures
            final(self)@ == old(self)@.bound(endpoint),
            final(self).engine_of() == old(self).engine_of(),
            bound == (old(self)@.relay is None),
    {
        match self.record.relay_endpoint {
            None => {
                proof {
                    use_type_invariant(&self.record);
                }
                self.record.relay_endpoint = Some(endpoint);
                true
            },
            Some(_) => false,
        }
    }

    /// Applies a team number update.
    ///
    /// A number within the protocol's bounds becomes the team number and is
    /// answered with the one update the engine must receive. Any other number
    /// is rejected and the state stays as it was.
    pub fn update_team_number(&mut self, team_number: i64) -> (r: Result<EngineUpdate, Failure>)
        ensures
            r == StateModel::outcome(
                Message::UpdateTeamNumber { team_number, from_backend: false },
            ),
            final(self)@ == old(self)@.applied(
                Message::UpdateTeamNumber { team_number, from_backend: false },
            ),
            final(self).engine_of() == old(self).engine_of(),
    {
        if 0 <= team_number && team_number <= MAX_TEAM_NUMBER as i64 {
            let accepted: u32 = team_number as u32;
            self.record.team_number = accepted;
            Ok(EngineUpdate { team_number: accepted })
        } else {
            Err(Failure::InvalidTeamNumber)
        }
    }

    /// Applies an inbound command.
    ///
    /// A team number update is applied whoever it names as its sender. Every
    /// other message is no command: it is rejected and changes nothing.
    pub fn apply(&mut self, command: Message) -> (r: Result<EngineUpdate, Failure>)
        ensures
            r == StateModel::outcome(command),
            final(self)@ == old(self)@.applied(command),
            final(self).engine_of() == old(self).engine_of(),
    {
        match command {
            Message::UpdateTeamNumber { team_number, .. } => self.update_team_number(team_number),
            _ => Err(Failure::NotACommand),
        }
    }
}

/// An accepted team number update is what the state then holds.
pub proof fn lemma_accepted_update_is_read_back(
    s: StateModel,
    team_number: i64,
    from_backend: bool,
)
    requires
        valid_team_number(team_number as int),
    ensures
        s.applied(Message::UpdateTeamNumber { team_number, from_backend }).team_number
            == team_number,
        StateModel::outcome(Message::UpdateTeamNumber { team_number, from_backend }) == Ok::<
            EngineUpdate,
            Failure,
        >(EngineUpdate { team_number: team_number as u32 }),
{
}

/// Applying a command twice leaves the state that applying it once leaves.
/// The answer depends on the command alone, so it is the same both times.
pub proof fn lemma_apply_is_idempotent(s: StateModel, command: Message)
    ensures
        s.applied(command).applied(command) == s.applied(command),
{
}

/// A team number outside the protocol's bounds is rejected and the state is
/// left as it was.
pub proof fn lemma_invalid_update_is_rejected(
    s: StateModel,
    team_number: i64,
    from_backend: bool,
)
    requires
        !valid_team_number(team_number as int),
    ensures
        s.applied(Message::UpdateTeamNumber { team_number, from_backend }) == s,
        StateModel::outcome(Message::UpdateTeamNumber { team_number, from_backend }) == Err::<
            EngineUpdate,
            Failure,
        >(Failure::InvalidTeamNumber),
{
}

/// A relay endpoint, once bound, is never replaced: a second delivery leaves
/// the first in place.
pub proof fn lemma_relay_is_bound_once(s: StateModel, first: RelayEndpoint, second: RelayEndpoint)
    ensures
        s.bound(first).relay is Some,
        s.relay is None ==> s.bound(first).relay == Some(first),
        s.bound(first).bound(second) == s.bound(first),
{
}

/// No command touches the relay endpoint, and no handshake the team number.
pub proof fn lemma_commands_and_handshakes_are_independent(
    s: StateModel,
    command: Message,
    endpoint: RelayEndpoint,
)
    ensures
        s.applied(command).relay == s.relay,
        s.bound(endpoint).team_number == s.team_number,
        s.applied(command).bound(endpoint) == s.bound(endpoint).applied(command),
{
}

/// Through any number of handshake deliveries and commands, the relay
/// endpoint goes from absent to present at most once: whatever it is at one
/// moment, if present, it is at every later moment.
pub proof fn lemma_relay_never_reverts(
    s: StateModel,
    earlier: Seq<Operation>,
    later: Seq<Operation>,
)
    requires
        s.after(earlier).relay is Some,
    ensures
        s.after(earlier + later).relay == s.after(earlier).relay,
    decreases later.len(),
{
    if later.len() == 0 {
        assert(earlier + later == earlier);
    } else {
        assert((earlier + later).drop_last() == earlier + later.drop_last());
        assert((earlier + later).last() == later.last());
        lemma_relay_never_reverts(s, earlier, later.drop_last());
    }
}

/// Through any number of handshake deliveries and commands, the team number
/// stays within the protocol's bounds.
pub proof fn lemma_team_number_stays_valid(s: StateModel, operations: Seq<Operation>)
    requires
        s.wf(),
    ensures
        s.after(operations).wf(),
    decreases operations.len(),
{
    if operations.len() > 0 {
        lemma_team_number_stays_valid(s, operations.drop_last());
    }
}

} // verus!
