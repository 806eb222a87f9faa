//! The transfer registry: the authoritative mapping from transfer identifier
//! to transfer state, and the two operations that drive it: processing a
//! chain event and processing a failed action execution.
//!
//! The registry is modelled as a finite map from identifier to
//! [`StateModel`]; every operation's contract says exactly how that map
//! changes and which action comes back.

use vstd::prelude::*;
use vstd::map::*;

use crate::actions::{ActionExecError, ActionKindModel, TransferAction, TransferActionType};
use crate::actions::ActionModel;
use crate::events::{BridgeContractEvent, InvalidEventError, TransferEvent};
use crate::events::EventModel;
use crate::events::ContractEventModel;
use crate::states::{accepts, event_action_kind, next_state_type, TransferState, TransferStateType};
use crate::states::StateModel;
use crate::types::BridgeTransferId;

verus! {

/// Whether some entry of `s` is keyed by `id`.
pub open spec fn seq_has_id(s: Seq<StateModel>, id: Seq<u8>) -> bool {
    exists|i: int| 0 <= i < s.len() && s[i].transfer_id == id
}

/// The index of the entry of `s` keyed by `id`; meaningful only when the
/// identifiers of `s` are distinct and one of them is `id`.
pub open spec fn seq_index_of(s: Seq<StateModel>, id: Seq<u8>) -> int {
    choose|i: int| 0 <= i < s.len() && s[i].transfer_id == id
}

/// No two entries of `s` share a transfer identifier.
pub open spec fn ids_distinct(s: Seq<StateModel>) -> bool {
    forall|i: int, j: int|
        0 <= i < j < s.len() ==> #[trigger] s[i].transfer_id != #[trigger] s[j].transfer_id
}

/// No entry of `s` is in the terminal state: reaching `Done` removes a
/// transfer in the same step.
pub open spec fn none_done(s: Seq<StateModel>) -> bool {
    forall|i: int| 0 <= i < s.len() ==> (#[trigger] s[i].state) != TransferStateType::Done
}

/// The finite map an entry sequence denotes, keyed by transfer identifier.
pub open spec fn map_of(s: Seq<StateModel>) -> Map<Seq<u8>, StateModel> {
    Map::new(|id: Seq<u8>| seq_has_id(s, id), |id: Seq<u8>| s[seq_index_of(s, id)])
}

/// Two entries with the same identifier are the same entry.
proof fn lemma_distinct_same_id(s: Seq<StateModel>, i: int, j: int)
    requires
        ids_distinct(s),
        0 <= i < s.len(),
        0 <= j < s.len(),
        s[i].transfer_id == s[j].transfer_id,
    ensures
        i == j,
{
    if i < j {
        assert(s[i].transfer_id != s[j].transfer_id);
    } else if j < i {
        assert(s[j].transfer_id != s[i].transfer_id);
    }
}

/// Each entry of a duplicate-free sequence is in its map, under its own
/// identifier.
proof fn lemma_map_of_index(s: Seq<StateModel>, i: int)
    requires
        ids_distinct(s),
        0 <= i < s.len(),
    ensures
        map_of(s).contains_key(s[i].transfer_id),
        map_of(s)[s[i].transfer_id] == s[i],
{
    let id = s[i].transfer_id;
    assert(seq_has_id(s, id));
    let j = seq_index_of(s, id);
    assert(0 <= j < s.len() && s[j].transfer_id == id);
    lemma_distinct_same_id(s, i, j);
}

/// An identifier that keys no entry is not in the map.
proof fn lemma_map_of_absent(s: Seq<StateModel>, id: Seq<u8>)
    requires
        forall|i: int| 0 <= i < s.len() ==> (#[trigger] s[i].transfer_id) != id,
    ensures
        !map_of(s).contains_key(id),
{
    if seq_has_id(s, id) {
        let j = seq_index_of(s, id);
        assert(0 <= j < s.len() && s[j].transfer_id == id);
        assert(s[j].transfer_id != id);
    }
}

/// Appending an entry with a fresh identifier inserts it into the map.
proof fn lemma_map_of_push(s: Seq<StateModel>, st: StateModel)
    requires
        ids_distinct(s),
        !seq_has_id(s, st.transfer_id),
    ensures
        ids_distinct(s.push(st)),
        map_of(s.push(st)) == map_of(s).insert(st.transfer_id, st),
{
    let t = s.push(st);
    assert forall|i: int, j: int| 0 <= i < j < t.len() implies #[trigger] t[i].transfer_id
        != #[trigger] t[j].transfer_id by {
        if j < s.len() {
            assert(t[i] == s[i] && t[j] == s[j]);
        } else {
            assert(t[j] == st && t[i] == s[i]);
            if t[i].transfer_id == st.transfer_id {
                assert(seq_has_id(s, st.transfer_id));
            }
        }
    }
    assert_maps_equal!(map_of(t), map_of(s).insert(st.transfer_id, st), k => {
        if k == st.transfer_id {
            lemma_map_of_index(t, s.len() as int);
        } else {
            if seq_has_id(s, k) {
                let i = seq_index_of(s, k);
                assert(0 <= i < s.len() && s[i].transfer_id == k);
                lemma_map_of_index(s, i);
                assert(t[i] == s[i]);
                lemma_map_of_index(t, i);
            } else {
                assert forall|i: int| 0 <= i < s.len() implies (#[trigger] s[i].transfer_id)
                    != k by {
                    if s[i].transfer_id == k {
                        assert(seq_has_id(s, k));
                    }
                }
                lemma_map_of_absent(s, k);
                assert forall|i: int| 0 <= i < t.len() implies (#[trigger] t[i].transfer_id)
                    != k by {
                    if i < s.len() {
                        assert(t[i] == s[i]);
                    } else {
                        assert(t[i] == st);
                    }
                }
                lemma_map_of_absent(t, k);
            }
        }
    });
}

/// Removing the entry at one index removes exactly its identifier from the
/// map.
proof fn lemma_map_of_remove(s: Seq<StateModel>, i: int)
    requires
        ids_distinct(s),
        0 <= i < s.len(),
    ensures
        ids_distinct(s.remove(i)),
        map_of(s.remove(i)) == map_of(s).remove(s[i].transfer_id),
{
    let t = s.remove(i);
    let id = s[i].transfer_id;
    s.remove_ensures(i);
    assert forall|a: int, b: int| 0 <= a < b < t.len() implies #[trigger] t[a].transfer_id
        != #[trigger] t[b].transfer_id by {
        let a0 = if a < i { a } else { a + 1 };
        let b0 = if b < i { b } else { b + 1 };
        assert(t[a] == s[a0] && t[b] == s[b0]);
        assert(a0 < b0);
    }
    assert forall|j: int| 0 <= j < t.len() implies (#[trigger] t[j].transfer_id) != id by {
        let j0 = if j < i { j } else { j + 1 };
        assert(t[j] == s[j0]);
        lemma_distinct_same_id(s, i, i);
        if t[j].transfer_id == id {
            lemma_distinct_same_id(s, j0, i);
        }
    }
    assert_maps_equal!(map_of(t), map_of(s).remove(id), k => {
        if k == id {
            lemma_map_of_absent(t, k);
        } else {
            if seq_has_id(s, k) {
                let j = seq_index_of(s, k);
                assert(0 <= j < s.len() && s[j].transfer_id == k);
                lemma_map_of_index(s, j);
                let j1 = if j < i { j } else { j - 1 };
                assert(j != i);
                assert(t[j1] == s[j]);
                lemma_map_of_index(t, j1);
            } else {
                assert forall|j: int| 0 <= j < s.len() implies (#[trigger] s[j].transfer_id)
                    != k by {
                    if s[j].transfer_id == k {
                        assert(seq_has_id(s, k));
                    }
                }
                lemma_map_of_absent(s, k);
                assert forall|j: int| 0 <= j < t.len() implies (#[trigger] t[j].transfer_id)
                    != k by {
                    let j0 = if j < i { j } else { j + 1 };
                    assert(t[j] == s[j0]);
                }
                lemma_map_of_absent(t, k);
            }
        }
    });
}

/// Whether the registry in state `m` accepts `e`: an `Initiated` event is
/// accepted exactly when its identifier is unknown; any other event exactly
/// when a state exists for its identifier and admits it as successor.
pub open spec fn spec_event_accepted(m: Map<Seq<u8>, StateModel>, e: EventModel) -> bool {
    let id = e.contract_event.transfer_id();
    if e.contract_event is Initiated {
        !m.contains_key(id)
    } else {
        m.contains_key(id) && accepts(m[id].state, e.contract_event)
    }
}

/// What processing an accepted event does: the registry contents afterwards,
/// and the action produced. An `Initiated` event creates an `Initialized`
/// entry and directs the lock action at the counterparty chain; any other
/// event moves its entry along the state machine (removing it if it reaches
/// `Done`) and directs the produced action at the initiating chain.
pub open spec fn spec_process_event(m: Map<Seq<u8>, StateModel>, e: EventModel) -> (
    Map<Seq<u8>, StateModel>,
    ActionModel,
)
    recommends
        spec_event_accepted(m, e),
{
    let id = e.contract_event.transfer_id();
    match e.contract_event {
        ContractEventModel::Initiated(_, d) => {
            let st = StateModel {
                transfer_id: id,
                init_chain: e.chain,
                state: TransferStateType::Initialized,
                retry_on_error: 0,
                details: d,
            };
            let act = ActionModel {
                chain: e.chain.spec_other(),
                transfer_id: id,
                kind: ActionKindModel::LockBridgeTransfer { details: d },
            };
            (m.insert(id, st), act)
        },
        _ => {
            let st = m[id];
            let ns = st.with_state(next_state_type(e.contract_event));
            let act = ActionModel {
                chain: st.init_chain,
                transfer_id: id,
                kind: event_action_kind(e.contract_event),
            };
            if ns.state == TransferStateType::Done {
                (m.remove(id), act)
            } else {
                (m.insert(id, ns), act)
            }
        },
    }
}

/// What consuming a failed-execution report does. An unknown identifier is
/// discarded (the transfer may have completed concurrently). Otherwise the
/// retry counter rises by one, saturating at its type's bound; at or below
/// the retry threshold the same action is handed back for re-execution,
/// above it a persistently failing lock is abandoned in favour of refunding
/// the initiator, and every other kind is left to outside intervention.
pub open spec fn spec_error_step(m: Map<Seq<u8>, StateModel>, a: ActionModel) -> (
    Map<Seq<u8>, StateModel>,
    Option<ActionModel>,
) {
    let id = a.transfer_id;
    if !m.contains_key(id) {
        (m, None)
    } else {
        let st = m[id];
        let bumped = if st.retry_on_error < u32::MAX {
            (st.retry_on_error + 1) as u32
        } else {
            st.retry_on_error
        };
        let stb = StateModel { retry_on_error: bumped, ..st };
        if bumped > 5 {
            match a.kind {
                ActionKindModel::LockBridgeTransfer { .. } => (
                    m.insert(id, stb.with_state(TransferStateType::Refunded)),
                    Some(
                        ActionModel {
                            chain: st.init_chain,
                            transfer_id: st.transfer_id,
                            kind: ActionKindModel::RefundInitiator,
                        },
                    ),
                ),
                // No escalation is defined for a persistently failing
                // completion; the registry never reaches this case (see
                // `completion_retry_unresolved`).
                ActionKindModel::WaitAndCompleteInitiator(_) => (m.insert(id, stb), None),
                _ => (m.insert(id, stb), None),
            }
        } else {
            (m.insert(id, stb), Some(a))
        }
    }
}

/// A completion action that keeps failing has no defined escalation policy;
/// the registry refuses the report that would force that decision, rather
/// than silently dropping the transfer.
pub open spec fn completion_retry_unresolved(m: Map<Seq<u8>, StateModel>, a: ActionModel) -> bool {
    &&& a.kind is WaitAndCompleteInitiator
    &&& m.contains_key(a.transfer_id)
    &&& m[a.transfer_id].retry_on_error >= 5
}

/// The transfer registry. It owns every [`TransferState`]; no other
/// component keeps a long-lived reference to one.
pub struct Runtime {
    swap_state_map: Vec<TransferState>,
}

impl View for Runtime {
    type V = Map<Seq<u8>, StateModel>;

    open spec fn view(&self) -> Map<Seq<u8>, StateModel> {
        map_of(self.entries())
    }
}

impl Runtime {
    /// The registry's entries, in storage order.
    pub closed spec fn entries(self) -> Seq<StateModel> {
        self.swap_state_map@.map_values(|s: TransferState| s@)
    }

    /// The registry's invariant: one entry per transfer identifier, and no
    /// entry in the terminal state.
    pub open spec fn wf(self) -> bool {
        ids_distinct(self.entries()) && none_done(self.entries())
    }

    /// An empty registry.
    pub fn new() -> (r: Runtime)
        ensures
            r.wf(),
            r.entries() == Seq::<StateModel>::empty(),
            r@ == Map::<Seq<u8>, StateModel>::empty(),
    {
        let r = Runtime { swap_state_map: Vec::new() };
        proof {
            assert(r.entries() =~= Seq::<StateModel>::empty());
            assert forall|id: Seq<u8>| !(#[trigger] r@.contains_key(id)) by {
                if seq_has_id(r.entries(), id) {
                    let j = seq_index_of(r.entries(), id);
                    assert(0 <= j < r.entries().len());
                }
            }
            assert(r@ =~= Map::<Seq<u8>, StateModel>::empty());
        }
        r
    }

    /// Read-only snapshot of every current transfer state, for diagnostics.
    pub fn iter_state(&self) -> (r: &Vec<TransferState>)
        ensures
            r@.map_values(|s: TransferState| s@) == self.entries(),
    {
        &self.swap_state_map
    }

    /// The storage index of the entry for `id`, if one exists.
    fn position_of(&self, id: &BridgeTransferId) -> (r: Option<usize>)
        requires
            self.wf(),
        ensures
            match r {
                Some(i) => {
                    &&& i < self.entries().len()
                    &&& self.entries()[i as int].transfer_id == id@
                    &&& self@.contains_key(id@)
                    &&& self@[id@] == self.entries()[i as int]
                },
                None => !self@.contains_key(id@),
            },
    {
        let n = self.swap_state_map.len();
        let mut i: usize = 0;
        while i < n
            invariant
                self.wf(),
                n == self.entries().len(),
                i <= n,
                forall|k: int| 0 <= k < i ==> (#[trigger] self.entries()[k].transfer_id) != id@,
            decreases n - i,
        {
            if self.swap_state_map[i].transfer_id.equals(id) {
                proof {
                    lemma_map_of_index(self.entries(), i as int);
                }
                return Some(i);
            }
            i += 1;
        }
        proof {
            lemma_map_of_absent(self.entries(), id@);
        }
        None
    }

    /// Removes and returns the entry at index `i`.
    fn remove_at(&mut self, i: usize) -> (st: TransferState)
        requires
            old(self).wf(),
            i < old(self).entries().len(),
        ensures
            final(self).wf(),
            st@ == old(self).entries()[i as int],
            final(self).entries() == old(self).entries().remove(i as int),
            final(self)@ == old(self)@.remove(st@.transfer_id),
            !final(self)@.contains_key(st@.transfer_id),
    {
        let ghost olds = old(self).entries();
        let st = self.swap_state_map.remove(i);
        proof {
            assert(self.entries() =~= olds.remove(i as int)) by {
                olds.remove_ensures(i as int);
            }
            lemma_map_of_remove(olds, i as int);
            assert(none_done(self.entries())) by {
                olds.remove_ensures(i as int);
                assert forall|j: int| 0 <= j < self.entries().len() implies (
                #[trigger] self.entries()[j].state) != TransferStateType::Done by {
                    let j0 = if j < i { j } else { j + 1 };
                    assert(self.entries()[j] == olds[j0]);
                }
            }
        }
        st
    }

    /// Appends an entry whose identifier is not yet present.
    fn push_entry(&mut self, st: TransferState)
        requires
            old(self).wf(),
            !old(self)@.contains_key(st@.transfer_id),
            st@.state != TransferStateType::Done,
        ensures
            final(self).wf(),
            final(self).entries() == old(self).entries().push(st@),
            final(self)@ == old(self)@.insert(st@.transfer_id, st@),
    {
        let ghost olds = old(self).entries();
        proof {
            if seq_has_id(olds, st@.transfer_id) {
                let j = seq_index_of(olds, st@.transfer_id);
                assert(0 <= j < olds.len() && olds[j].transfer_id == st@.transfer_id);
                lemma_map_of_index(olds, j);
            }
        }
        self.swap_state_map.push(st);
        proof {
            assert(self.entries() =~= olds.push(st@));
            lemma_map_of_push(olds, st@);
            assert(none_done(self.entries())) by {
                assert forall|j: int| 0 <= j < self.entries().len() implies (
                #[trigger] self.entries()[j].state) != TransferStateType::Done by {
                    if j < olds.len() {
                        assert(self.entries()[j] == olds[j]);
                    } else {
                        assert(self.entries()[j] == st@);
                    }
                }
            }
        }
    }

    /// Validates an incoming event against the current registry contents:
    /// `Ok` exactly when the registry accepts it.
    pub fn validate_state(&self, event: &TransferEvent) -> (r: Result<(), InvalidEventError>)
        requires
            self.wf(),
        ensures
            r is Ok <==> spec_event_accepted(self@, event@),
            r is Err ==> r == Err::<(), InvalidEventError>(InvalidEventError::StateNotFound),
    {
        let event_transfer_id = event.contract_event.bridge_transfer_id();
        match self.position_of(&event_transfer_id) {
            Some(i) => {
                if self.swap_state_map[i].validate_event(&event.contract_event) {
                    Ok(())
                } else {
                    Err(InvalidEventError::StateNotFound)
                }
            },
            None => {
                if event.contract_event.is_initiated_event() {
                    Ok(())
                } else {
                    Err(InvalidEventError::StateNotFound)
                }
            },
        }
    }

    /// Processes one chain event. When the registry accepts the event, the
    /// registry changes and the returned action are exactly those of
    /// [`spec_process_event`]; otherwise nothing changes and the event is
    /// rejected with `StateNotFound`.
    pub fn process_event(&mut self, event: TransferEvent) -> (r: Result<
        TransferAction,
        InvalidEventError,
    >)
        requires
            old(self).wf(),
        ensures
            final(self).wf(),
            (r is Ok) == spec_event_accepted(old(self)@, event@),
            r is Ok ==> {
                &&& final(self)@ == spec_process_event(old(self)@, event@).0
                &&& (r->Ok_0)@ == spec_process_event(old(self)@, event@).1
            },
            r is Err ==> {
                &&& r == Err::<TransferAction, InvalidEventError>(InvalidEventError::StateNotFound)
                &&& final(self)@ == old(self)@
                &&& final(self).entries() == old(self).entries()
            },
    {
        match self.validate_state(&event) {
            Ok(()) => {},
            Err(e) => {
                return Err(e);
            },
        }
        let event_transfer_id = event.contract_event.bridge_transfer_id();
        match event.contract_event {
            BridgeContractEvent::Initiated(id, detail) => {
                let (state, mut action) = TransferState::transition_from_initiated(
                    event.chain,
                    id,
                    detail,
                );
                action.chain = state.init_chain.other();
                self.push_entry(state);
                Ok(action)
            },
            BridgeContractEvent::Locked(_id, detail) => {
                let i = match self.position_of(&event_transfer_id) {
                    Some(i) => i,
                    None => unreached(),
                };
                let state = self.remove_at(i);
                let (new_state, action_kind) = state.transition_from_locked_done(
                    event_transfer_id,
                    detail,
                );
                let action = TransferAction {
                    chain: new_state.init_chain,
                    transfer_id: event_transfer_id,
                    kind: action_kind,
                };
                self.push_entry(new_state);
                proof {
                    assert(self@ =~= spec_process_event(old(self)@, event@).0);
                }
                Ok(action)
            },
            BridgeContractEvent::CounterPartCompleted(_id, preimage) => {
                let i = match self.position_of(&event_transfer_id) {
                    Some(i) => i,
                    None => unreached(),
                };
                let state = self.remove_at(i);
                let (new_state, action_kind) = state.transition_from_counterpart_completed(
                    event_transfer_id,
                    preimage,
                );
                let action = TransferAction {
                    chain: new_state.init_chain,
                    transfer_id: event_transfer_id,
                    kind: action_kind,
                };
                self.push_entry(new_state);
                proof {
                    assert(self@ =~= spec_process_event(old(self)@, event@).0);
                }
                Ok(action)
            },
            BridgeContractEvent::InitiatorCompleted(_id) => {
                let i = match self.position_of(&event_transfer_id) {
                    Some(i) => i,
                    None => unreached(),
                };
                let state = self.remove_at(i);
                let (new_state, action_kind) = state.transition_from_initiator_completed(
                    event_transfer_id,
                );
                let action = TransferAction {
                    chain: new_state.init_chain,
                    transfer_id: event_transfer_id,
                    kind: action_kind,
                };
                Ok(action)
            },
            BridgeContractEvent::Cancelled(_id) => {
                let i = match self.position_of(&event_transfer_id) {
                    Some(i) => i,
                    None => unreached(),
                };
                let state = self.remove_at(i);
                let (new_state, action_kind) = state.transition_from_cancelled(event_transfer_id);
                let action = TransferAction {
                    chain: new_state.init_chain,
                    transfer_id: event_transfer_id,
                    kind: action_kind,
                };
                self.push_entry(new_state);
                proof {
                    assert(self@ =~= spec_process_event(old(self)@, event@).0);
                }
                Ok(action)
            },
            BridgeContractEvent::Refunded(_id) => {
                let i = match self.position_of(&event_transfer_id) {
                    Some(i) => i,
                    None => unreached(),
                };
                let state = self.remove_at(i);
                let (new_state, action_kind) = state.transition_from_refunded(event_transfer_id);
                let action = TransferAction {
                    chain: new_state.init_chain,
                    transfer_id: event_transfer_id,
                    kind: action_kind,
                };
                self.push_entry(new_state);
                proof {
                    assert(self@ =~= spec_process_event(old(self)@, event@).0);
                }
                Ok(action)
            },
        }
    }

    /// Consumes a failed-execution report. The registry changes and the
    /// returned action are exactly those of [`spec_error_step`]; a report
    /// that would force the undefined completion-escalation decision is
    /// refused by precondition.
    pub fn process_action_exec_error(&mut self, action_err: ActionExecError) -> (r: Option<
        TransferAction,
    >)
        requires
            old(self).wf(),
            !completion_retry_unresolved(old(self)@, action_err.0@),
        ensures
            final(self).wf(),
            final(self)@ == spec_error_step(old(self)@, action_err.0@).0,
            match r {
                Some(a) => spec_error_step(old(self)@, action_err.0@).1 == Some(a@),
                None => spec_error_step(old(self)@, action_err.0@).1 is None,
            },
    {
        let (action, _err) = action_err.inner();
        let i = match self.position_of(&action.transfer_id) {
            Some(i) => i,
            None => {
                return None;
            },
        };
        let mut state = self.remove_at(i);
        if state.retry_on_error < u32::MAX {
            state.retry_on_error = state.retry_on_error + 1;
        }
        if state.retry_on_error > 5 {
            match &action.kind {
                TransferActionType::LockBridgeTransfer { .. } => {
                    let (new_state_type, action_kind) = state.transition_to_refund();
                    state.state = new_state_type;
                    let ret = TransferAction {
                        chain: state.init_chain,
                        transfer_id: state.transfer_id,
                        kind: action_kind,
                    };
                    self.push_entry(state);
                    proof {
                        assert(self@ =~= spec_error_step(old(self)@, action_err.0@).0);
                    }
                    Some(ret)
                },
                TransferActionType::WaitAndCompleteInitiator(_) => unreached(),
                _ => {
                    self.push_entry(state);
                    proof {
                        assert(self@ =~= spec_error_step(old(self)@, action_err.0@).0);
                    }
                    None
                },
            }
        } else {
            self.push_entry(state);
            proof {
                assert(self@ =~= spec_error_step(old(self)@, action_err.0@).0);
            }
            Some(action)
        }
    }
}

/// Uniqueness: the registry holds at most one state per transfer
/// identifier; two entries with the same identifier are the same entry.
pub proof fn lemma_at_most_one_state(r: Runtime, i: int, j: int)
    requires
        r.wf(),
        0 <= i < r.entries().len(),
        0 <= j < r.entries().len(),
        r.entries()[i].transfer_id == r.entries()[j].transfer_id,
    ensures
        i == j,
{
    lemma_distinct_same_id(r.entries(), i, j);
}

/// Creation gate: an event for an unknown identifier is accepted exactly
/// when it is `Initiated`, and then creates an `Initialized` entry with the
/// event's chain as initiating chain and a fresh retry counter.
pub proof fn lemma_creation_gate(m: Map<Seq<u8>, StateModel>, e: EventModel)
    requires
        !m.contains_key(e.contract_event.transfer_id()),
    ensures
        spec_event_accepted(m, e) <==> e.contract_event is Initiated,
        e.contract_event is Initiated ==> {
            let m1 = spec_process_event(m, e).0;
            let id = e.contract_event.transfer_id();
            &&& m1.contains_key(id)
            &&& m1[id].state == TransferStateType::Initialized
            &&& m1[id].init_chain == e.chain
            &&& m1[id].retry_on_error == 0
            &&& m1[id].transfer_id == id
        },
{
}

/// Terminal removal: an accepted event that drives its transfer to `Done`
/// removes the identifier from the registry in the same step.
pub proof fn lemma_terminal_removal(m: Map<Seq<u8>, StateModel>, e: EventModel)
    requires
        spec_event_accepted(m, e),
        next_state_type(e.contract_event) == TransferStateType::Done,
    ensures
        !spec_process_event(m, e).0.contains_key(e.contract_event.transfer_id()),
{
}

/// Chain targeting: the action produced by an accepted `Initiated` event
/// targets the counterparty of the event's chain; the action produced by an
/// accepted `Locked` event targets the transfer's initiating chain.
pub proof fn lemma_chain_targeting(m: Map<Seq<u8>, StateModel>, e: EventModel)
    requires
        spec_event_accepted(m, e),
    ensures
        e.contract_event is Initiated ==> spec_process_event(m, e).1.chain
            == e.chain.spec_other(),
        e.contract_event is Locked ==> spec_process_event(m, e).1.chain
            == m[e.contract_event.transfer_id()].init_chain,
{
}

/// The registry contents after `n` consecutive reports that action `a`
/// failed to execute.
pub open spec fn spec_error_steps(m: Map<Seq<u8>, StateModel>, a: ActionModel, n: nat) -> Map<
    Seq<u8>,
    StateModel,
>
    decreases n,
{
    if n == 0 {
        m
    } else {
        spec_error_step(spec_error_steps(m, a, (n - 1) as nat), a).0
    }
}

/// Below the threshold each failure report only raises the counter and
/// hands the same action back.
proof fn lemma_retry_counts(m: Map<Seq<u8>, StateModel>, a: ActionModel, n: nat)
    requires
        m.contains_key(a.transfer_id),
        m[a.transfer_id].retry_on_error == 0,
        a.kind is LockBridgeTransfer,
        n <= 5,
    ensures
        spec_error_steps(m, a, n).contains_key(a.transfer_id),
        spec_error_steps(m, a, n)[a.transfer_id] == (StateModel {
            retry_on_error: n as u32,
            ..m[a.transfer_id]
        }),
        n >= 1 ==> spec_error_step(spec_error_steps(m, a, (n - 1) as nat), a).1 == Some(a),
    decreases n,
{
    if n > 0 {
        lemma_retry_counts(m, a, (n - 1) as nat);
    }
}

/// Retry bound: starting from a fresh retry counter, five consecutive
/// failure reports for a transfer's lock action each hand the same lock
/// action back for re-execution; the sixth instead abandons the lock,
/// records the transfer as `Refunded`, and produces a refund action aimed
/// at the transfer's initiating chain.
pub proof fn lemma_retry_bound(m: Map<Seq<u8>, StateModel>, a: ActionModel)
    requires
        m.contains_key(a.transfer_id),
        m[a.transfer_id].retry_on_error == 0,
        a.kind is LockBridgeTransfer,
    ensures
        forall|n: nat|
            n < 5 ==> spec_error_step(#[trigger] spec_error_steps(m, a, n), a).1 == Some(a),
        spec_error_step(spec_error_steps(m, a, 5), a).1 == Some(
            ActionModel {
                chain: m[a.transfer_id].init_chain,
                transfer_id: m[a.transfer_id].transfer_id,
                kind: ActionKindModel::RefundInitiator,
            },
        ),
        spec_error_steps(m, a, 6).contains_key(a.transfer_id),
        spec_error_steps(m, a, 6)[a.transfer_id].state == TransferStateType::Refunded,
{
    assert forall|n: nat|
        n < 5 implies spec_error_step(#[trigger] spec_error_steps(m, a, n), a).1 == Some(a) by {
        lemma_retry_counts(m, a, n + 1);
    }
    lemma_retry_counts(m, a, 5);
    assert(spec_error_steps(m, a, 6) == spec_error_step(spec_error_steps(m, a, 5), a).0);
}

} // verus!
