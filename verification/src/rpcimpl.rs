use vstd::prelude::*;
use crate::errors::{MyError, ResourceKind};
use crate::registry::{ConnectionState, RegistryModel};
use crate::rpc::{
    EngineCall, Handle, MicrophoneState, Resource, RpcCatchall, RpcCommand, RpcDictation,
    RpcEngine, RpcSelect, spec_load_items, spec_load_result, spec_mutate, spec_unload_items,
    spec_unload_result,
};

verus! {

/// The per-connection state behind one session lock: a single id-keyed
/// table holding every kind of resource, tagged by kind. One counter serves
/// the whole session, so ids are unique across kinds.
///
/// Whoever drives the session (the connection task and the engine's
/// callback thread) must guard every call through one lock per session, and
/// must not hold that lock across a blocking engine call.
pub struct Session {
    state: ConnectionState<Resource>,
}

impl View for Session {
    type V = RegistryModel<Resource>;

    closed spec fn view(&self) -> RegistryModel<Resource> {
        self.state@
    }
}

impl Session {
    /// Well-formedness of the session's registry.
    pub open spec fn wf(&self) -> bool {
        self@.wf()
    }

    /// A fresh session: nothing loaded, no id issued yet.
    pub fn new() -> (r: Session)
        ensures
            r.wf(),
            r@.counter == 0,
            r@.items =~= Map::<u64, Resource>::empty(),
            r@.issued =~= Seq::<u64>::empty(),
    {
        Session { state: ConnectionState::new() }
    }

    /// Draws the id for a load or a registration. The caller keeps the
    /// session lock until the matching `load`/`register` commit, so no other
    /// allocation can come in between. The id is fresh: never 0, never
    /// a repeat, not yet in the table.
    pub fn begin_load(&mut self) -> (id: u64)
        requires
            old(self).wf(),
            old(self)@.counter < u64::MAX,
        ensures
            final(self).wf(),
            id == old(self)@.counter + 1,
            final(self)@.counter == id,
            final(self)@.items == old(self)@.items,
            final(self)@.issued == old(self)@.issued.push(id),
            !final(self)@.items.contains_key(id),
    {
        let id = self.state.new_id();
        proof {
            if self@.items.contains_key(id) {
                assert(id <= old(self)@.counter);
            }
        }
        id
    }

    /// The last id issued in this session (0 when none was issued yet).
    pub fn last_id(&self) -> (r: u64)
        ensures
            r == self@.counter,
    {
        self.state.last_id()
    }

    /// The engine-side token for a live id, whatever its kind; fails with
    /// `UnknownEntityId` exactly when the id is not live.
    pub fn resource_handle(&self, id: u64) -> (r: Result<Handle, MyError>)
        ensures
            match r {
                Ok(h) => self@.items.contains_key(id) && self@.items[id].handle == h,
                Err(e) => !self@.items.contains_key(id) && e == MyError::UnknownEntityId(id),
            },
    {
        match self.state.lookup(id) {
            Ok(res) => Ok(res.handle),
            Err(e) => Err(e),
        }
    }

    /// Session teardown: every live resource is dropped, which is what stops
    /// the engine from producing further events for this session. Issued ids
    /// stay consumed.
    pub fn teardown(&mut self)
        requires
            old(self).wf(),
        ensures
            final(self).wf(),
            final(self)@.items =~= Map::<u64, Resource>::empty(),
            final(self)@.counter == old(self)@.counter,
            final(self)@.issued == old(self)@.issued,
    {
        self.state.clear();
    }

    /// The commit half of a load, shared by every kind.
    fn do_load(&mut self, kind: ResourceKind, id: u64, outcome: Result<Handle, String>) -> (r:
        Result<u64, MyError>)
        requires
            old(self).wf(),
            1 <= id <= old(self)@.counter,
            !old(self)@.items.contains_key(id),
        ensures
            final(self).wf(),
            final(self)@.counter == old(self)@.counter,
            final(self)@.issued == old(self)@.issued,
            final(self)@.items == spec_load_items(old(self)@.items, kind, id, outcome),
            r == spec_load_result(id, outcome),
    {
        match outcome {
            Ok(h) => {
                self.state.insert(id, Resource { kind, handle: h });
                Ok(id)
            },
            Err(m) => Err(MyError::Engine(m)),
        }
    }

    /// The kind-checked removal shared by every kind's unload.
    fn do_unload(&mut self, kind: ResourceKind, id: u64) -> (r: Result<(), MyError>)
        requires
            old(self).wf(),
        ensures
            final(self).wf(),
            final(self)@.counter == old(self)@.counter,
            final(self)@.issued == old(self)@.issued,
            final(self)@.items == spec_unload_items(old(self)@.items, kind, id),
            r == spec_unload_result(old(self)@.items, kind, id),
    {
        let live_kind: Option<ResourceKind> = match self.state.lookup(id) {
            Ok(res) => Some(res.kind),
            Err(_) => None,
        };
        match live_kind {
            None => Ok(()),
            Some(k) => {
                if k == kind {
                    let _ = self.state.remove(id);
                    Ok(())
                } else {
                    Err(MyError::WrongGrammarType(id, kind))
                }
            },
        }
    }

    /// The lookup decision shared by every mutating method: the call goes
    /// ahead exactly when the id is live with the requested kind.
    fn do_mutate(&self, kind: ResourceKind, id: u64, call: EngineCall) -> (r: Result<
        EngineCall,
        MyError,
    >)
        ensures
            r == spec_mutate(self@.items, kind, id, call),
    {
        match self.state.lookup(id) {
            Ok(res) => {
                if res.kind == kind {
                    Ok(call)
                } else {
                    Err(MyError::WrongGrammarType(id, kind))
                }
            },
            Err(e) => Err(e),
        }
    }
}

/// Turns an engine outcome into the response payload: the engine's own
/// failure text is surfaced unchanged, wrapped as an engine error.
pub fn engine_result<T>(outcome: Result<T, String>) -> (r: Result<T, MyError>)
    ensures
        match outcome {
            Ok(v) => r == Ok::<T, MyError>(v),
            Err(m) => r == Err::<T, MyError>(MyError::Engine(m)),
        },
{
    match outcome {
        Ok(v) => Ok(v),
        Err(m) => Err(MyError::Engine(m)),
    }
}

impl RpcCommand for Session {
    open spec fn inv(&self) -> bool {
        self.wf()
    }

    open spec fn reg(&self) -> RegistryModel<Resource> {
        self@
    }

    fn load(&mut self, grammar_id: u64, outcome: Result<Handle, String>) -> Result<u64, MyError> {
        self.do_load(ResourceKind::CommandGrammar, grammar_id, outcome)
    }

    fn unload(&mut self, grammar_id: u64) -> Result<(), MyError> {
        self.do_unload(ResourceKind::CommandGrammar, grammar_id)
    }

    fn rule_activate(&self, grammar_id: u64, rule_name: String) -> Result<EngineCall, MyError> {
        self.do_mutate(
            ResourceKind::CommandGrammar,
            grammar_id,
            EngineCall::RuleActivate { id: grammar_id, rule_name },
        )
    }

    fn rule_deactivate(&self, grammar_id: u64, rule_name: String) -> Result<EngineCall, MyError> {
        self.do_mutate(
            ResourceKind::CommandGrammar,
            grammar_id,
            EngineCall::RuleDeactivate { id: grammar_id, rule_name },
        )
    }

    fn list_append(&self, grammar_id: u64, list_name: String, word: String) -> Result<
        EngineCall,
        MyError,
    > {
        self.do_mutate(
            ResourceKind::CommandGrammar,
            grammar_id,
            EngineCall::ListAppend { id: grammar_id, list_name, word },
        )
    }

    fn list_remove(&self, grammar_id: u64, list_name: String, word: String) -> Result<
        EngineCall,
        MyError,
    > {
        self.do_mutate(
            ResourceKind::CommandGrammar,
            grammar_id,
            EngineCall::ListRemove { id: grammar_id, list_name, word },
        )
    }

    fn list_clear(&self, grammar_id: u64, list_name: String) -> Result<EngineCall, MyError> {
        self.do_mutate(
            ResourceKind::CommandGrammar,
            grammar_id,
            EngineCall::ListClear { id: grammar_id, list_name },
        )
    }
}

impl RpcSelect for Session {
    open spec fn inv(&self) -> bool {
        self.wf()
    }

    open spec fn reg(&self) -> RegistryModel<Resource> {
        self@
    }

    fn load(&mut self, grammar_id: u64, outcome: Result<Handle, String>) -> Result<u64, MyError> {
        self.do_load(ResourceKind::SelectGrammar, grammar_id, outcome)
    }

    fn unload(&mut self, grammar_id: u64) -> Result<(), MyError> {
        self.do_unload(ResourceKind::SelectGrammar, grammar_id)
    }

    fn activate(&self, grammar_id: u64) -> Result<EngineCall, MyError> {
        self.do_mutate(
            ResourceKind::SelectGrammar,
            grammar_id,
            EngineCall::Activate { id: grammar_id },
        )
    }

    fn deactivate(&self, grammar_id: u64) -> Result<EngineCall, MyError> {
        self.do_mutate(
            ResourceKind::SelectGrammar,
            grammar_id,
            EngineCall::Deactivate { id: grammar_id },
        )
    }

    fn text_set(&self, grammar_id: u64, text: String) -> Result<EngineCall, MyError> {
        self.do_mutate(
            ResourceKind::SelectGrammar,
            grammar_id,
            EngineCall::TextSet { id: grammar_id, text },
        )
    }

    fn text_change(&self, grammar_id: u64, start: u32, stop: u32, text: String) -> Result<
        EngineCall,
        MyError,
    > {
        self.do_mutate(
            ResourceKind::SelectGrammar,
            grammar_id,
            EngineCall::TextChange { id: grammar_id, start, stop, text },
        )
    }

    fn text_delete(&self, grammar_id: u64, start: u32, stop: u32) -> Result<EngineCall, MyError> {
        self.do_mutate(
            ResourceKind::SelectGrammar,
            grammar_id,
            EngineCall::TextDelete { id: grammar_id, start, stop },
        )
    }

    fn text_insert(&self, grammar_id: u64, start: u32, text: String) -> Result<
        EngineCall,
        MyError,
    > {
        self.do_mutate(
            ResourceKind::SelectGrammar,
            grammar_id,
            EngineCall::TextInsert { id: grammar_id, start, text },
        )
    }

    fn text_get(&self, grammar_id: u64) -> Result<EngineCall, MyError> {
        self.do_mutate(
            ResourceKind::SelectGrammar,
            grammar_id,
            EngineCall::TextGet { id: grammar_id },
        )
    }
}

impl RpcDictation for Session {
    open spec fn inv(&self) -> bool {
        self.wf()
    }

    open spec fn reg(&self) -> RegistryModel<Resource> {
        self@
    }

    fn load(&mut self, grammar_id: u64, outcome: Result<Handle, String>) -> Result<u64, MyError> {
        self.do_load(ResourceKind::DictationGrammar, grammar_id, outcome)
    }

    fn unload(&mut self, grammar_id: u64) -> Result<(), MyError> {
        self.do_unload(ResourceKind::DictationGrammar, grammar_id)
    }

    fn activate(&self, grammar_id: u64) -> Result<EngineCall, MyError> {
        self.do_mutate(
            ResourceKind::DictationGrammar,
            grammar_id,
            EngineCall::Activate { id: grammar_id },
        )
    }

    fn deactivate(&self, grammar_id: u64) -> Result<EngineCall, MyError> {
        self.do_mutate(
            ResourceKind::DictationGrammar,
            grammar_id,
            EngineCall::Deactivate { id: grammar_id },
        )
    }

    fn context_set(&self, grammar_id: u64, context: String) -> Result<EngineCall, MyError> {
        self.do_mutate(
            ResourceKind::DictationGrammar,
            grammar_id,
            EngineCall::ContextSet { id: grammar_id, context },
        )
    }
}

impl RpcCatchall for Session {
    open spec fn inv(&self) -> bool {
        self.wf()
    }

    open spec fn reg(&self) -> RegistryModel<Resource> {
        self@
    }

    fn load(&mut self, grammar_id: u64, outcome: Result<Handle, String>) -> Result<u64, MyError> {
        self.do_load(ResourceKind::CatchallGrammar, grammar_id, outcome)
    }

    fn unload(&mut self, grammar_id: u64) -> Result<(), MyError> {
        self.do_unload(ResourceKind::CatchallGrammar, grammar_id)
    }

    fn activate(&self, grammar_id: u64) -> Result<EngineCall, MyError> {
        self.do_mutate(
            ResourceKind::CatchallGrammar,
            grammar_id,
            EngineCall::Activate { id: grammar_id },
        )
    }

    fn deactivate(&self, grammar_id: u64) -> Result<EngineCall, MyError> {
        self.do_mutate(
            ResourceKind::CatchallGrammar,
            grammar_id,
            EngineCall::Deactivate { id: grammar_id },
        )
    }
}

impl RpcEngine for Session {
    open spec fn inv(&self) -> bool {
        self.wf()
    }

    open spec fn reg(&self) -> RegistryModel<Resource> {
        self@
    }

    fn register(&mut self, registration_id: u64, outcome: Result<Handle, String>) -> Result<
        u64,
        MyError,
    > {
        self.do_load(ResourceKind::EngineRegistration, registration_id, outcome)
    }

    fn unregister(&mut self, registration_id: u64) -> Result<(), MyError> {
        self.do_unload(ResourceKind::EngineRegistration, registration_id)
    }

    fn microphone_set_state(&self, state: MicrophoneState) -> EngineCall {
        EngineCall::MicrophoneSetState { state }
    }

    fn microphone_get_state(&self) -> EngineCall {
        EngineCall::MicrophoneGetState
    }

    fn get_current_user(&self) -> EngineCall {
        EngineCall::GetCurrentUser
    }
}

/// Law: within one session, the ids handed out by successive loads and
/// registrations are strictly increasing, with no repeats and never 0,
/// however load, mutate and unload calls of any kind interleave: nothing
/// but `begin_load` extends the issued history, and unloading never
/// returns an id to the pool.
pub proof fn lemma_session_ids_strictly_increasing(s: &Session)
    requires
        s.wf(),
    ensures
        forall|i: int, j: int|
            0 <= i < j < s@.issued.len() ==> s@.issued[i] < s@.issued[j],
        forall|i: int| 0 <= i < s@.issued.len() ==> s@.issued[i] >= 1,
{
}

/// Law: unload is idempotent. Repeating an unload answers exactly what the
/// first one answered and leaves the table exactly where the first one left
/// it; unloading an id that is not live succeeds and changes nothing; and
/// no other id's entry is touched either way.
pub proof fn lemma_unload_idempotent(items: Map<u64, Resource>, kind: ResourceKind, id: u64)
    ensures
        spec_unload_items(spec_unload_items(items, kind, id), kind, id) == spec_unload_items(
            items,
            kind,
            id,
        ),
        spec_unload_result(spec_unload_items(items, kind, id), kind, id) == spec_unload_result(
            items,
            kind,
            id,
        ),
        !items.contains_key(id) ==> spec_unload_items(items, kind, id) == items
            && spec_unload_result(items, kind, id) == Ok::<(), MyError>(()),
        forall|k: u64|
            k != id && items.contains_key(k) ==> spec_unload_items(
                items,
                kind,
                id,
            ).contains_key(k) && spec_unload_items(items, kind, id)[k] == items[k],
{
}

/// Law: a mutating method given an id that is not live answers
/// `UnknownEntityId` and produces no engine call, so the engine sees no
/// side effect; the session itself is untouched because the decision only
/// reads.
pub proof fn lemma_unknown_id_rejected(
    items: Map<u64, Resource>,
    kind: ResourceKind,
    id: u64,
    call: EngineCall,
)
    requires
        !items.contains_key(id),
    ensures
        spec_mutate(items, kind, id, call) == Err::<EngineCall, MyError>(
            MyError::UnknownEntityId(id),
        ),
{
}

} // verus!
