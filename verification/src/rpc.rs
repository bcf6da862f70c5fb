use vstd::prelude::*;
use crate::errors::{MyError, ResourceKind};
use crate::registry::RegistryModel;

verus! {

/// Opaque engine-side token standing for a loaded grammar or a registration.
/// The engine hands one back from every load; the registry owns it until the
/// resource is unloaded or the session ends.
#[derive(Clone, Copy, PartialEq, Eq, Structural, Debug)]
pub struct Handle(pub u64);

/// One registry entry: which capability set the resource has, and the
/// engine-side token for it.
#[derive(Clone, Copy, PartialEq, Eq, Structural, Debug)]
pub struct Resource {
    pub kind: ResourceKind,
    pub handle: Handle,
}

/// The microphone states the engine reports and accepts.
#[derive(Clone, Copy, PartialEq, Eq, Structural, Debug)]
pub enum MicrophoneState {
    On,
    Off,
    Sleeping,
    Disabled,
}

/// An engine operation that a validated request asks for. The session only
/// decides; whoever drives the session performs the call on the engine and
/// hands the outcome back.
#[derive(Clone, PartialEq, Eq, Debug)]
pub enum EngineCall {
    RuleActivate { id: u64, rule_name: String },
    RuleDeactivate { id: u64, rule_name: String },
    ListAppend { id: u64, list_name: String, word: String },
    ListRemove { id: u64, list_name: String, word: String },
    ListClear { id: u64, list_name: String },
    Activate { id: u64 },
    Deactivate { id: u64 },
    TextSet { id: u64, text: String },
    TextChange { id: u64, start: u32, stop: u32, text: String },
    TextDelete { id: u64, start: u32, stop: u32 },
    TextInsert { id: u64, start: u32, text: String },
    TextGet { id: u64 },
    ContextSet { id: u64, context: String },
    MicrophoneSetState { state: MicrophoneState },
    MicrophoneGetState,
    GetCurrentUser,
}

/// The successful payload of a response, one variant per result shape the
/// method surface has.
#[derive(Clone, PartialEq, Eq, Debug)]
pub enum RpcResult {
    Id(u64),
    Null,
    Text(String),
    Microphone(MicrophoneState),
    User(Option<String>),
}

/// What a load does to the live table: on engine success the fresh id maps
/// to the new resource; on engine failure the table is unchanged (the id
/// stays consumed either way).
pub open spec fn spec_load_items(
    items: Map<u64, Resource>,
    kind: ResourceKind,
    id: u64,
    outcome: Result<Handle, String>,
) -> Map<u64, Resource> {
    match outcome {
        Ok(h) => items.insert(id, Resource { kind, handle: h }),
        Err(_) => items,
    }
}

/// What a load answers: the fresh id, or the engine's failure text.
pub open spec fn spec_load_result(id: u64, outcome: Result<Handle, String>) -> Result<
    u64,
    MyError,
> {
    match outcome {
        Ok(_) => Ok(id),
        Err(m) => Err(MyError::Engine(m)),
    }
}

/// What an unload does to the live table: removes the id when it is live
/// with the requested kind; otherwise leaves the table alone.
pub open spec fn spec_unload_items(
    items: Map<u64, Resource>,
    kind: ResourceKind,
    id: u64,
) -> Map<u64, Resource> {
    if items.contains_key(id) && items[id].kind == kind {
        items.remove(id)
    } else {
        items
    }
}

/// What an unload answers: unloading an id that is not live is a no-op and
/// succeeds; only an id live under another kind is refused.
pub open spec fn spec_unload_result(
    items: Map<u64, Resource>,
    kind: ResourceKind,
    id: u64,
) -> Result<(), MyError> {
    if items.contains_key(id) && items[id].kind != kind {
        Err(MyError::WrongGrammarType(id, kind))
    } else {
        Ok(())
    }
}

/// The decision for a mutating method: the engine call goes ahead exactly
/// when the id is live with the requested kind; an id that is not live is
/// `UnknownEntityId`, a live id of another kind `WrongGrammarType`.
pub open spec fn spec_mutate(
    items: Map<u64, Resource>,
    kind: ResourceKind,
    id: u64,
    call: EngineCall,
) -> Result<EngineCall, MyError> {
    if !items.contains_key(id) {
        Err(MyError::UnknownEntityId(id))
    } else if items[id].kind != kind {
        Err(MyError::WrongGrammarType(id, kind))
    } else {
        Ok(call)
    }
}

/// Command-grammar methods. `load` is the commit half of a load: the caller
/// has already drawn a fresh id, registered the event callback, and asked
/// the engine to load the grammar; it hands the outcome in here under the
/// same lock.
pub trait RpcCommand {
    spec fn inv(&self) -> bool;

    spec fn reg(&self) -> RegistryModel<Resource>;

    fn load(&mut self, grammar_id: u64, outcome: Result<Handle, String>) -> (r: Result<
        u64,
        MyError,
    >)
        requires
            old(self).inv(),
            1 <= grammar_id <= old(self).reg().counter,
            !old(self).reg().items.contains_key(grammar_id),
        ensures
            final(self).inv(),
            final(self).reg().counter == old(self).reg().counter,
            final(self).reg().issued == old(self).reg().issued,
            final(self).reg().items == spec_load_items(
                old(self).reg().items,
                ResourceKind::CommandGrammar,
                grammar_id,
                outcome,
            ),
            r == spec_load_result(grammar_id, outcome),
    ;

    fn unload(&mut self, grammar_id: u64) -> (r: Result<(), MyError>)
        requires
            old(self).inv(),
        ensures
            final(self).inv(),
            final(self).reg().counter == old(self).reg().counter,
            final(self).reg().issued == old(self).reg().issued,
            final(self).reg().items == spec_unload_items(
                old(self).reg().items,
                ResourceKind::CommandGrammar,
                grammar_id,
            ),
            r == spec_unload_result(
                old(self).reg().items,
                ResourceKind::CommandGrammar,
                grammar_id,
            ),
    ;

    fn rule_activate(&self, grammar_id: u64, rule_name: String) -> (r: Result<
        EngineCall,
        MyError,
    >)
        ensures
            r == spec_mutate(
                self.reg().items,
                ResourceKind::CommandGrammar,
                grammar_id,
                EngineCall::RuleActivate { id: grammar_id, rule_name },
            ),
    ;

    fn rule_deactivate(&self, grammar_id: u64, rule_name: String) -> (r: Result<
        EngineCall,
        MyError,
    >)
        ensures
            r == spec_mutate(
                self.reg().items,
                ResourceKind::CommandGrammar,
                grammar_id,
                EngineCall::RuleDeactivate { id: grammar_id, rule_name },
            ),
    ;

    fn list_append(&self, grammar_id: u64, list_name: String, word: String) -> (r: Result<
        EngineCall,
        MyError,
    >)
        ensures
            r == spec_mutate(
                self.reg().items,
                ResourceKind::CommandGrammar,
                grammar_id,
                EngineCall::ListAppend { id: grammar_id, list_name, word },
            ),
    ;

    fn list_remove(&self, grammar_id: u64, list_name: String, word: String) -> (r: Result<
        EngineCall,
        MyError,
    >)
        ensures
            r == spec_mutate(
                self.reg().items,
                ResourceKind::CommandGrammar,
                grammar_id,
                EngineCall::ListRemove { id: grammar_id, list_name, word },
            ),
    ;

    fn list_clear(&self, grammar_id: u64, list_name: String) -> (r: Result<EngineCall, MyError>)
        ensures
            r == spec_mutate(
                self.reg().items,
                ResourceKind::CommandGrammar,
                grammar_id,
                EngineCall::ListClear { id: grammar_id, list_name },
            ),
    ;
}

/// Select-grammar methods; see [`RpcCommand`] for the load protocol.
pub trait RpcSelect {
    spec fn inv(&self) -> bool;

    spec fn reg(&self) -> RegistryModel<Resource>;

    fn load(&mut self, grammar_id: u64, outcome: Result<Handle, String>) -> (r: Result<
        u64,
        MyError,
    >)
        requires
            old(self).inv(),
            1 <= grammar_id <= old(self).reg().counter,
            !old(self).reg().items.contains_key(grammar_id),
        ensures
            final(self).inv(),
            final(self).reg().counter == old(self).reg().counter,
            final(self).reg().issued == old(self).reg().issued,
            final(self).reg().items == spec_load_items(
                old(self).reg().items,
                ResourceKind::SelectGrammar,
                grammar_id,
                outcome,
            ),
            r == spec_load_result(grammar_id, outcome),
    ;

    fn unload(&mut self, grammar_id: u64) -> (r: Result<(), MyError>)
        requires
            old(self).inv(),
        ensures
            final(self).inv(),
            final(self).reg().counter == old(self).reg().counter,
            final(self).reg().issued == old(self).reg().issued,
            final(self).reg().items == spec_unload_items(
                old(self).reg().items,
                ResourceKind::SelectGrammar,
                grammar_id,
            ),
            r == spec_unload_result(old(self).reg().items, ResourceKind::SelectGrammar, grammar_id),
    ;

    fn activate(&self, grammar_id: u64) -> (r: Result<EngineCall, MyError>)
        ensures
            r == spec_mutate(
                self.reg().items,
                ResourceKind::SelectGrammar,
                grammar_id,
                EngineCall::Activate { id: grammar_id },
            ),
    ;

    fn deactivate(&self, grammar_id: u64) -> (r: Result<EngineCall, MyError>)
        ensures
            r == spec_mutate(
                self.reg().items,
                ResourceKind::SelectGrammar,
                grammar_id,
                EngineCall::Deactivate { id: grammar_id },
            ),
    ;

    fn text_set(&self, grammar_id: u64, text: String) -> (r: Result<EngineCall, MyError>)
        ensures
            r == spec_mutate(
                self.reg().items,
                ResourceKind::SelectGrammar,
                grammar_id,
                EngineCall::TextSet { id: grammar_id, text },
            ),
    ;

    fn text_change(&self, grammar_id: u64, start: u32, stop: u32, text: String) -> (r: Result<
        EngineCall,
        MyError,
    >)
        ensures
            r == spec_mutate(
                self.reg().items,
                ResourceKind::SelectGrammar,
                grammar_id,
                EngineCall::TextChange { id: grammar_id, start, stop, text },
            ),
    ;

    fn text_delete(&self, grammar_id: u64, start: u32, stop: u32) -> (r: Result<
        EngineCall,
        MyError,
    >)
        ensures
            r == spec_mutate(
                self.reg().items,
                ResourceKind::SelectGrammar,
                grammar_id,
                EngineCall::TextDelete { id: grammar_id, start, stop },
            ),
    ;

    fn text_insert(&self, grammar_id: u64, start: u32, text: String) -> (r: Result<
        EngineCall,
        MyError,
    >)
        ensures
            r == spec_mutate(
                self.reg().items,
                ResourceKind::SelectGrammar,
                grammar_id,
                EngineCall::TextInsert { id: grammar_id, start, text },
            ),
    ;

    fn text_get(&self, grammar_id: u64) -> (r: Result<EngineCall, MyError>)
        ensures
            r == spec_mutate(
                self.reg().items,
                ResourceKind::SelectGrammar,
                grammar_id,
                EngineCall::TextGet { id: grammar_id },
            ),
    ;
}

/// Dictation-grammar methods; see [`RpcCommand`] for the load protocol.
pub trait RpcDictation {
    spec fn inv(&self) -> bool;

    spec fn reg(&self) -> RegistryModel<Resource>;

    fn load(&mut self, grammar_id: u64, outcome: Result<Handle, String>) -> (r: Result<
        u64,
        MyError,
    >)
        requires
            old(self).inv(),
            1 <= grammar_id <= old(self).reg().counter,
            !old(self).reg().items.contains_key(grammar_id),
        ensures
            final(self).inv(),
            final(self).reg().counter == old(self).reg().counter,
            final(self).reg().issued == old(self).reg().issued,
            final(self).reg().items == spec_load_items(
                old(self).reg().items,
                ResourceKind::DictationGrammar,
                grammar_id,
                outcome,
            ),
            r == spec_load_result(grammar_id, outcome),
    ;

    fn unload(&mut self, grammar_id: u64) -> (r: Result<(), MyError>)
        requires
            old(self).inv(),
        ensures
            final(self).inv(),
            final(self).reg().counter == old(self).reg().counter,
            final(self).reg().issued == old(self).reg().issued,
            final(self).reg().items == spec_unload_items(
                old(self).reg().items,
                ResourceKind::DictationGrammar,
                grammar_id,
            ),
            r == spec_unload_result(
                old(self).reg().items,
                ResourceKind::DictationGrammar,
                grammar_id,
            ),
    ;

    fn activate(&self, grammar_id: u64) -> (r: Result<EngineCall, MyError>)
        ensures
            r == spec_mutate(
                self.reg().items,
                ResourceKind::DictationGrammar,
                grammar_id,
                EngineCall::Activate { id: grammar_id },
            ),
    ;

    fn deactivate(&self, grammar_id: u64) -> (r: Result<EngineCall, MyError>)
        ensures
            r == spec_mutate(
                self.reg().items,
                ResourceKind::DictationGrammar,
                grammar_id,
                EngineCall::Deactivate { id: grammar_id },
            ),
    ;

    fn context_set(&self, grammar_id: u64, context: String) -> (r: Result<EngineCall, MyError>)
        ensures
            r == spec_mutate(
                self.reg().items,
                ResourceKind::DictationGrammar,
                grammar_id,
                EngineCall::ContextSet { id: grammar_id, context },
            ),
    ;
}

/// Catchall-grammar methods; see [`RpcCommand`] for the load protocol.
pub trait RpcCatchall {
    spec fn inv(&self) -> bool;

    spec fn reg(&self) -> RegistryModel<Resource>;

    fn load(&mut self, grammar_id: u64, outcome: Result<Handle, String>) -> (r: Result<
        u64,
        MyError,
    >)
        requires
            old(self).inv(),
            1 <= grammar_id <= old(self).reg().counter,
            !old(self).reg().items.contains_key(grammar_id),
        ensures
            final(self).inv(),
            final(self).reg().counter == old(self).reg().counter,
            final(self).reg().issued == old(self).reg().issued,
            final(self).reg().items == spec_load_items(
                old(self).reg().items,
                ResourceKind::CatchallGrammar,
                grammar_id,
                outcome,
            ),
            r == spec_load_result(grammar_id, outcome),
    ;

    fn unload(&mut self, grammar_id: u64) -> (r: Result<(), MyError>)
        requires
            old(self).inv(),
        ensures
            final(self).inv(),
            final(self).reg().counter == old(self).reg().counter,
            final(self).reg().issued == old(self).reg().issued,
            final(self).reg().items == spec_unload_items(
                old(self).reg().items,
                ResourceKind::CatchallGrammar,
                grammar_id,
            ),
            r == spec_unload_result(
                old(self).reg().items,
                ResourceKind::CatchallGrammar,
                grammar_id,
            ),
    ;

    fn activate(&self, grammar_id: u64) -> (r: Result<EngineCall, MyError>)
        ensures
            r == spec_mutate(
                self.reg().items,
                ResourceKind::CatchallGrammar,
                grammar_id,
                EngineCall::Activate { id: grammar_id },
            ),
    ;

    fn deactivate(&self, grammar_id: u64) -> (r: Result<EngineCall, MyError>)
        ensures
            r == spec_mutate(
                self.reg().items,
                ResourceKind::CatchallGrammar,
                grammar_id,
                EngineCall::Deactivate { id: grammar_id },
            ),
    ;
}

/// Engine-level methods: registrations for engine events, and the
/// session-independent engine queries, which bypass the registry.
pub trait RpcEngine {
    spec fn inv(&self) -> bool;

    spec fn reg(&self) -> RegistryModel<Resource>;

    fn register(&mut self, registration_id: u64, outcome: Result<Handle, String>) -> (r: Result<
        u64,
        MyError,
    >)
        requires
            old(self).inv(),
            1 <= registration_id <= old(self).reg().counter,
            !old(self).reg().items.contains_key(registration_id),
        ensures
            final(self).inv(),
            final(self).reg().counter == old(self).reg().counter,
            final(self).reg().issued == old(self).reg().issued,
            final(self).reg().items == spec_load_items(
                old(self).reg().items,
                ResourceKind::EngineRegistration,
                registration_id,
                outcome,
            ),
            r == spec_load_result(registration_id, outcome),
    ;

    fn unregister(&mut self, registration_id: u64) -> (r: Result<(), MyError>)
        requires
            old(self).inv(),
        ensures
            final(self).inv(),
            final(self).reg().counter == old(self).reg().counter,
            final(self).reg().issued == old(self).reg().issued,
            final(self).reg().items == spec_unload_items(
                old(self).reg().items,
                ResourceKind::EngineRegistration,
                registration_id,
            ),
            r == spec_unload_result(
                old(self).reg().items,
                ResourceKind::EngineRegistration,
                registration_id,
            ),
    ;

    fn microphone_set_state(&self, state: MicrophoneState) -> (c: EngineCall)
        ensures
            c == (EngineCall::MicrophoneSetState { state }),
    ;

    fn microphone_get_state(&self) -> (c: EngineCall)
        ensures
            c == EngineCall::MicrophoneGetState,
    ;

    fn get_current_user(&self) -> (c: EngineCall)
        ensures
            c == EngineCall::GetCurrentUser,
    ;
}

} // verus!
