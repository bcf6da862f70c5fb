use vstd::prelude::*;

verus! {

/// The kinds of resource a session can hold. Each kind exposes a different
/// capability set; a request that names an id of the wrong kind is refused.
#[derive(Clone, Copy, PartialEq, Eq, Structural, Debug)]
pub enum ResourceKind {
    CommandGrammar,
    SelectGrammar,
    DictationGrammar,
    CatchallGrammar,
    EngineRegistration,
}

/// Everything a request or an engine callback can fail with.
///
/// `UnknownEntityId` is returned when an id was never issued or was already
/// unloaded; `WrongGrammarType` when the id is live but its resource does not
/// have the requested capability; `Engine` carries the display text of an
/// engine-originated failure; `Serialization` a failure to turn a value into
/// its wire form.
#[derive(Clone, PartialEq, Eq, Debug)]
pub enum MyError {
    UnknownEntityId(u64),
    WrongGrammarType(u64, ResourceKind),
    Engine(String),
    Serialization(String),
}

} // verus!
