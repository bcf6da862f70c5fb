use dictation_server::errors::MyError;
use dictation_server::registry::ConnectionState;

#[test]
fn ids_strictly_increase_across_interleaved_unloads() {
    let mut reg: ConnectionState<u32> = ConnectionState::new();
    let a = reg.new_id();
    assert_eq!(a, 1);
    reg.insert(a, 10);
    let b = reg.new_id();
    assert_eq!(b, 2);
    reg.insert(b, 20);
    assert_eq!(reg.remove(a), Ok(()));
    let c = reg.new_id();
    assert_eq!(c, 3);
    reg.insert(c, 30);
    assert_eq!(reg.remove(c), Ok(()));
    assert_eq!(reg.remove(b), Ok(()));
    let d = reg.new_id();
    assert_eq!(d, 4);
    assert!(a < b && b < c && c < d);
}

#[test]
fn unload_is_idempotent_and_local() {
    let mut reg: ConnectionState<u32> = ConnectionState::new();
    let a = reg.new_id();
    reg.insert(a, 10);
    let b = reg.new_id();
    reg.insert(b, 20);
    assert_eq!(reg.remove(a), Ok(()));
    assert_eq!(reg.remove(a), Ok(()));
    assert_eq!(reg.remove(77), Ok(()));
    assert_eq!(reg.lookup(b), Ok(&20));
}

#[test]
fn lookup_of_absent_id_fails_with_unknown_entity_id() {
    let mut reg: ConnectionState<u32> = ConnectionState::new();
    assert_eq!(reg.lookup(7), Err(MyError::UnknownEntityId(7)));
    let a = reg.new_id();
    reg.insert(a, 10);
    assert_eq!(reg.lookup(a), Ok(&10));
    assert_eq!(reg.remove(a), Ok(()));
    assert_eq!(reg.lookup(a), Err(MyError::UnknownEntityId(a)));
}

#[test]
fn clear_drops_everything_but_keeps_the_counter() {
    let mut reg: ConnectionState<u32> = ConnectionState::new();
    let a = reg.new_id();
    reg.insert(a, 10);
    let b = reg.new_id();
    reg.insert(b, 20);
    reg.clear();
    assert_eq!(reg.lookup(a), Err(MyError::UnknownEntityId(a)));
    assert_eq!(reg.lookup(b), Err(MyError::UnknownEntityId(b)));
    assert_eq!(reg.new_id(), 3);
}
