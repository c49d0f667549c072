use janus_app::example::{Config, Handle};
use janus_app::handle_registry::{HandleRegistry, RawHandle};
use janus_app::plugin::Handle as _;
use janus_app::ErrorKind;

fn raw(id: u64) -> RawHandle {
    RawHandle { session: 0x1000 + id as usize, handle_id: id }
}

fn handle(id: u64) -> Handle {
    Handle::new(id, Config { ping_response: format!("pong"), synchronous: false })
}

#[test]
fn new_registry_is_empty() {
    let registry: HandleRegistry<Handle> = HandleRegistry::new();
    assert_eq!(registry.len(), 0);
    assert!(registry.get_by_id(1).is_none());
}

#[test]
fn fetch_id_gives_the_session_identity() {
    assert_eq!(HandleRegistry::<Handle>::fetch_id(&raw(42)), 42);
    assert_eq!(HandleRegistry::<Handle>::fetch_id(&raw(u64::MAX)), u64::MAX);
}

#[test]
fn lookup_after_register_returns_inserted_state() {
    let mut registry = HandleRegistry::new();
    {
        let entry = registry.add(raw(7), handle(7)).unwrap();
        assert_eq!(entry.raw_handle(), raw(7));
        assert_eq!(entry.plugin_handle().id(), 7);
    }
    let found = registry.get_by_id(7).unwrap();
    assert_eq!(found.raw_handle, raw(7));
    assert_eq!(found.plugin_handle.id(), 7);
    let by_raw = registry.get_by_raw_handle(&raw(7)).unwrap();
    assert_eq!(by_raw.raw_handle, raw(7));
    assert_eq!(registry.len(), 1);
}

#[test]
fn lookup_of_never_registered_identity_is_empty() {
    let mut registry = HandleRegistry::new();
    assert!(registry.add(raw(1), handle(1)).is_ok());
    assert!(registry.add(raw(2), handle(2)).is_ok());
    assert!(registry.get_by_id(3).is_none());
    assert!(registry.get_by_raw_handle(&raw(3)).is_none());
    assert!(registry.get_by_id_mut(3).is_none());
}

#[test]
fn register_twice_fails_and_keeps_entry() {
    let mut registry = HandleRegistry::new();
    assert!(registry.add(raw(5), handle(5)).is_ok());
    let other = RawHandle { session: 0xdead, handle_id: 5 };
    let error = registry.add(other, handle(99)).err().unwrap();
    assert_eq!(error.kind(), ErrorKind::AlreadyRegistered);
    assert_eq!(error.as_str(), "Handle already registered");
    let kept = registry.get_by_id(5).unwrap();
    assert_eq!(kept.raw_handle, raw(5));
    assert_eq!(kept.plugin_handle.id(), 5);
    assert_eq!(registry.len(), 1);
}

#[test]
fn unregister_then_lookup_is_empty() {
    let mut registry = HandleRegistry::new();
    assert!(registry.add(raw(5), handle(5)).is_ok());
    assert!(registry.add(raw(6), handle(6)).is_ok());
    assert_eq!(registry.remove(&raw(5)), Some(raw(5)));
    assert!(registry.get_by_id(5).is_none());
    assert!(registry.get_by_id(6).is_some());
    assert_eq!(registry.len(), 1);
}

#[test]
fn unregister_twice_is_a_no_op() {
    let mut registry = HandleRegistry::new();
    assert!(registry.add(raw(5), handle(5)).is_ok());
    assert_eq!(registry.remove(&raw(5)), Some(raw(5)));
    assert_eq!(registry.remove(&raw(5)), None);
    assert_eq!(registry.len(), 0);
}

#[test]
fn unregister_of_unknown_session_releases_nothing() {
    let mut registry: HandleRegistry<Handle> = HandleRegistry::new();
    assert_eq!(registry.remove(&raw(9)), None);
    assert_eq!(registry.len(), 0);
}

#[test]
fn unregister_hands_back_the_reference_that_was_registered() {
    let mut registry = HandleRegistry::new();
    assert!(registry.add(raw(5), handle(5)).is_ok());
    let same_identity = RawHandle { session: 0xbeef, handle_id: 5 };
    assert_eq!(registry.remove(&same_identity), Some(raw(5)));
}

#[test]
fn register_again_after_unregister_succeeds() {
    let mut registry = HandleRegistry::new();
    assert!(registry.add(raw(5), handle(5)).is_ok());
    assert_eq!(registry.remove(&raw(5)), Some(raw(5)));
    let again = RawHandle { session: 0x77, handle_id: 5 };
    assert!(registry.add(again, handle(5)).is_ok());
    assert_eq!(registry.get_by_id(5).unwrap().raw_handle, again);
}

#[test]
fn clear_releases_every_reference_once() {
    let mut registry = HandleRegistry::new();
    let count: u64 = 25;
    let mut id: u64 = 0;
    while id < count {
        assert!(registry.add(raw(id), handle(id)).is_ok());
        id += 1;
    }
    let mut released = registry.clear();
    assert_eq!(released.len(), count as usize);
    assert_eq!(registry.len(), 0);
    released.sort_by_key(|handle| handle.handle_id);
    let mut id: u64 = 0;
    while id < count {
        assert_eq!(released[id as usize], raw(id));
        assert!(registry.get_by_id(id).is_none());
        id += 1;
    }
    assert!(registry.clear().is_empty());
}

#[test]
fn clear_does_not_release_what_was_unregistered() {
    let mut registry = HandleRegistry::new();
    assert!(registry.add(raw(1), handle(1)).is_ok());
    assert!(registry.add(raw(2), handle(2)).is_ok());
    assert!(registry.add(raw(3), handle(3)).is_ok());
    assert_eq!(registry.remove(&raw(2)), Some(raw(2)));
    let mut released = registry.clear();
    released.sort_by_key(|handle| handle.handle_id);
    assert_eq!(released, vec![raw(1), raw(3)]);
}

#[test]
fn disjoint_identities_leave_the_net_survivors() {
    let mut registry = HandleRegistry::new();
    let mut survivors: usize = 0;
    let mut id: u64 = 0;
    while id < 40 {
        assert!(registry.add(raw(id), handle(id)).is_ok());
        survivors += 1;
        if id % 3 == 0 {
            assert_eq!(registry.remove(&raw(id)), Some(raw(id)));
            survivors -= 1;
        }
        id += 1;
    }
    assert_eq!(registry.len(), survivors);
    let mut id: u64 = 0;
    while id < 40 {
        assert_eq!(registry.get_by_id(id).is_some(), id % 3 != 0);
        id += 1;
    }
}

#[test]
fn order_of_distinct_identities_does_not_matter() {
    let mut forward = HandleRegistry::new();
    assert!(forward.add(raw(1), handle(1)).is_ok());
    assert!(forward.add(raw(2), handle(2)).is_ok());
    assert_eq!(forward.remove(&raw(1)), Some(raw(1)));
    let mut backward = HandleRegistry::new();
    assert!(backward.add(raw(2), handle(2)).is_ok());
    assert!(backward.add(raw(1), handle(1)).is_ok());
    assert_eq!(backward.remove(&raw(1)), Some(raw(1)));
    assert_eq!(forward.len(), backward.len());
    assert_eq!(forward.get_by_id(2).unwrap().raw_handle, backward.get_by_id(2).unwrap().raw_handle);
    assert!(forward.get_by_id(1).is_none() && backward.get_by_id(1).is_none());
}

#[test]
fn entry_can_be_changed_in_place() {
    let mut registry = HandleRegistry::new();
    assert!(registry.add(raw(4), handle(4)).is_ok());
    {
        let entry = registry.get_by_id_mut(4).unwrap();
        *entry.plugin_handle_mut() = handle(44);
    }
    let found = registry.get_by_id(4).unwrap();
    assert_eq!(found.plugin_handle().id(), 44);
    assert_eq!(found.raw_handle(), raw(4));
}
