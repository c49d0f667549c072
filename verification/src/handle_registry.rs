use std::collections::HashMap;
use vstd::prelude::*;
use vstd::std_specs::iter::IteratorSpec;

use crate::error::{Error, ErrorKind};

verus! {

broadcast use vstd::std_specs::hash::group_hash_axioms;

/// The host's reference to one of its session objects, as the bridge holds it: where the
/// object lives and the identity that the host assigned to the session. The bridge never owns
/// the object behind it.
#[derive(Clone, Copy, Debug, PartialEq, Eq, Structural)]
pub struct RawHandle {
    pub session: usize,
    pub handle_id: u64,
}

/// One registered session: the host's reference and the plugin's own state for it.
pub struct Entry<H> {
    pub raw_handle: RawHandle,
    pub plugin_handle: H,
}

impl<H> Entry<H> {
    pub(crate) fn new(raw_handle: RawHandle, plugin_handle: H) -> (entry: Self)
        ensures
            entry == (Entry { raw_handle, plugin_handle }),
    {
        Entry { raw_handle, plugin_handle }
    }

    pub fn raw_handle(&self) -> (raw_handle: RawHandle)
        ensures
            raw_handle == self.raw_handle,
    {
        self.raw_handle
    }

    pub fn plugin_handle(&self) -> (plugin_handle: &H)
        ensures
            *plugin_handle == self.plugin_handle,
    {
        &self.plugin_handle
    }

    pub fn plugin_handle_mut(&mut self) -> (plugin_handle: &mut H)
        ensures
            *plugin_handle == old(self).plugin_handle,
            *final(self) == (Entry { raw_handle: old(self).raw_handle, plugin_handle: *final(plugin_handle) }),
    {
        &mut self.plugin_handle
    }
}

/// The entry under an identity, where the identity has one.
pub open spec fn lookup<H>(entries: Map<u64, Entry<H>>, id: u64) -> Option<Entry<H>> {
    if entries.contains_key(id) {
        Some(entries[id])
    } else {
        None
    }
}

/// The entries after a session was to be registered with a handle: the session has an entry
/// under its identity, unless that identity had one already, which then stays.
pub open spec fn registered<H>(
    entries: Map<u64, Entry<H>>,
    raw_handle: RawHandle,
    plugin_handle: H,
) -> Map<u64, Entry<H>> {
    if entries.contains_key(raw_handle.handle_id) {
        entries
    } else {
        entries.insert(raw_handle.handle_id, Entry { raw_handle, plugin_handle })
    }
}

/// The entries after the session with an identity was unregistered.
pub open spec fn unregistered<H>(entries: Map<u64, Entry<H>>, id: u64) -> Map<u64, Entry<H>> {
    entries.remove(id)
}

/// Every entry stands under the identity of the session that it refers to.
pub open spec fn filed_by_identity<H>(entries: Map<u64, Entry<H>>) -> bool {
    forall|id: u64| #[trigger] entries.contains_key(id) ==> entries[id].raw_handle.handle_id == id
}

/// Whether `released` names the host's reference of every entry of `entries` exactly once:
/// it follows some listing of the identities in which each occurs once.
pub open spec fn lists_each_once<H>(entries: Map<u64, Entry<H>>, released: Seq<RawHandle>) -> bool {
    exists|ids: Seq<u64>|
        {
            &&& #[trigger] ids.no_duplicates()
            &&& ids.to_set() == entries.dom()
            &&& ids.len() == released.len()
            &&& forall|i: int| 0 <= i < ids.len() ==> released[i] == entries[#[trigger] ids[i]].raw_handle
        }
}

/// The sessions that are registered at the moment, each under its identity; an identity has
/// at most one entry.
///
/// The registry holds the host's reference of every registered session, and the holder of a
/// reference takes part in the host's count of them. The counting itself is done where the
/// host's memory can be touched: a successful `add` is to be followed by one acquisition of
/// the reference that was added, and every reference that `remove` or `clear` hands back by
/// one release. A reference is handed back when its entry leaves the registry and at no other
/// time, so each is released once.
pub struct HandleRegistry<H> {
    handles: HashMap<u64, Entry<H>>,
}

impl<H> View for HandleRegistry<H> {
    type V = Map<u64, Entry<H>>;

    closed spec fn view(&self) -> Map<u64, Entry<H>> {
        self.handles@
    }
}

impl<H> HandleRegistry<H> {
    /// A registry without sessions.
    pub fn new() -> (registry: Self)
        ensures
            registry@ == Map::<u64, Entry<H>>::empty(),
    {
        HandleRegistry { handles: HashMap::new() }
    }

    /// The identity that the host gave to the session behind `raw_handle`.
    pub fn fetch_id(raw_handle: &RawHandle) -> (id: u64)
        ensures
            id == raw_handle.handle_id,
    {
        raw_handle.handle_id
    }

    /// The number of registered sessions.
    pub fn len(&self) -> (len: usize)
        ensures
            len == self@.len(),
            self@.dom().finite(),
    {
        self.handles.len()
    }

    /// The entry of the session with identity `id`.
    pub fn get_by_id(&self, id: u64) -> (found: Option<&Entry<H>>)
        ensures
            match found {
                Some(entry) => lookup(self@, id) == Some(*entry),
                None => lookup(self@, id) is None,
            },
    {
        self.handles.get(&id)
    }

    /// The entry of the session with identity `id`, to be changed in place. What the
    /// caller leaves in the entry is what the registry holds under `id` afterwards.
    pub fn get_by_id_mut(&mut self, id: u64) -> (found: Option<&mut Entry<H>>)
        ensures
            match found {
                Some(entry) => old(self)@.contains_key(id) && *entry == old(self)@[id]
                    && final(self)@ == old(self)@.insert(id, *final(entry)),
                None => !old(self)@.contains_key(id) && final(self)@ == old(self)@,
            },
    {
        match self.handles.entry(id) {
            std::collections::hash_map::Entry::Occupied(occupied) => Some(occupied.into_mut()),
            std::collections::hash_map::Entry::Vacant(_) => None,
        }
    }

    /// The entry of the session behind `raw_handle`, found by the session's identity.
    pub fn get_by_raw_handle(&self, raw_handle: &RawHandle) -> (found: Option<&Entry<H>>)
        ensures
            match found {
                Some(entry) => lookup(self@, raw_handle.handle_id) == Some(*entry),
                None => lookup(self@, raw_handle.handle_id) is None,
            },
    {
        self.get_by_id(Self::fetch_id(raw_handle))
    }

    /// Registers the session behind `raw_handle` with its handle, and gives the new entry.
    /// Fails with `AlreadyRegistered` where the session's identity has an entry: that entry
    /// stays as it is. On success the host's reference is held by the registry, and it is the
    /// caller's part to acquire it with the host.
    pub fn add(&mut self, raw_handle: RawHandle, plugin_handle: H) -> (added: Result<&Entry<H>, Error>)
        ensures
            final(self)@ == registered(old(self)@, raw_handle, plugin_handle),
            match added {
                Ok(entry) => !old(self)@.contains_key(raw_handle.handle_id) && *entry == (Entry {
                    raw_handle,
                    plugin_handle,
                }),
                Err(error) => old(self)@.contains_key(raw_handle.handle_id) && error.kind_of()
                    == ErrorKind::AlreadyRegistered && error.text() == "Handle already registered"@,
            },
    {
        if self.get_by_raw_handle(&raw_handle).is_some() {
            return Err(Error::with_kind(ErrorKind::AlreadyRegistered, "Handle already registered"));
        }
        let id = Self::fetch_id(&raw_handle);
        self.handles.insert(id, Entry::new(raw_handle, plugin_handle));
        match self.handles.get(&id) {
            Some(entry) => Ok(entry),
            None => Err(Error::with_kind(ErrorKind::AlreadyRegistered, "Handle already registered")),
        }
    }

    /// Empties the registry and hands back the host's reference of every entry that was in
    /// it, each once, in no particular order.
    pub fn clear(&mut self) -> (released: Vec<RawHandle>)
        ensures
            final(self)@ == Map::<u64, Entry<H>>::empty(),
            released@.len() == old(self)@.len(),
            lists_each_once(old(self)@, released@),
    {
        let mut released: Vec<RawHandle> = Vec::new();
        let ghost entries = self.handles@;
        let ghost listing = self.handles.iter().remaining();
        for pair in it: self.handles.iter()
            invariant
                it.seq() == listing,
                released@.len() == it.index(),
                forall|j: int|
                    0 <= j < released@.len() ==> released@[j] == (#[trigger] listing[j]).1.raw_handle,
        {
            released.push(pair.1.raw_handle);
        }
        proof {
            let ids = Seq::new(listing.len(), |i: int| *listing[i].0);
            assert forall|i: int, j: int| 0 <= i < ids.len() && 0 <= j < ids.len() && i != j implies ids[i]
                != ids[j] by {
                if ids[i] == ids[j] {
                    assert(entries[*listing[j].0] == *listing[j].1);
                }
            }
            assert forall|id: u64| ids.to_set().contains(id) <==> entries.dom().contains(id) by {
                if entries.dom().contains(id) {
                    let i = choose|i: int| 0 <= i < listing.len() && listing[i] == (&id, &entries[id]);
                    assert(ids[i] == id);
                }
            }
            assert(ids.to_set() =~= entries.dom());
            assert forall|i: int| 0 <= i < ids.len() implies released@[i] == entries[#[trigger] ids[i]].raw_handle by {}
            assert(ids.no_duplicates());
        }
        self.handles.clear();
        released
    }

    /// Removes the entry of the session behind `raw_handle`, found by the session's
    /// identity, and hands back the host's reference that the entry held, to be released
    /// with the host. Where the identity has no entry nothing changes and nothing is handed
    /// back.
    pub fn remove(&mut self, raw_handle: &RawHandle) -> (released: Option<RawHandle>)
        ensures
            final(self)@ == unregistered(old(self)@, raw_handle.handle_id),
            released == match lookup(old(self)@, raw_handle.handle_id) {
                Some(entry) => Some(entry.raw_handle),
                None => None,
            },
    {
        let id = Self::fetch_id(raw_handle);
        match self.handles.remove(&id) {
            Some(entry) => Some(entry.raw_handle),
            None => None,
        }
    }
}

/// A session that was registered is found under its identity, with the handle that it was
/// registered with; the lookup of every other identity is what it was before.
pub proof fn lemma_lookup_after_register<H>(
    entries: Map<u64, Entry<H>>,
    raw_handle: RawHandle,
    plugin_handle: H,
    other: u64,
)
    requires
        !entries.contains_key(raw_handle.handle_id),
        other != raw_handle.handle_id,
    ensures
        lookup(registered(entries, raw_handle, plugin_handle), raw_handle.handle_id) == Some(
            Entry { raw_handle, plugin_handle },
        ),
        lookup(registered(entries, raw_handle, plugin_handle), other) == lookup(entries, other),
{
}

/// An identity that was never registered is not found: an empty registry has no entry, and
/// registering and unregistering other identities gives it none.
pub proof fn lemma_never_registered_not_found<H>(
    entries: Map<u64, Entry<H>>,
    raw_handle: RawHandle,
    plugin_handle: H,
    id: u64,
)
    requires
        lookup(entries, id) is None,
        raw_handle.handle_id != id,
    ensures
        lookup(Map::<u64, Entry<H>>::empty(), id) is None,
        lookup(registered(entries, raw_handle, plugin_handle), id) is None,
        lookup(unregistered(entries, raw_handle.handle_id), id) is None,
{
}

/// Registering an identity that has an entry changes nothing.
pub proof fn lemma_register_twice_keeps_entry<H>(
    entries: Map<u64, Entry<H>>,
    raw_handle: RawHandle,
    plugin_handle: H,
)
    requires
        entries.contains_key(raw_handle.handle_id),
    ensures
        registered(entries, raw_handle, plugin_handle) == entries,
{
}

/// An identity that was unregistered is not found, and unregistering it once more changes
/// nothing.
pub proof fn lemma_unregister<H>(entries: Map<u64, Entry<H>>, id: u64)
    ensures
        lookup(unregistered(entries, id), id) is None,
        unregistered(unregistered(entries, id), id) == unregistered(entries, id),
{
}

/// Registering and then unregistering a session that had no entry leaves the registry as it
/// was.
pub proof fn lemma_register_then_unregister<H>(
    entries: Map<u64, Entry<H>>,
    raw_handle: RawHandle,
    plugin_handle: H,
)
    requires
        !entries.contains_key(raw_handle.handle_id),
    ensures
        unregistered(registered(entries, raw_handle, plugin_handle), raw_handle.handle_id)
            == entries,
{
    assert(unregistered(registered(entries, raw_handle, plugin_handle), raw_handle.handle_id)
        =~= entries);
}

/// What is done for sessions of different identities does not depend on the order: two
/// registrations, two removals, and a registration and a removal can be exchanged.
pub proof fn lemma_distinct_identities_commute<H>(
    entries: Map<u64, Entry<H>>,
    first: RawHandle,
    first_handle: H,
    second: RawHandle,
    second_handle: H,
)
    requires
        first.handle_id != second.handle_id,
    ensures
        registered(registered(entries, first, first_handle), second, second_handle) == registered(
            registered(entries, second, second_handle),
            first,
            first_handle,
        ),
        unregistered(unregistered(entries, first.handle_id), second.handle_id) == unregistered(
            unregistered(entries, second.handle_id),
            first.handle_id,
        ),
        unregistered(registered(entries, first, first_handle), second.handle_id) == registered(
            unregistered(entries, second.handle_id),
            first,
            first_handle,
        ),
{
    assert(registered(registered(entries, first, first_handle), second, second_handle)
        =~= registered(registered(entries, second, second_handle), first, first_handle));
    assert(unregistered(unregistered(entries, first.handle_id), second.handle_id) =~= unregistered(
        unregistered(entries, second.handle_id),
        first.handle_id,
    ));
    assert(unregistered(registered(entries, first, first_handle), second.handle_id) =~= registered(
        unregistered(entries, second.handle_id),
        first,
        first_handle,
    ));
}

/// The number of entries follows what was done: a registration of a new identity adds one, a
/// removal of a registered identity takes one away, and the rest changes nothing.
pub proof fn lemma_size_counts_survivors<H>(
    entries: Map<u64, Entry<H>>,
    raw_handle: RawHandle,
    plugin_handle: H,
)
    requires
        entries.dom().finite(),
    ensures
        registered(entries, raw_handle, plugin_handle).dom().finite(),
        unregistered(entries, raw_handle.handle_id).dom().finite(),
        registered(entries, raw_handle, plugin_handle).len() == entries.len() + (
        if entries.contains_key(raw_handle.handle_id) {
            0int
        } else {
            1int
        }),
        unregistered(entries, raw_handle.handle_id).len() == entries.len() - (
        if entries.contains_key(raw_handle.handle_id) {
            1int
        } else {
            0int
        }),
{
}

/// Registering and unregistering keep every entry under the identity of its session.
pub proof fn lemma_filed_by_identity<H>(
    entries: Map<u64, Entry<H>>,
    raw_handle: RawHandle,
    plugin_handle: H,
    id: u64,
)
    requires
        filed_by_identity(entries),
    ensures
        filed_by_identity(Map::<u64, Entry<H>>::empty()),
        filed_by_identity(registered(entries, raw_handle, plugin_handle)),
        filed_by_identity(unregistered(entries, id)),
{
}

/// What a bulk clear hands back is as many references as there were entries, and where every
/// entry stood under its session's identity, no session is named twice.
pub proof fn lemma_released_once<H>(entries: Map<u64, Entry<H>>, released: Seq<RawHandle>)
    requires
        entries.dom().finite(),
        lists_each_once(entries, released),
    ensures
        released.len() == entries.len(),
        forall|id: u64| #[trigger]
            entries.contains_key(id) ==> released.contains(entries[id].raw_handle),
        filed_by_identity(entries) ==> forall|i: int, j: int|
            0 <= i < released.len() && 0 <= j < released.len() && i != j ==> released[i].handle_id
                != released[j].handle_id,
{
    let ids = choose|ids: Seq<u64>|
        {
            &&& #[trigger] ids.no_duplicates()
            &&& ids.to_set() == entries.dom()
            &&& ids.len() == released.len()
            &&& forall|i: int|
                0 <= i < ids.len() ==> released[i] == entries[#[trigger] ids[i]].raw_handle
        };
    ids.unique_seq_to_set();
    assert forall|id: u64| #[trigger] entries.contains_key(id) implies released.contains(
        entries[id].raw_handle,
    ) by {
        assert(ids.to_set().contains(id));
    }
    if filed_by_identity(entries) {
        assert forall|i: int, j: int|
            0 <= i < released.len() && 0 <= j < released.len() && i != j implies released[i].handle_id
            != released[j].handle_id by {
            assert(entries.contains_key(ids[i]));
            assert(entries.contains_key(ids[j]));
        }
    }
}

} // verus!
