//! The session cache: a concurrency-safe map from identifier to live
//! client handle, with single-flight rehydration bookkeeping. A cache miss
//! is answered with a decision — use the cached handle, wait for the
//! rehydration already in flight, or be the one caller that rehydrates —
//! and the caller reports the outcome back. The map itself is the
//! collaborator's sharded map, held behind trusted wrappers; handles are
//! carried as plain numbers that the caller resolves to live clients.

use vstd::prelude::*;

use dashmap::DashMap;

use crate::errors::{Error, ErrorKind, StoreError};

verus! {

#[verifier::external_type_specification]
#[verifier::external_body]
#[verifier::reject_recursive_types(K)]
#[verifier::reject_recursive_types(V)]
#[verifier::reject_recursive_types(S)]
pub struct ExDashMap<K, V, S>(DashMap<K, V, S>);

/// The entries a client map holds, as a map from identifier to handle.
pub uninterp spec fn cache_view(m: DashMap<String, u64>) -> Map<Seq<char>, u64>;

/// A client map with no entries.
pub open spec fn empty_cache() -> Map<Seq<char>, u64> {
    Map::empty()
}

/// Relies on dashmap::DashMap::new: a map with no entries.
#[verifier::external_body]
fn cache_new() -> (r: DashMap<String, u64>)
    ensures
        cache_view(r) == empty_cache(),
{
    DashMap::new()
}

/// Relies on dashmap::DashMap::insert: afterwards the key maps to the
/// given value; no other entry changes.
#[verifier::external_body]
fn cache_insert(m: &mut DashMap<String, u64>, identifier: String, handle: u64)
    ensures
        cache_view(*final(m)) == cache_view(*old(m)).insert(identifier@, handle),
{
    m.insert(identifier, handle);
}

/// Relies on dashmap::DashMap::get: the value stored under the key, if
/// any.
#[verifier::external_body]
fn cache_get(m: &DashMap<String, u64>, identifier: &String) -> (r: Option<u64>)
    ensures
        r == if cache_view(*m).dom().contains(identifier@) {
            Some(cache_view(*m)[identifier@])
        } else {
            None::<u64>
        },
{
    match m.get(identifier) {
        Some(entry) => Some(*entry),
        None => None,
    }
}

/// Relies on dashmap::DashMap::remove: afterwards the key is absent; no
/// other entry changes.
#[verifier::external_body]
fn cache_remove(m: &mut DashMap<String, u64>, identifier: &String)
    ensures
        cache_view(*final(m)) == cache_view(*old(m)).remove(identifier@),
{
    m.remove(identifier);
}

/// The set of identifiers in a list.
pub open spec fn id_set(ids: Seq<Seq<char>>) -> Set<Seq<char>> {
    Set::new(|id: Seq<char>| ids.contains(id))
}

/// Whether a list of identifiers has no repetition.
pub open spec fn distinct_ids(ids: Seq<Seq<char>>) -> bool {
    forall|i: int, j: int| 0 <= i < j < ids.len() ==> ids[i] != ids[j]
}

/// The abstract state of the session cache: the live entries and the
/// identifiers whose rehydration is in flight.
#[verifier::ext_equal]
pub struct SessionsView {
    pub clients: Map<Seq<char>, u64>,
    pub pending: Set<Seq<char>>,
}

/// What a `get` call answers.
#[derive(Debug, PartialEq, Eq, Structural)]
pub enum GetOutcome {
    /// A live handle is cached; use it.
    Cached(u64),
    /// Nothing is cached and nobody is rehydrating: the caller must
    /// rehydrate, and is now registered as the one caller doing so.
    Rehydrate,
    /// Another caller is already rehydrating this identifier; await its
    /// result.
    AwaitInFlight,
}

/// How one `get` call moves the cache state: a hit answers the cached
/// handle and changes nothing; a miss with a rehydration in flight waits
/// and changes nothing; otherwise the caller is told to rehydrate and the
/// identifier becomes pending.
pub open spec fn get_transition(
    pre: SessionsView,
    post: SessionsView,
    id: Seq<char>,
    r: GetOutcome,
) -> bool {
    if pre.clients.dom().contains(id) {
        r == GetOutcome::Cached(pre.clients[id]) && post == pre
    } else if pre.pending.contains(id) {
        r == GetOutcome::AwaitInFlight && post == pre
    } else {
        r == GetOutcome::Rehydrate && post == SessionsView {
            clients: pre.clients,
            pending: pre.pending.insert(id),
        }
    }
}

/// Whether an identifier list contains the given identifier.
fn pending_contains(pending: &Vec<String>, identifier: &String) -> (r: bool)
    ensures
        r == pending.deep_view().contains(identifier@),
{
    let mut i: usize = 0;
    while i < pending.len()
        invariant
            i <= pending.len(),
            forall|j: int| 0 <= j < i ==> pending.deep_view()[j] != identifier@,
        decreases pending.len() - i,
    {
        if pending[i].eq(identifier) {
            proof {
                assert(pending.deep_view()[i as int] == identifier@);
            }
            return true;
        }
        i = i + 1;
    }
    false
}

/// Removing the index holding an identifier takes exactly it out of the
/// identifier set, when the list has no repetition.
proof fn lemma_remove_id(ids: Seq<Seq<char>>, i: int, id: Seq<char>)
    requires
        distinct_ids(ids),
        0 <= i < ids.len(),
        ids[i] == id,
    ensures
        distinct_ids(ids.remove(i)),
        id_set(ids.remove(i)) == id_set(ids).remove(id),
{
    let t = ids.remove(i);
    ids.remove_ensures(i);
    assert forall|p: int, q: int| 0 <= p < q < t.len() implies t[p] != t[q] by {
        let ps: int = if p < i { p } else { p + 1 };
        let qs: int = if q < i { q } else { q + 1 };
        assert(t[p] == ids[ps]);
        assert(t[q] == ids[qs]);
    }
    assert(id_set(t) =~= id_set(ids).remove(id)) by {
        assert forall|x: Seq<char>| t.contains(x) implies ids.contains(x) && x != id by {
            let j = choose|j: int| 0 <= j < t.len() && t[j] == x;
            let js: int = if j < i { j } else { j + 1 };
            assert(ids[js] == x);
            assert(js != i ==> ids[js] != ids[i]);
        }
        assert forall|x: Seq<char>| ids.contains(x) && x != id implies t.contains(x) by {
            let k = choose|k: int| 0 <= k < ids.len() && ids[k] == x;
            if k < i {
                assert(t[k] == x);
            } else {
                assert(t[k - 1] == x);
            }
        }
    }
}

/// Takes an identifier out of the pending list, if present.
fn pending_remove(pending: &mut Vec<String>, identifier: &String)
    requires
        distinct_ids(old(pending).deep_view()),
    ensures
        distinct_ids(final(pending).deep_view()),
        id_set(final(pending).deep_view()) == id_set(old(pending).deep_view()).remove(
            identifier@,
        ),
{
    let mut i: usize = 0;
    while i < pending.len()
        invariant
            i <= pending.len(),
            *pending == *old(pending),
            distinct_ids(pending.deep_view()),
            forall|j: int| 0 <= j < i ==> pending.deep_view()[j] != identifier@,
        decreases pending.len() - i,
    {
        if pending[i].eq(identifier) {
            let ghost before = pending.deep_view();
            proof {
                assert(before == old(pending).deep_view());
                assert(distinct_ids(before));
                assert(before[i as int] == identifier@);
            }
            pending.remove(i);
            proof {
                assert(pending.deep_view() =~= before.remove(i as int)) by {
                    old(pending)@.remove_ensures(i as int);
                }
                lemma_remove_id(before, i as int, identifier@);
            }
            return ;
        }
        i = i + 1;
    }
    proof {
        assert(!pending.deep_view().contains(identifier@));
        assert(id_set(pending.deep_view()) =~= id_set(pending.deep_view()).remove(identifier@));
    }
}

/// The session cache: the live client handles keyed by identifier, and
/// the identifiers whose rehydration is in flight. The map starts empty
/// at process start; nothing here persists across restarts.
pub struct Sessions {
    clients: DashMap<String, u64>,
    pending: Vec<String>,
}

impl View for Sessions {
    type V = SessionsView;

    closed spec fn view(&self) -> SessionsView {
        SessionsView {
            clients: cache_view(self.clients),
            pending: id_set(self.pending.deep_view()),
        }
    }
}

impl Sessions {
    /// The pending list never holds an identifier twice.
    pub closed spec fn wf(self) -> bool {
        distinct_ids(self.pending.deep_view())
    }

    /// An empty cache with no rehydration in flight.
    pub fn new() -> (s: Sessions)
        ensures
            s.wf(),
            s@.clients == Map::<Seq<char>, u64>::empty(),
            s@.pending == Set::<Seq<char>>::empty(),
    {
        let s = Sessions { clients: cache_new(), pending: Vec::new() };
        proof {
            assert(s@.pending =~= Set::<Seq<char>>::empty());
        }
        s
    }

    /// Registers or replaces the live handle for an identifier. Replacing
    /// does not tear the old handle down; that stays with the caller.
    pub fn insert(&mut self, identifier: String, handle: u64)
        requires
            old(self).wf(),
        ensures
            final(self).wf(),
            final(self)@.clients == old(self)@.clients.insert(identifier@, handle),
            final(self)@.pending == old(self)@.pending,
    {
        cache_insert(&mut self.clients, identifier, handle);
    }

    /// Evicts the entry for an identifier if present; a no-op otherwise.
    /// The secure credential store is not touched.
    pub fn remove(&mut self, identifier: &String)
        requires
            old(self).wf(),
        ensures
            final(self).wf(),
            final(self)@.clients == old(self)@.clients.remove(identifier@),
            final(self)@.pending == old(self)@.pending,
    {
        cache_remove(&mut self.clients, identifier);
    }

    /// Answers a session request: the cached handle when there is one;
    /// otherwise whether this caller must rehydrate or wait for the
    /// rehydration already in flight. At most one caller per identifier
    /// is ever told to rehydrate before that attempt completes.
    pub fn get(&mut self, identifier: &String) -> (r: GetOutcome)
        requires
            old(self).wf(),
        ensures
            final(self).wf(),
            get_transition(old(self)@, final(self)@, identifier@, r),
    {
        match cache_get(&self.clients, identifier) {
            Some(handle) => GetOutcome::Cached(handle),
            None => {
                if pending_contains(&self.pending, identifier) {
                    GetOutcome::AwaitInFlight
                } else {
                    let ghost before = self.pending.deep_view();
                    self.pending.push(identifier.clone());
                    proof {
                        assert(self.pending.deep_view() =~= before.push(identifier@));
                        lemma_push_id(before, identifier@);
                        assert(self@ =~= SessionsView {
                            clients: old(self)@.clients,
                            pending: old(self)@.pending.insert(identifier@),
                        });
                    }
                    GetOutcome::Rehydrate
                }
            },
        }
    }

    /// Ends a successful rehydration: caches the fresh handle and clears
    /// the in-flight mark, letting waiting callers find the entry.
    pub fn complete_rehydration(&mut self, identifier: &String, handle: u64)
        requires
            old(self).wf(),
        ensures
            final(self).wf(),
            final(self)@.clients == old(self)@.clients.insert(identifier@, handle),
            final(self)@.pending == old(self)@.pending.remove(identifier@),
    {
        cache_insert(&mut self.clients, identifier.clone(), handle);
        pending_remove(&mut self.pending, identifier);
    }

    /// Ends a failed rehydration: clears the in-flight mark without
    /// caching anything, so a later caller may try again.
    pub fn abandon_rehydration(&mut self, identifier: &String)
        requires
            old(self).wf(),
        ensures
            final(self).wf(),
            final(self)@.clients == old(self)@.clients,
            final(self)@.pending == old(self)@.pending.remove(identifier@),
    {
        pending_remove(&mut self.pending, identifier);
    }
}

/// Appending a fresh identifier adds exactly it to the identifier set and
/// keeps the list free of repetition.
proof fn lemma_push_id(ids: Seq<Seq<char>>, id: Seq<char>)
    ensures
        id_set(ids.push(id)) == id_set(ids).insert(id),
        !ids.contains(id) && distinct_ids(ids) ==> distinct_ids(ids.push(id)),
{
    let t = ids.push(id);
    assert(id_set(t) =~= id_set(ids).insert(id)) by {
        assert forall|x: Seq<char>| t.contains(x) implies ids.contains(x) || x == id by {
            let j = choose|j: int| 0 <= j < t.len() && t[j] == x;
            if j < ids.len() {
                assert(ids[j] == x);
            }
        }
        assert forall|x: Seq<char>| ids.contains(x) || x == id implies t.contains(x) by {
            if ids.contains(x) {
                let k = choose|k: int| 0 <= k < ids.len() && ids[k] == x;
                assert(t[k] == x);
            } else {
                assert(t[ids.len() as int] == x);
            }
        }
    }
    if !ids.contains(id) && distinct_ids(ids) {
        assert forall|p: int, q: int| 0 <= p < q < t.len() implies t[p] != t[q] by {
            if q == ids.len() {
                assert(t[p] == ids[p]);
                assert(ids.contains(ids[p]));
            }
        }
    }
}

/// Interprets what the secure credential store answered for a missing
/// session's stored payload: a missing entry means the session is unknown
/// or expired, not a storage fault; any other failure is a storage error.
pub fn interpret_store_read(read: Result<String, StoreError>) -> (r: Result<String, Error>)
    ensures
        match read {
            Ok(payload) => r is Ok && r->Ok_0 == payload,
            Err(StoreError::NotFound) => r is Err && r->Err_0.spec_kind() == ErrorKind::Keyring(
                StoreError::NotFound,
            ) && r->Err_0.spec_message() == "unknown or expired session"@,
            Err(StoreError::Other(cause)) => r is Err && r->Err_0.spec_kind()
                == ErrorKind::Keyring(StoreError::Other(cause)) && r->Err_0.spec_message()
                == "Error with keyring"@,
        },
{
    match read {
        Ok(payload) => Ok(payload),
        Err(StoreError::NotFound) => Err(
            Error::new(
                ErrorKind::Keyring(StoreError::NotFound),
                String::from_str("unknown or expired session"),
            ),
        ),
        Err(store_error) => Err(Error::from_keyring(store_error)),
    }
}

/// Rehydration is single-flight: when an identifier is neither cached nor
/// being rehydrated, of two successive `get` calls for it the first alone
/// is told to rehydrate; the second waits and moves nothing. Repeating
/// the second call's argument shows the same for every later caller, so N
/// concurrent `get` calls produce exactly one rehydration attempt.
pub proof fn lemma_single_flight(
    pre: SessionsView,
    mid: SessionsView,
    post: SessionsView,
    id: Seq<char>,
    r1: GetOutcome,
    r2: GetOutcome,
)
    requires
        !pre.clients.dom().contains(id),
        !pre.pending.contains(id),
        get_transition(pre, mid, id, r1),
        get_transition(mid, post, id, r2),
    ensures
        r1 == GetOutcome::Rehydrate,
        r2 == GetOutcome::AwaitInFlight,
        post == mid,
{
}

/// While a rehydration is in flight and no handle is cached, every `get`
/// for that identifier waits and moves nothing.
pub proof fn lemma_await_while_pending(
    pre: SessionsView,
    post: SessionsView,
    id: Seq<char>,
    r: GetOutcome,
)
    requires
        !pre.clients.dom().contains(id),
        pre.pending.contains(id),
        get_transition(pre, post, id, r),
    ensures
        r == GetOutcome::AwaitInFlight,
        post == pre,
{
}

/// The cache is coherent with insertion: after a handle is registered for an
/// identifier, `get` answers exactly that handle and consults nothing
/// else: the state does not change.
pub proof fn lemma_cache_coherence(
    pre: SessionsView,
    mid: SessionsView,
    post: SessionsView,
    id: Seq<char>,
    handle: u64,
    r: GetOutcome,
)
    requires
        mid.clients == pre.clients.insert(id, handle),
        get_transition(mid, post, id, r),
    ensures
        r == GetOutcome::Cached(handle),
        post == mid,
{
}

/// The cache is coherent with eviction, and this is what logout leaves
/// behind: after an
/// identifier is evicted, a `get` for it (with no rehydration in flight)
/// is told to rehydrate: the caller goes back to the secure credential
/// store, which eviction never touched.
pub proof fn lemma_eviction_forces_rehydration(
    pre: SessionsView,
    mid: SessionsView,
    post: SessionsView,
    id: Seq<char>,
    r: GetOutcome,
)
    requires
        mid.clients == pre.clients.remove(id),
        mid.pending == pre.pending,
        !pre.pending.contains(id),
        get_transition(mid, post, id, r),
    ensures
        r == GetOutcome::Rehydrate,
        post.clients == mid.clients,
        post.pending == mid.pending.insert(id),
{
}

} // verus!
