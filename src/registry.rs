use vstd::prelude::*;
use dashmap::DashMap;
use crate::models::{clone_opt_string, Timestamp, User};

verus! {

/// One authenticated, live connection: the user it belongs to (as loaded at
/// handshake), the id of its transport connection, and its presence state.
#[derive(Debug, Clone)]
pub struct UserConnection {
    pub user: User,
    pub connection_id: String,
    pub current_channel_id: Option<String>,
    pub connected_at: Timestamp,
    pub is_audio_muted: bool,
    pub is_mic_muted: bool,
}

impl UserConnection {
    /// The state of a connection that has just completed its handshake: in
    /// no channel, nothing muted.
    pub open spec fn fresh_spec(user: User, connection_id: String, now: Timestamp) -> UserConnection {
        UserConnection {
            user,
            connection_id,
            current_channel_id: None,
            connected_at: now,
            is_audio_muted: false,
            is_mic_muted: false,
        }
    }

    pub fn fresh(user: User, connection_id: String, now: Timestamp) -> (r: UserConnection)
        ensures
            r == Self::fresh_spec(user, connection_id, now),
    {
        UserConnection {
            user,
            connection_id,
            current_channel_id: None,
            connected_at: now,
            is_audio_muted: false,
            is_mic_muted: false,
        }
    }

    /// A field-by-field copy.
    pub fn duplicate(&self) -> (r: UserConnection)
        ensures
            r == *self,
    {
        UserConnection {
            user: self.user.duplicate(),
            connection_id: self.connection_id.clone(),
            current_channel_id: clone_opt_string(&self.current_channel_id),
            connected_at: self.connected_at,
            is_audio_muted: self.is_audio_muted,
            is_mic_muted: self.is_mic_muted,
        }
    }
}

/// A change to the presence state of one connection.
#[derive(Debug, Clone)]
pub enum SessionUpdate {
    MicMuted(bool),
    AudioMuted(bool),
    Channel(Option<String>),
}

impl SessionUpdate {
    pub open spec fn apply_spec(self, c: UserConnection) -> UserConnection {
        match self {
            SessionUpdate::MicMuted(m) => UserConnection { is_mic_muted: m, ..c },
            SessionUpdate::AudioMuted(m) => UserConnection { is_audio_muted: m, ..c },
            SessionUpdate::Channel(ch) => UserConnection { current_channel_id: ch, ..c },
        }
    }

    /// The connection with this change made.
    pub fn apply(self, c: UserConnection) -> (r: UserConnection)
        ensures
            r == self.apply_spec(c),
    {
        match self {
            SessionUpdate::MicMuted(m) => UserConnection { is_mic_muted: m, ..c },
            SessionUpdate::AudioMuted(m) => UserConnection { is_audio_muted: m, ..c },
            SessionUpdate::Channel(ch) => UserConnection { current_channel_id: ch, ..c },
        }
    }
}

#[verifier::external_type_specification]
#[verifier::external_body]
#[verifier::reject_recursive_types(K)]
#[verifier::reject_recursive_types(V)]
#[verifier::reject_recursive_types(S)]
pub struct ExDashMap<K, V, S>(DashMap<K, V, S>);

/// The map under a registry: user id to connection.
pub type ConnectionMap = DashMap<String, UserConnection>;

/// The entries a `DashMap` of connections holds, by key.
pub uninterp spec fn entries_of(m: ConnectionMap) -> Map<Seq<char>, UserConnection>;

/// Relies on `dashmap::DashMap::new`: a map with no entries.
#[verifier::external_body]
fn map_new() -> (r: ConnectionMap)
    ensures
        entries_of(r).dom() == Set::<Seq<char>>::empty(),
{
    DashMap::new()
}

/// Relies on `dashmap::DashMap::insert`: afterwards the key maps to the
/// value, other keys are untouched, and the value it replaced is returned.
#[verifier::external_body]
fn map_insert(m: &mut ConnectionMap, key: String, value: UserConnection) -> (r:
    Option<UserConnection>)
    ensures
        entries_of(*final(m)) == entries_of(*old(m)).insert(key@, value),
        r == (if entries_of(*old(m)).contains_key(key@) {
            Some(entries_of(*old(m))[key@])
        } else {
            None::<UserConnection>
        }),
{
    m.insert(key, value)
}

/// Relies on `dashmap::DashMap::remove`: afterwards the key maps to nothing,
/// other keys are untouched, and the removed value is returned.
#[verifier::external_body]
fn map_remove(m: &mut ConnectionMap, key: &str) -> (r: Option<UserConnection>)
    ensures
        entries_of(*final(m)) == entries_of(*old(m)).remove(key@),
        r == (if entries_of(*old(m)).contains_key(key@) {
            Some(entries_of(*old(m))[key@])
        } else {
            None::<UserConnection>
        }),
{
    m.remove(key).map(|(_, v)| v)
}

/// Relies on `dashmap::DashMap::get`: a copy (by the derived `Clone`) of the
/// value the key maps to, if any.
#[verifier::external_body]
fn map_get(m: &ConnectionMap, key: &str) -> (r: Option<UserConnection>)
    ensures
        r == (if entries_of(*m).contains_key(key@) {
            Some(entries_of(*m)[key@])
        } else {
            None::<UserConnection>
        }),
{
    m.get(key).map(|e| e.value().clone())
}

/// Relies on `dashmap::DashMap::iter`: every entry once, each key with a copy
/// (by the derived `Clone`) of its value, in an order the map chooses.
#[verifier::external_body]
fn map_entries(m: &ConnectionMap) -> (r: Vec<(String, UserConnection)>)
    ensures
        r@.len() == entries_of(*m).len(),
        forall|i: int|
            0 <= i < r@.len() ==> entries_of(*m).contains_key(#[trigger] r@[i].0@)
                && entries_of(*m)[r@[i].0@] == r@[i].1,
        forall|i: int, j: int| 0 <= i < j < r@.len() ==> r@[i].0@ != r@[j].0@,
{
    m.iter().map(|e| (e.key().clone(), e.value().clone())).collect()
}

/// Relies on `dashmap::DashMap::len`: the number of entries.
#[verifier::external_body]
fn map_len(m: &ConnectionMap) -> (r: usize)
    ensures
        r == entries_of(*m).len(),
{
    m.len()
}

/// The process-wide registry of live connections, keyed by user id. A user
/// is online exactly when the registry holds an entry for them, and it holds
/// at most one.
pub struct SessionRegistry {
    map: ConnectionMap,
}

impl SessionRegistry {
    /// The connections online, by user id.
    pub closed spec fn view(&self) -> Map<Seq<char>, UserConnection> {
        entries_of(self.map)
    }

    /// Each entry is filed under its own user's id, and there are finitely
    /// many.
    pub closed spec fn wf(&self) -> bool {
        &&& self@.dom().finite()
        &&& forall|k: Seq<char>| #[trigger] self@.contains_key(k) ==> self@[k].user.id@ == k
    }

    pub fn new() -> (r: SessionRegistry)
        ensures
            r.wf(),
            r@ == Map::<Seq<char>, UserConnection>::empty(),
    {
        let r = SessionRegistry { map: map_new() };
        assert(r@ =~= Map::<Seq<char>, UserConnection>::empty());
        r
    }

    /// Files `conn` under its user's id, replacing any connection that user
    /// had. The replaced connection is returned so that the caller can close
    /// it: a user has at most one connection online.
    pub fn register(&mut self, conn: UserConnection) -> (r: Option<UserConnection>)
        requires
            old(self).wf(),
        ensures
            final(self).wf(),
            final(self)@ == old(self)@.insert(conn.user.id@, conn),
            r == (if old(self)@.contains_key(conn.user.id@) {
                Some(old(self)@[conn.user.id@])
            } else {
                None::<UserConnection>
            }),
    {
        let key = conn.user.id.clone();
        map_insert(&mut self.map, key, conn)
    }

    /// The connection of `user_id`, if the user is online.
    pub fn lookup(&self, user_id: &str) -> (r: Option<UserConnection>)
        ensures
            r == (if self@.contains_key(user_id@) {
                Some(self@[user_id@])
            } else {
                None::<UserConnection>
            }),
    {
        map_get(&self.map, user_id)
    }

    /// Whether `user_id` is online.
    pub fn is_online(&self, user_id: &str) -> (r: bool)
        ensures
            r == self@.contains_key(user_id@),
    {
        map_get(&self.map, user_id).is_some()
    }

    /// Applies `update` to the connection of `user_id`. Returns false, and
    /// changes nothing, when the user is not online.
    pub fn update_in_place(&mut self, user_id: &str, update: SessionUpdate) -> (r: bool)
        requires
            old(self).wf(),
        ensures
            final(self).wf(),
            r == old(self)@.contains_key(user_id@),
            r ==> final(self)@ == old(self)@.insert(
                user_id@,
                update.apply_spec(old(self)@[user_id@]),
            ),
            !r ==> final(self)@ == old(self)@,
    {
        match map_get(&self.map, user_id) {
            Some(current) => {
                let updated = update.apply(current);
                let key = updated.user.id.clone();
                let _ = map_insert(&mut self.map, key, updated);
                true
            },
            None => false,
        }
    }

    /// Takes the connection of `user_id` out of the registry. Removing a user
    /// who is not online changes nothing.
    pub fn remove(&mut self, user_id: &str) -> (r: Option<UserConnection>)
        requires
            old(self).wf(),
        ensures
            final(self).wf(),
            final(self)@ == old(self)@.remove(user_id@),
            r == (if old(self)@.contains_key(user_id@) {
                Some(old(self)@[user_id@])
            } else {
                None::<UserConnection>
            }),
    {
        map_remove(&mut self.map, user_id)
    }

    /// The connections online, each once, with their user ids.
    pub fn entries(&self) -> (r: Vec<(String, UserConnection)>)
        requires
            self.wf(),
        ensures
            r@.len() == self@.len(),
            forall|i: int|
                0 <= i < r@.len() ==> self@.contains_key(#[trigger] r@[i].0@) && self@[r@[i].0@]
                    == r@[i].1,
            forall|i: int, j: int| 0 <= i < j < r@.len() ==> r@[i].0@ != r@[j].0@,
            forall|k: Seq<char>| #[trigger]
                self@.contains_key(k) ==> exists|i: int| 0 <= i < r@.len() && r@[i].0@ == k,
    {
        let r = map_entries(&self.map);
        proof {
            lemma_keys_cover(r@, self@);
        }
        r
    }

    /// How many users are online.
    pub fn len(&self) -> (r: usize)
        ensures
            r == self@.len(),
    {
        map_len(&self.map)
    }
}

/// At most one connection per user: in every well-formed registry, two
/// entries that belong to the same user are the same entry.
pub proof fn lemma_one_connection_per_user(reg: &SessionRegistry, a: Seq<char>, b: Seq<char>)
    requires
        reg.wf(),
        reg@.contains_key(a),
        reg@.contains_key(b),
        reg@[a].user.id@ == reg@[b].user.id@,
    ensures
        a == b,
{
}

/// Last connect wins: registering two connections of the same user leaves
/// exactly one entry for that user, the later connection, and the second
/// registration hands back the first connection to be closed.
pub proof fn lemma_last_connect_wins(
    reg: Map<Seq<char>, UserConnection>,
    first: UserConnection,
    second: UserConnection,
)
    requires
        first.user.id@ == second.user.id@,
    ensures
        ({
            let id = first.user.id@;
            let after_first = reg.insert(id, first);
            let after_second = after_first.insert(id, second);
            &&& after_second.dom() == reg.dom().insert(id)
            &&& after_second[id] == second
            &&& after_first.contains_key(id) && after_first[id] == first
            &&& forall|k: Seq<char>| k != id && #[trigger] reg.contains_key(k) ==> after_second[k] == reg[k]
        }),
{
    let id = first.user.id@;
    assert(reg.insert(id, first).insert(id, second).dom() =~= reg.dom().insert(id));
}

/// A list of distinct keys, each in the map, as long as the map's domain,
/// names every key of the map.
proof fn lemma_keys_cover(s: Seq<(String, UserConnection)>, m: Map<Seq<char>, UserConnection>)
    requires
        m.dom().finite(),
        s.len() == m.len(),
        forall|i: int| 0 <= i < s.len() ==> m.contains_key(#[trigger] s[i].0@),
        forall|i: int, j: int| 0 <= i < j < s.len() ==> s[i].0@ != s[j].0@,
    ensures
        forall|k: Seq<char>| #[trigger]
            m.contains_key(k) ==> exists|i: int| 0 <= i < s.len() && s[i].0@ == k,
{
    let keys = s.map_values(|e: (String, UserConnection)| e.0@);
    assert forall|i: int, j: int| 0 <= i < j < keys.len() implies keys[i] != keys[j] by {
        assert(keys[i] == s[i].0@);
        assert(keys[j] == s[j].0@);
    }
    assert(keys.no_duplicates());
    keys.unique_seq_to_set();
    let ks = keys.to_set();
    assert(ks.len() == keys.len());
    assert forall|k: Seq<char>| ks.contains(k) implies m.dom().contains(k) by {
        let i = choose|i: int| 0 <= i < keys.len() && keys[i] == k;
        assert(m.contains_key(s[i].0@));
    }
    vstd::set_lib::lemma_len_subset(ks, m.dom());
    if !(m.dom() =~= ks) {
        let extra = choose|k: Seq<char>| m.dom().contains(k) && !ks.contains(k);
        vstd::set_lib::lemma_len_subset(ks, m.dom().remove(extra));
    }
    assert(m.dom() =~= ks);
    assert forall|k: Seq<char>| #[trigger] m.contains_key(k) implies exists|i: int|
        0 <= i < s.len() && s[i].0@ == k by {
        assert(ks.contains(k));
        let i = choose|i: int| 0 <= i < keys.len() && keys[i] == k;
        assert(s[i].0@ == k);
    }
}

} // verus!
