use vstd::prelude::*;

verus! {

/// Index of the last entry whose key is `k`, if any: later entries shadow
/// earlier ones, as a later insertion into a map replaces an earlier one.
pub open spec fn last_index_of(keys: Seq<Seq<char>>, k: Seq<char>) -> Option<int>
    decreases keys.len(),
{
    if keys.len() == 0 {
        None
    } else if keys.last() == k {
        Some(keys.len() - 1)
    } else {
        last_index_of(keys.drop_last(), k)
    }
}

proof fn lemma_last_index_bounds(keys: Seq<Seq<char>>, k: Seq<char>)
    ensures
        last_index_of(keys, k) matches Some(i) ==> 0 <= i < keys.len() && keys[i] == k,
        last_index_of(keys, k) is None ==> forall|j: int| 0 <= j < keys.len() ==> keys[j] != k,
    decreases keys.len(),
{
    if keys.len() > 0 && keys.last() != k {
        lemma_last_index_bounds(keys.drop_last(), k);
        assert forall|j: int| 0 <= j < keys.len() - 1 implies keys.drop_last()[j] == keys[j] by {}
    }
}

/// The mathematical content of an authorization table.
pub ghost struct TableModel {
    /// Streamer identity to its secret key.
    pub secrets: Map<Seq<char>, Seq<char>>,
    /// Streamer identity to the rooms it may publish into.
    pub grants: Map<Seq<char>, Set<Seq<char>>>,
}

/// The static authorization table: which secret each streamer holds, and
/// into which rooms each streamer may publish.
pub struct AuthorizationTable {
    streamers: Vec<(String, String)>,
    allowed_streams: Vec<(String, Vec<String>)>,
}

pub open spec fn rooms_set(rooms: Seq<String>) -> Set<Seq<char>> {
    Set::new(|r: Seq<char>| exists|j: int| 0 <= j < rooms.len() && #[trigger] rooms[j]@ == r)
}

impl AuthorizationTable {
    pub closed spec fn secret_keys(&self) -> Seq<Seq<char>> {
        self.streamers@.map_values(|e: (String, String)| e.0@)
    }

    pub closed spec fn grant_keys(&self) -> Seq<Seq<char>> {
        self.allowed_streams@.map_values(|e: (String, Vec<String>)| e.0@)
    }

    pub closed spec fn secrets(&self) -> Map<Seq<char>, Seq<char>> {
        Map::new(
            |k: Seq<char>| last_index_of(self.secret_keys(), k) is Some,
            |k: Seq<char>| self.streamers@[last_index_of(self.secret_keys(), k)->Some_0].1@,
        )
    }

    pub closed spec fn grants(&self) -> Map<Seq<char>, Set<Seq<char>>> {
        Map::new(
            |k: Seq<char>| last_index_of(self.grant_keys(), k) is Some,
            |k: Seq<char>|
                rooms_set(self.allowed_streams@[last_index_of(self.grant_keys(), k)->Some_0].1@),
        )
    }
}

impl View for AuthorizationTable {
    type V = TableModel;

    open spec fn view(&self) -> TableModel {
        TableModel { secrets: self.secrets(), grants: self.grants() }
    }
}

/// Position of the last entry keyed by `k`.
fn find_last<V>(entries: &Vec<(String, V)>, k: &String) -> (r: Option<usize>)
    ensures
        r matches Some(i) ==> last_index_of(
            entries@.map_values(|e: (String, V)| e.0@),
            k@,
        ) == Some(i as int) && i < entries.len() && entries@[i as int].0@ == k@,
        r is None ==> last_index_of(entries@.map_values(|e: (String, V)| e.0@), k@) is None,
{
    let ghost keys = entries@.map_values(|e: (String, V)| e.0@);
    let mut i: usize = entries.len();
    assert(keys.subrange(0, i as int) =~= keys);
    while i > 0
        invariant
            i <= entries.len(),
            keys == entries@.map_values(|e: (String, V)| e.0@),
            last_index_of(keys, k@) == last_index_of(keys.subrange(0, i as int), k@),
        decreases i,
    {
        let ghost prefix = keys.subrange(0, i as int);
        assert(prefix.drop_last() =~= keys.subrange(0, i - 1));
        assert(prefix.last() == entries@[i - 1].0@);
        if entries[i - 1].0 == *k {
            return Some(i - 1);
        }
        i = i - 1;
    }
    assert(keys.subrange(0, 0).len() == 0);
    None
}

impl AuthorizationTable {
    /// A table in which no streamer is known and no room is granted.
    pub fn new() -> (r: AuthorizationTable)
        ensures
            r@.secrets == Map::<Seq<char>, Seq<char>>::empty(),
            r@.grants == Map::<Seq<char>, Set<Seq<char>>>::empty(),
    {
        let r = AuthorizationTable { streamers: Vec::new(), allowed_streams: Vec::new() };
        assert(r.secret_keys().len() == 0);
        assert(r.grant_keys().len() == 0);
        assert(r@.secrets =~= Map::<Seq<char>, Seq<char>>::empty());
        assert(r@.grants =~= Map::<Seq<char>, Set<Seq<char>>>::empty());
        r
    }

    /// Records `key` as the secret of streamer `name`, replacing any earlier one.
    pub fn add_streamer(&mut self, name: String, key: String)
        ensures
            final(self)@.secrets == old(self)@.secrets.insert(name@, key@),
            final(self)@.grants == old(self)@.grants,
    {
        let ghost old_keys = self.secret_keys();
        let ghost nm = name@;
        let ghost ky = key@;
        self.streamers.push((name, key));
        assert(self.secret_keys() =~= old_keys.push(nm));
        assert(self.secret_keys().drop_last() =~= old_keys);
        assert(last_index_of(self.secret_keys(), nm) == Some(old_keys.len() as int));
        assert forall|k: Seq<char>| k != nm implies last_index_of(self.secret_keys(), k)
            == last_index_of(old_keys, k) by {
            lemma_last_index_bounds(old_keys, k);
        }
        assert forall|j: int| 0 <= j < old_keys.len() implies self.streamers@[j] == old(self).streamers@[j] by {}
        assert forall|k: Seq<char>| #[trigger] self@.secrets.contains_key(k) implies self@.secrets[k]
            == old(self)@.secrets.insert(nm, ky)[k] by {
            if k != nm {
                lemma_last_index_bounds(old_keys, k);
            }
        }
        assert(self@.secrets =~= old(self)@.secrets.insert(nm, ky));
        assert(self@.grants =~= old(self)@.grants);
    }

    /// Sets the rooms into which streamer `name` may publish, replacing any
    /// earlier grant.
    pub fn set_allowed_rooms(&mut self, name: String, rooms: Vec<String>)
        ensures
            final(self)@.grants == old(self)@.grants.insert(name@, rooms_set(rooms@)),
            final(self)@.secrets == old(self)@.secrets,
    {
        let ghost old_keys = self.grant_keys();
        let ghost nm = name@;
        let ghost rs = rooms@;
        self.allowed_streams.push((name, rooms));
        assert(self.grant_keys() =~= old_keys.push(nm));
        assert(self.grant_keys().drop_last() =~= old_keys);
        assert(last_index_of(self.grant_keys(), nm) == Some(old_keys.len() as int));
        assert forall|k: Seq<char>| k != nm implies last_index_of(self.grant_keys(), k)
            == last_index_of(old_keys, k) by {
            lemma_last_index_bounds(old_keys, k);
        }
        assert forall|j: int| 0 <= j < old_keys.len() implies self.allowed_streams@[j] == old(self).allowed_streams@[j] by {}
        assert forall|k: Seq<char>| #[trigger] self@.grants.contains_key(k) implies self@.grants[k]
            == old(self)@.grants.insert(nm, rooms_set(rs))[k] by {
            if k != nm {
                lemma_last_index_bounds(old_keys, k);
            }
        }
        assert(self@.grants =~= old(self)@.grants.insert(nm, rooms_set(rs)));
        assert(self@.secrets =~= old(self)@.secrets);
    }

    /// The secret of streamer `name`, if the table knows it.
    pub fn lookup_secret(&self, name: &String) -> (r: Option<&String>)
        ensures
            r is Some <==> self@.secrets.contains_key(name@),
            r matches Some(s) ==> s@ == self@.secrets[name@],
    {
        match find_last(&self.streamers, name) {
            Some(i) => Some(&self.streamers[i].1),
            None => None,
        }
    }

    /// The rooms granted to streamer `name`, if it has an entry.
    pub fn lookup_allowed_rooms(&self, name: &String) -> (r: Option<&Vec<String>>)
        ensures
            r is Some <==> self@.grants.contains_key(name@),
            r matches Some(rs) ==> rooms_set(rs@) == self@.grants[name@],
    {
        match find_last(&self.allowed_streams, name) {
            Some(i) => Some(&self.allowed_streams[i].1),
            None => None,
        }
    }
}

} // verus!
