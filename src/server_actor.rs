use std::collections::HashMap;
use vstd::prelude::*;

use crate::errors::{Error, Result};
use crate::{new_id, UserId, ID};

verus! {

broadcast use vstd::std_specs::hash::group_hash_axioms;

/// One entry of the per-user connection index: `connection` is held by `user`.
pub struct Binding {
    pub user: UserId,
    pub connection: ID,
}

/// The string views of a list of user names.
pub open spec fn user_views(users: Seq<UserId>) -> Seq<Seq<char>> {
    users.map_values(|u: UserId| u@)
}

/// State of the connection directory: who is online, and where to send to them.
///
/// `connections` maps each live connection to its outbound sink,
/// `users_inverse` maps a connection to the user bound to it, and `users`
/// indexes the other way, one entry per bound connection.
pub struct ServerActor<S> {
    connections: HashMap<ID, S>,
    users_inverse: HashMap<ID, UserId>,
    users: Vec<Binding>,
}

impl<S> ServerActor<S> {
    /// The live connections and their sinks.
    pub closed spec fn sinks(&self) -> Map<ID, S> {
        self.connections@
    }

    /// The user bound to each bound connection.
    pub closed spec fn user_of_connection(&self) -> Map<ID, Seq<char>> {
        Map::new(|c: ID| self.users_inverse@.contains_key(c), |c: ID| self.users_inverse@[c]@)
    }

    /// The connections held by each user that holds at least one.
    pub closed spec fn connections_of_user(&self) -> Map<Seq<char>, Set<ID>> {
        Map::new(
            |u: Seq<char>| exists|i: int| 0 <= i < self.users@.len() && #[trigger] self.users@[i].user@ == u,
            |u: Seq<char>|
                Set::new(
                    |c: ID|
                        exists|i: int|
                            0 <= i < self.users@.len() && #[trigger] self.users@[i].user@ == u
                                && self.users@[i].connection == c,
                ),
        )
    }

    /// Whether `c` is a live connection bound to one of `users`.
    pub open spec fn is_target(&self, c: ID, users: Seq<Seq<char>>) -> bool {
        &&& self.sinks().contains_key(c)
        &&& self.user_of_connection().contains_key(c)
        &&& users.contains(self.user_of_connection()[c])
    }

    /// The two user maps agree entry by entry.
    closed spec fn index_wf(&self) -> bool {
        &&& forall|i: int|
            0 <= i < self.users@.len() ==> {
                &&& self.users_inverse@.contains_key(#[trigger] self.users@[i].connection)
                &&& self.users_inverse@[self.users@[i].connection]@ == self.users@[i].user@
            }
        &&& forall|i: int, j: int|
            0 <= i < self.users@.len() && 0 <= j < self.users@.len() && i != j
                ==> #[trigger] self.users@[i].connection != #[trigger] self.users@[j].connection
        &&& forall|c: ID|
            #[trigger] self.users_inverse@.contains_key(c) ==> exists|i: int|
                0 <= i < self.users@.len() && #[trigger] self.users@[i].connection == c
    }

    /// Well-formedness: the user maps agree, and only live connections are bound.
    pub closed spec fn wf(&self) -> bool {
        &&& self.index_wf()
        &&& forall|c: ID| #[trigger] self.users_inverse@.contains_key(c) ==> self.connections@.contains_key(c)
    }

    /// The directory invariant: a connection is bound to a user exactly when
    /// it is among that user's connections; every user listed holds at least
    /// one connection; and only live connections are bound.
    pub proof fn lemma_directory_invariant(&self)
        requires
            self.wf(),
        ensures
            forall|c: ID, u: Seq<char>|
                (self.user_of_connection().contains_key(c) && self.user_of_connection()[c] == u) <==> (
                self.connections_of_user().contains_key(u) && #[trigger] self.connections_of_user()[u].contains(c)),
            forall|u: Seq<char>| #[trigger] self.connections_of_user().contains_key(u)
                ==> !self.connections_of_user()[u].is_empty(),
            forall|c: ID| #[trigger] self.user_of_connection().contains_key(c) ==> self.sinks().contains_key(c),
    {
        assert forall|c: ID, u: Seq<char>|
            (self.user_of_connection().contains_key(c) && self.user_of_connection()[c] == u) <==> (
            self.connections_of_user().contains_key(u) && #[trigger] self.connections_of_user()[u].contains(c)) by {
            if self.user_of_connection().contains_key(c) && self.user_of_connection()[c] == u {
                let i = choose|i: int| 0 <= i < self.users@.len() && #[trigger] self.users@[i].connection == c;
                assert(self.users@[i].user@ == u);
            }
        }
        assert forall|u: Seq<char>| #[trigger] self.connections_of_user().contains_key(u)
            implies !self.connections_of_user()[u].is_empty() by {
            let i = choose|i: int| 0 <= i < self.users@.len() && #[trigger] self.users@[i].user@ == u;
            assert(self.connections_of_user()[u].contains(self.users@[i].connection));
        }
    }

    /// An empty directory.
    pub fn new() -> (r: Self)
        ensures
            r.wf(),
            r.sinks().is_empty(),
            r.user_of_connection().is_empty(),
    {
        let r = ServerActor { connections: HashMap::new(), users_inverse: HashMap::new(), users: Vec::new() };
        assert(r.user_of_connection() =~= Map::empty());
        r
    }

    /// Where `id` stands in the user index, if anywhere.
    fn position_of(&self, id: ID) -> (r: Option<usize>)
        ensures
            match r {
                Some(i) => i < self.users@.len() && self.users@[i as int].connection == id,
                None => forall|i: int| 0 <= i < self.users@.len() ==> #[trigger] self.users@[i].connection != id,
            },
    {
        let mut i: usize = 0;
        while i < self.users.len()
            invariant
                i <= self.users@.len(),
                forall|k: int| 0 <= k < i ==> #[trigger] self.users@[k].connection != id,
            decreases self.users@.len() - i,
        {
            if self.users[i].connection == id {
                return Some(i);
            }
            i += 1;
        }
        None
    }

    /// Unbinds `id` from its user, if it is bound.
    fn release(&mut self, id: ID)
        requires
            old(self).index_wf(),
        ensures
            final(self).index_wf(),
            final(self).connections@ == old(self).connections@,
            final(self).users_inverse@ == old(self).users_inverse@.remove(id),
            !old(self).users_inverse@.contains_key(id) ==> final(self).users@ == old(self).users@,
    {
        if self.users_inverse.remove(&id).is_some() {
            match self.position_of(id) {
                Some(i) => {
                    let ghost before = self.users@;
                    self.users.remove(i);
                    let ghost after = self.users@;
                    assert forall|k: int| 0 <= k < after.len() implies
                        #[trigger] after[k] == before[if k < i { k } else { k + 1 }] by {}
                    assert forall|c: ID| #[trigger] self.users_inverse@.contains_key(c) implies exists|k: int|
                        0 <= k < after.len() && #[trigger] after[k].connection == c by {
                        let j = choose|j: int| 0 <= j < before.len() && #[trigger] before[j].connection == c;
                        if j < i {
                            assert(after[j] == before[j]);
                        } else {
                            assert(j != i);
                            assert(after[j - 1] == before[j]);
                        }
                    }
                }
                None => {}
            }
        }
    }

    /// Registers a connection under a chosen identity. An earlier
    /// connection under the same identity is replaced, and left unbound.
    pub fn register_as(&mut self, id: ID, sink: S)
        requires
            old(self).wf(),
        ensures
            final(self).wf(),
            final(self).sinks() == old(self).sinks().insert(id, sink),
            final(self).user_of_connection() == old(self).user_of_connection().remove(id),
    {
        self.release(id);
        self.connections.insert(id, sink);
        assert(self.user_of_connection() =~= old(self).user_of_connection().remove(id));
    }

    /// An identity that no live connection holds: a freshly drawn one, or,
    /// should that be taken, the least free one among `0..=n`, where `n` is
    /// the number of live connections.
    fn fresh_id(&self) -> (id: ID)
        ensures
            !self.sinks().contains_key(id),
    {
        let drawn = new_id();
        if !self.connections.contains_key(&drawn) {
            return drawn;
        }
        let ghost dom = self.connections@.dom();
        let n = self.connections.len();
        let mut k: u128 = 0;
        let ghost mut tried: Set<ID> = Set::empty();
        while self.connections.contains_key(&k)
            invariant
                dom == self.connections@.dom(),
                dom.finite(),
                n == dom.len(),
                tried.finite(),
                tried.len() == k,
                tried.subset_of(dom),
                forall|x: ID| #[trigger] tried.contains(x) ==> x < k,
                k <= n,
            decreases n - k,
        {
            proof {
                tried = tried.insert(k);
                vstd::set_lib::lemma_len_subset(tried, dom);
            }
            k += 1;
        }
        k
    }

    /// Registers a connection under a fresh identity and returns it.
    pub fn register(&mut self, sink: S) -> (id: ID)
        requires
            old(self).wf(),
        ensures
            final(self).wf(),
            !old(self).sinks().contains_key(id),
            final(self).sinks() == old(self).sinks().insert(id, sink),
            final(self).user_of_connection() == old(self).user_of_connection(),
    {
        let id = self.fresh_id();
        self.register_as(id, sink);
        assert(old(self).user_of_connection().remove(id) =~= old(self).user_of_connection());
        id
    }

    /// Removes a connection and its binding. Unknown identities are ignored.
    pub fn deregister(&mut self, id: ID)
        requires
            old(self).wf(),
        ensures
            final(self).wf(),
            final(self).sinks() == old(self).sinks().remove(id),
            final(self).user_of_connection() == old(self).user_of_connection().remove(id),
            !old(self).sinks().contains_key(id) ==> {
                &&& final(self).sinks() == old(self).sinks()
                &&& final(self).user_of_connection() == old(self).user_of_connection()
                &&& final(self).connections_of_user() == old(self).connections_of_user()
            },
    {
        proof { self.lemma_directory_invariant(); }
        self.release(id);
        self.connections.remove(&id);
        assert(self.user_of_connection() =~= old(self).user_of_connection().remove(id));
        proof {
            if !old(self).sinks().contains_key(id) {
                assert(self.connections_of_user() =~= old(self).connections_of_user());
            }
        }
    }

    /// Binds a live connection to `user`, releasing any earlier binding.
    pub fn bind_user(&mut self, id: ID, user: UserId) -> (r: Result)
        requires
            old(self).wf(),
        ensures
            final(self).wf(),
            final(self).sinks() == old(self).sinks(),
            r is Ok <==> old(self).sinks().contains_key(id),
            r is Ok ==> final(self).user_of_connection() == old(self).user_of_connection().insert(id, user@),
            r is Err ==> r == Err::<(), Error>(Error::ConnectionNotFound)
                && final(self).user_of_connection() == old(self).user_of_connection(),
    {
        if !self.connections.contains_key(&id) {
            return Err(Error::ConnectionNotFound);
        }
        self.release(id);
        assert forall|i: int| 0 <= i < self.users@.len() implies #[trigger] self.users@[i].connection != id by {}
        self.users_inverse.insert(id, user.clone());
        let ghost before = self.users@;
        self.users.push(Binding { user, connection: id });
        assert forall|c: ID| #[trigger] self.users_inverse@.contains_key(c) implies exists|k: int|
            0 <= k < self.users@.len() && #[trigger] self.users@[k].connection == c by {
            if c == id {
                assert(self.users@[before.len() as int].connection == c);
            } else {
                let j = choose|j: int| 0 <= j < before.len() && #[trigger] before[j].connection == c;
                assert(self.users@[j] == before[j]);
            }
        }
        assert(self.user_of_connection() =~= old(self).user_of_connection().insert(id, user@));
        Ok(())
    }

    /// The sink of a live connection.
    pub fn sink(&self, id: ID) -> (r: Option<&S>)
        ensures
            match r {
                Some(s) => self.sinks().contains_key(id) && *s == self.sinks()[id],
                None => !self.sinks().contains_key(id),
            },
    {
        self.connections.get(&id)
    }

    /// Every live connection of every user in `users`, each listed once:
    /// the connections that a message to those users is delivered to.
    pub fn publish_targets(&self, users: &Vec<UserId>) -> (r: Vec<ID>)
        requires
            self.wf(),
        ensures
            forall|c: ID| r@.contains(c) <==> self.is_target(c, user_views(users@)),
            forall|c: ID| #[trigger] r@.contains(c) <==> exists|k: int|
                0 <= k < users@.len() && self.connections_of_user().contains_key(#[trigger] users@[k]@)
                    && self.connections_of_user()[users@[k]@].contains(c),
            user_views(users@).no_duplicates() ==> r@.no_duplicates(),
    {
        proof { self.lemma_directory_invariant(); }
        let ghost rs = user_views(users@);
        let mut out: Vec<ID> = Vec::new();
        let mut i: usize = 0;
        while i < users.len()
            invariant
                self.wf(),
                rs == user_views(users@),
                i <= users@.len(),
                forall|k: int| 0 <= k < out@.len() ==> {
                    &&& self.users_inverse@.contains_key(#[trigger] out@[k])
                    &&& rs.subrange(0, i as int).contains(self.users_inverse@[out@[k]]@)
                },
                forall|c: ID| #[trigger] self.users_inverse@.contains_key(c)
                    && rs.subrange(0, i as int).contains(self.users_inverse@[c]@) ==> out@.contains(c),
                rs.no_duplicates() ==> out@.no_duplicates(),
            decreases users@.len() - i,
        {
            let ghost base = out@;
            let ghost mut from: Seq<int> = Seq::empty();
            let mut j: usize = 0;
            while j < self.users.len()
                invariant
                    self.wf(),
                    rs == user_views(users@),
                    i < users@.len(),
                    j <= self.users@.len(),
                    out@ == base + from.map_values(|f: int| self.users@[f].connection),
                    forall|k: int| 0 <= k < base.len() ==> {
                        &&& self.users_inverse@.contains_key(#[trigger] base[k])
                        &&& rs.subrange(0, i as int).contains(self.users_inverse@[base[k]]@)
                    },
                    forall|t: int| 0 <= t < from.len() ==> {
                        &&& 0 <= #[trigger] from[t] < j
                        &&& self.users@[from[t]].user@ == rs[i as int]
                    },
                    forall|t: int, u: int| 0 <= t < u < from.len() ==> #[trigger] from[t] < #[trigger] from[u],
                    forall|jj: int| 0 <= jj < j && #[trigger] self.users@[jj].user@ == rs[i as int]
                        ==> from.contains(jj),
                    rs.no_duplicates() ==> base.no_duplicates(),
                decreases self.users@.len() - j,
            {
                assert(rs[i as int] == users@[i as int]@);
                if self.users[j].user == users[i] {
                    let c = self.users[j].connection;
                    out.push(c);
                    proof {
                        let ghost old_from = from;
                        from = from.push(j as int);
                        assert(out@ =~= base + from.map_values(|f: int| self.users@[f].connection));
                        assert forall|jj: int| 0 <= jj < j + 1 && #[trigger] self.users@[jj].user@ == rs[i as int]
                            implies from.contains(jj) by {
                            if jj < j {
                                let t = choose|t: int| 0 <= t < old_from.len() && old_from[t] == jj;
                                assert(from[t] == jj);
                            } else {
                                assert(from[old_from.len() as int] == jj);
                            }
                        }
                    }
                }
                j += 1;
            }
            proof {
                let ghost part = from.map_values(|f: int| self.users@[f].connection);
                if rs.no_duplicates() {
                    assert forall|k: int, l: int| 0 <= k < l < out@.len() implies out@[k] != out@[l] by {
                        if l < base.len() {
                            assert(out@[k] == base[k] && out@[l] == base[l]);
                        } else if k < base.len() {
                            let t = l - base.len();
                            assert(out@[l] == self.users@[from[t]].connection);
                            assert(out@[k] == base[k]);
                            if out@[k] == out@[l] {
                                let m = choose|m: int| 0 <= m < i && #[trigger] rs.subrange(0, i as int)[m]
                                    == self.users_inverse@[base[k]]@;
                                assert(rs[m] == rs[i as int]);
                            }
                        } else {
                            let t = k - base.len();
                            let u = l - base.len();
                            assert(from[t] < from[u]);
                            assert(out@[k] == self.users@[from[t]].connection);
                            assert(out@[l] == self.users@[from[u]].connection);
                        }
                    }
                }
                assert forall|k: int| base.len() <= k < out@.len() implies out@[k] == self.users@[from[k - base.len()]].connection by {}
            }
            proof {
                assert forall|k: int| 0 <= k < out@.len() implies {
                    &&& self.users_inverse@.contains_key(#[trigger] out@[k])
                    &&& rs.subrange(0, i + 1).contains(self.users_inverse@[out@[k]]@)
                } by {
                    if k < base.len() {
                        assert(out@[k] == base[k]);
                        let m = choose|m: int| 0 <= m < i && #[trigger] rs.subrange(0, i as int)[m]
                            == self.users_inverse@[base[k]]@;
                        assert(rs.subrange(0, i + 1)[m] == rs[m]);
                    } else {
                        let t = k - base.len();
                        assert(out@[k] == self.users@[from[t]].connection);
                        assert(rs.subrange(0, i + 1)[i as int] == rs[i as int]);
                    }
                }
                assert forall|c: ID| #[trigger] self.users_inverse@.contains_key(c)
                    && rs.subrange(0, i + 1).contains(self.users_inverse@[c]@) implies out@.contains(c) by {
                    let m = choose|m: int| 0 <= m < i + 1 && #[trigger] rs.subrange(0, i + 1)[m]
                        == self.users_inverse@[c]@;
                    if m < i {
                        assert(rs.subrange(0, i as int)[m] == rs[m]);
                        let k = choose|k: int| 0 <= k < base.len() && base[k] == c;
                        assert(out@[k] == base[k]);
                    } else {
                        let jj = choose|jj: int| 0 <= jj < self.users@.len() && #[trigger] self.users@[jj].connection == c;
                        assert(self.users@[jj].user@ == rs[i as int]);
                        let t = choose|t: int| 0 <= t < from.len() && from[t] == jj;
                        assert(out@[base.len() + t] == c);
                    }
                }
            }
            i += 1;
        }
        assert(rs.subrange(0, users@.len() as int) =~= rs);
        assert forall|c: ID| #[trigger] out@.contains(c) <==> exists|k: int|
            0 <= k < users@.len() && self.connections_of_user().contains_key(#[trigger] users@[k]@)
                && self.connections_of_user()[users@[k]@].contains(c) by {
            if out@.contains(c) {
                let k = choose|k: int| 0 <= k < rs.len() && rs[k] == self.user_of_connection()[c];
                assert(rs[k] == users@[k]@);
            }
            if exists|k: int| 0 <= k < users@.len() && self.connections_of_user().contains_key(#[trigger] users@[k]@)
                && self.connections_of_user()[users@[k]@].contains(c) {
                let k = choose|k: int| 0 <= k < users@.len() && self.connections_of_user().contains_key(#[trigger] users@[k]@)
                    && self.connections_of_user()[users@[k]@].contains(c);
                assert(rs[k] == users@[k]@);
                assert(self.is_target(c, rs));
            }
        }
        out
    }
}

} // verus!
