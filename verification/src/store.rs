//! The persistent-store model: user and game rows with the invariants a
//! real store would enforce — unique identifiers, unique emails — and
//! the ownership-scoping rule on every game operation.
//!
//! Every game read, update and delete is filtered by record id and owner
//! id together in the same lookup, never as a separate check after the
//! fetch, so a record of one user behaves as nonexistent to every other
//! user.

use vstd::prelude::*;

use crate::game_type::{merged, spec_merged, CreateGameRequest, Game, UpdateGameRequest};
use crate::user_type::User;

verus! {

/// Signup rejected: the store already holds a user with that email.
#[derive(Clone, Copy, Debug, PartialEq, Eq, Structural)]
pub struct DuplicateEmailError;

/// Some user row carries this email.
pub open spec fn email_taken(users: Seq<User>, email: Seq<char>) -> bool {
    exists|i: int| 0 <= i < users.len() && #[trigger] users[i].email@ == email
}

/// Some user row carries this identifier.
pub open spec fn user_id_present(users: Seq<User>, id: u128) -> bool {
    exists|i: int| 0 <= i < users.len() && #[trigger] users[i].id == id
}

/// Some game row carries this identifier and belongs to this owner.
pub open spec fn game_present(games: Seq<Game>, id: u128, owner: u128) -> bool {
    exists|i: int| #![auto] 0 <= i < games.len() && games[i].id == id && games[i].user_id == owner
}

/// The games of one owner, newest insertion first.
pub open spec fn owned_games(games: Seq<Game>, owner: u128) -> Seq<Game>
    decreases games.len(),
{
    if games.len() == 0 {
        Seq::empty()
    } else {
        let rest = owned_games(games.drop_last(), owner);
        if games.last().user_id == owner {
            seq![games.last()] + rest
        } else {
            rest
        }
    }
}

/// Creation times never decrease along the insertion order, as a
/// durable store's own clock would stamp them.
pub open spec fn times_nondecreasing(games: Seq<Game>) -> bool {
    forall|i: int, j: int|
        0 <= i <= j < games.len() ==> #[trigger] games[i].created_at <= #[trigger] games[j].created_at
}

/// Newest first: creation times never increase along the listing.
pub open spec fn sorted_newest_first(games: Seq<Game>) -> bool {
    forall|i: int, j: int|
        0 <= i <= j < games.len() ==> #[trigger] games[i].created_at >= #[trigger] games[j].created_at
}

/// When creation times are nondecreasing in insertion order, one
/// owner's listing — newest insertion first — is ordered by creation
/// time descending, the order the original store promised.
pub proof fn lemma_owned_games_sorted(games: Seq<Game>, owner: u128)
    requires
        times_nondecreasing(games),
    ensures
        sorted_newest_first(owned_games(games, owner)),
        games.len() > 0 ==> forall|k: int|
            0 <= k < owned_games(games, owner).len() ==> #[trigger] owned_games(
                games,
                owner,
            )[k].created_at <= games.last().created_at,
    decreases games.len(),
{
    if games.len() > 0 {
        let prefix = games.drop_last();
        assert forall|i: int, j: int|
            0 <= i <= j < prefix.len() implies #[trigger] prefix[i].created_at
            <= #[trigger] prefix[j].created_at by {
            assert(prefix[i] == games[i]);
            assert(prefix[j] == games[j]);
        }
        lemma_owned_games_sorted(prefix, owner);
        let rest = owned_games(prefix, owner);
        assert forall|k: int|
            0 <= k < rest.len() implies #[trigger] rest[k].created_at
            <= games.last().created_at by {
            assert(prefix.len() > 0);
            assert(prefix.last() == games[games.len() - 2]);
            assert(prefix.last().created_at <= games.last().created_at);
        }
        let res = owned_games(games, owner);
        if games.last().user_id == owner {
            assert(res == seq![games.last()] + rest);
            assert(res[0] == games.last());
            assert forall|k: int| 1 <= k < res.len() implies #[trigger] res[k] == rest[k - 1] by {
            }
            assert forall|i: int, j: int|
                0 <= i <= j < res.len() implies #[trigger] res[i].created_at
                >= #[trigger] res[j].created_at by {
                if 1 <= i {
                    assert(res[i] == rest[i - 1]);
                    assert(res[j] == rest[j - 1]);
                } else if 1 <= j {
                    assert(res[j] == rest[j - 1]);
                    assert(rest[j - 1].created_at <= games.last().created_at);
                }
            }
        } else {
            assert(res == rest);
        }
    }
}

/// An in-memory store with the shape of the durable one: rows keyed by
/// identifiers it assigns itself, emails unique across users.
pub struct Store {
    pub users: Vec<User>,
    pub games: Vec<Game>,
    pub next_user_id: u128,
    pub next_game_id: u128,
}

impl Store {
    /// Well-formedness: identifiers are unique and below their counters,
    /// and no two users share an email.
    pub open spec fn inv(&self) -> bool {
        &&& forall|i: int|
            0 <= i < self.users@.len() ==> #[trigger] self.users@[i].id < self.next_user_id
        &&& forall|i: int, j: int|
            0 <= i < j < self.users@.len() ==> #[trigger] self.users@[i].email@
                != #[trigger] self.users@[j].email@
        &&& forall|i: int, j: int|
            0 <= i < j < self.users@.len() ==> #[trigger] self.users@[i].id
                != #[trigger] self.users@[j].id
        &&& forall|i: int|
            0 <= i < self.games@.len() ==> #[trigger] self.games@[i].id < self.next_game_id
        &&& forall|i: int, j: int|
            0 <= i < j < self.games@.len() ==> #[trigger] self.games@[i].id
                != #[trigger] self.games@[j].id
    }

    /// An empty store.
    pub fn new() -> (r: Store)
        ensures
            r.inv(),
            r.users@ == Seq::<User>::empty(),
            r.games@ == Seq::<Game>::empty(),
    {
        Store { users: Vec::new(), games: Vec::new(), next_user_id: 0, next_game_id: 0 }
    }

    /// Inserts a new user unless the email is already taken; the store's
    /// uniqueness rule decides at insertion time, not by a separate
    /// earlier check.
    pub fn create_user(&mut self, email: String, password_hash: String, now: u64) -> (r: Result<
        User,
        DuplicateEmailError,
    >)
        requires
            old(self).inv(),
            old(self).next_user_id < u128::MAX,
        ensures
            final(self).inv(),
            final(self).games@ == old(self).games@,
            final(self).next_game_id == old(self).next_game_id,
            r is Err <==> email_taken(old(self).users@, email@),
            r is Err ==> *final(self) == *old(self),
            r matches Ok(u) ==> {
                &&& u.id == old(self).next_user_id
                &&& u.email == email
                &&& u.password_hash == password_hash
                &&& u.created_at == now
                &&& u.updated_at is None
                &&& final(self).users@ == old(self).users@.push(u)
                &&& final(self).next_user_id == old(self).next_user_id + 1
            },
    {
        let mut i: usize = 0;
        while i < self.users.len()
            invariant
                0 <= i <= self.users@.len(),
                self.inv(),
                *self == *old(self),
                forall|j: int| 0 <= j < i ==> #[trigger] self.users@[j].email@ != email@,
            decreases self.users@.len() - i,
        {
            if self.users[i].email == email {
                return Err(DuplicateEmailError);
            }
            i = i + 1;
        }
        let user = User {
            id: self.next_user_id,
            email,
            password_hash,
            created_at: now,
            updated_at: None,
        };
        let copy = user.duplicate();
        self.users.push(user);
        self.next_user_id = self.next_user_id + 1;
        proof {
            let prev = old(self).users@;
            let cur = self.users@;
            assert(cur == prev.push(copy));
            assert forall|a: int| 0 <= a < cur.len() implies #[trigger] cur[a].id
                < self.next_user_id by {
                if a < prev.len() {
                    assert(cur[a] == prev[a]);
                }
            }
            assert forall|a: int, b: int| 0 <= a < b < cur.len() implies #[trigger] cur[a].email@
                != #[trigger] cur[b].email@ by {
                if b < prev.len() {
                    assert(cur[a] == prev[a] && cur[b] == prev[b]);
                } else {
                    assert(cur[a] == prev[a] && cur[b] == copy);
                }
            }
            assert forall|a: int, b: int| 0 <= a < b < cur.len() implies #[trigger] cur[a].id
                != #[trigger] cur[b].id by {
                if b < prev.len() {
                    assert(cur[a] == prev[a] && cur[b] == prev[b]);
                } else {
                    assert(cur[a] == prev[a] && cur[b] == copy);
                }
            }
        }
        Ok(copy)
    }

    /// Looks a user up by email.
    pub fn find_user_by_email(&self, email: &String) -> (r: Option<&User>)
        ensures
            r matches Some(u) ==> exists|i: int|
                0 <= i < self.users@.len() && #[trigger] self.users@[i] == *u && u.email@
                    == email@,
            r is None ==> !email_taken(self.users@, email@),
    {
        let mut i: usize = 0;
        while i < self.users.len()
            invariant
                0 <= i <= self.users@.len(),
                forall|j: int| 0 <= j < i ==> #[trigger] self.users@[j].email@ != email@,
            decreases self.users@.len() - i,
        {
            if self.users[i].email == *email {
                return Some(&self.users[i]);
            }
            i = i + 1;
        }
        None
    }

    /// Looks a user up by identifier.
    pub fn find_user_by_id(&self, user_id: u128) -> (r: Option<&User>)
        ensures
            r matches Some(u) ==> exists|i: int|
                0 <= i < self.users@.len() && #[trigger] self.users@[i] == *u && u.id == user_id,
            r is None ==> !user_id_present(self.users@, user_id),
    {
        let mut i: usize = 0;
        while i < self.users.len()
            invariant
                0 <= i <= self.users@.len(),
                forall|j: int| 0 <= j < i ==> #[trigger] self.users@[j].id != user_id,
            decreases self.users@.len() - i,
        {
            if self.users[i].id == user_id {
                return Some(&self.users[i]);
            }
            i = i + 1;
        }
        None
    }

    /// Inserts a new game owned by `user_id`, with the requested fields
    /// and a fresh identifier.
    pub fn create_game(&mut self, user_id: u128, request: CreateGameRequest, now: u64) -> (r: Game)
        requires
            old(self).inv(),
            old(self).next_game_id < u128::MAX,
        ensures
            final(self).inv(),
            final(self).users@ == old(self).users@,
            final(self).next_user_id == old(self).next_user_id,
            r.id == old(self).next_game_id,
            r.user_id == user_id,
            r.title == request.title,
            r.genre == request.genre,
            r.rating == request.rating,
            r.status == request.status,
            r.notes == request.notes,
            r.created_at == now,
            r.updated_at is None,
            final(self).games@ == old(self).games@.push(r),
            final(self).next_game_id == old(self).next_game_id + 1,
    {
        let game = Game {
            id: self.next_game_id,
            user_id,
            title: request.title,
            genre: request.genre,
            rating: request.rating,
            status: request.status,
            notes: request.notes,
            created_at: now,
            updated_at: None,
        };
        let copy = game.duplicate();
        self.games.push(game);
        self.next_game_id = self.next_game_id + 1;
        copy
    }

    /// All games of one owner, newest insertion first; when creation
    /// times are nondecreasing in insertion order, that is creation
    /// time descending.
    pub fn find_all_games_by_user(&self, user_id: u128) -> (r: Vec<Game>)
        ensures
            r@ == owned_games(self.games@, user_id),
            times_nondecreasing(self.games@) ==> sorted_newest_first(r@),
    {
        let mut r: Vec<Game> = Vec::new();
        let mut j: usize = self.games.len();
        proof {
            assert(self.games@.take(j as int) =~= self.games@);
        }
        while j > 0
            invariant
                0 <= j <= self.games@.len(),
                owned_games(self.games@, user_id) == r@ + owned_games(
                    self.games@.take(j as int),
                    user_id,
                ),
            decreases j,
        {
            proof {
                assert(self.games@.take(j as int).drop_last() =~= self.games@.take(j as int - 1));
                assert(self.games@.take(j as int).last() == self.games@[j as int - 1]);
            }
            let g = &self.games[j - 1];
            if g.user_id == user_id {
                let ghost prev = r@;
                r.push(g.duplicate());
                proof {
                    assert(prev + (seq![self.games@[j as int - 1]] + owned_games(
                        self.games@.take(j as int - 1),
                        user_id,
                    )) =~= r@ + owned_games(self.games@.take(j as int - 1), user_id));
                }
            }
            j = j - 1;
        }
        proof {
            assert(self.games@.take(0) =~= Seq::<Game>::empty());
            assert(r@ + owned_games(self.games@.take(0), user_id) =~= r@);
            if times_nondecreasing(self.games@) {
                lemma_owned_games_sorted(self.games@, user_id);
            }
        }
        r
    }

    /// Looks a game up by identifier and owner together: a record of
    /// another owner is as good as absent.
    pub fn find_game_by_id(&self, id: u128, user_id: u128) -> (r: Option<&Game>)
        ensures
            r matches Some(g) ==> exists|i: int|
                0 <= i < self.games@.len() && #[trigger] self.games@[i] == *g && g.id == id
                    && g.user_id == user_id,
            r is None ==> !game_present(self.games@, id, user_id),
    {
        let mut i: usize = 0;
        while i < self.games.len()
            invariant
                0 <= i <= self.games@.len(),
                forall|j: int|
                    #![auto]
                    0 <= j < i ==> !(self.games@[j].id == id && self.games@[j].user_id == user_id),
            decreases self.games@.len() - i,
        {
            if self.games[i].id == id && self.games[i].user_id == user_id {
                return Some(&self.games[i]);
            }
            i = i + 1;
        }
        None
    }

    /// Merges a partial update into the game with this identifier and
    /// owner, if there is one, and returns the merged row.
    pub fn update_game(&mut self, id: u128, user_id: u128, request: UpdateGameRequest, now: u64) -> (r:
        Option<Game>)
        requires
            old(self).inv(),
        ensures
            final(self).inv(),
            final(self).users@ == old(self).users@,
            final(self).next_user_id == old(self).next_user_id,
            final(self).next_game_id == old(self).next_game_id,
            r is None ==> !game_present(old(self).games@, id, user_id) && *final(self) == *old(
                self,
            ),
            r matches Some(g) ==> exists|i: int|
                #![auto]
                0 <= i < old(self).games@.len() && old(self).games@[i].id == id && old(
                    self,
                ).games@[i].user_id == user_id && g == spec_merged(old(self).games@[i], request, now)
                    && final(self).games@ == old(self).games@.update(i, g),
    {
        let mut i: usize = 0;
        while i < self.games.len()
            invariant
                0 <= i <= self.games@.len(),
                self.inv(),
                *self == *old(self),
                forall|j: int|
                    #![auto]
                    0 <= j < i ==> !(self.games@[j].id == id && self.games@[j].user_id == user_id),
            decreases self.games@.len() - i,
        {
            if self.games[i].id == id && self.games[i].user_id == user_id {
                let m = merged(&self.games[i], request, now);
                let copy = m.duplicate();
                let ghost before = self.games@;
                self.games.remove(i);
                self.games.insert(i, m);
                proof {
                    assert(self.games@ =~= before.update(i as int, copy));
                    let cur = self.games@;
                    assert forall|a: int| 0 <= a < cur.len() implies #[trigger] cur[a].id
                        < self.next_game_id by {
                        assert(cur[a].id == before[a].id);
                    }
                    assert forall|a: int, b: int| 0 <= a < b < cur.len() implies #[trigger] cur[a].id
                        != #[trigger] cur[b].id by {
                        assert(cur[a].id == before[a].id && cur[b].id == before[b].id);
                    }
                }
                return Some(copy);
            }
            i = i + 1;
        }
        None
    }

    /// Deletes the game with this identifier and owner, if there is one;
    /// reports whether a row went away.
    pub fn delete_game(&mut self, id: u128, user_id: u128) -> (r: bool)
        requires
            old(self).inv(),
        ensures
            final(self).inv(),
            final(self).users@ == old(self).users@,
            final(self).next_user_id == old(self).next_user_id,
            final(self).next_game_id == old(self).next_game_id,
            r == game_present(old(self).games@, id, user_id),
            !r ==> *final(self) == *old(self),
            r ==> exists|i: int|
                #![auto]
                0 <= i < old(self).games@.len() && old(self).games@[i].id == id && old(
                    self,
                ).games@[i].user_id == user_id && final(self).games@ == old(self).games@.remove(i),
    {
        let mut i: usize = 0;
        while i < self.games.len()
            invariant
                0 <= i <= self.games@.len(),
                self.inv(),
                *self == *old(self),
                forall|j: int|
                    #![auto]
                    0 <= j < i ==> !(self.games@[j].id == id && self.games@[j].user_id == user_id),
            decreases self.games@.len() - i,
        {
            if self.games[i].id == id && self.games[i].user_id == user_id {
                let ghost before = self.games@;
                self.games.remove(i);
                proof {
                    let cur = self.games@;
                    assert(cur == before.remove(i as int));
                    assert forall|a: int| 0 <= a < cur.len() implies #[trigger] cur[a].id
                        < self.next_game_id by {
                        if a < i {
                            assert(cur[a] == before[a]);
                        } else {
                            assert(cur[a] == before[a + 1]);
                        }
                    }
                    assert forall|a: int, b: int| 0 <= a < b < cur.len() implies #[trigger] cur[a].id
                        != #[trigger] cur[b].id by {
                        if b < i {
                            assert(cur[a] == before[a] && cur[b] == before[b]);
                        } else if a < i {
                            assert(cur[a] == before[a] && cur[b] == before[b + 1]);
                        } else {
                            assert(cur[a] == before[a + 1] && cur[b] == before[b + 1]);
                        }
                    }
                }
                return true;
            }
            i = i + 1;
        }
        false
    }
}

/// The ownership guard: when one user owns the record with a given
/// identifier, a lookup of that identifier scoped to any other user
/// finds nothing — so reads, updates and deletes by a non-owner behave
/// exactly as on a record that does not exist.
pub proof fn lemma_ownership_scoping(s: Store, id: u128, owner: u128, other: u128)
    requires
        s.inv(),
        game_present(s.games@, id, owner),
        other != owner,
    ensures
        !game_present(s.games@, id, other),
{
    let i = choose|i: int|
        #![auto]
        0 <= i < s.games@.len() && s.games@[i].id == id && s.games@[i].user_id == owner;
    if game_present(s.games@, id, other) {
        let j = choose|j: int|
            #![auto]
            0 <= j < s.games@.len() && s.games@[j].id == id && s.games@[j].user_id == other;
        assert(i != j);
        if i < j {
            assert(s.games@[i].id != s.games@[j].id);
        } else {
            assert(s.games@[j].id != s.games@[i].id);
        }
    }
}

} // verus!
