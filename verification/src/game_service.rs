//! The game-record operations, each scoped by the acting user: what the
//! API layer calls after it has authenticated a request.

use vstd::prelude::*;

use crate::game_type::{spec_merged, CreateGameRequest, Game, UpdateGameRequest};
use crate::store::{game_present, owned_games, sorted_newest_first, times_nondecreasing, Store};

verus! {

pub struct GameService;

impl GameService {
    /// Creates a game owned by `user_id`.
    pub fn create(store: &mut Store, user_id: u128, request: CreateGameRequest, now: u64) -> (r:
        Game)
        requires
            old(store).inv(),
            old(store).next_game_id < u128::MAX,
        ensures
            final(store).inv(),
            final(store).users@ == old(store).users@,
            final(store).next_user_id == old(store).next_user_id,
            r.id == old(store).next_game_id,
            r.user_id == user_id,
            r.title == request.title,
            r.genre == request.genre,
            r.rating == request.rating,
            r.status == request.status,
            r.notes == request.notes,
            r.created_at == now,
            r.updated_at is None,
            final(store).games@ == old(store).games@.push(r),
            final(store).next_game_id == old(store).next_game_id + 1,
    {
        store.create_game(user_id, request, now)
    }

    /// All games of `user_id`, newest insertion first; when creation
    /// times are nondecreasing in insertion order, that is creation
    /// time descending.
    pub fn get_all_by_user(store: &Store, user_id: u128) -> (r: Vec<Game>)
        ensures
            r@ == owned_games(store.games@, user_id),
            times_nondecreasing(store.games@) ==> sorted_newest_first(r@),
    {
        store.find_all_games_by_user(user_id)
    }

    /// The game with this identifier, if it belongs to `user_id`; a
    /// record of another owner is indistinguishable from none at all.
    pub fn get_by_id(store: &Store, id: u128, user_id: u128) -> (r: Option<Game>)
        ensures
            r matches Some(g) ==> exists|i: int|
                0 <= i < store.games@.len() && #[trigger] store.games@[i] == g && g.id == id
                    && g.user_id == user_id,
            r is None ==> !game_present(store.games@, id, user_id),
    {
        match store.find_game_by_id(id, user_id) {
            Some(g) => Some(g.duplicate()),
            None => None,
        }
    }

    /// Applies a partial update to the game with this identifier, if it
    /// belongs to `user_id`, and returns the merged record.
    pub fn update(
        store: &mut Store,
        id: u128,
        user_id: u128,
        request: UpdateGameRequest,
        now: u64,
    ) -> (r: Option<Game>)
        requires
            old(store).inv(),
        ensures
            final(store).inv(),
            final(store).users@ == old(store).users@,
            final(store).next_user_id == old(store).next_user_id,
            final(store).next_game_id == old(store).next_game_id,
            r is None ==> !game_present(old(store).games@, id, user_id) && *final(store) == *old(
                store,
            ),
            r matches Some(g) ==> exists|i: int|
                #![auto]
                0 <= i < old(store).games@.len() && old(store).games@[i].id == id && old(
                    store,
                ).games@[i].user_id == user_id && g == spec_merged(
                    old(store).games@[i],
                    request,
                    now,
                ) && final(store).games@ == old(store).games@.update(i, g),
    {
        store.update_game(id, user_id, request, now)
    }

    /// Deletes the game with this identifier, if it belongs to
    /// `user_id`; reports whether a record went away.
    pub fn delete(store: &mut Store, id: u128, user_id: u128) -> (r: bool)
        requires
            old(store).inv(),
        ensures
            final(store).inv(),
            final(store).users@ == old(store).users@,
            final(store).next_user_id == old(store).next_user_id,
            final(store).next_game_id == old(store).next_game_id,
            r == game_present(old(store).games@, id, user_id),
            !r ==> *final(store) == *old(store),
            r ==> exists|i: int|
                #![auto]
                0 <= i < old(store).games@.len() && old(store).games@[i].id == id && old(
                    store,
                ).games@[i].user_id == user_id && final(store).games@ == old(store).games@.remove(
                    i,
                ),
    {
        store.delete_game(id, user_id)
    }
}

} // verus!
