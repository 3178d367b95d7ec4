//! Game records, the requests that create and amend them, and the
//! field-by-field merge a partial update performs.

use vstd::prelude::*;

verus! {

/// A stored game row.  `user_id` is the owner and never changes.
#[derive(Debug)]
pub struct Game {
    pub id: u128,
    pub user_id: u128,
    pub title: String,
    pub genre: Option<String>,
    pub rating: Option<i32>,
    pub status: String,
    pub notes: Option<String>,
    pub created_at: u64,
    pub updated_at: Option<u64>,
}

/// Copies an optional string, contents and all.
fn duplicate_opt(s: &Option<String>) -> (r: Option<String>)
    ensures
        r == *s,
{
    match s {
        Some(v) => Some(v.clone()),
        None => None,
    }
}

impl Game {
    /// Copies the row, contents and all.
    pub fn duplicate(&self) -> (r: Game)
        ensures
            r == *self,
    {
        Game {
            id: self.id,
            user_id: self.user_id,
            title: self.title.clone(),
            genre: duplicate_opt(&self.genre),
            rating: self.rating,
            status: self.status.clone(),
            notes: duplicate_opt(&self.notes),
            created_at: self.created_at,
            updated_at: self.updated_at,
        }
    }
}

/// The fields of a new game record.
#[derive(Debug)]
pub struct CreateGameRequest {
    pub title: String,
    pub genre: Option<String>,
    pub rating: Option<i32>,
    pub status: String,
    pub notes: Option<String>,
}

/// A partial update: only the fields that are present are replaced, the
/// rest keep their stored values.
#[derive(Debug)]
pub struct UpdateGameRequest {
    pub title: Option<String>,
    pub genre: Option<String>,
    pub rating: Option<i32>,
    pub status: Option<String>,
    pub notes: Option<String>,
}

/// The row a partial update leaves behind: each supplied field replaces
/// the stored one, absent fields keep their stored values, identity and
/// owner and creation time are untouched, and the update time is set.
pub open spec fn spec_merged(game: Game, request: UpdateGameRequest, now: u64) -> Game {
    Game {
        id: game.id,
        user_id: game.user_id,
        title: match request.title {
            Some(t) => t,
            None => game.title,
        },
        genre: match request.genre {
            Some(g) => Some(g),
            None => game.genre,
        },
        rating: match request.rating {
            Some(r) => Some(r),
            None => game.rating,
        },
        status: match request.status {
            Some(s) => s,
            None => game.status,
        },
        notes: match request.notes {
            Some(n) => Some(n),
            None => game.notes,
        },
        created_at: game.created_at,
        updated_at: Some(now),
    }
}

/// Applies a partial update to a copy of `game`, as [`spec_merged`] says.
pub fn merged(game: &Game, request: UpdateGameRequest, now: u64) -> (r: Game)
    ensures
        r == spec_merged(*game, request, now),
{
    Game {
        id: game.id,
        user_id: game.user_id,
        title: match request.title {
            Some(t) => t,
            None => game.title.clone(),
        },
        genre: match request.genre {
            Some(g) => Some(g),
            None => duplicate_opt(&game.genre),
        },
        rating: match request.rating {
            Some(r) => Some(r),
            None => game.rating,
        },
        status: match request.status {
            Some(s) => s,
            None => game.status.clone(),
        },
        notes: match request.notes {
            Some(n) => Some(n),
            None => duplicate_opt(&game.notes),
        },
        created_at: game.created_at,
        updated_at: Some(now),
    }
}

} // verus!
