use pixel_astral_backend::game_service::GameService;
use pixel_astral_backend::game_type::{CreateGameRequest, UpdateGameRequest};
use pixel_astral_backend::store::Store;
use pixel_astral_backend::token::verify_token_at;
use pixel_astral_backend::user_service::{AuthError, UserService};
use pixel_astral_backend::user_type::{CreateUserRequest, LoginRequest};

const SECRET: &[u8] = b"SECRET-REDACTED";
const WEEK: u64 = 7 * 24 * 60 * 60;
const NOW: u64 = 1_700_000_000;

fn signup_req(email: &str, password: &str) -> CreateUserRequest {
    CreateUserRequest { email: email.to_string(), password: password.to_string() }
}

fn login_req(email: &str, password: &str) -> LoginRequest {
    LoginRequest { email: email.to_string(), password: password.to_string() }
}

fn game_req(title: &str, status: &str) -> CreateGameRequest {
    CreateGameRequest {
        title: title.to_string(),
        genre: None,
        rating: None,
        status: status.to_string(),
        notes: None,
    }
}

#[test]
fn signup_returns_a_token_for_the_new_user() {
    let mut store = Store::new();
    let resp = UserService::signup(&mut store, signup_req("a@x.com", "pw1"), NOW, SECRET, WEEK)
        .unwrap();
    assert_eq!(resp.user.email, "a@x.com");
    assert_eq!(resp.user.created_at, NOW);
    assert_eq!(verify_token_at(&resp.token, SECRET, NOW), Ok(resp.user.id));
    assert_eq!(store.users.len(), 1);
}

#[test]
fn signup_with_a_taken_email_fails_and_adds_no_row() {
    let mut store = Store::new();
    UserService::signup(&mut store, signup_req("a@x.com", "pw1"), NOW, SECRET, WEEK).unwrap();
    let before = store.users.len();
    let r = UserService::signup(&mut store, signup_req("a@x.com", "pw2"), NOW, SECRET, WEEK);
    assert_eq!(r.unwrap_err(), AuthError::DuplicateEmail);
    assert_eq!(store.users.len(), before);
}

#[test]
fn login_succeeds_with_the_right_password() {
    let mut store = Store::new();
    let signup = UserService::signup(&mut store, signup_req("a@x.com", "pw1"), NOW, SECRET, WEEK)
        .unwrap();
    let resp = UserService::login(&store, login_req("a@x.com", "pw1"), NOW, SECRET, WEEK).unwrap();
    assert_eq!(resp.user.id, signup.user.id);
    assert_eq!(verify_token_at(&resp.token, SECRET, NOW), Ok(signup.user.id));
}

#[test]
fn wrong_password_and_unknown_email_fail_identically() {
    let mut store = Store::new();
    UserService::signup(&mut store, signup_req("a@x.com", "pw1"), NOW, SECRET, WEEK).unwrap();
    let wrong_password = UserService::login(&store, login_req("a@x.com", "pw2"), NOW, SECRET, WEEK)
        .unwrap_err();
    let unknown_email = UserService::login(&store, login_req("b@x.com", "pw1"), NOW, SECRET, WEEK)
        .unwrap_err();
    assert_eq!(wrong_password, AuthError::InvalidCredentials);
    assert_eq!(unknown_email, AuthError::InvalidCredentials);
    assert_eq!(wrong_password, unknown_email);
}

#[test]
fn login_with_a_corrupt_stored_digest_is_not_a_credential_error() {
    let mut store = Store::new();
    store
        .create_user("a@x.com".to_string(), "not a digest".to_string(), NOW)
        .unwrap();
    let r = UserService::login(&store, login_req("a@x.com", "pw1"), NOW, SECRET, WEEK);
    assert_eq!(r.unwrap_err(), AuthError::HashFailure);
}

#[test]
fn get_user_returns_the_projection_or_not_found() {
    let mut store = Store::new();
    let resp = UserService::signup(&mut store, signup_req("a@x.com", "pw1"), NOW, SECRET, WEEK)
        .unwrap();
    let found = UserService::get_user(&store, resp.user.id).unwrap();
    assert_eq!(found.id, resp.user.id);
    assert_eq!(found.email, "a@x.com");
    assert_eq!(
        UserService::get_user(&store, resp.user.id + 1).unwrap_err(),
        AuthError::NotFound
    );
}

#[test]
fn a_game_of_one_user_is_invisible_to_another() {
    let mut store = Store::new();
    let a: u128 = 1;
    let b: u128 = 2;
    let game = GameService::create(&mut store, a, game_req("Outer Wilds", "Playing"), NOW);
    assert!(GameService::get_by_id(&store, game.id, a).is_some());
    assert!(GameService::get_by_id(&store, game.id, b).is_none());
    assert!(!GameService::delete(&mut store, game.id, b));
    // Still there for its owner after the foreign delete attempt.
    assert!(GameService::get_by_id(&store, game.id, a).is_some());
    assert!(GameService::update(&mut store, game.id, b, UpdateGameRequest {
        title: None,
        genre: None,
        rating: Some(5),
        status: None,
        notes: None,
    }, NOW).is_none());
    assert!(GameService::delete(&mut store, game.id, a));
    assert!(GameService::get_by_id(&store, game.id, a).is_none());
}

#[test]
fn partial_update_merges_field_by_field() {
    let mut store = Store::new();
    let a: u128 = 1;
    let mut req = game_req("Chrono Trigger", "Playing");
    req.genre = Some("RPG".to_string());
    let game = GameService::create(&mut store, a, req, NOW);
    assert_eq!(game.updated_at, None);
    let updated = GameService::update(&mut store, game.id, a, UpdateGameRequest {
        title: None,
        genre: None,
        rating: Some(10),
        status: Some("Completed".to_string()),
        notes: None,
    }, NOW + 5)
    .unwrap();
    assert_eq!(updated.title, "Chrono Trigger");
    assert_eq!(updated.genre.as_deref(), Some("RPG"));
    assert_eq!(updated.rating, Some(10));
    assert_eq!(updated.status, "Completed");
    assert_eq!(updated.notes, None);
    assert_eq!(updated.created_at, NOW);
    assert_eq!(updated.updated_at, Some(NOW + 5));
    let fetched = GameService::get_by_id(&store, game.id, a).unwrap();
    assert_eq!(fetched.status, "Completed");
}

#[test]
fn listing_returns_only_the_owners_games_newest_first() {
    let mut store = Store::new();
    let a: u128 = 1;
    let b: u128 = 2;
    let first = GameService::create(&mut store, a, game_req("Ico", "Completed"), NOW);
    let _other = GameService::create(&mut store, b, game_req("Okami", "Playing"), NOW + 1);
    let second = GameService::create(&mut store, a, game_req("Journey", "Playing"), NOW + 2);
    let games = GameService::get_all_by_user(&store, a);
    assert_eq!(games.len(), 2);
    assert_eq!(games[0].id, second.id);
    assert_eq!(games[1].id, first.id);
}

#[test]
fn end_to_end_two_users_and_one_game() {
    let mut store = Store::new();
    let signup_a = UserService::signup(&mut store, signup_req("a@x.com", "pw1"), NOW, SECRET, WEEK)
        .unwrap();
    let a = verify_token_at(&signup_a.token, SECRET, NOW).unwrap();
    let record = GameService::create(&mut store, a, game_req("Chrono Trigger", "Completed"), NOW);
    let found = GameService::get_by_id(&store, record.id, a).unwrap();
    assert_eq!(found.id, record.id);
    assert_eq!(found.title, "Chrono Trigger");
    assert_eq!(found.status, "Completed");
    assert_eq!(found.user_id, a);
    let signup_b = UserService::signup(&mut store, signup_req("b@x.com", "pw2"), NOW, SECRET, WEEK)
        .unwrap();
    let b = verify_token_at(&signup_b.token, SECRET, NOW).unwrap();
    assert_ne!(a, b);
    assert!(GameService::get_by_id(&store, record.id, b).is_none());
    assert_eq!(GameService::get_all_by_user(&store, b).len(), 0);
}
