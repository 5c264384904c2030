use std::collections::HashMap;
use std::io::Cursor;

use backend_auth::flow::{
    begin_login, begin_logout, begin_profile_image, begin_register, begin_validate,
    profile_image_path, step, Action, Outcome, Reply, Stage, Step,
};
use backend_auth::model::{build_response, is_dispatcher, AppError, Dispatcher, Session, User};
use backend_auth::picture::resize_profile_image;
use backend_auth::AuthService;

#[derive(Debug, Default)]
struct MemoryRepo {
    users: Vec<User>,
    dispatchers: Vec<Dispatcher>,
    sessions: Vec<Session>,
    image_names: HashMap<i32, String>,
    image_files: HashMap<String, Vec<u8>>,
    writes: usize,
    tokens_issued: usize,
}

impl MemoryRepo {
    fn find_user(&self, username: &str) -> Option<User> {
        self.users.iter().find(|u| u.username == username).cloned()
    }

    fn perform(&mut self, action: Action) -> Result<Reply, AppError> {
        match action {
            Action::FindUserAndHashPassword { username, password } => {
                Ok(Reply::UserAndHash(self.find_user(&username), format!("hashed:{}", password)))
            }
            Action::CreateUser { username, password, role } => {
                self.writes += 1;
                let id = self.users.len() as i32 + 1;
                self.users.push(User { id, username, password, role });
                Ok(Reply::Written)
            }
            Action::GenerateSessionToken => {
                self.tokens_issued += 1;
                Ok(Reply::Token(format!("token-{}", self.tokens_issued)))
            }
            Action::FindUserByUsername { username } => Ok(Reply::User(self.find_user(&username))),
            Action::CreateSession { user_id, session_token } => {
                self.writes += 1;
                self.sessions.push(Session { user_id, session_token, is_valid: true });
                Ok(Reply::Written)
            }
            Action::CreateDispatcher { user_id, area_id } => {
                self.writes += 1;
                let id = self.dispatchers.len() as i32 + 100;
                self.dispatchers.push(Dispatcher { id, user_id, area_id });
                Ok(Reply::Written)
            }
            Action::FindDispatcherByUserId { user_id } => Ok(Reply::Dispatcher(
                self.dispatchers.iter().find(|d| d.user_id == user_id).copied(),
            )),
            Action::VerifyPassword { hash, password } => {
                Ok(Reply::PasswordValid(hash == format!("hashed:{}", password)))
            }
            Action::DeleteSession { session_token } => {
                self.writes += 1;
                self.sessions.retain(|s| s.session_token != session_token);
                Ok(Reply::Written)
            }
            Action::FindSessionBySessionToken { session_token } => self
                .sessions
                .iter()
                .find(|s| s.session_token == session_token)
                .cloned()
                .map(Reply::Session)
                .ok_or(AppError::NotFound),
            Action::FindProfileImageName { user_id } => {
                Ok(Reply::ImageName(self.image_names.get(&user_id).cloned()))
            }
            Action::ResizeImage { path, width, height } => {
                let data = self.image_files.get(&path).ok_or(AppError::InternalServerError)?;
                resize_profile_image(data, width, height).map(Reply::Image)
            }
        }
    }

    fn run(&mut self, first: Step) -> Result<Outcome, AppError> {
        let mut current = first;
        loop {
            match current {
                Step::Finish(r) => return r,
                Step::Perform(action, stage) => {
                    let outcome = self.perform(action);
                    current = step(stage, outcome);
                }
            }
        }
    }
}

fn response(r: Result<Outcome, AppError>) -> backend_auth::model::LoginResponseDto {
    match r {
        Ok(Outcome::Response(resp)) => resp,
        other => panic!("expected a response, got {:?}", other),
    }
}

fn png_of(width: u32, height: u32) -> Vec<u8> {
    let img = image::DynamicImage::ImageRgb8(image::RgbImage::new(width, height));
    let mut buffer = Vec::new();
    img.write_to(&mut Cursor::new(&mut buffer), image::ImageOutputFormat::Png).unwrap();
    buffer
}

#[test]
fn plain_user_registers_then_duplicate_conflicts() {
    let mut repo = MemoryRepo::default();
    let resp = response(repo.run(begin_register("alice", "pw123", "user", None)));
    assert_eq!(resp.username, "alice");
    assert_eq!(resp.role, "user");
    assert_eq!(resp.dispatcher_id, None);
    assert_eq!(resp.area_id, None);
    assert_eq!(resp.session_token, "token-1");
    assert_eq!(repo.users[0].password, "hashed:pw123");
    let again = repo.run(begin_register("alice", "other", "user", None));
    assert!(matches!(again, Err(AppError::Conflict)));
}

#[test]
fn dispatcher_registers_and_logs_in_with_same_area() {
    let mut repo = MemoryRepo::default();
    let reg = response(repo.run(begin_register("bob", "pw123", "dispatcher", Some(7))));
    assert_eq!(reg.area_id, Some(7));
    assert_eq!(reg.dispatcher_id, Some(100));
    let login = response(repo.run(begin_login("bob", "pw123")));
    assert_eq!(login.area_id, Some(7));
    assert_eq!(login.dispatcher_id, Some(100));
    assert_eq!(login.user_id, reg.user_id);
    assert_ne!(login.session_token, reg.session_token);
    assert_eq!(repo.sessions.len(), 2);
}

#[test]
fn dispatcher_without_area_is_bad_request_without_writes() {
    let mut repo = MemoryRepo::default();
    let first = begin_register("carol", "pw", "dispatcher", None);
    assert!(matches!(first, Step::Finish(Err(AppError::BadRequest))));
    assert!(matches!(repo.run(first), Err(AppError::BadRequest)));
    assert_eq!(repo.writes, 0);
    assert!(repo.users.is_empty());
}

#[test]
fn taken_username_creates_nothing() {
    let mut repo = MemoryRepo::default();
    repo.run(begin_register("dave", "pw", "dispatcher", Some(3))).unwrap();
    let writes = repo.writes;
    let (users, sessions, dispatchers) =
        (repo.users.len(), repo.sessions.len(), repo.dispatchers.len());
    let again = repo.run(begin_register("dave", "pw", "dispatcher", Some(4)));
    assert!(matches!(again, Err(AppError::Conflict)));
    assert_eq!(repo.writes, writes);
    assert_eq!(repo.users.len(), users);
    assert_eq!(repo.sessions.len(), sessions);
    assert_eq!(repo.dispatchers.len(), dispatchers);
}

#[test]
fn login_failures_are_unauthorized() {
    let mut repo = MemoryRepo::default();
    repo.run(begin_register("erin", "right", "user", None)).unwrap();
    assert!(matches!(repo.run(begin_login("erin", "wrong")), Err(AppError::Unauthorized)));
    assert!(matches!(repo.run(begin_login("nobody", "right")), Err(AppError::Unauthorized)));
    let ok = response(repo.run(begin_login("erin", "right")));
    assert_eq!(ok.dispatcher_id, None);
}

#[test]
fn logout_then_validate_is_never_true() {
    let mut repo = MemoryRepo::default();
    let resp = response(repo.run(begin_register("frank", "pw", "user", None)));
    assert!(matches!(repo.run(begin_validate(&resp.session_token)), Ok(Outcome::Valid(true))));
    assert!(matches!(repo.run(begin_logout(&resp.session_token)), Ok(Outcome::LoggedOut)));
    let after = repo.run(begin_validate(&resp.session_token));
    assert!(!matches!(after, Ok(Outcome::Valid(true))));
    assert!(matches!(after, Err(AppError::NotFound)));
}

#[test]
fn validate_reports_stored_flag() {
    let mut repo = MemoryRepo::default();
    repo.sessions.push(Session { user_id: 1, session_token: "t".to_string(), is_valid: false });
    assert!(matches!(repo.run(begin_validate("t")), Ok(Outcome::Valid(false))));
}

#[test]
fn missing_image_name_is_not_found() {
    let mut repo = MemoryRepo::default();
    assert!(matches!(repo.run(begin_profile_image(1, 10, 10)), Err(AppError::NotFound)));
    let failed_lookup = step(Stage::ImageLookup { width: 1, height: 1 }, Err(AppError::InternalServerError));
    assert!(matches!(failed_lookup, Step::Finish(Err(AppError::NotFound))));
}

#[test]
fn corrupt_image_is_internal_error() {
    let mut repo = MemoryRepo::default();
    repo.image_names.insert(1, "bad.png".to_string());
    repo.image_files.insert("images/user_profile/bad.png".to_string(), vec![1, 2, 3, 4, 5]);
    assert!(matches!(repo.run(begin_profile_image(1, 10, 10)), Err(AppError::InternalServerError)));
}

#[test]
fn valid_image_is_resized_exactly() {
    let mut repo = MemoryRepo::default();
    repo.image_names.insert(2, "me.png".to_string());
    repo.image_files.insert("images/user_profile/me.png".to_string(), png_of(40, 30));
    let bytes = match repo.run(begin_profile_image(2, 7, 13)) {
        Ok(Outcome::Image(b)) => b,
        other => panic!("expected an image, got {:?}", other),
    };
    let out = image::load_from_memory(&bytes).unwrap();
    assert_eq!((out.width(), out.height()), (7, 13));
}

#[test]
fn resize_changes_the_bytes() {
    let input = png_of(4, 4);
    let out = resize_profile_image(&input, 2, 3).unwrap();
    assert_ne!(out, input);
    assert!(matches!(resize_profile_image(&[], 2, 2), Err(AppError::InternalServerError)));
}

#[test]
fn image_path_joins_root_and_name() {
    assert_eq!(profile_image_path("a.png"), "images/user_profile/a.png");
    assert_eq!(profile_image_path(""), "images/user_profile/");
}

#[test]
fn dispatcher_role_is_recognised_exactly() {
    assert!(is_dispatcher("dispatcher"));
    assert!(!is_dispatcher("Dispatcher"));
    assert!(!is_dispatcher("user"));
    assert!(!is_dispatcher(""));
}

#[test]
fn unexpected_reply_is_internal_error() {
    let r = step(Stage::Logout, Ok(Reply::Token("x".to_string())));
    assert!(matches!(r, Step::Finish(Err(AppError::InternalServerError))));
    let e = step(Stage::Logout, Err(AppError::Conflict));
    assert!(matches!(e, Step::Finish(Err(AppError::Conflict))));
}

#[test]
fn missing_dispatcher_record_is_internal_error() {
    let user = User { id: 5, username: "g".to_string(), password: "h".to_string(), role: "dispatcher".to_string() };
    let r = step(Stage::AwaitDispatcher { user, token: "t".to_string() }, Ok(Reply::Dispatcher(None)));
    assert!(matches!(r, Step::Finish(Err(AppError::InternalServerError))));
}

#[test]
fn response_fields_follow_dispatcher() {
    let user = User { id: 9, username: "h".to_string(), password: "x".to_string(), role: "dispatcher".to_string() };
    let r = build_response(user, "tok".to_string(), Some(Dispatcher { id: 4, user_id: 9, area_id: 2 }));
    assert_eq!((r.user_id, r.dispatcher_id, r.area_id), (9, Some(4), Some(2)));
    assert_eq!(r.session_token, "tok");
}

#[test]
fn service_keeps_its_repository() {
    let service = AuthService::new(42u8);
    assert_eq!(*service.repository(), 42);
}

#[test]
fn negative_size_is_internal_error() {
    let input = png_of(4, 4);
    assert!(matches!(resize_profile_image(&input, -1, 3), Err(AppError::InternalServerError)));
    assert!(matches!(resize_profile_image(&[9, 9], 3, -2), Err(AppError::InternalServerError)));
}

#[test]
fn zero_size_does_not_encode() {
    let input = png_of(4, 4);
    assert!(matches!(resize_profile_image(&input, 0, 3), Err(AppError::InternalServerError)));
}

#[test]
fn stored_role_differing_from_requested_is_internal_error() {
    let stored = User {
        id: 1,
        username: "ivy".to_string(),
        password: "h".to_string(),
        role: "user".to_string(),
    };
    let r = step(
        Stage::RegisterRefetch { role: "dispatcher".to_string(), area: Some(7), token: "t".to_string() },
        Ok(Reply::User(Some(stored))),
    );
    assert!(matches!(r, Step::Finish(Err(AppError::InternalServerError))));
}

#[test]
fn dispatcher_record_follows_requested_role() {
    let stored = User {
        id: 2,
        username: "jo".to_string(),
        password: "h".to_string(),
        role: "dispatcher".to_string(),
    };
    let r = step(
        Stage::RegisterSession {
            user: stored,
            role: "dispatcher".to_string(),
            area: Some(7),
            token: "t".to_string(),
        },
        Ok(Reply::Written),
    );
    assert!(matches!(r, Step::Perform(Action::CreateDispatcher { user_id: 2, area_id: 7 }, _)));
}
