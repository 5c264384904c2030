//! The service's workflows as a state machine. Each workflow starts with a
//! `begin_*` function; from then on `step` takes the current stage and the
//! outcome of the last requested action and yields either the next action to
//! carry out together with the stage that awaits its outcome, or the final
//! result. Carrying out an action (storage round trips, hashing, token
//! generation, reading an image file) is left to the driver.
use vstd::prelude::*;
use vstd::string::*;

use crate::model::{
    build_response, is_dispatcher, is_dispatcher_role, response_for,
    AppError, Dispatcher, LoginResponseDto, LoginResponseView, Session, SessionView, User,
    UserView,
};

verus! {

/// Outside work requested by the machine.
#[derive(Debug)]
pub enum Action {
    /// Look the username up and, at the same time, hash the password.
    FindUserAndHashPassword { username: String, password: String },
    CreateUser { username: String, password: String, role: String },
    GenerateSessionToken,
    FindUserByUsername { username: String },
    CreateSession { user_id: i32, session_token: String },
    CreateDispatcher { user_id: i32, area_id: i32 },
    FindDispatcherByUserId { user_id: i32 },
    /// Check `password` against the stored `hash`.
    VerifyPassword { hash: String, password: String },
    DeleteSession { session_token: String },
    FindSessionBySessionToken { session_token: String },
    FindProfileImageName { user_id: i32 },
    /// Read the image at `path` and hand it to `resize_profile_image`.
    ResizeImage { path: String, width: i32, height: i32 },
}

pub enum ActionView {
    FindUserAndHashPassword { username: Seq<char>, password: Seq<char> },
    CreateUser { username: Seq<char>, password: Seq<char>, role: Seq<char> },
    GenerateSessionToken,
    FindUserByUsername { username: Seq<char> },
    CreateSession { user_id: i32, session_token: Seq<char> },
    CreateDispatcher { user_id: i32, area_id: i32 },
    FindDispatcherByUserId { user_id: i32 },
    VerifyPassword { hash: Seq<char>, password: Seq<char> },
    DeleteSession { session_token: Seq<char> },
    FindSessionBySessionToken { session_token: Seq<char> },
    FindProfileImageName { user_id: i32 },
    ResizeImage { path: Seq<char>, width: i32, height: i32 },
}

impl View for Action {
    type V = ActionView;

    open spec fn view(&self) -> ActionView {
        match self {
            Action::FindUserAndHashPassword { username, password } =>
                ActionView::FindUserAndHashPassword { username: username@, password: password@ },
            Action::CreateUser { username, password, role } =>
                ActionView::CreateUser { username: username@, password: password@, role: role@ },
            Action::GenerateSessionToken => ActionView::GenerateSessionToken,
            Action::FindUserByUsername { username } =>
                ActionView::FindUserByUsername { username: username@ },
            Action::CreateSession { user_id, session_token } =>
                ActionView::CreateSession { user_id: *user_id, session_token: session_token@ },
            Action::CreateDispatcher { user_id, area_id } =>
                ActionView::CreateDispatcher { user_id: *user_id, area_id: *area_id },
            Action::FindDispatcherByUserId { user_id } =>
                ActionView::FindDispatcherByUserId { user_id: *user_id },
            Action::VerifyPassword { hash, password } =>
                ActionView::VerifyPassword { hash: hash@, password: password@ },
            Action::DeleteSession { session_token } =>
                ActionView::DeleteSession { session_token: session_token@ },
            Action::FindSessionBySessionToken { session_token } =>
                ActionView::FindSessionBySessionToken { session_token: session_token@ },
            Action::FindProfileImageName { user_id } =>
                ActionView::FindProfileImageName { user_id: *user_id },
            Action::ResizeImage { path, width, height } =>
                ActionView::ResizeImage { path: path@, width: *width, height: *height },
        }
    }
}

/// Whether an action writes to storage.
pub open spec fn is_write(a: ActionView) -> bool {
    ||| a is CreateUser
    ||| a is CreateSession
    ||| a is CreateDispatcher
    ||| a is DeleteSession
}

/// The outcome of a successfully carried out action.
#[derive(Debug)]
pub enum Reply {
    /// A write completed.
    Written,
    /// The username lookup and the password hash.
    UserAndHash(Option<User>, String),
    User(Option<User>),
    Token(String),
    Dispatcher(Option<Dispatcher>),
    PasswordValid(bool),
    Session(Session),
    ImageName(Option<String>),
    Image(Vec<u8>),
}

pub enum ReplyView {
    Written,
    UserAndHash(Option<UserView>, Seq<char>),
    User(Option<UserView>),
    Token(Seq<char>),
    Dispatcher(Option<Dispatcher>),
    PasswordValid(bool),
    Session(SessionView),
    ImageName(Option<Seq<char>>),
    Image(Seq<u8>),
}

pub open spec fn user_opt_view(u: Option<User>) -> Option<UserView> {
    match u {
        Some(u) => Some(u@),
        None => None,
    }
}

impl View for Reply {
    type V = ReplyView;

    open spec fn view(&self) -> ReplyView {
        match self {
            Reply::Written => ReplyView::Written,
            Reply::UserAndHash(u, h) => ReplyView::UserAndHash(user_opt_view(*u), h@),
            Reply::User(u) => ReplyView::User(user_opt_view(*u)),
            Reply::Token(t) => ReplyView::Token(t@),
            Reply::Dispatcher(d) => ReplyView::Dispatcher(*d),
            Reply::PasswordValid(b) => ReplyView::PasswordValid(*b),
            Reply::Session(s) => ReplyView::Session(s@),
            Reply::ImageName(n) => ReplyView::ImageName(
                match n {
                    Some(n) => Some(n@),
                    None => None,
                },
            ),
            Reply::Image(b) => ReplyView::Image(b@),
        }
    }
}

/// The outcome of an action as the driver reports it: a reply, or the error
/// that storage or the outside work failed with.
pub open spec fn outcome_view(r: Result<Reply, AppError>) -> Result<ReplyView, AppError> {
    match r {
        Ok(reply) => Ok(reply@),
        Err(e) => Err(e),
    }
}

/// Where a workflow stands while it awaits the outcome of an action.
#[derive(Debug)]
pub enum Stage {
    RegisterLookup { username: String, role: String, area: Option<i32> },
    RegisterCreate { username: String, role: String, area: Option<i32> },
    RegisterToken { username: String, role: String, area: Option<i32> },
    RegisterRefetch { role: String, area: Option<i32>, token: String },
    RegisterSession { user: User, role: String, area: Option<i32>, token: String },
    RegisterDispatcher { user: User, token: String },
    AwaitDispatcher { user: User, token: String },
    LoginLookup { password: String },
    LoginVerify { user: User },
    LoginToken { user: User },
    LoginSession { user: User, token: String },
    Logout,
    Validate,
    ImageLookup { width: i32, height: i32 },
    ImageResize,
}

pub enum StageView {
    RegisterLookup { username: Seq<char>, role: Seq<char>, area: Option<i32> },
    RegisterCreate { username: Seq<char>, role: Seq<char>, area: Option<i32> },
    RegisterToken { username: Seq<char>, role: Seq<char>, area: Option<i32> },
    RegisterRefetch { role: Seq<char>, area: Option<i32>, token: Seq<char> },
    RegisterSession { user: UserView, role: Seq<char>, area: Option<i32>, token: Seq<char> },
    RegisterDispatcher { user: UserView, token: Seq<char> },
    AwaitDispatcher { user: UserView, token: Seq<char> },
    LoginLookup { password: Seq<char> },
    LoginVerify { user: UserView },
    LoginToken { user: UserView },
    LoginSession { user: UserView, token: Seq<char> },
    Logout,
    Validate,
    ImageLookup { width: i32, height: i32 },
    ImageResize,
}

impl View for Stage {
    type V = StageView;

    open spec fn view(&self) -> StageView {
        match self {
            Stage::RegisterLookup { username, role, area } =>
                StageView::RegisterLookup { username: username@, role: role@, area: *area },
            Stage::RegisterCreate { username, role, area } =>
                StageView::RegisterCreate { username: username@, role: role@, area: *area },
            Stage::RegisterToken { username, role, area } =>
                StageView::RegisterToken { username: username@, role: role@, area: *area },
            Stage::RegisterRefetch { role, area, token } =>
                StageView::RegisterRefetch { role: role@, area: *area, token: token@ },
            Stage::RegisterSession { user, role, area, token } => StageView::RegisterSession {
                user: user@,
                role: role@,
                area: *area,
                token: token@,
            },
            Stage::RegisterDispatcher { user, token } =>
                StageView::RegisterDispatcher { user: user@, token: token@ },
            Stage::AwaitDispatcher { user, token } =>
                StageView::AwaitDispatcher { user: user@, token: token@ },
            Stage::LoginLookup { password } => StageView::LoginLookup { password: password@ },
            Stage::LoginVerify { user } => StageView::LoginVerify { user: user@ },
            Stage::LoginToken { user } => StageView::LoginToken { user: user@ },
            Stage::LoginSession { user, token } =>
                StageView::LoginSession { user: user@, token: token@ },
            Stage::Logout => StageView::Logout,
            Stage::Validate => StageView::Validate,
            Stage::ImageLookup { width, height } =>
                StageView::ImageLookup { width: *width, height: *height },
            Stage::ImageResize => StageView::ImageResize,
        }
    }
}

/// The value a finished workflow hands back.
#[derive(Debug)]
pub enum Outcome {
    Response(LoginResponseDto),
    LoggedOut,
    Valid(bool),
    Image(Vec<u8>),
}

pub enum OutcomeView {
    Response(LoginResponseView),
    LoggedOut,
    Valid(bool),
    Image(Seq<u8>),
}

impl View for Outcome {
    type V = OutcomeView;

    open spec fn view(&self) -> OutcomeView {
        match self {
            Outcome::Response(r) => OutcomeView::Response(r@),
            Outcome::LoggedOut => OutcomeView::LoggedOut,
            Outcome::Valid(b) => OutcomeView::Valid(*b),
            Outcome::Image(b) => OutcomeView::Image(b@),
        }
    }
}

/// What the machine does next.
#[derive(Debug)]
pub enum Step {
    Perform(Action, Stage),
    Finish(Result<Outcome, AppError>),
}

pub enum StepView {
    Perform(ActionView, StageView),
    Finish(Result<OutcomeView, AppError>),
}

impl View for Step {
    type V = StepView;

    open spec fn view(&self) -> StepView {
        match self {
            Step::Perform(a, s) => StepView::Perform(a@, s@),
            Step::Finish(Ok(o)) => StepView::Finish(Ok(o@)),
            Step::Finish(Err(e)) => StepView::Finish(Err(*e)),
        }
    }
}


/// The directory under which profile images are stored.
pub open spec fn image_root() -> Seq<char> {
    "images/user_profile/"@
}

/// The path of the stored profile image `name`.
pub open spec fn image_path(name: Seq<char>) -> Seq<char> {
    image_root() + name
}

/// Joins the image directory with a stored file name.
pub fn profile_image_path(name: &str) -> (r: String)
    ensures
        r@ == image_path(name@),
{
    let mut path = String::from_str("images/user_profile/");
    path.append(name);
    path
}

/// A workflow that ends with the error `e`.
pub open spec fn fail(e: AppError) -> StepView {
    StepView::Finish(Err(e))
}

/// A workflow that ends with the response for `user` under `token`.
pub open spec fn respond(user: UserView, token: Seq<char>, d: Option<Dispatcher>) -> StepView {
    StepView::Finish(Ok(OutcomeView::Response(response_for(user, token, d))))
}

/// How the first step of registration goes.
pub open spec fn register_start(
    username: Seq<char>,
    password: Seq<char>,
    role: Seq<char>,
    area: Option<i32>,
) -> StepView {
    if is_dispatcher_role(role) && area is None {
        fail(AppError::BadRequest)
    } else {
        StepView::Perform(
            ActionView::FindUserAndHashPassword { username, password },
            StageView::RegisterLookup { username, role, area },
        )
    }
}

/// How the first step of login goes.
pub open spec fn login_start(username: Seq<char>, password: Seq<char>) -> StepView {
    StepView::Perform(
        ActionView::FindUserByUsername { username },
        StageView::LoginLookup { password },
    )
}

/// How the first step of logout goes.
pub open spec fn logout_start(token: Seq<char>) -> StepView {
    StepView::Perform(ActionView::DeleteSession { session_token: token }, StageView::Logout)
}

/// How the first step of session validation goes.
pub open spec fn validate_start(token: Seq<char>) -> StepView {
    StepView::Perform(
        ActionView::FindSessionBySessionToken { session_token: token },
        StageView::Validate,
    )
}

/// How the first step of profile-image retrieval goes.
pub open spec fn image_start(user_id: i32, width: i32, height: i32) -> StepView {
    StepView::Perform(
        ActionView::FindProfileImageName { user_id },
        StageView::ImageLookup { width, height },
    )
}

/// The step taken at `stage` on the outcome `out` of the awaited action. A
/// failed action ends the workflow with its error, but for the image-name
/// lookup, where any failure reads as NotFound. A reply of a kind the stage
/// does not await is an InternalServerError.
pub open spec fn next(stage: StageView, out: Result<ReplyView, AppError>) -> StepView {
    match stage {
        StageView::ImageLookup { width, height } => match out {
            Ok(ReplyView::ImageName(Some(name))) => StepView::Perform(
                ActionView::ResizeImage { path: image_path(name), width, height },
                StageView::ImageResize,
            ),
            Ok(ReplyView::ImageName(None)) => fail(AppError::NotFound),
            Err(_) => fail(AppError::NotFound),
            Ok(_) => fail(AppError::InternalServerError),
        },
        _ => match out {
            Err(e) => fail(e),
            Ok(reply) => next_on_reply(stage, reply),
        },
    }
}

/// The step taken at `stage` on a successful reply. Registration goes on
/// only with a stored user that has the requested role, and creates the
/// dispatcher record by the requested role.
pub open spec fn next_on_reply(stage: StageView, reply: ReplyView) -> StepView {
    match (stage, reply) {
        (
            StageView::RegisterLookup { username, role, area },
            ReplyView::UserAndHash(existing, hash),
        ) => if existing is Some {
            fail(AppError::Conflict)
        } else {
            StepView::Perform(
                ActionView::CreateUser { username, password: hash, role },
                StageView::RegisterCreate { username, role, area },
            )
        },
        (StageView::RegisterCreate { username, role, area }, ReplyView::Written) => StepView::Perform(
            ActionView::GenerateSessionToken,
            StageView::RegisterToken { username, role, area },
        ),
        (StageView::RegisterToken { username, role, area }, ReplyView::Token(token)) => StepView::Perform(
            ActionView::FindUserByUsername { username },
            StageView::RegisterRefetch { role, area, token },
        ),
        (StageView::RegisterRefetch { role, area, token }, ReplyView::User(found)) => match found {
            Some(user) => if user.role == role {
                StepView::Perform(
                    ActionView::CreateSession { user_id: user.id, session_token: token },
                    StageView::RegisterSession { user, role, area, token },
                )
            } else {
                fail(AppError::InternalServerError)
            },
            None => fail(AppError::InternalServerError),
        },
        (StageView::RegisterSession { user, role, area, token }, ReplyView::Written) => {
            if is_dispatcher_role(role) {
                match area {
                    Some(area_id) => StepView::Perform(
                        ActionView::CreateDispatcher { user_id: user.id, area_id },
                        StageView::RegisterDispatcher { user, token },
                    ),
                    None => fail(AppError::InternalServerError),
                }
            } else {
                respond(user, token, None)
            }
        },
        (StageView::RegisterDispatcher { user, token }, ReplyView::Written) => StepView::Perform(
            ActionView::FindDispatcherByUserId { user_id: user.id },
            StageView::AwaitDispatcher { user, token },
        ),
        (StageView::AwaitDispatcher { user, token }, ReplyView::Dispatcher(found)) => match found {
            Some(d) => respond(user, token, Some(d)),
            None => fail(AppError::InternalServerError),
        },
        (StageView::LoginLookup { password }, ReplyView::User(found)) => match found {
            Some(user) => StepView::Perform(
                ActionView::VerifyPassword { hash: user.password, password },
                StageView::LoginVerify { user },
            ),
            None => fail(AppError::Unauthorized),
        },
        (StageView::LoginVerify { user }, ReplyView::PasswordValid(valid)) => if valid {
            StepView::Perform(ActionView::GenerateSessionToken, StageView::LoginToken { user })
        } else {
            fail(AppError::Unauthorized)
        },
        (StageView::LoginToken { user }, ReplyView::Token(token)) => StepView::Perform(
            ActionView::CreateSession { user_id: user.id, session_token: token },
            StageView::LoginSession { user, token },
        ),
        (StageView::LoginSession { user, token }, ReplyView::Written) => {
            if is_dispatcher_role(user.role) {
                StepView::Perform(
                    ActionView::FindDispatcherByUserId { user_id: user.id },
                    StageView::AwaitDispatcher { user, token },
                )
            } else {
                respond(user, token, None)
            }
        },
        (StageView::Logout, ReplyView::Written) => StepView::Finish(Ok(OutcomeView::LoggedOut)),
        (StageView::Validate, ReplyView::Session(session)) => StepView::Finish(
            Ok(OutcomeView::Valid(session.is_valid)),
        ),
        (StageView::ImageResize, ReplyView::Image(bytes)) => StepView::Finish(
            Ok(OutcomeView::Image(bytes)),
        ),
        _ => fail(AppError::InternalServerError),
    }
}

/// Starts registration. A dispatcher must come with an area: without one the
/// workflow ends at once with BadRequest, before any outside work.
pub fn begin_register(username: &str, password: &str, role: &str, area: Option<i32>) -> (r: Step)
    ensures
        r@ == register_start(username@, password@, role@, area),
{
    if is_dispatcher(role) && area.is_none() {
        return Step::Finish(Err(AppError::BadRequest));
    }
    Step::Perform(
        Action::FindUserAndHashPassword {
            username: username.to_owned(),
            password: password.to_owned(),
        },
        Stage::RegisterLookup { username: username.to_owned(), role: role.to_owned(), area },
    )
}

/// Starts login by looking the username up.
pub fn begin_login(username: &str, password: &str) -> (r: Step)
    ensures
        r@ == login_start(username@, password@),
{
    Step::Perform(
        Action::FindUserByUsername { username: username.to_owned() },
        Stage::LoginLookup { password: password.to_owned() },
    )
}

/// Starts logout by deleting the session of `session_token`.
pub fn begin_logout(session_token: &str) -> (r: Step)
    ensures
        r@ == logout_start(session_token@),
{
    Step::Perform(
        Action::DeleteSession { session_token: session_token.to_owned() },
        Stage::Logout,
    )
}

/// Starts session validation by looking the session of `session_token` up.
pub fn begin_validate(session_token: &str) -> (r: Step)
    ensures
        r@ == validate_start(session_token@),
{
    Step::Perform(
        Action::FindSessionBySessionToken { session_token: session_token.to_owned() },
        Stage::Validate,
    )
}

/// Starts profile-image retrieval by looking the stored file name up.
pub fn begin_profile_image(user_id: i32, width: i32, height: i32) -> (r: Step)
    ensures
        r@ == image_start(user_id, width, height),
{
    Step::Perform(Action::FindProfileImageName { user_id }, Stage::ImageLookup { width, height })
}

/// Advances a workflow: `outcome` is what came of the action that `stage`
/// awaits.
pub fn step(stage: Stage, outcome: Result<Reply, AppError>) -> (r: Step)
    ensures
        r@ == next(stage@, outcome_view(outcome)),
{
    match stage {
        Stage::ImageLookup { width, height } => match outcome {
            Ok(Reply::ImageName(Some(name))) => Step::Perform(
                Action::ResizeImage { path: profile_image_path(&name), width, height },
                Stage::ImageResize,
            ),
            Ok(Reply::ImageName(None)) => Step::Finish(Err(AppError::NotFound)),
            Err(_) => Step::Finish(Err(AppError::NotFound)),
            Ok(_) => Step::Finish(Err(AppError::InternalServerError)),
        },
        other => match outcome {
            Err(e) => Step::Finish(Err(e)),
            Ok(reply) => step_on_reply(other, reply),
        },
    }
}

/// Advances a workflow on a successful reply.
fn step_on_reply(stage: Stage, reply: Reply) -> (r: Step)
    requires
        !(stage is ImageLookup),
    ensures
        r@ == next_on_reply(stage@, reply@),
{
    match (stage, reply) {
        (Stage::RegisterLookup { username, role, area }, Reply::UserAndHash(existing, hash)) => {
            if existing.is_some() {
                Step::Finish(Err(AppError::Conflict))
            } else {
                Step::Perform(
                    Action::CreateUser {
                        username: username.clone(),
                        password: hash,
                        role: role.clone(),
                    },
                    Stage::RegisterCreate { username, role, area },
                )
            }
        },
        (Stage::RegisterCreate { username, role, area }, Reply::Written) => Step::Perform(
            Action::GenerateSessionToken,
            Stage::RegisterToken { username, role, area },
        ),
        (Stage::RegisterToken { username, role, area }, Reply::Token(token)) => Step::Perform(
            Action::FindUserByUsername { username },
            Stage::RegisterRefetch { role, area, token },
        ),
        (Stage::RegisterRefetch { role, area, token }, Reply::User(found)) => match found {
            Some(user) => {
                if user.role == role {
                    Step::Perform(
                        Action::CreateSession { user_id: user.id, session_token: token.clone() },
                        Stage::RegisterSession { user, role, area, token },
                    )
                } else {
                    Step::Finish(Err(AppError::InternalServerError))
                }
            },
            None => Step::Finish(Err(AppError::InternalServerError)),
        },
        (Stage::RegisterSession { user, role, area, token }, Reply::Written) => {
            if is_dispatcher(role.as_str()) {
                match area {
                    Some(area_id) => Step::Perform(
                        Action::CreateDispatcher { user_id: user.id, area_id },
                        Stage::RegisterDispatcher { user, token },
                    ),
                    None => Step::Finish(Err(AppError::InternalServerError)),
                }
            } else {
                Step::Finish(Ok(Outcome::Response(build_response(user, token, None))))
            }
        },
        (Stage::RegisterDispatcher { user, token }, Reply::Written) => Step::Perform(
            Action::FindDispatcherByUserId { user_id: user.id },
            Stage::AwaitDispatcher { user, token },
        ),
        (Stage::AwaitDispatcher { user, token }, Reply::Dispatcher(found)) => match found {
            Some(d) => Step::Finish(Ok(Outcome::Response(build_response(user, token, Some(d))))),
            None => Step::Finish(Err(AppError::InternalServerError)),
        },
        (Stage::LoginLookup { password }, Reply::User(found)) => match found {
            Some(user) => Step::Perform(
                Action::VerifyPassword { hash: user.password.clone(), password },
                Stage::LoginVerify { user },
            ),
            None => Step::Finish(Err(AppError::Unauthorized)),
        },
        (Stage::LoginVerify { user }, Reply::PasswordValid(valid)) => {
            if valid {
                Step::Perform(Action::GenerateSessionToken, Stage::LoginToken { user })
            } else {
                Step::Finish(Err(AppError::Unauthorized))
            }
        },
        (Stage::LoginToken { user }, Reply::Token(token)) => Step::Perform(
            Action::CreateSession { user_id: user.id, session_token: token.clone() },
            Stage::LoginSession { user, token },
        ),
        (Stage::LoginSession { user, token }, Reply::Written) => {
            if is_dispatcher(user.role.as_str()) {
                Step::Perform(
                    Action::FindDispatcherByUserId { user_id: user.id },
                    Stage::AwaitDispatcher { user, token },
                )
            } else {
                Step::Finish(Ok(Outcome::Response(build_response(user, token, None))))
            }
        },
        (Stage::Logout, Reply::Written) => Step::Finish(Ok(Outcome::LoggedOut)),
        (Stage::Validate, Reply::Session(session)) => Step::Finish(
            Ok(Outcome::Valid(session.is_valid)),
        ),
        (Stage::ImageResize, Reply::Image(bytes)) => Step::Finish(Ok(Outcome::Image(bytes))),
        _ => Step::Finish(Err(AppError::InternalServerError)),
    }
}

} // verus!
