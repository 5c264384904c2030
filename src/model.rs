//! Records read from and written to storage, the response handed to callers,
//! and the error taxonomy of the service.
use vstd::prelude::*;

verus! {

/// The role name that marks a user as a dispatcher.
pub open spec fn dispatcher_role() -> Seq<char> {
    seq!['d', 'i', 's', 'p', 'a', 't', 'c', 'h', 'e', 'r']
}

/// Whether a role name is the dispatcher role.
pub open spec fn is_dispatcher_role(role: Seq<char>) -> bool {
    role == dispatcher_role()
}

/// The failures the service reports: exactly one per failed call.
#[derive(Clone, Copy, Debug, PartialEq, Eq, Structural)]
pub enum AppError {
    BadRequest,
    Conflict,
    Unauthorized,
    NotFound,
    InternalServerError,
}

/// A stored account; `password` holds the password hash.
#[derive(Clone, Debug)]
pub struct User {
    pub id: i32,
    pub username: String,
    pub password: String,
    pub role: String,
}

pub struct UserView {
    pub id: i32,
    pub username: Seq<char>,
    pub password: Seq<char>,
    pub role: Seq<char>,
}

impl View for User {
    type V = UserView;

    open spec fn view(&self) -> UserView {
        UserView {
            id: self.id,
            username: self.username@,
            password: self.password@,
            role: self.role@,
        }
    }
}

/// The dispatcher extension of a user with the dispatcher role.
#[derive(Clone, Copy, Debug, PartialEq, Eq, Structural)]
pub struct Dispatcher {
    pub id: i32,
    pub user_id: i32,
    pub area_id: i32,
}

/// A stored session; `is_valid` alone decides whether the token authorizes.
#[derive(Clone, Debug)]
pub struct Session {
    pub user_id: i32,
    pub session_token: String,
    pub is_valid: bool,
}

pub struct SessionView {
    pub user_id: i32,
    pub session_token: Seq<char>,
    pub is_valid: bool,
}

impl View for Session {
    type V = SessionView;

    open spec fn view(&self) -> SessionView {
        SessionView {
            user_id: self.user_id,
            session_token: self.session_token@,
            is_valid: self.is_valid,
        }
    }
}

/// What a successful registration or login hands back.
#[derive(Clone, Debug)]
pub struct LoginResponseDto {
    pub user_id: i32,
    pub username: String,
    pub session_token: String,
    pub role: String,
    pub dispatcher_id: Option<i32>,
    pub area_id: Option<i32>,
}

pub struct LoginResponseView {
    pub user_id: i32,
    pub username: Seq<char>,
    pub session_token: Seq<char>,
    pub role: Seq<char>,
    pub dispatcher_id: Option<i32>,
    pub area_id: Option<i32>,
}

impl View for LoginResponseDto {
    type V = LoginResponseView;

    open spec fn view(&self) -> LoginResponseView {
        LoginResponseView {
            user_id: self.user_id,
            username: self.username@,
            session_token: self.session_token@,
            role: self.role@,
            dispatcher_id: self.dispatcher_id,
            area_id: self.area_id,
        }
    }
}

/// The response for `user` under `token`, with the dispatcher fields taken
/// from `dispatcher` when there is one.
pub open spec fn response_for(
    user: UserView,
    token: Seq<char>,
    dispatcher: Option<Dispatcher>,
) -> LoginResponseView {
    LoginResponseView {
        user_id: user.id,
        username: user.username,
        session_token: token,
        role: user.role,
        dispatcher_id: match dispatcher {
            Some(d) => Some(d.id),
            None => None,
        },
        area_id: match dispatcher {
            Some(d) => Some(d.area_id),
            None => None,
        },
    }
}

/// A response carries dispatcher fields exactly when its role is the
/// dispatcher role, and then both of them.
pub open spec fn response_fields_match_role(r: LoginResponseView) -> bool {
    &&& r.dispatcher_id.is_some() == is_dispatcher_role(r.role)
    &&& r.area_id.is_some() == is_dispatcher_role(r.role)
}

/// Whether `role` is the dispatcher role.
pub fn is_dispatcher(role: &str) -> (r: bool)
    ensures
        r == is_dispatcher_role(role@),
{
    let owned = role.to_owned();
    let expected = String::from_str("dispatcher");
    proof {
        reveal_strlit("dispatcher");
        assert(expected@ =~= dispatcher_role());
    }
    owned == expected
}

/// Builds the response for `user` under `session_token`.
pub fn build_response(
    user: User,
    session_token: String,
    dispatcher: Option<Dispatcher>,
) -> (r: LoginResponseDto)
    ensures
        r@ == response_for(user@, session_token@, dispatcher),
{
    let (dispatcher_id, area_id) = match dispatcher {
        Some(d) => (Some(d.id), Some(d.area_id)),
        None => (None, None),
    };
    LoginResponseDto {
        user_id: user.id,
        username: user.username,
        session_token,
        role: user.role,
        dispatcher_id,
        area_id,
    }
}

} // verus!
