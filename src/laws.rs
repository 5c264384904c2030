//! Properties of the workflows, stated over the transition functions of
//! `flow` and proved.
use vstd::prelude::*;

use crate::flow::{
    fail, is_write, image_start, login_start, logout_start, next, register_start, respond, validate_start,
    ActionView, OutcomeView, ReplyView, StageView, StepView,
};
use crate::model::{
    is_dispatcher_role, response_fields_match_role, AppError, Dispatcher, SessionView, UserView,
};

verus! {

/// A stage is well formed when every stage that will end in a response with
/// dispatcher fields holds a user with the dispatcher role, and a registration
/// about to respond holds a user with the requested role.
pub open spec fn stage_wf(s: StageView) -> bool {
    match s {
        StageView::RegisterSession { user, role, .. } => user.role == role,
        StageView::RegisterDispatcher { user, .. } => is_dispatcher_role(user.role),
        StageView::AwaitDispatcher { user, .. } => is_dispatcher_role(user.role),
        _ => true,
    }
}

/// A step keeps the machine well formed, and every response it hands back
/// carries the dispatcher fields exactly when its role is the dispatcher role.
pub open spec fn step_wf(st: StepView) -> bool {
    match st {
        StepView::Perform(_, s) => stage_wf(s),
        StepView::Finish(Ok(OutcomeView::Response(r))) => response_fields_match_role(r),
        _ => true,
    }
}

/// Registering a dispatcher without an area ends at once with BadRequest:
/// no action, and so no write, is requested.
pub proof fn lemma_dispatcher_without_area_is_rejected(
    username: Seq<char>,
    password: Seq<char>,
    role: Seq<char>,
)
    requires
        is_dispatcher_role(role),
    ensures
        register_start(username, password, role, None) == fail(AppError::BadRequest),
{
}

/// Registering a username that is already taken ends with Conflict, and the
/// only action requested before that is a lookup, which writes nothing.
pub proof fn lemma_taken_username_conflicts(
    username: Seq<char>,
    password: Seq<char>,
    role: Seq<char>,
    area: Option<i32>,
    existing: UserView,
    hash: Seq<char>,
)
    requires
        !(is_dispatcher_role(role) && area is None),
    ensures
        ({
            let first = register_start(username, password, role, area);
            &&& first is Perform
            &&& !is_write(first->Perform_0)
            &&& next(first->Perform_1, Ok(ReplyView::UserAndHash(Some(existing), hash)))
                == fail(AppError::Conflict)
        }),
{
}

/// Every workflow starts well formed.
pub proof fn lemma_starts_well_formed(
    username: Seq<char>,
    password: Seq<char>,
    role: Seq<char>,
    area: Option<i32>,
    token: Seq<char>,
    user_id: i32,
    width: i32,
    height: i32,
)
    ensures
        step_wf(register_start(username, password, role, area)),
        step_wf(login_start(username, password)),
        step_wf(validate_start(token)),
        step_wf(image_start(user_id, width, height)),
{
}

/// From a well-formed stage every step is well formed: registration and login
/// hand back dispatcher id and area id both present for the dispatcher role,
/// and both absent for any other role.
pub proof fn lemma_step_keeps_well_formed(stage: StageView, out: Result<ReplyView, AppError>)
    requires
        stage_wf(stage),
    ensures
        step_wf(next(stage, out)),
{
}

/// Login fails with Unauthorized both for an unknown username and for a
/// password that does not verify against the stored hash; a known username
/// has its stored hash checked against the given password.
pub proof fn lemma_login_failures_are_uniform(password: Seq<char>, user: UserView)
    ensures
        next(StageView::LoginLookup { password }, Ok(ReplyView::User(None)))
            == fail(AppError::Unauthorized),
        next(StageView::LoginLookup { password }, Ok(ReplyView::User(Some(user))))
            == StepView::Perform(
            ActionView::VerifyPassword { hash: user.password, password },
            StageView::LoginVerify { user },
        ),
        next(StageView::LoginVerify { user }, Ok(ReplyView::PasswordValid(false)))
            == fail(AppError::Unauthorized),
{
}

/// Logout asks storage to delete the session of the token, and a later
/// validation of that token looks up the same token and reports the stored
/// validity flag verbatim, or the failure of the lookup; so once storage has
/// deleted the session, validation yields a failure or false, never true.
pub proof fn lemma_logout_then_validate(token: Seq<char>, session: SessionView, e: AppError)
    ensures
        logout_start(token) == StepView::Perform(
            ActionView::DeleteSession { session_token: token },
            StageView::Logout,
        ),
        next(StageView::Logout, Ok(ReplyView::Written))
            == StepView::Finish(Ok(OutcomeView::LoggedOut)),
        validate_start(token) == StepView::Perform(
            ActionView::FindSessionBySessionToken { session_token: token },
            StageView::Validate,
        ),
        next(StageView::Validate, Ok(ReplyView::Session(session)))
            == StepView::Finish(Ok(OutcomeView::Valid(session.is_valid))),
        next(StageView::Validate, Err(e)) == fail(e),
{
}

/// A user without a stored image file name, or one whose lookup fails, gets
/// NotFound.
pub proof fn lemma_missing_image_is_not_found(
    width: i32,
    height: i32,
    e: AppError,
)
    ensures
        next(StageView::ImageLookup { width, height }, Ok(ReplyView::ImageName(None)))
            == fail(AppError::NotFound),
        next(StageView::ImageLookup { width, height }, Err(e)) == fail(AppError::NotFound),
{
}

/// The step that follows `st` on the outcome `out`; a finished workflow
/// stays finished.
pub open spec fn after(st: StepView, out: Result<ReplyView, AppError>) -> StepView {
    match st {
        StepView::Perform(_, stage) => next(stage, out),
        StepView::Finish(_) => st,
    }
}

/// A registration against storage that answers consistently (the username is
/// free, the stored user is read back with the requested name and role) ends
/// with the response for that user and the new token: without dispatcher
/// fields for a role other than dispatcher; for a dispatcher, once the
/// dispatcher record for the requested area is written, with the id and area
/// of the record read back.
pub proof fn lemma_consistent_registration(
    username: Seq<char>,
    password: Seq<char>,
    role: Seq<char>,
    area: Option<i32>,
    hash: Seq<char>,
    token: Seq<char>,
    user: UserView,
    dispatcher: Dispatcher,
)
    requires
        !(is_dispatcher_role(role) && area is None),
        user.username == username,
        user.role == role,
    ensures
        ({
            let created = after(
                register_start(username, password, role, area),
                Ok(ReplyView::UserAndHash(None, hash)),
            );
            let with_token = after(after(created, Ok(ReplyView::Written)), Ok(ReplyView::Token(token)));
            let with_session = after(
                after(with_token, Ok(ReplyView::User(Some(user)))),
                Ok(ReplyView::Written),
            );
            &&& created == StepView::Perform(
                ActionView::CreateUser { username, password: hash, role },
                StageView::RegisterCreate { username, role, area },
            )
            &&& !is_dispatcher_role(role) ==> with_session == respond(user, token, None)
            &&& is_dispatcher_role(role) ==> {
                &&& with_session is Perform
                &&& with_session->Perform_0 == ActionView::CreateDispatcher {
                    user_id: user.id,
                    area_id: area->Some_0,
                }
                &&& after(
                    after(with_session, Ok(ReplyView::Written)),
                    Ok(ReplyView::Dispatcher(Some(dispatcher))),
                ) == respond(user, token, Some(dispatcher))
            }
        }),
{
}

/// A login whose password verifies ends, once the new session is written,
/// with the response for the stored user and the new token: for a dispatcher
/// with the id and area of the dispatcher record read back, for any other
/// role without them.
pub proof fn lemma_successful_login(
    username: Seq<char>,
    password: Seq<char>,
    token: Seq<char>,
    user: UserView,
    dispatcher: Dispatcher,
)
    ensures
        ({
            let with_session = after(
                after(
                    after(
                        after(login_start(username, password), Ok(ReplyView::User(Some(user)))),
                        Ok(ReplyView::PasswordValid(true)),
                    ),
                    Ok(ReplyView::Token(token)),
                ),
                Ok(ReplyView::Written),
            );
            &&& !is_dispatcher_role(user.role) ==> with_session == respond(user, token, None)
            &&& is_dispatcher_role(user.role) ==> after(
                with_session,
                Ok(ReplyView::Dispatcher(Some(dispatcher))),
            ) == respond(user, token, Some(dispatcher))
        }),
{
}

/// The step reached from `st` through the outcomes `outs`, in order.
pub open spec fn run(st: StepView, outs: Seq<Result<ReplyView, AppError>>) -> StepView
    decreases outs.len(),
{
    if outs.len() == 0 {
        st
    } else {
        run(after(st, outs[0]), outs.drop_first())
    }
}

/// `s` is a stage of a registration with the requested role `role`.
pub open spec fn registering(s: StageView, role: Seq<char>) -> bool {
    match s {
        StageView::RegisterLookup { role: r, .. } => r == role,
        StageView::RegisterCreate { role: r, .. } => r == role,
        StageView::RegisterToken { role: r, .. } => r == role,
        StageView::RegisterRefetch { role: r, .. } => r == role,
        StageView::RegisterSession { user, role: r, .. } => r == role && user.role == role,
        StageView::RegisterDispatcher { user, .. } => user.role == role && is_dispatcher_role(role),
        StageView::AwaitDispatcher { user, .. } => user.role == role && is_dispatcher_role(role),
        _ => false,
    }
}

/// A registration with the requested role `role` is under way, or has ended
/// in an error, or in a response with that role whose dispatcher fields are
/// present exactly for the dispatcher role.
pub open spec fn registration_inv(st: StepView, role: Seq<char>) -> bool {
    match st {
        StepView::Perform(_, s) => registering(s, role),
        StepView::Finish(Ok(o)) => o matches OutcomeView::Response(r) && r.role == role
            && response_fields_match_role(r),
        StepView::Finish(Err(_)) => true,
    }
}

proof fn lemma_run_keeps_registration_inv(
    st: StepView,
    role: Seq<char>,
    outs: Seq<Result<ReplyView, AppError>>,
)
    requires
        registration_inv(st, role),
    ensures
        registration_inv(run(st, outs), role),
    decreases outs.len(),
{
    if outs.len() > 0 {
        lemma_run_keeps_registration_inv(after(st, outs[0]), role, outs.drop_first());
    }
}

/// Whatever storage and the credential work answer, a registration that
/// succeeds hands back a response with the requested role, carrying both
/// dispatcher id and area id when that role is the dispatcher role and
/// neither otherwise.
pub proof fn lemma_registration_follows_requested_role(
    username: Seq<char>,
    password: Seq<char>,
    role: Seq<char>,
    area: Option<i32>,
    outs: Seq<Result<ReplyView, AppError>>,
)
    ensures
        run(register_start(username, password, role, area), outs) matches StepView::Finish(
            Ok(o),
        ) ==> (o matches OutcomeView::Response(r) && r.role == role && (r.dispatcher_id is Some)
            == is_dispatcher_role(role) && (r.area_id is Some) == is_dispatcher_role(role)),
{
    lemma_run_keeps_registration_inv(register_start(username, password, role, area), role, outs);
}

} // verus!
