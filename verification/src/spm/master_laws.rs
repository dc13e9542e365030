//! What holds of the master's sessions over more than one call.

use vstd::prelude::*;

use crate::models::chat::Message;
use crate::models::generator::Generator;

use super::master::{Master, MasterError};
use super::SessionId;

verus! {

/// A step of one session, from its beginning over the run of the model to its end,
/// leaves every other session as it was, so requests can be interleaved step by
/// step. The session itself is still there afterwards if the model gave it back,
/// and only then.
pub proof fn steps_leave_other_sessions_alone<G: Generator, T>(
    start: Master<G>,
    begun: Master<G>,
    ran: Master<G>,
    end: Master<G>,
    session_id: SessionId,
    outcome: Result<T, String>,
    res: Result<T, MasterError>,
    other: SessionId,
)
    requires
        Master::begins_step(start, session_id, Ok(()), begun),
        ran.sessions@ == begun.sessions@,
        Master::ends_step(ran, session_id, outcome, res, end),
        other != session_id,
    ensures
        begun.sessions@.contains_key(other) == start.sessions@.contains_key(other),
        end.sessions@.contains_key(other) == start.sessions@.contains_key(other),
        start.sessions@.contains_key(other) ==> {
            &&& begun.sessions@[other] == start.sessions@[other]
            &&& end.sessions@[other] == start.sessions@[other]
        },
        !begun.sessions@.contains_key(session_id),
        end.sessions@.contains_key(session_id) ==> exists|state: G::State| #[trigger]
            G::saves(*ran.model, Ok(Some(state)), *end.model) && end.sessions@[session_id] == state,
        !end.sessions@.contains_key(session_id) ==> exists|saved: Result<
            Option<G::State>,
            String,
        >| #[trigger]
            G::saves(*ran.model, saved, *end.model) && !(saved matches Ok(Some(_))),
{
}

/// A step takes a session up exactly where its last step left it: the model gets
/// back the very state that it gave out, whatever was done with other sessions in
/// between.
pub proof fn step_resumes_where_the_last_one_ended<G: Generator, T>(
    ran: Master<G>,
    end: Master<G>,
    later: Master<G>,
    begun: Master<G>,
    session_id: SessionId,
    outcome: Result<T, String>,
    res: Result<T, MasterError>,
    next: Result<(), MasterError>,
)
    requires
        !ran.sessions@.contains_key(session_id),
        Master::ends_step(ran, session_id, outcome, res, end),
        end.sessions@.contains_key(session_id),
        later.sessions@.contains_key(session_id),
        later.sessions@[session_id] == end.sessions@[session_id],
        Master::begins_step(later, session_id, next, begun),
    ensures
        exists|state: G::State, out: Result<(), String>|
            {
                &&& #[trigger] G::saves(*ran.model, Ok(Some(state)), *end.model)
                &&& #[trigger] G::restores(*later.model, state, out, *begun.model)
                &&& next == super::master::reported(out)
            },
{
    let state = end.sessions@[session_id];
    assert(G::saves(*ran.model, Ok(Some(state)), *end.model));
}

/// The first step of a session starts from what the model made of its messages.
pub proof fn first_step_starts_from_the_dialog<G: Generator>(
    before: Master<G>,
    created: Master<G>,
    later: Master<G>,
    begun: Master<G>,
    session_id: SessionId,
    messages: Seq<Message>,
    next: Result<(), MasterError>,
)
    requires
        Master::creates(before, session_id, messages, Ok(()), created),
        later.sessions@.contains_key(session_id),
        later.sessions@[session_id] == created.sessions@[session_id],
        Master::begins_step(later, session_id, next, begun),
    ensures
        exists|state: G::State, out: Result<(), String>|
            {
                &&& #[trigger] super::master::makes_session(
                    *before.model,
                    messages,
                    Ok(state),
                    *created.model,
                )
                &&& #[trigger] G::restores(*later.model, state, out, *begun.model)
                &&& next == super::master::reported(out)
            },
{
    let state = created.sessions@[session_id];
    assert(super::master::makes_session(*before.model, messages, Ok(state), *created.model));
}

/// Creating a session touches no other session, whether it succeeds or not.
pub proof fn creation_leaves_other_sessions_alone<G: Generator>(
    before: Master<G>,
    created: Master<G>,
    session_id: SessionId,
    messages: Seq<Message>,
    res: Result<(), MasterError>,
    other: SessionId,
)
    requires
        Master::creates(before, session_id, messages, res, created),
        other != session_id,
    ensures
        created.sessions@.contains_key(other) == before.sessions@.contains_key(other),
        before.sessions@.contains_key(other) ==> created.sessions@[other]
            == before.sessions@[other],
        res is Ok ==> created.sessions@.contains_key(session_id),
        res is Err ==> created.sessions@ == before.sessions@,
{
}

/// A session whose step runs, or that was released, is unknown: no second step of
/// it can begin.
pub proof fn running_session_is_unknown<G: Generator>(
    start: Master<G>,
    begun: Master<G>,
    again: Master<G>,
    session_id: SessionId,
    first: Result<(), MasterError>,
    second: Result<(), MasterError>,
)
    requires
        Master::begins_step(start, session_id, first, begun) || begun.sessions@
            == start.sessions@.remove(session_id),
        Master::begins_step(begun, session_id, second, again),
    ensures
        second == Err::<(), MasterError>(MasterError::UnknownSession { session_id }),
        again.model == begun.model,
        again.sessions@ == begun.sessions@,
{
}

} // verus!
