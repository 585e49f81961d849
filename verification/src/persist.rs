//! Storage for the event logs a state machine replays.

use vstd::prelude::*;

verus! {

/// What a log holds.
pub struct LogState<Event> {
    /// The events recorded so far, oldest first.
    pub recorded: Seq<Event>,
    /// Whether the session has been closed.
    pub closed: bool,
}

impl<Event> LogState<Event> {
    /// What every log keeps when asked to save an event: what was recorded stays where it
    /// was, a success means that the event comes next, and a closed session records
    /// nothing more. Saving neither closes the session nor opens it.
    pub open spec fn appends(self, event: Event, post: Self, succeeds: bool) -> bool {
        &&& post.closed == self.closed
        &&& succeeds && !self.closed ==> post.recorded == self.recorded.push(event)
        &&& self.closed ==> post.recorded == self.recorded
        &&& self.recorded.is_prefix_of(post.recorded)
    }

    /// What every log keeps when asked to close: what was recorded stays, and a success
    /// means that the session is closed.
    pub open spec fn ends(self, post: Self, succeeds: bool) -> bool {
        &&& post.recorded == self.recorded
        &&& succeeds ==> post.closed
    }
}

/// An append only log of the events one session produced.
pub trait Persister: Sized {
    /// Whatever the storage layer underneath fails with.
    type InternalStorageError;

    /// The events this session records.
    type SessionEvent;

    /// What the log holds; unspecified unless the storage says.
    closed spec fn log(&self) -> LogState<Self::SessionEvent> {
        vstd::pervasive::arbitrary()
    }

    /// Saving `event` may take the log from `pre` to `post` and answer `result`.
    open spec fn saves(
        pre: Self,
        event: Self::SessionEvent,
        post: Self,
        result: Result<(), Self::InternalStorageError>,
    ) -> bool {
        true
    }

    /// Closing may take the log from `pre` to `post` and answer `result`.
    open spec fn closes(
        pre: Self,
        post: Self,
        result: Result<(), Self::InternalStorageError>,
    ) -> bool {
        true
    }

    /// Append one event to the log.
    fn save_event(&mut self, event: Self::SessionEvent) -> (result: Result<
        (),
        Self::InternalStorageError,
    >)
        ensures
            Self::saves(*old(self), event, *final(self), result),
            old(self).log().appends(event, final(self).log(), result is Ok),
    ;

    /// Every event of the session, in the order they were saved.
    fn load(&self) -> (result: Result<Vec<Self::SessionEvent>, Self::InternalStorageError>)
        ensures
            result matches Ok(events) ==> events@ == self.log().recorded,
    ;

    /// Close the session, after which nothing more is appended.
    fn close(&mut self) -> (result: Result<(), Self::InternalStorageError>)
        ensures
            Self::closes(*old(self), *final(self), result),
            old(self).log().ends(final(self).log(), result is Ok),
    ;
}

/// What a state transition asks its persister to do.
pub enum PersistActions<Event> {
    /// Nothing happened worth recording.
    NoOp,
    /// Record one event.
    Save(Event),
    /// Record one event and end the session.
    /// If close fails for any reason, the event is still recorded.
    /// Similarly if save fails, the session is not closed.
    SaveAndClose(Event),
}

impl<Event> PersistActions<Event> {
    /// Carrying out `self` may take the log from `pre` to `post` and answer `result`.
    pub open spec fn executes<P: Persister<SessionEvent = Event>>(
        self,
        pre: P,
        post: P,
        result: Result<(), P::InternalStorageError>,
    ) -> bool {
        match self {
            PersistActions::NoOp => post == pre && result is Ok,
            PersistActions::Save(event) => P::saves(pre, event, post, result),
            PersistActions::SaveAndClose(event) => {
                // A save that fails is all that happens.
                ||| result is Err && P::saves(pre, event, post, result)
                // Otherwise the event is saved first and the session closed after it.
                ||| exists|between: P, saved: Result<(), P::InternalStorageError>|
                    {
                        &&& saved is Ok
                        &&& #[trigger] P::saves(pre, event, between, saved)
                        &&& P::closes(between, post, result)
                    }
            },
        }
    }

    /// Carrying out `self` may take what a log holds from `pre` to `post`.
    pub open spec fn logs(
        self,
        pre: LogState<Event>,
        post: LogState<Event>,
        succeeds: bool,
    ) -> bool {
        match self {
            PersistActions::NoOp => post == pre && succeeds,
            PersistActions::Save(event) => pre.appends(event, post, succeeds),
            PersistActions::SaveAndClose(event) => {
                ||| !succeeds && pre.appends(event, post, false)
                ||| exists|between: LogState<Event>| #[trigger]
                    pre.appends(event, between, true) && between.ends(post, succeeds)
            },
        }
    }

    /// Carry out the action against `persister`.
    pub fn execute<P: Persister<SessionEvent = Event>>(self, persister: &mut P) -> (result: Result<
        (),
        P::InternalStorageError,
    >)
        ensures
            self.executes(*old(persister), *final(persister), result),
            self.logs(old(persister).log(), final(persister).log(), result is Ok),
            match self {
                PersistActions::NoOp => *final(persister) == *old(persister) && result is Ok,
                PersistActions::Save(event) => {
                    let (before, after) = (old(persister).log(), final(persister).log());
                    &&& P::saves(*old(persister), event, *final(persister), result)
                    &&& after.closed == before.closed
                    &&& result is Ok && !before.closed ==> after.recorded == before.recorded.push(
                        event,
                    )
                },
                PersistActions::SaveAndClose(event) => {
                    let (before, after) = (old(persister).log(), final(persister).log());
                    &&& result is Ok ==> after.closed
                    &&& result is Ok && !before.closed ==> after.recorded == before.recorded.push(
                        event,
                    )
                },
            },
    {
        match self {
            PersistActions::NoOp => Ok(()),
            PersistActions::Save(event) => persister.save_event(event),
            PersistActions::SaveAndClose(event) => {
                let saved = persister.save_event(event);
                if saved.is_err() {
                    return saved;
                }
                let ghost between = *persister;
                let closed = persister.close();
                assert(P::saves(*old(persister), event, between, saved));
                assert(old(persister).log().appends(event, between.log(), true));
                closed
            },
        }
    }
}

/// Carrying out an action never loses what was recorded.
pub proof fn actions_never_lose_events<Event>(
    action: PersistActions<Event>,
    pre: LogState<Event>,
    post: LogState<Event>,
    succeeds: bool,
)
    requires
        action.logs(pre, post, succeeds),
    ensures
        pre.recorded.is_prefix_of(post.recorded),
{
}

/// A closing save that succeeds on an open session leaves it closed, with the event
/// recorded last.
pub proof fn a_closing_save_records_and_closes<Event>(
    event: Event,
    pre: LogState<Event>,
    post: LogState<Event>,
)
    requires
        !pre.closed,
        PersistActions::SaveAndClose(event).logs(pre, post, true),
    ensures
        post.closed,
        post.recorded == pre.recorded.push(event),
{
}

/// A closing save that fails either failed to save, and the session is not closed; or it
/// failed to close, and the event is recorded all the same.
pub proof fn a_failed_closing_save_is_one_or_the_other<Event>(
    event: Event,
    pre: LogState<Event>,
    post: LogState<Event>,
)
    requires
        !pre.closed,
        PersistActions::SaveAndClose(event).logs(pre, post, false),
    ensures
        !post.closed || post.recorded == pre.recorded.push(event),
{
}

/// Events come back in the order they were saved, after those saved before.
pub proof fn events_load_in_the_order_they_were_saved<Event>(
    start: LogState<Event>,
    first: Event,
    between: LogState<Event>,
    second: Event,
    end: LogState<Event>,
)
    requires
        !start.closed,
        start.appends(first, between, true),
        between.appends(second, end, true),
    ensures
        end.recorded == start.recorded + seq![first, second],
        !end.closed,
{
    assert(end.recorded =~= start.recorded + seq![first, second]);
}

/// Nothing is recorded after a session was closed, whether or not saving is said to have
/// succeeded.
pub proof fn a_closed_session_records_nothing_more<Event>(
    open: LogState<Event>,
    closed: LogState<Event>,
    event: Event,
    later: LogState<Event>,
    succeeds: bool,
)
    requires
        open.ends(closed, true),
        closed.appends(event, later, succeeds),
    ensures
        later == closed,
        later.recorded == open.recorded,
{
}

/// Saving an event never closes a session, nor opens one: whatever it comes to, the log is
/// closed afterwards exactly if it was before. A success on an open session leaves what was
/// recorded followed by that event, a closed session records nothing, and nothing recorded is
/// ever lost.
pub proof fn a_save_leaves_the_session_open<Event>(
    event: Event,
    pre: LogState<Event>,
    post: LogState<Event>,
    succeeds: bool,
)
    requires
        PersistActions::Save(event).logs(pre, post, succeeds),
    ensures
        post.closed == pre.closed,
        succeeds && !pre.closed ==> post.recorded == pre.recorded.push(event),
        pre.closed ==> post.recorded == pre.recorded,
        pre.recorded.len() <= post.recorded.len(),
        forall|i: int| 0 <= i < pre.recorded.len() ==> post.recorded[i] == pre.recorded[i],
{
}

/// Asking a log to save is that same promise, and asking it to close keeps what was recorded
/// and leaves the session closed if it succeeds.
pub proof fn a_log_keeps_what_was_recorded<Event>(
    event: Event,
    pre: LogState<Event>,
    post: LogState<Event>,
    succeeds: bool,
)
    ensures
        pre.appends(event, post, succeeds) ==> {
            &&& post.closed == pre.closed
            &&& succeeds && !pre.closed ==> post.recorded == pre.recorded.push(event)
            &&& pre.closed ==> post.recorded == pre.recorded
            &&& pre.recorded.len() <= post.recorded.len()
            &&& forall|i: int| 0 <= i < pre.recorded.len() ==> post.recorded[i] == pre.recorded[i]
        },
        pre.ends(post, succeeds) ==> {
            &&& post.recorded == pre.recorded
            &&& succeeds ==> post.closed
        },
{
}

/// Saving is the one call of the log that saves the event, with what that comes to.
pub proof fn a_save_is_one_save<P: Persister>(
    event: P::SessionEvent,
    pre: P,
    post: P,
    result: Result<(), P::InternalStorageError>,
)
    ensures
        PersistActions::Save(event).executes(pre, post, result) <==> P::saves(
            pre,
            event,
            post,
            result,
        ),
{
}

/// Where nothing happened worth recording, nothing is done, and that succeeds.
pub proof fn nothing_worth_recording_changes_nothing<P: Persister>(
    pre: P,
    post: P,
    result: Result<(), P::InternalStorageError>,
)
    ensures
        PersistActions::<P::SessionEvent>::NoOp.executes(pre, post, result) ==> post == pre
            && result is Ok,
        PersistActions::<P::SessionEvent>::NoOp.logs(pre.log(), post.log(), result is Ok)
            ==> post.log() == pre.log() && result is Ok,
{
}

/// A closing save is the save and, only after one that succeeded, the close, whose outcome it
/// then has: a failure of the save is all that comes of it.
pub proof fn a_closing_save_saves_first_and_then_closes<P: Persister>(
    event: P::SessionEvent,
    pre: P,
    post: P,
    result: Result<(), P::InternalStorageError>,
)
    requires
        PersistActions::SaveAndClose(event).executes(pre, post, result),
    ensures
        (result is Err && P::saves(pre, event, post, result)) || exists|
            between: P,
            saved: Result<(), P::InternalStorageError>,
        |
            saved is Ok && #[trigger] P::saves(pre, event, between, saved) && P::closes(
                between,
                post,
                result,
            ),
{
}

/// A closing save leaves the log with what was recorded and, unless the save failed on it, the
/// event after that: if it succeeds, the session is closed, and if it fails with the event not
/// recorded, the session is as open as it was.
pub proof fn a_closing_save_records_before_it_closes<Event>(
    event: Event,
    pre: LogState<Event>,
    post: LogState<Event>,
    succeeds: bool,
)
    requires
        PersistActions::SaveAndClose(event).logs(pre, post, succeeds),
    ensures
        succeeds ==> post.closed,
        succeeds && !pre.closed ==> post.recorded == pre.recorded.push(event),
        pre.closed ==> post.recorded == pre.recorded,
        !pre.closed && post.recorded != pre.recorded.push(event) ==> !succeeds && post.closed
            == pre.closed,
        forall|i: int| 0 <= i < pre.recorded.len() ==> post.recorded[i] == pre.recorded[i],
{
}

} // verus!
