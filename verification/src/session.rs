//! The streaming-connection session: a state machine from state and event
//! to next state and action.
//!
//! A transport loop owns one [`Session`] per connection, feeds it the
//! events it observes — the first client message, a subscription request, a
//! poll for the next item, the connection closing — and performs the action
//! the machine hands back. All decisions live here; the loop itself does
//! none.

use vstd::prelude::*;

use crate::auth::expected_token;
use crate::auth::AuthError;
use crate::context::ExecutionContext;
use crate::extract::init_context;
use crate::extract::token_field_of;
use crate::resolver::subscription_items;
use crate::resolver::SubscriptionRoot;
use crate::stream::ValueStream;

verus! {

/// What a streaming connection's transport loop observes.
pub enum Event {
    /// The first client message after the handshake, as raw text.
    Init(String),
    /// A request to start the subscription operation.
    Subscribe,
    /// A poll for the next stream item.
    Next,
    /// The client connection is gone.
    Close,
}

/// What the transport loop must do in response.
#[derive(Clone, Copy, PartialEq, Eq, Structural, Debug)]
pub enum Action {
    /// Initialization succeeded; the session is ready for operations.
    Ready,
    /// Send the error to the client; on `MissingToken` the connection is
    /// closed, on `Forbidden` it remains open.
    Refused(AuthError),
    /// The subscription was authorized and its stream constructed.
    Subscribed,
    /// Send this stream item to the client.
    Item(i32),
    /// The subscription's stream completed; no further items exist.
    Completed,
    /// Nothing to do.
    Nothing,
}

/// The abstract state of a session: what phase it is in, which token its
/// store holds, and which items its stream has yet to produce.
pub enum SessionView {
    AwaitingInit,
    Idle { credential: Seq<char> },
    Streaming { credential: Seq<char>, pending: Seq<i32> },
    Closed,
}

/// The abstract form of an [`Event`].
pub enum EventView {
    Init(Seq<char>),
    Subscribe,
    Next,
    Close,
}

impl View for Event {
    type V = EventView;

    open spec fn view(&self) -> EventView {
        match self {
            Event::Init(msg) => EventView::Init(msg@),
            Event::Subscribe => EventView::Subscribe,
            Event::Next => EventView::Next,
            Event::Close => EventView::Close,
        }
    }
}

/// One transition of the session machine: the state after the event, and
/// the action owed to the transport loop.
///
/// The credential bound at initialization is fixed for the session's whole
/// lifetime; authorization runs once per subscription attempt, at
/// stream-construction time; a closed session absorbs every event.
pub open spec fn step_spec(s: SessionView, e: EventView) -> (SessionView, Action) {
    match (s, e) {
        (SessionView::AwaitingInit, EventView::Init(msg)) => match token_field_of(msg) {
            Some(tok) => (SessionView::Idle { credential: tok }, Action::Ready),
            None => (SessionView::Closed, Action::Refused(AuthError::MissingToken)),
        },
        (SessionView::AwaitingInit, EventView::Close) => (SessionView::Closed, Action::Nothing),
        (SessionView::AwaitingInit, _) => (
            SessionView::Closed,
            Action::Refused(AuthError::MissingToken),
        ),
        (SessionView::Idle { credential }, EventView::Subscribe) => {
            if credential == expected_token() {
                (
                    SessionView::Streaming { credential, pending: subscription_items() },
                    Action::Subscribed,
                )
            } else {
                (SessionView::Idle { credential }, Action::Refused(AuthError::Forbidden))
            }
        },
        (SessionView::Idle { credential }, EventView::Close) => (
            SessionView::Closed,
            Action::Nothing,
        ),
        (SessionView::Idle { credential }, _) => (
            SessionView::Idle { credential },
            Action::Nothing,
        ),
        (SessionView::Streaming { credential, pending }, EventView::Next) => {
            if pending.len() > 0 {
                (
                    SessionView::Streaming { credential, pending: pending.drop_first() },
                    Action::Item(pending[0]),
                )
            } else {
                (SessionView::Idle { credential }, Action::Completed)
            }
        },
        (SessionView::Streaming { credential, pending }, EventView::Close) => (
            SessionView::Closed,
            Action::Nothing,
        ),
        (SessionView::Streaming { credential, pending }, _) => (
            SessionView::Streaming { credential, pending },
            Action::Nothing,
        ),
        (SessionView::Closed, _) => (SessionView::Closed, Action::Nothing),
    }
}

/// One streaming connection, from handshake to close.
pub enum Session {
    /// No valid initialization message has arrived yet.
    AwaitingInit,
    /// Initialized; no subscription operation is active.
    Idle { store: ExecutionContext },
    /// An authorized subscription is producing its stream.
    Streaming { store: ExecutionContext, stream: ValueStream },
    /// The connection is gone; every resource is released.
    Closed,
}

impl View for Session {
    type V = SessionView;

    closed spec fn view(&self) -> SessionView {
        match self {
            Session::AwaitingInit => SessionView::AwaitingInit,
            Session::Idle { store } => SessionView::Idle { credential: store@->Some_0 },
            Session::Streaming { store, stream } => SessionView::Streaming {
                credential: store@->Some_0,
                pending: stream@,
            },
            Session::Closed => SessionView::Closed,
        }
    }
}

impl Session {
    /// Once a session is initialized, its store always holds a credential.
    pub closed spec fn wf(&self) -> bool {
        match self {
            Session::Idle { store } => store@ is Some,
            Session::Streaming { store, stream } => store@ is Some,
            _ => true,
        }
    }

    /// A session for a connection whose handshake just succeeded.
    pub fn new() -> (s: Session)
        ensures
            s@ == SessionView::AwaitingInit,
            s.wf(),
    {
        Session::AwaitingInit
    }

    /// Feeds one observed event to the machine and returns the action owed
    /// to the transport loop; the session moves exactly as [`step_spec`]
    /// says.
    pub fn step(&mut self, e: Event) -> (a: Action)
        requires
            old(self).wf(),
        ensures
            final(self).wf(),
            (final(self)@, a) == step_spec(old(self)@, e@),
    {
        let mut taken = Session::Closed;
        core::mem::swap(self, &mut taken);
        let (next, action): (Session, Action) = match (taken, e) {
            (Session::AwaitingInit, Event::Init(msg)) => match init_context(msg.as_str()) {
                Ok(store) => (Session::Idle { store }, Action::Ready),
                Err(err) => (Session::Closed, Action::Refused(err)),
            },
            (Session::AwaitingInit, Event::Close) => (Session::Closed, Action::Nothing),
            (Session::AwaitingInit, _) => (
                Session::Closed,
                Action::Refused(AuthError::MissingToken),
            ),
            (Session::Idle { store }, Event::Subscribe) => {
                match (SubscriptionRoot).values(&store) {
                    Ok(stream) => (Session::Streaming { store, stream }, Action::Subscribed),
                    Err(err) => (Session::Idle { store }, Action::Refused(err)),
                }
            },
            (Session::Idle { store }, Event::Close) => (Session::Closed, Action::Nothing),
            (Session::Idle { store }, _) => (Session::Idle { store }, Action::Nothing),
            (Session::Streaming { store, mut stream }, Event::Next) => match stream.next() {
                Some(v) => (Session::Streaming { store, stream }, Action::Item(v)),
                None => (Session::Idle { store }, Action::Completed),
            },
            (Session::Streaming { store, stream }, Event::Close) => (
                Session::Closed,
                Action::Nothing,
            ),
            (Session::Streaming { store, stream }, _) => (
                Session::Streaming { store, stream },
                Action::Nothing,
            ),
            (Session::Closed, _) => (Session::Closed, Action::Nothing),
        };
        *self = next;
        action
    }
}

/// The whole life of a session: the state after a sequence of events, and
/// the actions owed along the way, one per event.
pub open spec fn run(s: SessionView, evs: Seq<EventView>) -> (SessionView, Seq<Action>)
    decreases evs.len(),
{
    if evs.len() == 0 {
        (s, Seq::<Action>::empty())
    } else {
        let first = step_spec(s, evs[0]);
        let rest = run(first.0, evs.drop_first());
        (rest.0, seq![first.1] + rest.1)
    }
}

/// No stream item is among the actions.
pub open spec fn emits_no_item(acts: Seq<Action>) -> bool {
    forall|i: int| 0 <= i < acts.len() ==> !((#[trigger] acts[i]) is Item)
}

/// No subscription stream was ever constructed.
pub open spec fn no_subscription_started(acts: Seq<Action>) -> bool {
    forall|i: int| 0 <= i < acts.len() ==> !((#[trigger] acts[i]) is Subscribed)
}

/// One action is owed per event.
pub proof fn lemma_run_len(s: SessionView, evs: Seq<EventView>)
    ensures
        run(s, evs).1.len() == evs.len(),
    decreases evs.len(),
{
    if evs.len() > 0 {
        lemma_run_len(step_spec(s, evs[0]).0, evs.drop_first());
    }
}

/// A closed session absorbs every further event: it stays closed, and it
/// neither emits an item nor starts a subscription.
pub proof fn lemma_closed_absorbs(evs: Seq<EventView>)
    ensures
        run(SessionView::Closed, evs).0 == SessionView::Closed,
        emits_no_item(run(SessionView::Closed, evs).1),
        no_subscription_started(run(SessionView::Closed, evs).1),
    decreases evs.len(),
{
    if evs.len() > 0 {
        lemma_closed_absorbs(evs.drop_first());
        let rest = run(SessionView::Closed, evs.drop_first()).1;
        let acts = run(SessionView::Closed, evs).1;
        assert(acts =~= seq![Action::Nothing] + rest);
        assert forall|i: int| 0 <= i < acts.len() implies !((#[trigger] acts[i]) is Item)
            && !(acts[i] is Subscribed) by {
            if i > 0 {
                assert(acts[i] == rest[i - 1]);
            }
        }
    }
}

/// A connection whose first message carries no usable token is rejected
/// and closed before any subscription data is sent, whatever the client
/// tries afterwards.
pub proof fn lemma_invalid_init_rejected(msg: Seq<char>, evs: Seq<EventView>)
    requires
        token_field_of(msg) is None,
    ensures
        ({
            let r = run(SessionView::AwaitingInit, seq![EventView::Init(msg)] + evs);
            &&& r.0 == SessionView::Closed
            &&& r.1.len() == evs.len() + 1
            &&& r.1[0] == Action::Refused(AuthError::MissingToken)
            &&& emits_no_item(r.1)
            &&& no_subscription_started(r.1)
        }),
{
    let all = seq![EventView::Init(msg)] + evs;
    assert(all[0] == EventView::Init(msg));
    assert(all.drop_first() =~= evs);
    lemma_closed_absorbs(evs);
    lemma_run_len(SessionView::Closed, evs);
    let rest = run(SessionView::Closed, evs).1;
    let acts = run(SessionView::AwaitingInit, all).1;
    assert(acts =~= seq![Action::Refused(AuthError::MissingToken)] + rest);
    assert forall|i: int| 0 <= i < acts.len() implies !((#[trigger] acts[i]) is Item)
        && !(acts[i] is Subscribed) by {
        if i > 0 {
            assert(acts[i] == rest[i - 1]);
        }
    }
}

/// From an initialized session whose token is not the expected one, no
/// event sequence ever produces an item or a subscription: the session
/// only moves between that idle state and closed.
pub proof fn lemma_wrong_token_no_items_from(t: Seq<char>, s: SessionView, evs: Seq<EventView>)
    requires
        t != expected_token(),
        s == (SessionView::Idle { credential: t }) || s == SessionView::Closed,
    ensures
        ({
            let r = run(s, evs);
            &&& r.0 == (SessionView::Idle { credential: t }) || r.0 == SessionView::Closed
            &&& emits_no_item(r.1)
            &&& no_subscription_started(r.1)
        }),
    decreases evs.len(),
{
    if evs.len() > 0 {
        let first = step_spec(s, evs[0]);
        assert(first.0 == (SessionView::Idle { credential: t }) || first.0
            == SessionView::Closed);
        assert(!(first.1 is Item) && !(first.1 is Subscribed));
        lemma_wrong_token_no_items_from(t, first.0, evs.drop_first());
        let rest = run(first.0, evs.drop_first()).1;
        let acts = run(s, evs).1;
        assert(acts =~= seq![first.1] + rest);
        assert forall|i: int| 0 <= i < acts.len() implies !((#[trigger] acts[i]) is Item)
            && !(acts[i] is Subscribed) by {
            if i > 0 {
                assert(acts[i] == rest[i - 1]);
            }
        }
    }
}

/// A connection initialized with a token other than the expected one is
/// told it is forbidden when it subscribes, and receives no stream item,
/// whatever it sends.
pub proof fn lemma_wrong_token_rejected(msg: Seq<char>, t: Seq<char>, evs: Seq<EventView>)
    requires
        token_field_of(msg) == Some(t),
        t != expected_token(),
    ensures
        ({
            let r = run(SessionView::AwaitingInit, seq![EventView::Init(msg)] + evs);
            &&& r.1[0] == Action::Ready
            &&& emits_no_item(r.1.drop_first())
            &&& no_subscription_started(r.1.drop_first())
        }),
{
    let all = seq![EventView::Init(msg)] + evs;
    assert(all[0] == EventView::Init(msg));
    assert(all.drop_first() =~= evs);
    lemma_wrong_token_no_items_from(t, SessionView::Idle { credential: t }, evs);
    let rest = run(SessionView::Idle { credential: t }, evs).1;
    let acts = run(SessionView::AwaitingInit, all).1;
    assert(acts =~= seq![Action::Ready] + rest);
    assert(acts.drop_first() =~= rest);
}

/// Streaming states are only ever reached with the expected token bound
/// and with the one-shot item sequence (or what is left of it).
pub open spec fn stream_wf(s: SessionView) -> bool {
    match s {
        SessionView::Streaming { credential, pending } => credential == expected_token() && (
        pending =~= subscription_items() || pending =~= Seq::<i32>::empty()),
        _ => true,
    }
}

/// Every reachable state respects [`stream_wf`].
pub proof fn lemma_step_preserves_stream_wf(s: SessionView, e: EventView)
    requires
        stream_wf(s),
    ensures
        stream_wf(step_spec(s, e).0),
{
}

/// Whatever the client does, every item a session ever emits is the one
/// value of the one-shot source.
pub proof fn lemma_every_item_is_ten(s: SessionView, evs: Seq<EventView>)
    requires
        stream_wf(s),
    ensures
        forall|i: int|
            0 <= i < run(s, evs).1.len() ==> ((#[trigger] run(s, evs).1[i]) matches Action::Item(v)
                ==> v == 10),
    decreases evs.len(),
{
    if evs.len() > 0 {
        let first = step_spec(s, evs[0]);
        lemma_step_preserves_stream_wf(s, evs[0]);
        lemma_every_item_is_ten(first.0, evs.drop_first());
        let rest = run(first.0, evs.drop_first()).1;
        let acts = run(s, evs).1;
        assert(acts =~= seq![first.1] + rest);
        assert forall|i: int|
            0 <= i < acts.len() implies ((#[trigger] acts[i]) matches Action::Item(v)
            ==> v == 10) by {
            if i > 0 {
                assert(acts[i] == rest[i - 1]);
            }
        }
    }
}

/// How many stream items are among the actions.
pub open spec fn count_items(acts: Seq<Action>) -> int
    decreases acts.len(),
{
    if acts.len() == 0 {
        0
    } else {
        (if acts[0] is Item {
            1int
        } else {
            0int
        }) + count_items(acts.drop_first())
    }
}

/// How many times a subscription was authorized and its stream built.
pub open spec fn count_subscribed(acts: Seq<Action>) -> int
    decreases acts.len(),
{
    if acts.len() == 0 {
        0
    } else {
        (if acts[0] is Subscribed {
            1int
        } else {
            0int
        }) + count_subscribed(acts.drop_first())
    }
}

/// The items a session still owes its client.
pub open spec fn pending_items(s: SessionView) -> int {
    match s {
        SessionView::Streaming { credential, pending } => pending.len() as int,
        _ => 0,
    }
}

/// A subscription is one-shot: over any event sequence, a session emits no
/// more items than it authorized subscriptions (each stream holds one
/// item), counting the items it still owes at the end.
pub proof fn lemma_one_item_per_subscription(s: SessionView, evs: Seq<EventView>)
    ensures
        count_items(run(s, evs).1) + pending_items(run(s, evs).0) <= count_subscribed(
            run(s, evs).1,
        ) + pending_items(s),
    decreases evs.len(),
{
    if evs.len() > 0 {
        let first = step_spec(s, evs[0]);
        lemma_one_item_per_subscription(first.0, evs.drop_first());
        let rest = run(first.0, evs.drop_first()).1;
        let acts = run(s, evs).1;
        assert(acts =~= seq![first.1] + rest);
        assert(acts.drop_first() =~= rest);
        assert(pending_items(first.0) + (if first.1 is Item {
            1int
        } else {
            0int
        }) <= pending_items(s) + (if first.1 is Subscribed {
            1int
        } else {
            0int
        }));
    }
}

/// The token bound when the session was initialized never changes for the
/// rest of the session's life: the only other state it can reach is
/// closed.
pub open spec fn session_credential(s: SessionView) -> Option<Seq<char>> {
    match s {
        SessionView::Idle { credential } => Some(credential),
        SessionView::Streaming { credential, pending } => Some(credential),
        _ => None,
    }
}

/// See [`session_credential`]: once bound, the credential is fixed.
pub proof fn lemma_credential_fixed(t: Seq<char>, s: SessionView, evs: Seq<EventView>)
    requires
        session_credential(s) == Some(t),
    ensures
        ({
            let f = run(s, evs).0;
            session_credential(f) == Some(t) || f == SessionView::Closed
        }),
    decreases evs.len(),
{
    if evs.len() > 0 {
        let first = step_spec(s, evs[0]);
        if first.0 == SessionView::Closed {
            lemma_closed_absorbs(evs.drop_first());
        } else {
            lemma_credential_fixed(t, first.0, evs.drop_first());
        }
    }
}

/// Closing a connection stops item production for good: after the close
/// event the session is closed, and no later event yields an item.
pub proof fn lemma_close_stops_emission(s: SessionView, evs: Seq<EventView>)
    ensures
        step_spec(s, EventView::Close).0 == SessionView::Closed,
        emits_no_item(run(step_spec(s, EventView::Close).0, evs).1),
{
    lemma_closed_absorbs(evs);
}

/// The projection of a two-session schedule onto one of the sessions.
pub open spec fn own_events(sched: Seq<(bool, EventView)>, first: bool) -> Seq<EventView>
    decreases sched.len(),
{
    if sched.len() == 0 {
        Seq::<EventView>::empty()
    } else {
        let rest = own_events(sched.drop_first(), first);
        if sched[0].0 == first {
            seq![sched[0].1] + rest
        } else {
            rest
        }
    }
}

/// Two sessions stepped under an arbitrary interleaving: each entry of the
/// schedule addresses the first session (`true`) or the second (`false`).
pub open spec fn run_pair(s1: SessionView, s2: SessionView, sched: Seq<(bool, EventView)>) -> (
    SessionView,
    SessionView,
)
    decreases sched.len(),
{
    if sched.len() == 0 {
        (s1, s2)
    } else if sched[0].0 {
        run_pair(step_spec(s1, sched[0].1).0, s2, sched.drop_first())
    } else {
        run_pair(s1, step_spec(s2, sched[0].1).0, sched.drop_first())
    }
}

/// Isolation of concurrent sessions: under any interleaving, each session
/// ends exactly where it would have ended alone, fed only its own events —
/// neither session observes the other's store or stream.
pub proof fn lemma_session_isolation(
    s1: SessionView,
    s2: SessionView,
    sched: Seq<(bool, EventView)>,
)
    ensures
        run_pair(s1, s2, sched).0 == run(s1, own_events(sched, true)).0,
        run_pair(s1, s2, sched).1 == run(s2, own_events(sched, false)).0,
    decreases sched.len(),
{
    if sched.len() > 0 {
        if sched[0].0 {
            lemma_session_isolation(step_spec(s1, sched[0].1).0, s2, sched.drop_first());
            let p = own_events(sched, true);
            assert(p[0] == sched[0].1);
            assert(p.drop_first() =~= own_events(sched.drop_first(), true));
        } else {
            lemma_session_isolation(s1, step_spec(s2, sched[0].1).0, sched.drop_first());
            let p = own_events(sched, false);
            assert(p[0] == sched[0].1);
            assert(p.drop_first() =~= own_events(sched.drop_first(), false));
        }
    }
}

} // verus!
