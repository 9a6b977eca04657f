use vstd::prelude::*;

use crate::error::Error;
use crate::rpc::Message;
use crate::value::Val;

verus! {

/// The abstract state of the correlation engine: the next call id, the set
/// of in-flight call ids (as an ordered sequence), the queue of inbound
/// notifications not yet consumed, and whether the read side has shut down.
#[verifier::ext_equal]
pub struct ClientView {
    pub next_msgid: u64,
    pub pending: Seq<u64>,
    pub notes: Seq<(String, Vec<Val>)>,
    pub closed: bool,
}

/// No call id occurs twice.
pub open spec fn distinct_ids(s: Seq<u64>) -> bool {
    forall|i: int, j: int| 0 <= i < j < s.len() ==> s[i] != s[j]
}

/// Every id lies below the counter.
pub open spec fn ids_below(s: Seq<u64>, bound: u64) -> bool {
    forall|i: int| 0 <= i < s.len() ==> s[i] < bound
}

impl ClientView {
    /// The engine's invariant: pending ids are distinct and were all drawn
    /// from the monotonic counter, so they lie below its next value.
    pub open spec fn wf(self) -> bool {
        &&& distinct_ids(self.pending)
        &&& ids_below(self.pending, self.next_msgid)
    }

    /// Whether a call with this id is in flight.
    pub open spec fn is_pending(self, msgid: u64) -> bool {
        self.pending.contains(msgid)
    }
}

/// The state of a freshly connected engine.
pub open spec fn initial() -> ClientView {
    ClientView { next_msgid: 0, pending: Seq::empty(), notes: Seq::empty(), closed: false }
}

/// Reserving the next call id: the counter moves on and the id joins the
/// pending set.
pub open spec fn step_begin(v: ClientView) -> ClientView {
    ClientView {
        next_msgid: (v.next_msgid + 1) as u64,
        pending: v.pending.push(v.next_msgid),
        notes: v.notes,
        closed: v.closed,
    }
}

/// The reader shutting down: the engine closes and every pending call
/// leaves the table (each must then be released with a `Delivery` error).
pub open spec fn step_close(v: ClientView) -> ClientView {
    ClientView { next_msgid: v.next_msgid, pending: Seq::empty(), notes: v.notes, closed: true }
}

/// What a response resolves to: the result on a nil error, else the
/// peer's error value.
pub open spec fn reply_of(error: Val, result: Val) -> Result<Val, Error> {
    if error is Nil {
        Ok(result)
    } else {
        Err(Error::Response(error))
    }
}

/// How one inbound message changes the engine's state: an inbound request
/// changes nothing; a response removes its pending id, if known; a
/// notification joins the queue.
pub open spec fn step_handle(v: ClientView, m: Message) -> ClientView {
    match m {
        Message::Request { .. } => v,
        Message::Response { msgid, .. } => if v.pending.contains(msgid) {
            ClientView {
                next_msgid: v.next_msgid,
                pending: v.pending.remove(v.pending.index_of(msgid)),
                notes: v.notes,
                closed: v.closed,
            }
        } else {
            v
        },
        Message::Notify { method, params } => ClientView {
            next_msgid: v.next_msgid,
            pending: v.pending,
            notes: v.notes.push((method, params)),
            closed: v.closed,
        },
    }
}

/// What one inbound message asks the surrounding loop to do.
#[derive(Debug, PartialEq)]
pub enum Action {
    /// An inbound request: write this canned nil response back to the peer.
    Reply(Message),
    /// The response to the pending call with this id: hand the reply to
    /// exactly that caller.
    Deliver(u64, Result<Val, Error>),
    /// A response bearing an unknown id: dropped, nothing changes.
    Ignored,
    /// A notification joined the queue.
    Notified,
    /// The read side ended: the engine is closed, and each of these
    /// formerly pending calls must be released with a `Delivery` error.
    Stopped(Vec<u64>),
}

/// Which action one inbound message provokes.
pub open spec fn step_action(v: ClientView, m: Message) -> Action {
    match m {
        Message::Request { msgid, .. } => Action::Reply(
            Message::Response { msgid, error: Val::Nil, result: Val::Nil },
        ),
        Message::Response { msgid, error, result } => if v.pending.contains(msgid) {
            Action::Deliver(msgid, reply_of(error, result))
        } else {
            Action::Ignored
        },
        Message::Notify { .. } => Action::Notified,
    }
}

/// The correlation engine. It owns the call-id counter, the pending-call
/// table and the notification queue, and decides — one message at a time —
/// what the surrounding reader loop and callers must do. It performs no
/// I/O itself: callers write the frames it hands out and feed it the
/// frames they read.
///
/// The notification queue buffers without bound and never blocks the
/// reader; whoever consumes the sequence drains it at leisure.
pub struct Client {
    next_msgid: u64,
    pending: Vec<u64>,
    notes: Vec<(String, Vec<Val>)>,
    closed: bool,
}

impl View for Client {
    type V = ClientView;

    closed spec fn view(&self) -> ClientView {
        ClientView {
            next_msgid: self.next_msgid,
            pending: self.pending@,
            notes: self.notes@,
            closed: self.closed,
        }
    }
}

impl Client {
    /// A fresh engine for one connected stream pair.
    pub fn new() -> (c: Client)
        ensures
            c@ == initial(),
            c@.wf(),
    {
        let c = Client { next_msgid: 0, pending: Vec::new(), notes: Vec::new(), closed: false };
        proof {
            assert(c@ =~= initial());
        }
        c
    }

    /// Reserves the next call id and builds the request frame to write.
    /// The id is fresh — no call in flight bears it — and joins the
    /// pending table. On a closed engine nothing changes and the call
    /// fails at once with a `Delivery` error, since no reply could ever
    /// arrive. The counter must not be exhausted; no connection draws
    /// anywhere near that many ids in its lifetime.
    pub fn begin_call(&mut self, method: String, params: Vec<Val>) -> (r: Result<
        (u64, Message),
        Error,
    >)
        requires
            old(self)@.wf(),
            old(self)@.next_msgid < u64::MAX,
        ensures
            final(self)@.wf(),
            old(self)@.closed ==> final(self)@ == old(self)@ && r == Err::<(u64, Message), Error>(
                Error::Delivery,
            ),
            !old(self)@.closed ==> {
                &&& final(self)@ == step_begin(old(self)@)
                &&& r matches Ok(p)
                &&& p.0 == old(self)@.next_msgid
                &&& !old(self)@.is_pending(p.0)
                &&& final(self)@.is_pending(p.0)
                &&& p.1 == (Message::Request { msgid: p.0, method, params })
            },
    {
        if self.closed {
            return Err(Error::Delivery);
        }
        let msgid = self.next_msgid;
        self.next_msgid = msgid + 1;
        self.pending.push(msgid);
        proof {
            let ov = old(self)@;
            assert(self@ =~= step_begin(ov));
            lemma_fresh_msgid(ov);
            lemma_step_begin_wf(ov);
        }
        Ok((msgid, Message::Request { msgid, method, params }))
    }

    /// The index of a pending id, if the call is in flight.
    fn find_pending(&self, msgid: u64) -> (r: Option<usize>)
        ensures
            match r {
                Some(i) => i < self@.pending.len() && self@.pending[i as int] == msgid,
                None => !self@.is_pending(msgid),
            },
    {
        let n = self.pending.len();
        let mut i: usize = 0;
        while i < n
            invariant
                n == self@.pending.len(),
                i <= n,
                forall|k: int| 0 <= k < i ==> self@.pending[k] != msgid,
            decreases n - i,
        {
            if self.pending[i] == msgid {
                return Some(i);
            }
            i += 1;
        }
        None
    }

    /// Feeds one decoded inbound message to the engine and says what to do
    /// with it. The state moves per `step_handle` and the action is
    /// exactly `step_action`: an inbound request provokes the canned nil
    /// reply; a response resolves — and removes — exactly its own pending
    /// call, or is dropped when no call bears its id; a notification is
    /// queued in arrival order.
    pub fn handle_frame(&mut self, m: Message) -> (a: Action)
        requires
            old(self)@.wf(),
        ensures
            final(self)@.wf(),
            final(self)@ == step_handle(old(self)@, m),
            a == step_action(old(self)@, m),
    {
        match m {
            Message::Request { msgid, method: _, params: _ } => Action::Reply(
                Message::Response { msgid, error: Val::Nil, result: Val::Nil },
            ),
            Message::Response { msgid, error, result } => {
                match self.find_pending(msgid) {
                    Some(i) => {
                        proof {
                            lemma_index_of_found(old(self)@.pending, msgid, i as int);
                            lemma_remove_id(old(self)@.pending, msgid);
                        }
                        self.pending.remove(i);
                        let rep = if error.is_nil() {
                            Ok(result)
                        } else {
                            Err(Error::Response(error))
                        };
                        proof {
                            assert(self@ =~= step_handle(old(self)@, m));
                        }
                        Action::Deliver(msgid, rep)
                    },
                    None => Action::Ignored,
                }
            },
            Message::Notify { method, params } => {
                self.notes.push((method, params));
                proof {
                    assert(self@ =~= step_handle(old(self)@, m));
                }
                Action::Notified
            },
        }
    }

    /// One turn of the reader loop, given what the read side produced:
    /// a decoded message is handled as `handle_frame` says; a read or
    /// decode failure closes the engine for good, and every call that was
    /// in flight comes back in `Stopped`, to be released with a `Delivery`
    /// error — none may be left waiting forever.
    pub fn handle_read(&mut self, r: Result<Message, Error>) -> (a: Action)
        requires
            old(self)@.wf(),
        ensures
            final(self)@.wf(),
            match r {
                Ok(m) => final(self)@ == step_handle(old(self)@, m) && a == step_action(
                    old(self)@,
                    m,
                ),
                Err(_) => {
                    &&& final(self)@ == step_close(old(self)@)
                    &&& a matches Action::Stopped(ids) && ids@ == old(self)@.pending
                },
            },
    {
        match r {
            Ok(m) => self.handle_frame(m),
            Err(_) => Action::Stopped(self.close()),
        }
    }

    /// Closes the engine: no reply will ever arrive again. Every id that
    /// was in flight is handed back so its caller can be released with a
    /// `Delivery` error.
    pub fn close(&mut self) -> (released: Vec<u64>)
        ensures
            final(self)@ == step_close(old(self)@),
            final(self)@.wf(),
            released@ == old(self)@.pending,
    {
        self.closed = true;
        let released = self.pending.split_off(0);
        proof {
            assert(released@ =~= old(self)@.pending);
            assert(self@ =~= step_close(old(self)@));
        }
        released
    }

    /// The id the next call will draw from the counter.
    pub fn next_msgid(&self) -> (r: u64)
        ensures
            r == self@.next_msgid,
    {
        self.next_msgid
    }

    /// Whether the read side has shut down.
    pub fn is_closed(&self) -> (r: bool)
        ensures
            r == self@.closed,
    {
        self.closed
    }

    /// Takes the oldest queued notification, if any: the queue hands the
    /// `(method, params)` pairs out in exactly their arrival order.
    pub fn next_notification(&mut self) -> (r: Option<(String, Vec<Val>)>)
        ensures
            final(self)@.next_msgid == old(self)@.next_msgid,
            final(self)@.pending == old(self)@.pending,
            final(self)@.closed == old(self)@.closed,
            old(self)@.notes.len() == 0 ==> r is None && final(self)@ == old(self)@,
            old(self)@.notes.len() > 0 ==> r == Some(old(self)@.notes[0]) && final(self)@.notes
                == old(self)@.notes.drop_first(),
    {
        if self.notes.len() == 0 {
            None
        } else {
            let n = self.notes.remove(0);
            proof {
                assert(self@.notes =~= old(self)@.notes.drop_first());
            }
            Some(n)
        }
    }
}

/// The invariant rules out reuse: the id the next call will draw is borne
/// by no call in flight.
pub proof fn lemma_fresh_msgid(v: ClientView)
    requires
        v.wf(),
    ensures
        !v.is_pending(v.next_msgid),
{
    if v.pending.contains(v.next_msgid) {
        let i = choose|i: int| 0 <= i < v.pending.len() && v.pending[i] == v.next_msgid;
        assert(v.pending[i] < v.next_msgid);
    }
}

/// Reserving an id preserves the invariant, keeps every old call pending,
/// and adds exactly the drawn id.
pub proof fn lemma_step_begin_wf(v: ClientView)
    requires
        v.wf(),
        v.next_msgid < u64::MAX,
    ensures
        step_begin(v).wf(),
        step_begin(v).is_pending(v.next_msgid),
        forall|id: u64| #[trigger] step_begin(v).is_pending(id) == (v.is_pending(id) || id
            == v.next_msgid),
{
    let w = step_begin(v);
    assert forall|i: int, j: int| 0 <= i < j < w.pending.len() implies w.pending[i]
        != w.pending[j] by {
        if j == v.pending.len() {
            assert(v.pending[i] < v.next_msgid);
        }
    }
    assert forall|i: int| 0 <= i < w.pending.len() implies w.pending[i] < w.next_msgid by {
        if i < v.pending.len() {
            assert(v.pending[i] < v.next_msgid);
        }
    }
    assert(w.pending[v.pending.len() as int] == v.next_msgid);
    assert forall|id: u64| #[trigger] w.is_pending(id) implies (v.is_pending(id) || id
        == v.next_msgid) by {
        let i = choose|i: int| 0 <= i < w.pending.len() && w.pending[i] == id;
        if i < v.pending.len() {
            assert(v.pending[i] == id);
        }
    }
    assert forall|id: u64| (v.is_pending(id) || id == v.next_msgid) implies #[trigger] w.is_pending(
        id,
    ) by {
        if v.is_pending(id) {
            let i = choose|i: int| 0 <= i < v.pending.len() && v.pending[i] == id;
            assert(w.pending[i] == id);
        } else {
            assert(w.pending[v.pending.len() as int] == id);
        }
    }
}

/// In a distinct sequence, the index found by a linear search is the index
/// `index_of` names.
proof fn lemma_index_of_found(s: Seq<u64>, id: u64, i: int)
    requires
        distinct_ids(s),
        0 <= i < s.len(),
        s[i] == id,
    ensures
        s.contains(id),
        s.index_of(id) == i,
{
    assert(s.contains(id));
    let j = s.index_of(id);
    assert(0 <= j < s.len() && s[j] == id);
    if i < j {
        assert(s[i] != s[j]);
    } else if j < i {
        assert(s[j] != s[i]);
    }
}

/// Removing one id from a distinct sequence: the length drops by one, the
/// rest stay, distinctness and every upper bound survive.
pub proof fn lemma_remove_id(s: Seq<u64>, id: u64)
    requires
        distinct_ids(s),
        s.contains(id),
    ensures
        ({
            let t = s.remove(s.index_of(id));
            &&& t.len() == s.len() - 1
            &&& distinct_ids(t)
            &&& forall|x: u64| #[trigger] t.contains(x) == (s.contains(x) && x != id)
            &&& forall|bound: u64| ids_below(s, bound) ==> #[trigger] ids_below(t, bound)
        }),
{
    let i = s.index_of(id);
    assert(0 <= i < s.len() && s[i] == id);
    let t = s.remove(i);
    assert(forall|k: int| 0 <= k < i ==> t[k] == s[k]);
    assert(forall|k: int| i <= k < t.len() ==> t[k] == s[k + 1]);
    assert forall|x: u64| #[trigger] t.contains(x) implies (s.contains(x) && x != id) by {
        let k = choose|k: int| 0 <= k < t.len() && t[k] == x;
        if k < i {
            assert(s[k] == x);
            assert(s[k] != s[i]);
        } else {
            assert(s[k + 1] == x);
            assert(s[i] != s[k + 1]);
        }
    }
    assert forall|x: u64| s.contains(x) && x != id implies #[trigger] t.contains(x) by {
        let k = choose|k: int| 0 <= k < s.len() && s[k] == x;
        if k < i {
            assert(t[k] == x);
        } else if k > i {
            assert(t[k - 1] == x);
        }
    }
    assert forall|p: int, q: int| 0 <= p < q < t.len() implies t[p] != t[q] by {
        let sp: int = if p < i {
            p
        } else {
            p + 1
        };
        let sq: int = if q < i {
            q
        } else {
            q + 1
        };
        assert(t[p] == s[sp]);
        assert(t[q] == s[sq]);
        assert(s[sp] != s[sq]);
    }
    assert forall|bound: u64| ids_below(s, bound) implies #[trigger] ids_below(t, bound) by {
        assert forall|k: int| 0 <= k < t.len() implies t[k] < bound by {
            if k < i {
                assert(t[k] == s[k]);
            } else {
                assert(t[k] == s[k + 1]);
            }
        }
    }
}

/// Responses may arrive in any order: whichever of two distinct pending
/// calls is answered first, each answer is delivered to exactly its own
/// call, and answering one leaves the other still pending.
pub proof fn lemma_out_of_order_delivery(v: ClientView, first: Message, second: Message)
    requires
        v.wf(),
        first matches Message::Response { msgid: a, .. } && v.is_pending(a),
        second matches Message::Response { msgid: b, .. } && v.is_pending(b),
        first->Response_msgid != second->Response_msgid,
    ensures
        step_action(v, first) == Action::Deliver(
            first->Response_msgid,
            reply_of(first->Response_error, first->Response_result),
        ),
        step_handle(v, first).is_pending(second->Response_msgid),
        step_action(step_handle(v, first), second) == Action::Deliver(
            second->Response_msgid,
            reply_of(second->Response_error, second->Response_result),
        ),
        !step_handle(step_handle(v, first), second).is_pending(first->Response_msgid),
        !step_handle(step_handle(v, first), second).is_pending(second->Response_msgid),
{
    let a = first->Response_msgid;
    let b = second->Response_msgid;
    lemma_remove_id(v.pending, a);
    let v1 = step_handle(v, first);
    lemma_remove_id(v1.pending, b);
}

/// Each call observes exactly one correlated response: the first response
/// bearing a pending id is delivered to that call and retires the id, so
/// a duplicate of the same response is dropped.
pub proof fn lemma_single_delivery(v: ClientView, m: Message)
    requires
        v.wf(),
        m is Response,
        v.is_pending(m->Response_msgid),
    ensures
        step_action(v, m) == Action::Deliver(
            m->Response_msgid,
            reply_of(m->Response_error, m->Response_result),
        ),
        !step_handle(v, m).is_pending(m->Response_msgid),
        step_action(step_handle(v, m), m) == Action::Ignored,
        step_handle(step_handle(v, m), m) == step_handle(v, m),
{
    lemma_remove_id(v.pending, m->Response_msgid);
}

/// A response bearing an unknown id changes nothing and resolves no call.
pub proof fn lemma_unmatched_response_dropped(v: ClientView, m: Message)
    requires
        m is Response,
        !v.is_pending(m->Response_msgid),
    ensures
        step_handle(v, m) == v,
        step_action(v, m) == Action::Ignored,
{
}

/// Closing releases every waiter: afterwards no call is pending at all,
/// and the engine stays closed.
pub proof fn lemma_close_releases(v: ClientView)
    ensures
        step_close(v).closed,
        step_close(v).wf(),
        forall|id: u64| !(#[trigger] step_close(v).is_pending(id)),
{
    assert forall|id: u64| !(#[trigger] step_close(v).is_pending(id)) by {
        if step_close(v).pending.contains(id) {
            let i = choose|i: int|
                0 <= i < step_close(v).pending.len() && step_close(v).pending[i] == id;
        }
    }
}

/// Notifications keep their relative order: two notifications handled one
/// after the other stand in the queue in exactly that order, after
/// whatever was queued before.
pub proof fn lemma_notify_order(v: ClientView, first: Message, second: Message)
    requires
        first is Notify,
        second is Notify,
    ensures
        ({
            let w = step_handle(step_handle(v, first), second);
            &&& w.notes.len() == v.notes.len() + 2
            &&& forall|i: int| 0 <= i < v.notes.len() ==> w.notes[i] == v.notes[i]
            &&& w.notes[v.notes.len() as int] == (first->Notify_method, first->Notify_params)
            &&& w.notes[v.notes.len() as int + 1] == (second->Notify_method, second->Notify_params)
        }),
{
}

} // verus!
