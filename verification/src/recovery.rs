//! Taking a thrown object out of an unwind.
//!
//! When the unwinder reaches a try/catch, three calls into the foreign
//! runtime turn the unwind into a reference that the caller may keep:
//! begin-catch hands over the thrown object and stops the unwind, retain
//! makes the reference outlive the catch, and end-catch closes the catch.
//! The calls themselves need the platform. Which call comes next, with what
//! argument, and what is kept of each answer is decided here: [`Recovery`] is
//! the state between two calls, [`Action`] is the call to make, and
//! [`Reply`] is what came back.

use vstd::prelude::*;
use crate::exception::Exception;

verus! {

/// How far the recovery of one caught throw has come.
#[derive(Clone, Copy, Debug, PartialEq, Eq, Structural)]
pub enum Recovery {
    /// The landing pad was entered with the unwinder's payload at `payload`.
    /// The unwind is still in flight.
    Landed { payload: usize },
    /// Begin-catch handed over `transient`. The unwind has stopped and the
    /// catch is open. The reference may not outlive the catch.
    Caught { transient: Exception },
    /// Retain handed back `stable`, which the holder now owns one count of.
    /// The catch is still open.
    Retained { stable: Exception },
    /// End-catch returned: the unwind is resolved, and `stable` is safe to
    /// hand to the caller.
    Closed { stable: Exception },
}

/// What has to happen next.
#[derive(Clone, Copy, Debug, PartialEq, Eq, Structural)]
pub enum Action {
    /// Call the runtime's begin-catch with the unwinder's payload.
    BeginCatch { payload: usize },
    /// Call the runtime's retain on `exception`.
    Retain { exception: Exception },
    /// Call the runtime's end-catch.
    EndCatch,
    /// No call is left: store `exception` as the failure of the try/catch.
    Store { exception: Exception },
}

/// What a call into the runtime gave back.
#[derive(Clone, Copy, Debug, PartialEq, Eq, Structural)]
pub enum Reply {
    /// Begin-catch returned `transient`.
    Caught { transient: Exception },
    /// Retain returned `stable`.
    Retained { stable: Exception },
    /// End-catch returned.
    Ended,
}

impl Recovery {
    /// The action that this state asks for.
    pub open spec fn request(self) -> Action {
        match self {
            Recovery::Landed { payload } => Action::BeginCatch { payload },
            Recovery::Caught { transient } => Action::Retain { exception: transient },
            Recovery::Retained { .. } => Action::EndCatch,
            Recovery::Closed { stable } => Action::Store { exception: stable },
        }
    }

    /// Whether `reply` answers the action that this state asks for.
    pub open spec fn admits(self, reply: Reply) -> bool {
        match (self, reply) {
            (Recovery::Landed { .. }, Reply::Caught { .. }) => true,
            (Recovery::Caught { .. }, Reply::Retained { .. }) => true,
            (Recovery::Retained { .. }, Reply::Ended) => true,
            _ => false,
        }
    }

    /// The state that `reply` leads to. A reply that does not answer the
    /// pending action changes nothing.
    pub open spec fn after(self, reply: Reply) -> Recovery {
        match (self, reply) {
            (Recovery::Landed { .. }, Reply::Caught { transient }) => Recovery::Caught {
                transient,
            },
            (Recovery::Caught { .. }, Reply::Retained { stable }) => Recovery::Retained { stable },
            (Recovery::Retained { stable }, Reply::Ended) => Recovery::Closed { stable },
            _ => self,
        }
    }

    /// The reference that may be handed to the caller: none before the catch
    /// is closed.
    pub open spec fn handed_out(self) -> Option<Exception> {
        match self {
            Recovery::Closed { stable } => Some(stable),
            _ => None,
        }
    }

    /// The state after all of `replies`, taken in order.
    pub open spec fn run(self, replies: Seq<Reply>) -> Recovery
        decreases replies.len(),
    {
        if replies.len() == 0 {
            self
        } else {
            self.run(replies.drop_last()).after(replies.last())
        }
    }

    /// Whether each of `replies` answers the action that was pending when it
    /// came.
    pub open spec fn in_order(self, replies: Seq<Reply>) -> bool
        decreases replies.len(),
    {
        if replies.len() == 0 {
            true
        } else {
            self.in_order(replies.drop_last()) && self.run(replies.drop_last()).admits(
                replies.last(),
            )
        }
    }

    /// The actions asked for along `replies`: the one before each reply, and
    /// the one that is pending after the last.
    pub open spec fn requests(self, replies: Seq<Reply>) -> Seq<Action> {
        Seq::new(replies.len() + 1, |i: int| self.run(replies.take(i)).request())
    }

    /// Enters the landing pad: the state to start from, and the first action.
    pub fn land(payload: usize) -> (start: (Recovery, Action))
        ensures
            start.0 == (Recovery::Landed { payload }),
            start.1 == start.0.request(),
    {
        (Recovery::Landed { payload }, Action::BeginCatch { payload })
    }

    /// The action that this state asks for.
    pub fn action(&self) -> (a: Action)
        ensures
            a == self.request(),
    {
        match self {
            Recovery::Landed { payload } => Action::BeginCatch { payload: *payload },
            Recovery::Caught { transient } => Action::Retain { exception: *transient },
            Recovery::Retained { .. } => Action::EndCatch,
            Recovery::Closed { stable } => Action::Store { exception: *stable },
        }
    }

    /// Takes in what the runtime gave back: the next state, and the action
    /// that it asks for. A reply that does not answer the pending action is
    /// left aside, and the same action is asked for again.
    pub fn step(self, reply: Reply) -> (next: (Recovery, Action))
        ensures
            next.0 == self.after(reply),
            next.1 == next.0.request(),
    {
        let state = match (self, reply) {
            (Recovery::Landed { .. }, Reply::Caught { transient }) => Recovery::Caught {
                transient,
            },
            (Recovery::Caught { .. }, Reply::Retained { stable }) => Recovery::Retained { stable },
            (Recovery::Retained { stable }, Reply::Ended) => Recovery::Closed { stable },
            (state, _) => state,
        };
        let action = state.action();
        (state, action)
    }

    /// The reference that may be handed to the caller: `None` as long as the
    /// catch is not closed.
    pub fn stable(&self) -> (e: Option<Exception>)
        ensures
            e == self.handed_out(),
    {
        match self {
            Recovery::Closed { stable } => Some(*stable),
            _ => None,
        }
    }
}

/// How many of `actions` are calls of retain.
pub open spec fn retains(actions: Seq<Action>) -> nat
    decreases actions.len(),
{
    if actions.len() == 0 {
        0
    } else {
        retains(actions.drop_last()) + if actions.last() is Retain {
            1nat
        } else {
            0nat
        }
    }
}

/// A reply moves the recovery exactly when it answers the pending action,
/// and each state is answered by one kind of reply only. Until the catch is
/// closed there is always a reply that moves the recovery on; once it is
/// closed nothing is admitted any more, so it cannot be ended twice.
pub proof fn law_one_reply_per_state(state: Recovery, reply: Reply)
    ensures
        state.admits(reply) <==> state.after(reply) != state,
        state.admits(reply) <==> match state {
            Recovery::Landed { .. } => reply is Caught,
            Recovery::Caught { .. } => reply is Retained,
            Recovery::Retained { .. } => reply is Ended,
            Recovery::Closed { .. } => false,
        },
        state.handed_out() is Some ==> !state.admits(reply),
        state.handed_out() is None ==> exists|next: Reply| #[trigger] state.admits(next),
{
    assert(state is Landed ==> state.admits(Reply::Caught { transient: Exception::Null }));
    assert(state is Caught ==> state.admits(Reply::Retained { stable: Exception::Null }));
    assert(state is Retained ==> state.admits(Reply::Ended));
}

/// A closed catch stays closed. Whatever comes after, in order or not, the
/// state does not change, and neither does the reference that it hands out.
pub proof fn law_closed_is_final(state: Recovery, replies: Seq<Reply>)
    requires
        state.handed_out() is Some,
    ensures
        state.run(replies) == state,
    decreases replies.len(),
{
    if replies.len() > 0 {
        law_closed_is_final(state, replies.drop_last());
    }
}

/// The calls come in one order only. From the landing pad, replies that are
/// taken in order are at most three: what begin-catch returned, what retain
/// returned, and the return of end-catch. The catch is closed exactly when
/// all three have come. The actions asked for are then begin-catch on the
/// payload, retain on what begin-catch returned, end-catch, and the storing
/// of what retain returned.
pub proof fn law_bracket_order(payload: usize, replies: Seq<Reply>)
    requires
        (Recovery::Landed { payload }).in_order(replies),
    ensures
        replies.len() <= 3,
        replies.len() >= 1 ==> replies[0] is Caught,
        replies.len() >= 2 ==> replies[1] is Retained,
        replies.len() >= 3 ==> replies[2] is Ended,
        (Recovery::Landed { payload }).run(replies).handed_out() is Some <==> replies.len() == 3,
        replies.len() == 3 ==> {
            &&& (Recovery::Landed { payload }).run(replies) == (Recovery::Closed {
                stable: replies[1]->stable,
            })
            &&& (Recovery::Landed { payload }).requests(replies) == seq![
                Action::BeginCatch { payload },
                Action::Retain { exception: replies[0]->transient },
                Action::EndCatch,
                Action::Store { exception: replies[1]->stable },
            ]
        },
{
    let start = Recovery::Landed { payload };
    lemma_run_shape(payload, replies);
    if replies.len() == 3 {
        let asked = start.requests(replies);
        assert(replies.take(0) =~= Seq::<Reply>::empty());
        lemma_in_order_prefix(start, replies, 1);
        lemma_run_shape(payload, replies.take(1));
        lemma_in_order_prefix(start, replies, 2);
        lemma_run_shape(payload, replies.take(2));
        assert(replies.take(3) =~= replies);
        assert(asked =~= seq![
            Action::BeginCatch { payload },
            Action::Retain { exception: replies[0]->transient },
            Action::EndCatch,
            Action::Store { exception: replies[1]->stable },
        ]);
    }
}

/// Between landing and handing out, retain is called exactly once, on the
/// reference that begin-catch returned, after begin-catch and before
/// end-catch. What is handed out is what that call returned.
pub proof fn law_retained_once(payload: usize, replies: Seq<Reply>)
    requires
        (Recovery::Landed { payload }).in_order(replies),
        (Recovery::Landed { payload }).run(replies).handed_out() is Some,
    ensures
        retains((Recovery::Landed { payload }).requests(replies)) == 1,
        (Recovery::Landed { payload }).requests(replies)[0] is BeginCatch,
        (Recovery::Landed { payload }).requests(replies)[1] == (Action::Retain {
            exception: replies[0]->transient,
        }),
        (Recovery::Landed { payload }).requests(replies)[2] is EndCatch,
        (Recovery::Landed { payload }).run(replies).handed_out() == Some(replies[1]->stable),
{
    law_bracket_order(payload, replies);
    let asked = (Recovery::Landed { payload }).requests(replies);
    assert(asked.drop_last() =~= seq![
        Action::BeginCatch { payload },
        Action::Retain { exception: replies[0]->transient },
        Action::EndCatch,
    ]);
    assert(asked.drop_last().drop_last() =~= seq![
        Action::BeginCatch { payload },
        Action::Retain { exception: replies[0]->transient },
    ]);
    assert(asked.drop_last().drop_last().drop_last() =~= seq![Action::BeginCatch { payload }]);
    assert(asked.drop_last().drop_last().drop_last().drop_last() =~= Seq::<Action>::empty());
    reveal_with_fuel(retains, 5);
}

/// A reference that retain hands back as it got it reaches the caller as
/// begin-catch returned it.
pub proof fn law_round_trip(payload: usize, thrown: Exception)
    ensures
        (Recovery::Landed { payload }).in_order(
            seq![
                Reply::Caught { transient: thrown },
                Reply::Retained { stable: thrown },
                Reply::Ended,
            ],
        ),
        (Recovery::Landed { payload }).run(
            seq![
                Reply::Caught { transient: thrown },
                Reply::Retained { stable: thrown },
                Reply::Ended,
            ],
        ).handed_out() == Some(thrown),
{
    let replies = seq![
        Reply::Caught { transient: thrown },
        Reply::Retained { stable: thrown },
        Reply::Ended,
    ];
    assert(replies.drop_last() =~= seq![
        Reply::Caught { transient: thrown },
        Reply::Retained { stable: thrown },
    ]);
    assert(replies.drop_last().drop_last() =~= seq![Reply::Caught { transient: thrown }]);
    assert(replies.drop_last().drop_last().drop_last() =~= Seq::<Reply>::empty());
    reveal_with_fuel(Recovery::run, 4);
    reveal_with_fuel(Recovery::in_order, 4);
}

/// Replies taken in order from the landing pad: how many there can be, what
/// each is, and the state that they lead to.
proof fn lemma_run_shape(payload: usize, replies: Seq<Reply>)
    requires
        (Recovery::Landed { payload }).in_order(replies),
    ensures
        replies.len() <= 3,
        replies.len() == 0 ==> (Recovery::Landed { payload }).run(replies) == (Recovery::Landed {
            payload,
        }),
        replies.len() >= 1 ==> replies[0] is Caught,
        replies.len() == 1 ==> (Recovery::Landed { payload }).run(replies) == (Recovery::Caught {
            transient: replies[0]->transient,
        }),
        replies.len() >= 2 ==> replies[1] is Retained,
        replies.len() == 2 ==> (Recovery::Landed { payload }).run(replies) == (Recovery::Retained {
            stable: replies[1]->stable,
        }),
        replies.len() >= 3 ==> replies[2] is Ended,
        replies.len() == 3 ==> (Recovery::Landed { payload }).run(replies) == (Recovery::Closed {
            stable: replies[1]->stable,
        }),
    decreases replies.len(),
{
    if replies.len() > 0 {
        lemma_run_shape(payload, replies.drop_last());
    }
}

/// Replies that are taken in order stay so when the last ones are left out.
proof fn lemma_in_order_prefix(start: Recovery, replies: Seq<Reply>, n: int)
    requires
        start.in_order(replies),
        0 <= n <= replies.len(),
    ensures
        start.in_order(replies.take(n)),
    decreases replies.len(),
{
    if n == replies.len() {
        assert(replies.take(n) =~= replies);
    } else {
        lemma_in_order_prefix(start, replies.drop_last(), n);
        assert(replies.drop_last().take(n) =~= replies.take(n));
    }
}

} // verus!
