//! Who holds an engine session, and when it is destroyed.
//!
//! A session starts in the hands of one undivided handle. The handle may be
//! split, once, into a sending side that can be duplicated and a receiving
//! side that cannot. The engine's session is destroyed when the last holder
//! lets go, and only then. [`Session`] keeps that account: the caller reports
//! each [`Event`], and is told whether to destroy the engine's session now.

use vstd::prelude::*;

verus! {

/// The most senders that one session can have at a time.
pub const MAX_SENDERS: u64 = 0xffff_ffff_ffff_ffff;

/// The holders of a session, as the contracts speak of them.
pub struct Holders {
    /// The undivided handle is alive.
    pub whole: bool,
    /// How many senders are alive.
    pub senders: nat,
    /// The receiver is alive.
    pub receiver: bool,
}

impl Holders {
    /// A session as it is created: held by the undivided handle.
    pub open spec fn initial() -> Holders {
        Holders { whole: true, senders: 0, receiver: false }
    }

    /// How many holders are alive.
    pub open spec fn count(self) -> nat {
        (if self.whole { 1nat } else { 0nat }) + self.senders + (if self.receiver { 1nat } else { 0nat })
    }

    /// Nobody holds the session any more: it has been destroyed.
    pub open spec fn is_destroyed(self) -> bool {
        self.count() == 0
    }

    /// An undivided handle never stands beside the two sides of a split.
    pub open spec fn is_consistent(self) -> bool {
        &&& self.whole ==> self.senders == 0 && !self.receiver
        &&& self.senders <= MAX_SENDERS
    }
}

/// What can happen to the holders of a session.
#[derive(Clone, Copy, Debug, PartialEq, Eq, Structural)]
pub enum Event {
    /// The undivided handle is split into one sender and the receiver.
    Split,
    /// A sender is duplicated.
    CloneSender,
    /// A sender is dropped.
    DropSender,
    /// The receiver is dropped.
    DropReceiver,
    /// The undivided handle is dropped.
    DropClient,
}

/// What the caller owes the engine after an event.
#[derive(Clone, Copy, Debug, PartialEq, Eq, Structural)]
pub enum Action {
    /// The session stays.
    Keep,
    /// The last holder is gone: destroy the engine's session now.
    Destroy,
}

/// An event that cannot happen to the holders as they are.
#[derive(Clone, Copy, Debug, PartialEq, Eq, Structural)]
pub enum Misuse {
    /// There is no undivided handle to split or drop.
    NoClient,
    /// There is no sender to duplicate or drop.
    NoSender,
    /// There is no receiver to drop.
    NoReceiver,
    /// The session has as many senders as it can count.
    TooManySenders,
}

/// The action that leaves `after` behind: destroy exactly when nobody is left.
pub open spec fn action_for(after: Holders) -> Action {
    if after.is_destroyed() {
        Action::Destroy
    } else {
        Action::Keep
    }
}

/// What `event` does to `before`: the holders after it and the action owed, or
/// why it cannot happen.
pub open spec fn step(before: Holders, event: Event) -> Result<(Holders, Action), Misuse> {
    match event {
        Event::Split => if before.whole {
            Ok((Holders { whole: false, senders: 1, receiver: true }, Action::Keep))
        } else {
            Err(Misuse::NoClient)
        },
        Event::CloneSender => if before.senders == 0 {
            Err(Misuse::NoSender)
        } else if before.senders >= MAX_SENDERS {
            Err(Misuse::TooManySenders)
        } else {
            Ok((Holders { senders: before.senders + 1, ..before }, Action::Keep))
        },
        Event::DropSender => if before.senders == 0 {
            Err(Misuse::NoSender)
        } else {
            let after = Holders { senders: (before.senders - 1) as nat, ..before };
            Ok((after, action_for(after)))
        },
        Event::DropReceiver => if !before.receiver {
            Err(Misuse::NoReceiver)
        } else {
            let after = Holders { receiver: false, ..before };
            Ok((after, action_for(after)))
        },
        Event::DropClient => if !before.whole {
            Err(Misuse::NoClient)
        } else {
            let after = Holders { whole: false, ..before };
            Ok((after, action_for(after)))
        },
    }
}

/// The holders after `event`, which are those before it where it cannot happen.
pub open spec fn holders_after(before: Holders, event: Event) -> Holders {
    match step(before, event) {
        Ok((after, _)) => after,
        Err(_) => before,
    }
}

/// Whether `event` makes the caller destroy the engine's session.
pub open spec fn destroys(before: Holders, event: Event) -> bool {
    step(before, event) matches Ok((_, action)) && action == Action::Destroy
}

/// The holders after all of `events`, in order.
pub open spec fn holders_after_all(start: Holders, events: Seq<Event>) -> Holders
    decreases events.len(),
{
    if events.len() == 0 {
        start
    } else {
        holders_after_all(holders_after(start, events[0]), events.drop_first())
    }
}

/// How often `events`, in order, make the caller destroy the engine's session.
pub open spec fn destroy_count(start: Holders, events: Seq<Event>) -> nat
    decreases events.len(),
{
    if events.len() == 0 {
        0
    } else {
        (if destroys(start, events[0]) { 1nat } else { 0nat }) + destroy_count(
            holders_after(start, events[0]),
            events.drop_first(),
        )
    }
}

/// The account of one session's holders.
#[derive(Debug)]
pub struct Session {
    whole: bool,
    senders: u64,
    receiver: bool,
}

impl View for Session {
    type V = Holders;

    closed spec fn view(&self) -> Holders {
        Holders { whole: self.whole, senders: self.senders as nat, receiver: self.receiver }
    }
}

impl Session {
    #[verifier::type_invariant]
    spec fn consistent(&self) -> bool {
        self@.is_consistent()
    }

    /// The account of a session that was just created.
    pub fn new() -> (session: Session)
        ensures
            session@ == Holders::initial(),
    {
        Session { whole: true, senders: 0, receiver: false }
    }

    /// The account of a session with the given holders, where they are
    /// consistent: an undivided handle stands alone.
    pub fn with_holders(whole: bool, senders: u64, receiver: bool) -> (made: Option<Session>)
        ensures
            match made {
                Some(session) => session@ == (Holders { whole, senders: senders as nat, receiver })
                    && session@.is_consistent(),
                None => !(Holders { whole, senders: senders as nat, receiver }).is_consistent(),
            },
    {
        if whole && (senders != 0 || receiver) {
            None
        } else {
            Some(Session { whole, senders, receiver })
        }
    }

    /// How many holders are alive.
    pub fn holders(&self) -> (count: u128)
        ensures
            count == self@.count(),
    {
        let whole: u128 = if self.whole { 1 } else { 0 };
        let receiver: u128 = if self.receiver { 1 } else { 0 };
        let senders: u128 = self.senders as u128;
        whole + senders + receiver
    }

    /// Whether the session has been destroyed.
    pub fn is_destroyed(&self) -> (gone: bool)
        ensures
            gone == self@.is_destroyed(),
    {
        !self.whole && self.senders == 0 && !self.receiver
    }

    /// Takes account of `event`. Where it can happen, the holders change as
    /// [`step`] says and the action owed is returned; where it cannot, the
    /// account stays as it was.
    pub fn apply(&mut self, event: Event) -> (outcome: Result<Action, Misuse>)
        ensures
            match step(old(self)@, event) {
                Ok((after, action)) => final(self)@ == after && outcome == Ok::<Action, Misuse>(action),
                Err(misuse) => final(self)@ == old(self)@ && outcome == Err::<Action, Misuse>(misuse),
            },
            old(self)@.is_consistent(),
            final(self)@.is_consistent(),
    {
        proof {
            use_type_invariant(&*self);
        }
        match event {
            Event::Split => {
                if !self.whole {
                    return Err(Misuse::NoClient);
                }
                self.whole = false;
                self.senders = 1;
                self.receiver = true;
                Ok(Action::Keep)
            },
            Event::CloneSender => {
                if self.senders == 0 {
                    return Err(Misuse::NoSender);
                }
                if self.senders >= MAX_SENDERS {
                    return Err(Misuse::TooManySenders);
                }
                self.senders = self.senders + 1;
                Ok(Action::Keep)
            },
            Event::DropSender => {
                if self.senders == 0 {
                    return Err(Misuse::NoSender);
                }
                self.senders = self.senders - 1;
                Ok(self.action())
            },
            Event::DropReceiver => {
                if !self.receiver {
                    return Err(Misuse::NoReceiver);
                }
                self.receiver = false;
                Ok(self.action())
            },
            Event::DropClient => {
                if !self.whole {
                    return Err(Misuse::NoClient);
                }
                self.whole = false;
                Ok(self.action())
            },
        }
    }

    fn action(&self) -> (action: Action)
        ensures
            action == action_for(self@),
    {
        if self.is_destroyed() {
            Action::Destroy
        } else {
            Action::Keep
        }
    }
}

/// An event that can happen leaves consistent holders consistent, and one
/// that cannot leaves them as they were.
pub proof fn law_consistency_is_kept(before: Holders, event: Event)
    requires
        before.is_consistent(),
    ensures
        holders_after(before, event).is_consistent(),
        step(before, event) is Err ==> holders_after(before, event) == before,
{
}

/// Splitting and duplicating add one holder, every drop takes one away.
pub proof fn law_count_follows_events(before: Holders, event: Event)
    requires
        before.is_consistent(),
        step(before, event) is Ok,
    ensures
        match event {
            Event::Split | Event::CloneSender => holders_after(before, event).count()
                == before.count() + 1,
            Event::DropSender | Event::DropReceiver | Event::DropClient => holders_after(
                before,
                event,
            ).count() == before.count() - 1,
        },
{
}

/// The engine's session is destroyed by the event that takes the last holder
/// away, and by no other: never while somebody still holds it.
pub proof fn law_destroy_when_last_holder_goes(before: Holders, event: Event)
    requires
        before.is_consistent(),
    ensures
        destroys(before, event) <==> before.count() == 1 && holders_after(
            before,
            event,
        ).is_destroyed(),
        destroys(before, event) ==> event == Event::DropSender || event == Event::DropReceiver
            || event == Event::DropClient,
{
}

/// Once the session is destroyed nothing can happen to it any more.
pub proof fn law_nothing_after_destroy(before: Holders, event: Event)
    requires
        before.is_destroyed(),
    ensures
        step(before, event) is Err,
        !destroys(before, event),
        holders_after(before, event) == before,
{
}

/// Over any course of events, the session is destroyed once if the course
/// takes it from held to destroyed, and not at all otherwise.
pub proof fn law_destroy_count(start: Holders, events: Seq<Event>)
    requires
        start.is_consistent(),
    ensures
        holders_after_all(start, events).is_consistent(),
        start.is_destroyed() ==> holders_after_all(start, events) == start,
        destroy_count(start, events) == if !start.is_destroyed() && holders_after_all(
            start,
            events,
        ).is_destroyed() {
            1nat
        } else {
            0nat
        },
    decreases events.len(),
{
    if events.len() > 0 {
        law_destroy_count(holders_after(start, events[0]), events.drop_first());
    }
}

/// From its creation on, whatever is split, duplicated and dropped, in
/// whatever order: a session is destroyed at most once, and exactly once as
/// soon as nobody holds it.
pub proof fn law_destroyed_exactly_once(events: Seq<Event>)
    ensures
        destroy_count(Holders::initial(), events) <= 1,
        destroy_count(Holders::initial(), events) == 1 <==> holders_after_all(
            Holders::initial(),
            events,
        ).is_destroyed(),
{
    law_destroy_count(Holders::initial(), events);
}

/// A course of events that is followed by another: the holders after both
/// are those after the second, started where the first ended, and the
/// destroys add up.
pub proof fn law_courses_compose(start: Holders, first: Seq<Event>, second: Seq<Event>)
    ensures
        holders_after_all(start, first + second) == holders_after_all(
            holders_after_all(start, first),
            second,
        ),
        destroy_count(start, first + second) == destroy_count(start, first) + destroy_count(
            holders_after_all(start, first),
            second,
        ),
    decreases first.len(),
{
    if first.len() == 0 {
        assert(first + second =~= second);
    } else {
        assert((first + second).drop_first() =~= first.drop_first() + second);
        law_courses_compose(holders_after(start, first[0]), first.drop_first(), second);
    }
}

/// The undivided handle, split and with its sender duplicated `clones` times,
/// leaves `clones + 1` senders and the receiver, and nothing destroyed.
pub proof fn law_split_then_clone(clones: nat)
    requires
        clones < MAX_SENDERS,
    ensures
        holders_after_all(
            Holders::initial(),
            seq![Event::Split] + Seq::new(clones, |i: int| Event::CloneSender),
        ) == (Holders { whole: false, senders: clones + 1, receiver: true }),
        destroy_count(
            Holders::initial(),
            seq![Event::Split] + Seq::new(clones, |i: int| Event::CloneSender),
        ) == 0,
{
    let split = seq![Event::Split];
    let cloning = Seq::new(clones, |i: int| Event::CloneSender);
    let halves = Holders { whole: false, senders: 1, receiver: true };
    assert(split.drop_first() =~= Seq::<Event>::empty());
    assert(holders_after_all(Holders::initial(), split) == holders_after_all(
        halves,
        split.drop_first(),
    ));
    assert(holders_after_all(Holders::initial(), split) == halves);
    law_courses_compose(Holders::initial(), split, cloning);
    lemma_clones(halves, clones);
    law_destroyed_exactly_once(split + cloning);
}

proof fn lemma_clones(start: Holders, clones: nat)
    requires
        start.is_consistent(),
        start.senders >= 1,
        start.senders + clones <= MAX_SENDERS,
    ensures
        holders_after_all(start, Seq::new(clones, |i: int| Event::CloneSender)) == (Holders {
            senders: start.senders + clones,
            ..start
        }),
    decreases clones,
{
    let cloning = Seq::new(clones, |i: int| Event::CloneSender);
    if clones > 0 {
        let rest = Seq::new((clones - 1) as nat, |i: int| Event::CloneSender);
        assert(cloning.drop_first() =~= rest);
        lemma_clones(holders_after(start, Event::CloneSender), (clones - 1) as nat);
    }
}

} // verus!
