//! The session of an active tuner: what it is tuned to, who subscribes to
//! it, and the serial numbers it hands out.
//!
//! The process that serves a session and the broadcaster that fans its
//! output out are held by the caller, under the session's identifier.

use vstd::prelude::*;
use crate::error::TunerError;
use crate::models::ChannelType;
use crate::text::same_text;
use crate::user::{MirakurunTunerUser, TunerSessionId, TunerSubscriptionId, TunerUser,
    TunerUserPriority, TunerUserView};

verus! {

/// A subscriber of a session: a user under the serial number it was given.
pub struct TunerSubscriber {
    pub serial_number: u32,
    pub user: TunerUser,
}

impl DeepView for TunerSubscriber {
    type V = (u32, TunerUserView);

    open spec fn deep_view(&self) -> (u32, TunerUserView) {
        (self.serial_number, self.user.deep_view())
    }
}

/// One continuous activation of a tuner.
pub struct TunerSession {
    pub id: TunerSessionId,
    pub channel_type: ChannelType,
    pub channel: String,
    pub command: String,
    /// The subscribers, in the order in which they subscribed.
    pub subscribers: Vec<TunerSubscriber>,
    pub next_serial_number: u32,
}

/// What a `TunerSession` holds.
pub struct TunerSessionView {
    pub id: TunerSessionId,
    pub channel_type: ChannelType,
    pub channel: Seq<char>,
    pub command: Seq<char>,
    pub subscribers: Seq<(u32, TunerUserView)>,
    pub next_serial_number: u32,
}

impl TunerSessionView {
    /// A session that was just started: nobody subscribes yet, and the first
    /// serial number is one.
    pub open spec fn started(
        id: TunerSessionId,
        channel_type: ChannelType,
        channel: Seq<char>,
        command: Seq<char>,
    ) -> Self {
        TunerSessionView {
            id,
            channel_type,
            channel,
            command,
            subscribers: Seq::empty(),
            next_serial_number: 1,
        }
    }

    /// Serial numbers start at one, grow from one subscriber to the next,
    /// and all lie below the next one to be handed out.
    pub open spec fn wf(self) -> bool {
        &&& self.next_serial_number >= 1
        &&& forall|i: int|
            0 <= i < self.subscribers.len() ==> 1 <= (#[trigger] self.subscribers[i]).0
                < self.next_serial_number
        &&& forall|i: int, j: int|
            0 <= i < j < self.subscribers.len() ==> (#[trigger] self.subscribers[i]).0 < (
            #[trigger] self.subscribers[j]).0
    }

    /// Whether another serial number can be handed out.
    pub open spec fn has_serial_room(self) -> bool {
        self.next_serial_number < u32::MAX
    }

    pub open spec fn is_reuseable(self, channel_type: ChannelType, channel: Seq<char>) -> bool {
        self.channel_type == channel_type && self.channel == channel
    }

    /// Whether `priority` is strictly higher than the priority of every
    /// subscriber.
    pub open spec fn can_grab(self, priority: int) -> bool {
        forall|i: int|
            0 <= i < self.subscribers.len() ==> priority > (#[trigger] self.subscribers[i]).1.priority
    }

    /// The identifier of the next subscription.
    pub open spec fn next_subscription(self) -> TunerSubscriptionId {
        TunerSubscriptionId { session_id: self.id, serial_number: self.next_serial_number }
    }

    /// The session after `user` subscribed.
    pub open spec fn subscribed(self, user: TunerUserView) -> Self {
        TunerSessionView {
            subscribers: self.subscribers.push((self.next_serial_number, user)),
            next_serial_number: (self.next_serial_number + 1) as u32,
            ..self
        }
    }

    /// The place, at or behind `from`, of the first subscriber under
    /// `serial`, or the number of subscribers where there is none.
    pub open spec fn subscriber_index_from(self, serial: u32, from: int) -> int
        decreases self.subscribers.len() - from,
    {
        if from < 0 || from >= self.subscribers.len() {
            self.subscribers.len() as int
        } else if self.subscribers[from].0 == serial {
            from
        } else {
            self.subscriber_index_from(serial, from + 1)
        }
    }

    /// The place of the subscriber under `serial`, or the number of
    /// subscribers where there is none.
    pub open spec fn subscriber_index(self, serial: u32) -> int {
        self.subscriber_index_from(serial, 0)
    }

    /// The session after the subscription under `serial` ended.
    pub open spec fn unsubscribed(self, serial: u32) -> Self {
        let i = self.subscriber_index(serial);
        if i < self.subscribers.len() {
            TunerSessionView { subscribers: self.subscribers.remove(i), ..self }
        } else {
            self
        }
    }
}

impl DeepView for TunerSession {
    type V = TunerSessionView;

    open spec fn deep_view(&self) -> TunerSessionView {
        TunerSessionView {
            id: self.id,
            channel_type: self.channel_type,
            channel: self.channel@,
            command: self.command@,
            subscribers: self.subscribers.deep_view(),
            next_serial_number: self.next_serial_number,
        }
    }
}

impl TunerSession {
    /// The session of the tuner `tuner_index` whose command runs as the
    /// process `pid`.
    pub fn new(
        tuner_index: usize,
        channel_type: ChannelType,
        channel: String,
        command: String,
        pid: u32,
    ) -> (r: Self)
        ensures
            r.deep_view() == TunerSessionView::started(
                TunerSessionId { tuner_index, tuner_pid: pid },
                channel_type,
                channel@,
                command@,
            ),
            r.deep_view().wf(),
    {
        let r = TunerSession {
            id: TunerSessionId { tuner_index, tuner_pid: pid },
            channel_type,
            channel,
            command,
            subscribers: Vec::new(),
            next_serial_number: 1,
        };
        assert(r.deep_view().subscribers =~= Seq::empty());
        r
    }

    pub fn is_reuseable(&self, channel_type: ChannelType, channel: &str) -> (r: bool)
        ensures
            r == self.deep_view().is_reuseable(channel_type, channel@),
    {
        self.channel_type == channel_type && same_text(self.channel.as_str(), channel)
    }

    /// Gives `user` the next serial number and records the subscription.
    pub fn subscribe(&mut self, user: TunerUser) -> (id: TunerSubscriptionId)
        requires
            old(self).deep_view().has_serial_room(),
        ensures
            id == old(self).deep_view().next_subscription(),
            final(self).deep_view() == old(self).deep_view().subscribed(user.deep_view()),
            old(self).deep_view().wf() ==> final(self).deep_view().wf(),
    {
        let ghost before = self.deep_view();
        let serial_number = self.next_serial_number;
        self.next_serial_number += 1;
        let id = TunerSubscriptionId { session_id: self.id, serial_number };
        self.subscribers.push(TunerSubscriber { serial_number, user });
        assert(self.deep_view().subscribers =~= before.subscribers.push(
            (serial_number, user.deep_view()),
        ));
        id
    }

    /// Whether `priority` is strictly higher than the priority of every
    /// subscriber.
    pub fn can_grab(&self, priority: TunerUserPriority) -> (r: bool)
        ensures
            r == self.deep_view().can_grab(priority.0 as int),
    {
        let ghost view = self.deep_view();
        let mut i: usize = 0;
        while i < self.subscribers.len()
            invariant
                i <= self.subscribers.len(),
                view == self.deep_view(),
                forall|j: int| 0 <= j < i ==> priority.0 > (#[trigger] view.subscribers[j]).1.priority,
            decreases self.subscribers.len() - i,
        {
            assert(view.subscribers[i as int] == self.subscribers[i as int].deep_view());
            if !(priority.0 > self.subscribers[i].user.priority.0) {
                return false;
            }
            i += 1;
        }
        true
    }

    /// Ends the subscription `id` and returns the number of subscribers that
    /// are left. A subscription of another session is refused.
    pub fn stop_streaming(&mut self, id: TunerSubscriptionId) -> (r: Result<usize, TunerError>)
        ensures
            old(self).id != id.session_id ==> r == Err::<usize, TunerError>(
                TunerError::SessionNotFound,
            ) && final(self).deep_view() == old(self).deep_view(),
            old(self).id == id.session_id ==> final(self).deep_view() == old(
                self,
            ).deep_view().unsubscribed(id.serial_number) && r == Ok::<usize, TunerError>(
                final(self).subscribers.len(),
            ),
            old(self).deep_view().wf() ==> final(self).deep_view().wf(),
    {
        if self.id != id.session_id {
            return Err(TunerError::SessionNotFound);
        }
        let ghost before = self.deep_view();
        let mut i: usize = 0;
        while i < self.subscribers.len() && self.subscribers[i].serial_number != id.serial_number
            invariant
                i <= self.subscribers.len(),
                before == self.deep_view(),
                before.subscriber_index(id.serial_number) == before.subscriber_index_from(
                    id.serial_number,
                    i as int,
                ),
            decreases self.subscribers.len() - i,
        {
            i += 1;
        }
        if i < self.subscribers.len() {
            let _ = self.subscribers.remove(i);
            assert(self.deep_view().subscribers =~= before.subscribers.remove(i as int));
        }
        Ok(self.subscribers.len())
    }

    /// The command, the process and the users of the session, for the list
    /// of tuners.
    pub fn get_models(&self) -> (r: (Option<String>, Option<u32>, Vec<MirakurunTunerUser>))
        ensures
            r.0.deep_view() == Some(self.command@),
            r.1 == Some(self.id.tuner_pid),
            r.2.deep_view() == users_of(self.deep_view().subscribers),
    {
        let ghost view = self.deep_view();
        let mut users: Vec<MirakurunTunerUser> = Vec::new();
        let mut i: usize = 0;
        while i < self.subscribers.len()
            invariant
                i <= self.subscribers.len(),
                view == self.deep_view(),
                users.len() == i,
                forall|j: int|
                    0 <= j < i ==> (#[trigger] users[j]).deep_view() == view.subscribers[j].1,
            decreases self.subscribers.len() - i,
        {
            users.push(self.subscribers[i].user.get_model());
            i += 1;
        }
        (Some(self.command.clone()), Some(self.id.tuner_pid), users)
    }
}

/// The users of a list of subscribers, in its order.
pub open spec fn users_of(subscribers: Seq<(u32, TunerUserView)>) -> Seq<TunerUserView> {
    Seq::new(subscribers.len(), |i: int| subscribers[i].1)
}

/// What a tuner is doing.
pub enum TunerActivity {
    Inactive,
    Active(TunerSession),
}

impl DeepView for TunerActivity {
    type V = Option<TunerSessionView>;

    open spec fn deep_view(&self) -> Option<TunerSessionView> {
        match *self {
            TunerActivity::Inactive => None,
            TunerActivity::Active(session) => Some(session.deep_view()),
        }
    }
}

impl TunerActivity {
    /// Starts the session of the tuner `tuner_index`, served by the process
    /// `pid`.
    pub fn activate(
        &mut self,
        tuner_index: usize,
        channel_type: ChannelType,
        channel: String,
        command: String,
        pid: u32,
    )
        requires
            old(self).deep_view() is None,
        ensures
            final(self).deep_view() == Some(
                TunerSessionView::started(
                    TunerSessionId { tuner_index, tuner_pid: pid },
                    channel_type,
                    channel@,
                    command@,
                ),
            ),
    {
        *self = TunerActivity::Active(
            TunerSession::new(tuner_index, channel_type, channel, command, pid),
        );
    }

    pub fn deactivate(&mut self)
        ensures
            final(self).deep_view() is None,
    {
        *self = TunerActivity::Inactive;
    }

    pub fn is_active(&self) -> (r: bool)
        ensures
            r == self.deep_view() is Some,
    {
        match self {
            TunerActivity::Inactive => false,
            TunerActivity::Active(_) => true,
        }
    }

    pub fn is_inactive(&self) -> (r: bool)
        ensures
            r == self.deep_view() is None,
    {
        !self.is_active()
    }

    pub fn is_reuseable(&self, channel_type: ChannelType, channel: &str) -> (r: bool)
        ensures
            r == match self.deep_view() {
                Some(session) => session.is_reuseable(channel_type, channel@),
                None => false,
            },
    {
        match self {
            TunerActivity::Inactive => false,
            TunerActivity::Active(session) => session.is_reuseable(channel_type, channel),
        }
    }

    pub fn subscribe(&mut self, user: TunerUser) -> (id: TunerSubscriptionId)
        requires
            old(self).deep_view() matches Some(session) && session.has_serial_room(),
        ensures
            id == old(self).deep_view()->Some_0.next_subscription(),
            final(self).deep_view() == Some(
                old(self).deep_view()->Some_0.subscribed(user.deep_view()),
            ),
    {
        match self {
            TunerActivity::Inactive => TunerSubscriptionId::default(),
            TunerActivity::Active(session) => session.subscribe(user),
        }
    }

    pub fn stop_streaming(&mut self, id: TunerSubscriptionId) -> (r: Result<usize, TunerError>)
        ensures
            final(self).deep_view() == after_stop(old(self).deep_view(), id),
            r is Ok <==> finds_session(old(self).deep_view(), id),
            r matches Ok(n) ==> n == final(self).deep_view()->Some_0.subscribers.len(),
            r matches Err(e) ==> e == TunerError::SessionNotFound,
    {
        match self {
            TunerActivity::Inactive => Err(TunerError::SessionNotFound),
            TunerActivity::Active(session) => session.stop_streaming(id),
        }
    }

    pub fn can_grab(&self, priority: TunerUserPriority) -> (r: bool)
        ensures
            r == match self.deep_view() {
                Some(session) => session.can_grab(priority.0 as int),
                None => true,
            },
    {
        match self {
            TunerActivity::Inactive => true,
            TunerActivity::Active(session) => session.can_grab(priority),
        }
    }

    pub fn get_models(&self) -> (r: (Option<String>, Option<u32>, Vec<MirakurunTunerUser>))
        ensures
            match self.deep_view() {
                Some(session) => r.0.deep_view() == Some(session.command) && r.1 == Some(
                    session.id.tuner_pid,
                ) && r.2.deep_view() == users_of(session.subscribers),
                None => r.0 is None && r.1 is None && r.2.deep_view() == Seq::<
                    TunerUserView,
                >::empty(),
            },
    {
        match self {
            TunerActivity::Inactive => {
                let users: Vec<MirakurunTunerUser> = Vec::new();
                (None, None, users)
            },
            TunerActivity::Active(session) => session.get_models(),
        }
    }
}

/// What a tuner is doing after the subscription `id` was stopped on it: a
/// subscription of its session is taken off, any other changes nothing.
pub open spec fn after_stop(activity: Option<TunerSessionView>, id: TunerSubscriptionId) -> Option<
    TunerSessionView,
> {
    match activity {
        Some(session) => if session.id == id.session_id {
            Some(session.unsubscribed(id.serial_number))
        } else {
            Some(session)
        },
        None => None,
    }
}

/// Whether the subscription `id` belongs to the session that is running.
pub open spec fn finds_session(activity: Option<TunerSessionView>, id: TunerSubscriptionId) -> bool {
    activity matches Some(session) && session.id == id.session_id
}

} // verus!
