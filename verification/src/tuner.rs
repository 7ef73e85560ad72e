//! One tuner: what it can receive, the command that drives it, and what it
//! is doing.

use vstd::prelude::*;
use crate::command::{command_words, parse_command};
use crate::config::{clone_channel_types, TunerConfig, TunerConfigView};
use crate::error::{CommandError, TunerError};
use crate::models::ChannelType;
use crate::session::{after_stop, finds_session, users_of, TunerActivity, TunerSessionView};
use crate::template::{render_template, renderable, rendered};
use crate::user::{MirakurunTunerUser, TunerSessionId, TunerSubscriptionId, TunerUser,
    TunerUserPriority, TunerUserView};

verus! {

/// The command that `template` gives for a channel: the template rendered
/// with the name of the channel type, the channel and a dash for the
/// duration. `None` where the template is refused or does not render.
pub open spec fn command_for(template: Seq<char>, channel_type: ChannelType, channel: Seq<char>)
    -> Option<Seq<char>> {
    if renderable(template) {
        rendered(
            template,
            "channel_type"@,
            channel_type.spec_name(),
            "channel"@,
            channel,
            "duration"@,
            "-"@,
        )
    } else {
        None
    }
}

/// The command line that `template` gives for a channel: the command and
/// its words, or why there is none.
pub open spec fn command_line_for(
    template: Seq<char>,
    channel_type: ChannelType,
    channel: Seq<char>,
) -> Result<(Seq<char>, Seq<Seq<char>>), TunerError> {
    match command_for(template, channel_type, channel) {
        Some(command) => match command_words(command) {
            Some(words) => Ok((command, words)),
            None => Err(TunerError::CommandFailed(CommandError::UnableToParse)),
        },
        None => Err(TunerError::TemplateFailed),
    }
}

/// A tuner.
pub struct Tuner {
    pub index: usize,
    pub name: String,
    pub channel_types: Vec<ChannelType>,
    pub command: String,
    pub activity: TunerActivity,
}

/// What a `Tuner` holds.
pub struct TunerView {
    pub index: usize,
    pub name: Seq<char>,
    pub channel_types: Seq<ChannelType>,
    pub command: Seq<char>,
    pub activity: Option<TunerSessionView>,
}

impl TunerView {
    /// The tuner that a configuration describes, at the place `index` and
    /// not yet active.
    pub open spec fn configured(index: usize, config: TunerConfigView) -> Self {
        TunerView {
            index,
            name: config.name,
            channel_types: config.channel_types,
            command: config.command,
            activity: None,
        }
    }

    pub open spec fn is_active(self) -> bool {
        self.activity is Some
    }

    pub open spec fn is_available(self) -> bool {
        self.activity is None
    }

    pub open spec fn is_supported_type(self, channel_type: ChannelType) -> bool {
        self.channel_types.contains(channel_type)
    }

    pub open spec fn is_available_for(self, channel_type: ChannelType) -> bool {
        self.is_available() && self.is_supported_type(channel_type)
    }

    pub open spec fn is_reuseable(self, channel_type: ChannelType, channel: Seq<char>) -> bool {
        match self.activity {
            Some(session) => session.is_reuseable(channel_type, channel),
            None => false,
        }
    }

    /// Whether a user of `priority` may take the tuner over: with the grab
    /// priority always, else only from subscribers of strictly lower
    /// priority.
    pub open spec fn can_grab(self, priority: int) -> bool {
        priority == crate::user::GRAB_PRIORITY || match self.activity {
            Some(session) => session.can_grab(priority),
            None => true,
        }
    }

    /// Whether another subscriber can be given a serial number.
    pub open spec fn has_serial_room(self) -> bool {
        self.activity matches Some(session) ==> session.has_serial_room()
    }

    /// A tuner is well formed when its session, if it has one, is well
    /// formed and carries the tuner's index.
    pub open spec fn wf(self) -> bool {
        self.activity matches Some(session) ==> session.wf() && session.id.tuner_index
            == self.index
    }

    /// The tuner after its session was started by the process `pid`.
    pub open spec fn activated(
        self,
        channel_type: ChannelType,
        channel: Seq<char>,
        command: Seq<char>,
        pid: u32,
    ) -> Self {
        TunerView {
            activity: Some(
                TunerSessionView::started(
                    TunerSessionId { tuner_index: self.index, tuner_pid: pid },
                    channel_type,
                    channel,
                    command,
                ),
            ),
            ..self
        }
    }

    pub open spec fn deactivated(self) -> Self {
        TunerView { activity: None, ..self }
    }

    /// The tuner after `user` subscribed to its session.
    pub open spec fn subscribed(self, user: TunerUserView) -> Self {
        TunerView { activity: Some(self.activity->Some_0.subscribed(user)), ..self }
    }

    /// The tuner after the subscription `id` was stopped: a subscription of
    /// the current session is taken off, and the tuner is deactivated when
    /// it was the last one.
    pub open spec fn stopped(self, id: TunerSubscriptionId) -> Self {
        match after_stop(self.activity, id) {
            Some(session) => if session.id == id.session_id && session.subscribers.len() == 0 {
                self.deactivated()
            } else {
                TunerView { activity: Some(session), ..self }
            },
            None => self,
        }
    }

    /// Whether stopping the subscription `id` finds its session.
    pub open spec fn finds_session(self, id: TunerSubscriptionId) -> bool {
        finds_session(self.activity, id)
    }
}

impl DeepView for Tuner {
    type V = TunerView;

    open spec fn deep_view(&self) -> TunerView {
        TunerView {
            index: self.index,
            name: self.name@,
            channel_types: self.channel_types@,
            command: self.command@,
            activity: self.activity.deep_view(),
        }
    }
}

/// A tuner in the list of tuners.
pub struct MirakurunTuner {
    pub index: usize,
    pub name: String,
    pub channel_types: Vec<ChannelType>,
    pub command: Option<String>,
    pub pid: Option<u32>,
    pub users: Vec<MirakurunTunerUser>,
    pub is_available: bool,
    pub is_remote: bool,
    pub is_free: bool,
    pub is_using: bool,
    pub is_fault: bool,
}

/// What a `MirakurunTuner` holds.
pub struct MirakurunTunerView {
    pub index: usize,
    pub name: Seq<char>,
    pub channel_types: Seq<ChannelType>,
    pub command: Option<Seq<char>>,
    pub pid: Option<u32>,
    pub users: Seq<TunerUserView>,
    pub is_available: bool,
    pub is_remote: bool,
    pub is_free: bool,
    pub is_using: bool,
    pub is_fault: bool,
}

impl MirakurunTunerView {
    /// The entry of a tuner in the list of tuners.
    pub open spec fn of(tuner: TunerView) -> Self {
        MirakurunTunerView {
            index: tuner.index,
            name: tuner.name,
            channel_types: tuner.channel_types,
            command: match tuner.activity {
                Some(session) => Some(session.command),
                None => None,
            },
            pid: match tuner.activity {
                Some(session) => Some(session.id.tuner_pid),
                None => None,
            },
            users: match tuner.activity {
                Some(session) => users_of(session.subscribers),
                None => Seq::empty(),
            },
            is_available: true,
            is_remote: false,
            is_free: tuner.is_available(),
            is_using: !tuner.is_available(),
            is_fault: false,
        }
    }
}

impl DeepView for MirakurunTuner {
    type V = MirakurunTunerView;

    open spec fn deep_view(&self) -> MirakurunTunerView {
        MirakurunTunerView {
            index: self.index,
            name: self.name@,
            channel_types: self.channel_types@,
            command: self.command.deep_view(),
            pid: self.pid,
            users: self.users.deep_view(),
            is_available: self.is_available,
            is_remote: self.is_remote,
            is_free: self.is_free,
            is_using: self.is_using,
            is_fault: self.is_fault,
        }
    }
}

impl Tuner {
    pub fn new(index: usize, config: &TunerConfig) -> (r: Self)
        ensures
            r.deep_view() == TunerView::configured(index, config.deep_view()),
            r.deep_view().wf(),
    {
        Tuner {
            index,
            name: config.name.clone(),
            channel_types: clone_channel_types(&config.channel_types),
            command: config.command.clone(),
            activity: TunerActivity::Inactive,
        }
    }

    pub fn is_active(&self) -> (r: bool)
        ensures
            r == self.deep_view().is_active(),
    {
        self.activity.is_active()
    }

    pub fn is_available(&self) -> (r: bool)
        ensures
            r == self.deep_view().is_available(),
    {
        self.activity.is_inactive()
    }

    pub fn is_supported_type(&self, channel_type: ChannelType) -> (r: bool)
        ensures
            r == self.deep_view().is_supported_type(channel_type),
    {
        let mut i: usize = 0;
        while i < self.channel_types.len()
            invariant
                i <= self.channel_types.len(),
                forall|j: int| 0 <= j < i ==> self.channel_types@[j] != channel_type,
            decreases self.channel_types.len() - i,
        {
            if self.channel_types[i] == channel_type {
                return true;
            }
            i += 1;
        }
        false
    }

    pub fn is_available_for(&self, channel_type: ChannelType) -> (r: bool)
        ensures
            r == self.deep_view().is_available_for(channel_type),
    {
        self.is_available() && self.is_supported_type(channel_type)
    }

    pub fn is_reuseable(&self, channel_type: ChannelType, channel: &str) -> (r: bool)
        ensures
            r == self.deep_view().is_reuseable(channel_type, channel@),
    {
        self.activity.is_reuseable(channel_type, channel)
    }

    pub fn can_grab(&self, priority: TunerUserPriority) -> (r: bool)
        ensures
            r == self.deep_view().can_grab(priority.0 as int),
    {
        priority.is_grab() || self.activity.can_grab(priority)
    }

    /// Starts the session that the process `pid` serves; `command` is the
    /// command that the process runs.
    pub fn activate(&mut self, channel_type: ChannelType, channel: String, command: String, pid: u32)
        requires
            old(self).deep_view().is_available(),
        ensures
            final(self).deep_view() == old(self).deep_view().activated(
                channel_type,
                channel@,
                command@,
                pid,
            ),
            final(self).deep_view().wf(),
    {
        self.activity.activate(self.index, channel_type, channel, command, pid);
    }

    pub fn deactivate(&mut self)
        ensures
            final(self).deep_view() == old(self).deep_view().deactivated(),
            final(self).deep_view().wf(),
    {
        self.activity.deactivate();
    }

    pub fn subscribe(&mut self, user: TunerUser) -> (id: TunerSubscriptionId)
        requires
            old(self).deep_view().is_active(),
            old(self).deep_view().has_serial_room(),
        ensures
            id == old(self).deep_view().activity->Some_0.next_subscription(),
            final(self).deep_view() == old(self).deep_view().subscribed(user.deep_view()),
            old(self).deep_view().wf() ==> final(self).deep_view().wf(),
    {
        self.activity.subscribe(user)
    }

    /// Stops the subscription `id`. When it was the last one of the
    /// session, the tuner is deactivated.
    pub fn stop_streaming(&mut self, id: TunerSubscriptionId) -> (r: Result<(), TunerError>)
        ensures
            final(self).deep_view() == old(self).deep_view().stopped(id),
            r == (if old(self).deep_view().finds_session(id) {
                Ok::<(), TunerError>(())
            } else {
                Err::<(), TunerError>(TunerError::SessionNotFound)
            }),
            old(self).deep_view().wf() ==> final(self).deep_view().wf(),
    {
        let ghost before = self.deep_view();
        match self.activity.stop_streaming(id) {
            Ok(num_users) => {
                if num_users == 0 {
                    self.deactivate();
                }
                proof {
                    if before.wf() {
                        lemma_unsubscribed_keeps_wf(before.activity->Some_0, id.serial_number);
                    }
                }
                Ok(())
            },
            Err(e) => Err(e),
        }
    }

    pub fn get_model(&self) -> (r: MirakurunTuner)
        ensures
            r.deep_view() == MirakurunTunerView::of(self.deep_view()),
    {
        let (command, pid, users) = self.activity.get_models();
        MirakurunTuner {
            index: self.index,
            name: self.name.clone(),
            channel_types: clone_channel_types(&self.channel_types),
            command,
            pid,
            users,
            is_available: true,
            is_remote: false,
            is_free: self.is_available(),
            is_using: !self.is_available(),
            is_fault: false,
        }
    }

    /// The command for a channel, made from the tuner's template.
    pub fn make_command(&self, channel_type: ChannelType, channel: &str) -> (r: Result<
        String,
        TunerError,
    >)
        ensures
            match command_for(self.command@, channel_type, channel@) {
                Some(command) => r matches Ok(text) && text@ == command,
                None => r == Err::<String, TunerError>(TunerError::TemplateFailed),
            },
    {
        match render_template(
            self.command.as_str(),
            "channel_type",
            channel_type.name(),
            "channel",
            channel,
            "duration",
            "-",
        ) {
            Some(command) => Ok(command),
            None => Err(TunerError::TemplateFailed),
        }
    }
}

impl Tuner {
    /// The command for a channel together with its words: the program and
    /// its arguments.
    pub fn make_command_line(&self, channel_type: ChannelType, channel: &str) -> (r: Result<
        (String, Vec<String>),
        TunerError,
    >)
        ensures
            match command_line_for(self.command@, channel_type, channel@) {
                Ok(line) => r matches Ok(pair) && pair.0@ == line.0 && pair.1.deep_view()
                    == line.1,
                Err(e) => r == Err::<(String, Vec<String>), TunerError>(e),
            },
    {
        let command = self.make_command(channel_type, channel)?;
        let words = parse_command(command.as_str())?;
        Ok((command, words))
    }
}

/// Taking a subscriber off leaves the serial numbers of the others as they
/// were.
pub proof fn lemma_unsubscribed_keeps_wf(session: TunerSessionView, serial: u32)
    requires
        session.wf(),
    ensures
        session.unsubscribed(serial).wf(),
{
    let i = session.subscriber_index(serial);
    lemma_subscriber_index_range(session, serial, 0);
    if i < session.subscribers.len() {
        let after = session.unsubscribed(serial);
        assert forall|a: int| 0 <= a < after.subscribers.len() implies 1 <= (
        #[trigger] after.subscribers[a]).0 < after.next_serial_number by {
            if a < i {
                assert(after.subscribers[a] == session.subscribers[a]);
            } else {
                assert(after.subscribers[a] == session.subscribers[a + 1]);
            }
        }
        assert forall|a: int, b: int| 0 <= a < b < after.subscribers.len() implies (
        #[trigger] after.subscribers[a]).0 < (#[trigger] after.subscribers[b]).0 by {
            let x = if a < i { a } else { a + 1 };
            let y = if b < i { b } else { b + 1 };
            assert(after.subscribers[a] == session.subscribers[x]);
            assert(after.subscribers[b] == session.subscribers[y]);
        }
    }
}

/// The place that is found for a serial number lies between where the
/// search starts and the number of subscribers.
pub proof fn lemma_subscriber_index_range(session: TunerSessionView, serial: u32, from: int)
    requires
        0 <= from <= session.subscribers.len(),
    ensures
        from <= session.subscriber_index_from(serial, from) <= session.subscribers.len(),
    decreases session.subscribers.len() - from,
{
    if from < session.subscribers.len() && session.subscribers[from].0 != serial {
        lemma_subscriber_index_range(session, serial, from + 1);
    }
}

/// The highest priority among a list of subscribers; none for an empty
/// list.
pub open spec fn highest_priority(subscribers: Seq<(u32, TunerUserView)>) -> Option<int>
    decreases subscribers.len(),
{
    if subscribers.len() == 0 {
        None
    } else {
        let last = subscribers.last().1.priority;
        match highest_priority(subscribers.drop_last()) {
            Some(rest) => Some(if rest >= last { rest } else { last }),
            None => Some(last),
        }
    }
}

/// A priority is above every subscriber exactly when it is above the
/// highest priority among them.
pub proof fn lemma_above_all_is_above_highest(subscribers: Seq<(u32, TunerUserView)>, priority: int)
    ensures
        (forall|i: int| 0 <= i < subscribers.len() ==> priority > (#[trigger] subscribers[i]).1.priority)
            <==> match highest_priority(subscribers) {
            Some(highest) => priority > highest,
            None => true,
        },
    decreases subscribers.len(),
{
    if subscribers.len() > 0 {
        let rest = subscribers.drop_last();
        lemma_above_all_is_above_highest(rest, priority);
        assert forall|i: int| 0 <= i < rest.len() implies rest[i] == subscribers[i] by {}
        if forall|i: int| 0 <= i < subscribers.len() ==> priority > (#[trigger] subscribers[i]).1.priority {
            assert forall|i: int| 0 <= i < rest.len() implies priority > (#[trigger] rest[i]).1.priority by {
                assert(rest[i] == subscribers[i]);
            }
            assert(priority > subscribers[subscribers.len() - 1].1.priority);
        }
        if (forall|i: int| 0 <= i < rest.len() ==> priority > (#[trigger] rest[i]).1.priority)
            && priority > subscribers.last().1.priority {
            assert forall|i: int| 0 <= i < subscribers.len() implies priority > (
            #[trigger] subscribers[i]).1.priority by {
                if i < rest.len() {
                    assert(rest[i] == subscribers[i]);
                }
            }
        }
    }
}

/// Grab monotonicity: an active tuner can be grabbed with a priority exactly
/// when the priority is the grab priority or lies above the highest
/// priority among the subscribers.
pub proof fn lemma_can_grab_is_above_highest(tuner: TunerView, priority: int)
    requires
        tuner.activity is Some,
    ensures
        tuner.can_grab(priority) <==> (priority == crate::user::GRAB_PRIORITY
            || match highest_priority(tuner.activity->Some_0.subscribers) {
            Some(highest) => priority > highest,
            None => true,
        }),
{
    lemma_above_all_is_above_highest(tuner.activity->Some_0.subscribers, priority);
}

/// Subscription serials: the first subscription of a session has the serial
/// number one, and each further one the number after the one before.
pub proof fn lemma_serial_numbers_increase(
    session: TunerSessionView,
    first: TunerUserView,
    id: TunerSessionId,
    channel_type: ChannelType,
    channel: Seq<char>,
    command: Seq<char>,
)
    requires
        session.has_serial_room(),
    ensures
        TunerSessionView::started(id, channel_type, channel, command).next_subscription().serial_number
            == 1,
        session.subscribed(first).next_subscription().serial_number
            == session.next_subscription().serial_number + 1,
        session.subscribed(first).next_subscription().session_id
            == session.next_subscription().session_id,
        session.wf() ==> session.subscribed(first).wf(),
{
}

} // verus!
