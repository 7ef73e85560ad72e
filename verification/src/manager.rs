//! The tuner manager: which tuner serves a request.
//!
//! The manager decides; it starts no process. Where a tuner has to be
//! started, it hands back the command to run, and is told the process
//! afterwards.

use vstd::prelude::*;
use crate::config::Config;
use crate::error::{CommandError, TunerError};
use crate::models::ChannelType;
use crate::tuner::{command_line_for, MirakurunTuner, MirakurunTunerView, Tuner, TunerView};
use crate::user::{TunerSessionId, TunerSubscriptionId, TunerUser, TunerUserInfo, TunerUserInfoView,
    TunerUserView};

verus! {

/// The place, at or behind `from`, of the first tuner that is wanted, or the
/// number of tuners where there is none.
pub open spec fn first_from(tuners: Seq<TunerView>, wanted: spec_fn(TunerView) -> bool, from: int)
    -> int
    decreases tuners.len() - from,
{
    if from < 0 || from >= tuners.len() {
        tuners.len() as int
    } else if wanted(tuners[from]) {
        from
    } else {
        first_from(tuners, wanted, from + 1)
    }
}

/// The place of the first tuner that is wanted, or the number of tuners
/// where there is none.
pub open spec fn first(tuners: Seq<TunerView>, wanted: spec_fn(TunerView) -> bool) -> int {
    first_from(tuners, wanted, 0)
}

/// The tuners that are active on a channel.
pub open spec fn reusable_on(channel_type: ChannelType, channel: Seq<char>) -> spec_fn(
    TunerView,
) -> bool {
    |t: TunerView| t.is_reuseable(channel_type, channel)
}

/// The tuners that are inactive and support a channel type.
pub open spec fn free_for(channel_type: ChannelType) -> spec_fn(TunerView) -> bool {
    |t: TunerView| t.is_available_for(channel_type)
}

/// The tuners that support a channel type and can be taken over with a
/// priority.
pub open spec fn grabbable_for(channel_type: ChannelType, priority: int) -> spec_fn(
    TunerView,
) -> bool {
    |t: TunerView| t.is_supported_type(channel_type) && t.can_grab(priority)
}

/// What the manager does with a request.
pub enum Selection {
    /// The user joins the session of the tuner at this place.
    Join(int),
    /// The inactive tuner at this place is started.
    Activate(int),
    /// The tuner at this place is taken from its subscribers and started
    /// anew.
    Grab(int),
    /// No tuner can serve.
    Unavailable,
}

/// The selection policy. A tracker is pinned to the tuner of the stream it
/// follows and never starts one. Anybody else joins the first tuner that is
/// active on the channel; else gets the first inactive tuner that supports
/// the channel type; else takes over the first supporting tuner that can be
/// grabbed; else is turned away.
pub open spec fn select(
    tuners: Seq<TunerView>,
    channel_type: ChannelType,
    channel: Seq<char>,
    user: TunerUserView,
) -> Selection {
    match user.info {
        TunerUserInfoView::Tracker { stream_id } => {
            let pinned = stream_id.session_id.tuner_index as int;
            if tuners[pinned].is_active() {
                Selection::Join(pinned)
            } else {
                Selection::Unavailable
            }
        },
        _ => {
            let reusable = first(tuners, reusable_on(channel_type, channel));
            let free = first(tuners, free_for(channel_type));
            let grabbable = first(tuners, grabbable_for(channel_type, user.priority));
            if reusable < tuners.len() {
                Selection::Join(reusable)
            } else if free < tuners.len() {
                Selection::Activate(free)
            } else if grabbable < tuners.len() {
                Selection::Grab(grabbable)
            } else {
                Selection::Unavailable
            }
        },
    }
}

/// Whether the request names a tuner that exists: a tracker must follow a
/// stream of one of the tuners.
pub open spec fn names_tuner(tuners: Seq<TunerView>, user: TunerUserView) -> bool {
    user.info matches TunerUserInfoView::Tracker { stream_id }
        ==> stream_id.session_id.tuner_index < tuners.len()
}

/// Whether every active tuner can give another subscriber a serial number.
pub open spec fn have_serial_room(tuners: Seq<TunerView>) -> bool {
    forall|i: int| 0 <= i < tuners.len() ==> (#[trigger] tuners[i]).has_serial_room()
}

/// Whether every tuner is well formed and stands at the place of its index.
pub open spec fn tuners_wf(tuners: Seq<TunerView>) -> bool {
    forall|i: int| 0 <= i < tuners.len() ==> (#[trigger] tuners[i]).wf() && tuners[i].index == i
}

/// The first wanted tuner is wanted, and no tuner before it is.
pub proof fn lemma_first_is_least(tuners: Seq<TunerView>, wanted: spec_fn(TunerView) -> bool)
    ensures
        0 <= first(tuners, wanted) <= tuners.len(),
        first(tuners, wanted) < tuners.len() ==> wanted(tuners[first(tuners, wanted)]),
        forall|j: int| 0 <= j < first(tuners, wanted) ==> !wanted(#[trigger] tuners[j]),
{
    lemma_first_from_is_least(tuners, wanted, 0);
}

pub proof fn lemma_first_from_is_least(
    tuners: Seq<TunerView>,
    wanted: spec_fn(TunerView) -> bool,
    from: int,
)
    requires
        0 <= from <= tuners.len(),
    ensures
        from <= first_from(tuners, wanted, from) <= tuners.len(),
        first_from(tuners, wanted, from) < tuners.len() ==> wanted(
            tuners[first_from(tuners, wanted, from)],
        ),
        forall|j: int| from <= j < first_from(tuners, wanted, from) ==> !wanted(#[trigger] tuners[j]),
    decreases tuners.len() - from,
{
    if from < tuners.len() && !wanted(tuners[from]) {
        lemma_first_from_is_least(tuners, wanted, from + 1);
    }
}

/// What the caller has to do after a request was accepted.
pub enum TunerActivation {
    /// The user subscribes to a session that is running.
    Subscribed(TunerSubscriptionId),
    /// The tuner at `tuner_index` is inactive and waits for `command` to be
    /// started; `words` are the program and its arguments.
    Spawn { tuner_index: usize, command: String, words: Vec<String> },
}

/// What a `TunerActivation` holds.
pub enum TunerActivationView {
    Subscribed(TunerSubscriptionId),
    Spawn { tuner_index: usize, command: Seq<char>, words: Seq<Seq<char>> },
}

impl DeepView for TunerActivation {
    type V = TunerActivationView;

    open spec fn deep_view(&self) -> TunerActivationView {
        match *self {
            TunerActivation::Subscribed(id) => TunerActivationView::Subscribed(id),
            TunerActivation::Spawn {
                tuner_index,
                command,
                words,
            } => TunerActivationView::Spawn {
                tuner_index,
                command: command@,
                words: words.deep_view(),
            },
        }
    }
}

/// What is handed back for the tuner at `index` that is to be started: its
/// command for the channel with the words of the command, or that the
/// command could not be made or not be split.
pub open spec fn spawn_result(
    tuners: Seq<TunerView>,
    index: int,
    channel_type: ChannelType,
    channel: Seq<char>,
) -> Result<TunerActivationView, TunerError> {
    match command_line_for(tuners[index].command, channel_type, channel) {
        Ok(line) => Ok(
            TunerActivationView::Spawn {
                tuner_index: index as usize,
                command: line.0,
                words: line.1,
            },
        ),
        Err(e) => Err(e),
    }
}

/// What a request returns.
pub open spec fn activation_result(
    tuners: Seq<TunerView>,
    channel_type: ChannelType,
    channel: Seq<char>,
    user: TunerUserView,
) -> Result<TunerActivationView, TunerError> {
    match select(tuners, channel_type, channel, user) {
        Selection::Join(i) => Ok(
            TunerActivationView::Subscribed(tuners[i].activity->Some_0.next_subscription()),
        ),
        Selection::Activate(i) => spawn_result(tuners, i, channel_type, channel),
        Selection::Grab(i) => spawn_result(tuners, i, channel_type, channel),
        Selection::Unavailable => Err(TunerError::TunerUnavailable),
    }
}

/// The tuners after a request: a joined tuner has one subscriber more, a
/// grabbed tuner is inactive, and nothing else changes.
pub open spec fn after_activation(
    tuners: Seq<TunerView>,
    channel_type: ChannelType,
    channel: Seq<char>,
    user: TunerUserView,
) -> Seq<TunerView> {
    match select(tuners, channel_type, channel, user) {
        Selection::Join(i) => tuners.update(i, tuners[i].subscribed(user)),
        Selection::Activate(i) => tuners,
        Selection::Grab(i) => tuners.update(i, tuners[i].deactivated()),
        Selection::Unavailable => tuners,
    }
}

/// The tuners after the start of the tuner at `index` ended: with a process,
/// the tuner runs a session to which the user subscribes; without one,
/// nothing changes.
pub open spec fn after_spawn(
    tuners: Seq<TunerView>,
    index: int,
    channel_type: ChannelType,
    channel: Seq<char>,
    command: Seq<char>,
    spawned: Option<u32>,
    user: TunerUserView,
) -> Seq<TunerView> {
    match spawned {
        Some(pid) => tuners.update(
            index,
            tuners[index].activated(channel_type, channel, command, pid).subscribed(user),
        ),
        None => tuners,
    }
}

pub open spec fn result_view(r: Result<TunerActivation, TunerError>) -> Result<
    TunerActivationView,
    TunerError,
> {
    match r {
        Ok(activation) => Ok(activation.deep_view()),
        Err(e) => Err(e),
    }
}

/// The tuners that a configuration describes: those that are not disabled,
/// numbered in their order.
pub open spec fn configured_tuners(config: Seq<crate::config::TunerConfigView>) -> Seq<TunerView>
    decreases config.len(),
{
    if config.len() == 0 {
        Seq::empty()
    } else {
        let rest = configured_tuners(config.drop_last());
        if config.last().disabled {
            rest
        } else {
            rest.push(TunerView::configured(rest.len() as usize, config.last()))
        }
    }
}

/// The priority-preemptive scheduler over the tuners.
pub struct TunerManager {
    pub tuners: Vec<Tuner>,
}

impl DeepView for TunerManager {
    type V = Seq<TunerView>;

    open spec fn deep_view(&self) -> Seq<TunerView> {
        self.tuners.deep_view()
    }
}

impl TunerManager {
    /// A manager without tuners.
    pub fn new() -> (r: Self)
        ensures
            r.deep_view() == Seq::<TunerView>::empty(),
    {
        let r = TunerManager { tuners: Vec::new() };
        r
    }

    /// Replaces the tuners by those that the configuration enables.
    pub fn load_tuners(&mut self, config: &Config)
        ensures
            final(self).deep_view() == configured_tuners(config.tuners.deep_view()),
            tuners_wf(final(self).deep_view()),
    {
        let mut tuners: Vec<Tuner> = Vec::new();
        let ghost all = config.tuners.deep_view();
        let mut i: usize = 0;
        while i < config.tuners.len()
            invariant
                i <= config.tuners.len(),
                all == config.tuners.deep_view(),
                tuners.deep_view() == configured_tuners(all.take(i as int)),
                tuners_wf(tuners.deep_view()),
            decreases config.tuners.len() - i,
        {
            proof {
                assert(all.take(i + 1).drop_last() =~= all.take(i as int));
            }
            if !config.tuners[i].disabled {
                let ghost before = tuners.deep_view();
                let tuner = Tuner::new(tuners.len(), &config.tuners[i]);
                tuners.push(tuner);
                assert(tuners.deep_view() =~= before.push(tuner.deep_view()));
            }
            i += 1;
        }
        assert(all.take(config.tuners.len() as int) =~= all);
        self.tuners = tuners;
    }

    fn find_reusable(&self, channel_type: ChannelType, channel: &str) -> (r: usize)
        ensures
            r == first(self.deep_view(), reusable_on(channel_type, channel@)),
            r <= self.tuners.len(),
    {
        let ghost tuners = self.deep_view();
        let ghost wanted = reusable_on(channel_type, channel@);
        let mut i: usize = 0;
        while i < self.tuners.len()
            invariant
                i <= self.tuners.len(),
                tuners == self.deep_view(),
                wanted == reusable_on(channel_type, channel@),
                first(tuners, wanted) == first_from(tuners, wanted, i as int),
            decreases self.tuners.len() - i,
        {
            if self.tuners[i].is_reuseable(channel_type, channel) {
                return i;
            }
            i += 1;
        }
        i
    }

    fn find_free(&self, channel_type: ChannelType) -> (r: usize)
        ensures
            r == first(self.deep_view(), free_for(channel_type)),
            r <= self.tuners.len(),
    {
        let ghost tuners = self.deep_view();
        let ghost wanted = free_for(channel_type);
        let mut i: usize = 0;
        while i < self.tuners.len()
            invariant
                i <= self.tuners.len(),
                tuners == self.deep_view(),
                wanted == free_for(channel_type),
                first(tuners, wanted) == first_from(tuners, wanted, i as int),
            decreases self.tuners.len() - i,
        {
            if self.tuners[i].is_available_for(channel_type) {
                return i;
            }
            i += 1;
        }
        i
    }

    fn find_grabbable(&self, channel_type: ChannelType, user: &TunerUser) -> (r: usize)
        ensures
            r == first(self.deep_view(), grabbable_for(channel_type, user.deep_view().priority)),
            r <= self.tuners.len(),
    {
        let ghost tuners = self.deep_view();
        let ghost wanted = grabbable_for(channel_type, user.deep_view().priority);
        let mut i: usize = 0;
        while i < self.tuners.len()
            invariant
                i <= self.tuners.len(),
                tuners == self.deep_view(),
                wanted == grabbable_for(channel_type, user.deep_view().priority),
                first(tuners, wanted) == first_from(tuners, wanted, i as int),
            decreases self.tuners.len() - i,
        {
            if self.tuners[i].is_supported_type(channel_type) && self.tuners[i].can_grab(
                user.priority,
            ) {
                return i;
            }
            i += 1;
        }
        i
    }

    /// Serves a request for a channel by the selection policy. A user that
    /// joins a running session is subscribed at once. Where a tuner has to
    /// be started, the tuner is left inactive and its command is handed
    /// back: the caller starts the command and reports with
    /// `complete_activation` whether a process runs it.
    pub fn activate_tuner(&mut self, channel_type: ChannelType, channel: &str, user: &TunerUser) -> (r:
        Result<TunerActivation, TunerError>)
        requires
            names_tuner(old(self).deep_view(), user.deep_view()),
            have_serial_room(old(self).deep_view()),
        ensures
            result_view(r) == activation_result(
                old(self).deep_view(),
                channel_type,
                channel@,
                user.deep_view(),
            ),
            final(self).deep_view() == after_activation(
                old(self).deep_view(),
                channel_type,
                channel@,
                user.deep_view(),
            ),
            tuners_wf(old(self).deep_view()) ==> tuners_wf(final(self).deep_view()),
    {
        let ghost before = self.deep_view();
        if let TunerUserInfo::Tracker { stream_id } = &user.info {
            let pinned = stream_id.session_id.tuner_index;
            if self.tuners[pinned].is_active() {
                let id = self.tuners[pinned].subscribe(user.clone());
                return Ok(TunerActivation::Subscribed(id));
            }
            return Err(TunerError::TunerUnavailable);
        }
        let found = self.find_reusable(channel_type, channel);
        if found < self.tuners.len() {
            proof {
                lemma_first_is_least(before, reusable_on(channel_type, channel@));
            }
            let id = self.tuners[found].subscribe(user.clone());
            return Ok(TunerActivation::Subscribed(id));
        }
        let found = self.find_free(channel_type);
        if found < self.tuners.len() {
            assert(before[found as int] == self.tuners[found as int].deep_view());
            let (command, words) = self.tuners[found].make_command_line(channel_type, channel)?;
            return Ok(TunerActivation::Spawn { tuner_index: found, command, words });
        }
        let found = self.find_grabbable(channel_type, user);
        if found < self.tuners.len() {
            assert(before[found as int] == self.tuners[found as int].deep_view());
            self.tuners[found].deactivate();
            assert(self.deep_view() =~= before.update(
                found as int,
                before[found as int].deactivated(),
            ));
            let (command, words) = self.tuners[found].make_command_line(channel_type, channel)?;
            return Ok(TunerActivation::Spawn { tuner_index: found, command, words });
        }
        Err(TunerError::TunerUnavailable)
    }

    /// Ends the start of the tuner at `tuner_index`. Where its command runs,
    /// as the process `spawned`, the session is started and the user for
    /// whom it was started subscribes. Where the process could not be
    /// started, the tuner stays inactive.
    pub fn complete_activation(
        &mut self,
        tuner_index: usize,
        channel_type: ChannelType,
        channel: String,
        command: String,
        spawned: Option<u32>,
        user: TunerUser,
    ) -> (r: Result<TunerSubscriptionId, TunerError>)
        requires
            tuner_index < old(self).deep_view().len(),
            old(self).deep_view()[tuner_index as int].is_available(),
        ensures
            final(self).deep_view() == after_spawn(
                old(self).deep_view(),
                tuner_index as int,
                channel_type,
                channel@,
                command@,
                spawned,
                user.deep_view(),
            ),
            r == (match spawned {
                Some(pid) => Ok::<TunerSubscriptionId, TunerError>(
                    TunerSubscriptionId {
                        session_id: TunerSessionId {
                            tuner_index: old(self).deep_view()[tuner_index as int].index,
                            tuner_pid: pid,
                        },
                        serial_number: 1,
                    },
                ),
                None => Err::<TunerSubscriptionId, TunerError>(
                    TunerError::CommandFailed(CommandError::UnableToSpawn),
                ),
            }),
            tuners_wf(old(self).deep_view()) ==> tuners_wf(final(self).deep_view()),
    {
        let ghost before = self.deep_view();
        match spawned {
            Some(pid) => {
                self.tuners[tuner_index].activate(channel_type, channel, command, pid);
                let id = self.tuners[tuner_index].subscribe(user);
                assert(self.deep_view() =~= before.update(
                    tuner_index as int,
                    before[tuner_index as int].activated(
                        channel_type,
                        channel@,
                        command@,
                        pid,
                    ).subscribed(user.deep_view()),
                ));
                Ok(id)
            },
            None => Err(TunerError::CommandFailed(CommandError::UnableToSpawn)),
        }
    }

    /// Deactivates the tuner of the subscription `id`, whatever session it
    /// runs.
    pub fn deactivate_tuner(&mut self, id: TunerSubscriptionId)
        requires
            id.session_id.tuner_index < old(self).deep_view().len(),
        ensures
            final(self).deep_view() == old(self).deep_view().update(
                id.session_id.tuner_index as int,
                old(self).deep_view()[id.session_id.tuner_index as int].deactivated(),
            ),
            tuners_wf(old(self).deep_view()) ==> tuners_wf(final(self).deep_view()),
    {
        let ghost before = self.deep_view();
        let index = id.session_id.tuner_index;
        self.tuners[index].deactivate();
        assert(self.deep_view() =~= before.update(index as int, before[index as int].deactivated()));
    }

    /// Stops the subscription `id` on the tuner that it names. A
    /// subscription of a session that has ended changes nothing and is
    /// reported as such.
    pub fn stop_streaming(&mut self, id: TunerSubscriptionId) -> (r: Result<(), TunerError>)
        requires
            id.session_id.tuner_index < old(self).deep_view().len(),
        ensures
            final(self).deep_view() == old(self).deep_view().update(
                id.session_id.tuner_index as int,
                old(self).deep_view()[id.session_id.tuner_index as int].stopped(id),
            ),
            r == (if old(self).deep_view()[id.session_id.tuner_index as int].finds_session(id) {
                Ok::<(), TunerError>(())
            } else {
                Err::<(), TunerError>(TunerError::SessionNotFound)
            }),
            tuners_wf(old(self).deep_view()) ==> tuners_wf(final(self).deep_view()),
    {
        self.tuners[id.session_id.tuner_index].stop_streaming(id)
    }

    /// Deactivates every tuner.
    pub fn deactivate_all(&mut self)
        ensures
            final(self).deep_view() == Seq::new(
                old(self).deep_view().len(),
                |i: int| old(self).deep_view()[i].deactivated(),
            ),
    {
        let ghost before = self.deep_view();
        let mut i: usize = 0;
        while i < self.tuners.len()
            invariant
                i <= self.tuners.len(),
                self.tuners.len() == before.len(),
                forall|j: int|
                    0 <= j < before.len() ==> (#[trigger] self.tuners[j]).deep_view() == (if j < i {
                        before[j].deactivated()
                    } else {
                        before[j]
                    }),
            decreases self.tuners.len() - i,
        {
            self.tuners[i].deactivate();
            i += 1;
        }
    }

    /// The list of tuners.
    pub fn query_tuners(&self) -> (r: Vec<MirakurunTuner>)
        ensures
            r.deep_view() == Seq::new(
                self.deep_view().len(),
                |i: int| MirakurunTunerView::of(self.deep_view()[i]),
            ),
    {
        let ghost tuners = self.deep_view();
        let mut models: Vec<MirakurunTuner> = Vec::new();
        let mut i: usize = 0;
        while i < self.tuners.len()
            invariant
                i <= self.tuners.len(),
                tuners == self.deep_view(),
                models.len() == i,
                forall|j: int|
                    0 <= j < i ==> (#[trigger] models[j]).deep_view() == MirakurunTunerView::of(
                        tuners[j],
                    ),
            decreases self.tuners.len() - i,
        {
            models.push(self.tuners[i].get_model());
            i += 1;
        }
        models
    }
}

/// A request for the list of tuners.
pub struct QueryTunersMessage;

/// A request to stream a channel to a user.
pub struct StartStreamingMessage {
    pub channel_type: ChannelType,
    pub channel: String,
    pub user: TunerUser,
}

/// A request to stop a subscription.
pub struct StopStreamingMessage {
    pub id: TunerSubscriptionId,
}

impl TunerManager {
    /// Answers a request for the list of tuners.
    pub fn handle_query_tuners(&self, msg: QueryTunersMessage) -> (r: Result<
        Vec<MirakurunTuner>,
        TunerError,
    >)
        ensures
            r matches Ok(models) && models.deep_view() == Seq::new(
                self.deep_view().len(),
                |i: int| MirakurunTunerView::of(self.deep_view()[i]),
            ),
    {
        Ok(self.query_tuners())
    }

    /// Serves a request to stream a channel: see `activate_tuner`. The
    /// caller then tells the broadcaster of the subscription, and reports
    /// with `finish_start_streaming` whether the broadcaster took it.
    pub fn handle_start_streaming(&mut self, msg: &StartStreamingMessage) -> (r: Result<
        TunerActivation,
        TunerError,
    >)
        requires
            names_tuner(old(self).deep_view(), msg.user.deep_view()),
            have_serial_room(old(self).deep_view()),
        ensures
            result_view(r) == activation_result(
                old(self).deep_view(),
                msg.channel_type,
                msg.channel@,
                msg.user.deep_view(),
            ),
            final(self).deep_view() == after_activation(
                old(self).deep_view(),
                msg.channel_type,
                msg.channel@,
                msg.user.deep_view(),
            ),
            tuners_wf(old(self).deep_view()) ==> tuners_wf(final(self).deep_view()),
    {
        self.activate_tuner(msg.channel_type, msg.channel.as_str(), &msg.user)
    }

    /// Ends the start of a stream. Where the broadcaster did not take the
    /// subscription, the tuner of the subscription is deactivated, so that no
    /// session is left without its broadcaster; the result says whether the
    /// stream runs.
    pub fn finish_start_streaming(&mut self, id: TunerSubscriptionId, delivered: bool) -> (r: bool)
        requires
            id.session_id.tuner_index < old(self).deep_view().len(),
        ensures
            r == delivered,
            delivered ==> final(self).deep_view() == old(self).deep_view(),
            !delivered ==> final(self).deep_view() == old(self).deep_view().update(
                id.session_id.tuner_index as int,
                old(self).deep_view()[id.session_id.tuner_index as int].deactivated(),
            ),
            tuners_wf(old(self).deep_view()) ==> tuners_wf(final(self).deep_view()),
    {
        if !delivered {
            self.deactivate_tuner(id);
        }
        delivered
    }

    /// Serves a request to stop a subscription: see `stop_streaming`.
    pub fn handle_stop_streaming(&mut self, msg: StopStreamingMessage) -> (r: Result<
        (),
        TunerError,
    >)
        requires
            msg.id.session_id.tuner_index < old(self).deep_view().len(),
        ensures
            final(self).deep_view() == old(self).deep_view().update(
                msg.id.session_id.tuner_index as int,
                old(self).deep_view()[msg.id.session_id.tuner_index as int].stopped(msg.id),
            ),
            r == (if old(self).deep_view()[msg.id.session_id.tuner_index as int].finds_session(
                msg.id,
            ) {
                Ok::<(), TunerError>(())
            } else {
                Err::<(), TunerError>(TunerError::SessionNotFound)
            }),
            tuners_wf(old(self).deep_view()) ==> tuners_wf(final(self).deep_view()),
    {
        self.stop_streaming(msg.id)
    }
}

/// A tracker never starts a tuner: it joins the tuner of its stream or is
/// turned away.
pub proof fn lemma_tracker_never_starts(
    tuners: Seq<TunerView>,
    channel_type: ChannelType,
    channel: Seq<char>,
    user: TunerUserView,
)
    requires
        user.info is Tracker,
    ensures
        select(tuners, channel_type, channel, user) is Join || select(
            tuners,
            channel_type,
            channel,
            user,
        ) is Unavailable,
{
}

/// A request is turned away only where no tuner is active on the channel,
/// none that supports the channel type is inactive, and none that supports
/// it can be grabbed.
pub proof fn lemma_unavailable_means_none_fits(
    tuners: Seq<TunerView>,
    channel_type: ChannelType,
    channel: Seq<char>,
    user: TunerUserView,
    i: int,
)
    requires
        !(user.info is Tracker),
        select(tuners, channel_type, channel, user) is Unavailable,
        0 <= i < tuners.len(),
    ensures
        !tuners[i].is_reuseable(channel_type, channel),
        !tuners[i].is_available_for(channel_type),
        !(tuners[i].is_supported_type(channel_type) && tuners[i].can_grab(user.priority)),
{
    lemma_first_is_least(tuners, reusable_on(channel_type, channel));
    lemma_first_is_least(tuners, free_for(channel_type));
    lemma_first_is_least(tuners, grabbable_for(channel_type, user.priority));
}

} // verus!
