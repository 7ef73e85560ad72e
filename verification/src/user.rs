//! Sessions, subscriptions and the users that hold them.

use vstd::prelude::*;
use vstd::std_specs::convert::FromSpecImpl;
use crate::text::clone_text;

verus! {

/// One continuous activation of a tuner: the tuner and the process that
/// serves it.
#[derive(Clone, Copy, Debug, PartialEq, Eq, Structural)]
pub struct TunerSessionId {
    pub tuner_index: usize,
    pub tuner_pid: u32,
}

impl Default for TunerSessionId {
    fn default() -> (r: Self)
        ensures
            r == (TunerSessionId { tuner_index: 0, tuner_pid: 0 }),
    {
        TunerSessionId { tuner_index: 0, tuner_pid: 0 }
    }
}

/// One subscription to a session.
#[derive(Clone, Copy, Debug, PartialEq, Eq, Structural)]
pub struct TunerSubscriptionId {
    pub session_id: TunerSessionId,
    pub serial_number: u32,
}

impl Default for TunerSubscriptionId {
    fn default() -> (r: Self)
        ensures
            r == (TunerSubscriptionId {
                session_id: TunerSessionId { tuner_index: 0, tuner_pid: 0 },
                serial_number: 0,
            }),
    {
        TunerSubscriptionId {
            session_id: TunerSessionId { tuner_index: 0, tuner_pid: 0 },
            serial_number: 0,
        }
    }
}

/// The priority that takes a tuner over from anybody.
pub const GRAB_PRIORITY: i32 = 2147483647;

/// The priority of the background jobs of the system itself.
pub const BACKGROUND_PRIORITY: i32 = -1;

/// The priority of a user; a greater number is a higher priority.
#[derive(Clone, Copy, Debug, PartialEq, Eq, Structural)]
pub struct TunerUserPriority(pub i32);

impl TunerUserPriority {
    /// The priority that takes a tuner over from anybody.
    pub fn grab() -> (r: Self)
        ensures
            r.0 == GRAB_PRIORITY,
    {
        TunerUserPriority(GRAB_PRIORITY)
    }

    pub open spec fn spec_is_grab(self) -> bool {
        self.0 == GRAB_PRIORITY
    }

    pub fn is_grab(&self) -> (r: bool)
        ensures
            r == self.spec_is_grab(),
    {
        self.0 == GRAB_PRIORITY
    }

    pub fn value(&self) -> (r: i32)
        ensures
            r == self.0,
    {
        self.0
    }
}

impl From<i32> for TunerUserPriority {
    fn from(v: i32) -> (r: Self) {
        TunerUserPriority(v)
    }
}

impl FromSpecImpl<i32> for TunerUserPriority {
    open spec fn obeys_from_spec() -> bool {
        true
    }

    open spec fn from_spec(v: i32) -> Self {
        TunerUserPriority(v)
    }
}

/// Who a user is.
pub enum TunerUserInfo {
    /// A client of the web interface.
    Web { remote: Option<String>, agent: Option<String> },
    /// A job of the system itself.
    Job { name: String },
    /// A follower of a stream that is already running.
    Tracker { stream_id: TunerSubscriptionId },
}

/// What a `TunerUserInfo` holds.
pub enum TunerUserInfoView {
    Web { remote: Option<Seq<char>>, agent: Option<Seq<char>> },
    Job { name: Seq<char> },
    Tracker { stream_id: TunerSubscriptionId },
}

impl DeepView for TunerUserInfo {
    type V = TunerUserInfoView;

    open spec fn deep_view(&self) -> TunerUserInfoView {
        match *self {
            TunerUserInfo::Web { remote, agent } => TunerUserInfoView::Web {
                remote: remote.deep_view(),
                agent: agent.deep_view(),
            },
            TunerUserInfo::Job { name } => TunerUserInfoView::Job { name: name@ },
            TunerUserInfo::Tracker { stream_id } => TunerUserInfoView::Tracker { stream_id },
        }
    }
}

impl Clone for TunerUserInfo {
    fn clone(&self) -> (r: Self)
        ensures
            r.deep_view() == self.deep_view(),
    {
        match self {
            TunerUserInfo::Web { remote, agent } => TunerUserInfo::Web {
                remote: clone_text(remote),
                agent: clone_text(agent),
            },
            TunerUserInfo::Job { name } => TunerUserInfo::Job { name: name.clone() },
            TunerUserInfo::Tracker { stream_id } => TunerUserInfo::Tracker {
                stream_id: *stream_id,
            },
        }
    }
}

/// A user of a tuner.
pub struct TunerUser {
    pub info: TunerUserInfo,
    pub priority: TunerUserPriority,
}

/// What a `TunerUser` holds.
pub struct TunerUserView {
    pub info: TunerUserInfoView,
    pub priority: int,
}

impl TunerUserView {
    /// The user under which the system's own jobs open tuners.
    pub open spec fn background(name: Seq<char>) -> Self {
        TunerUserView {
            info: TunerUserInfoView::Job { name },
            priority: BACKGROUND_PRIORITY as int,
        }
    }
}

impl DeepView for TunerUser {
    type V = TunerUserView;

    open spec fn deep_view(&self) -> TunerUserView {
        TunerUserView { info: self.info.deep_view(), priority: self.priority.0 as int }
    }
}

impl Clone for TunerUser {
    fn clone(&self) -> (r: Self)
        ensures
            r.deep_view() == self.deep_view(),
    {
        TunerUser { info: self.info.clone(), priority: self.priority }
    }
}

impl TunerUser {
    /// The user under which a job of the system itself opens a tuner.
    pub fn background(name: String) -> (r: Self)
        ensures
            r.deep_view() == TunerUserView::background(name@),
    {
        TunerUser {
            info: TunerUserInfo::Job { name },
            priority: TunerUserPriority(BACKGROUND_PRIORITY),
        }
    }

    /// The user as the list of tuners shows it.
    pub fn get_model(&self) -> (r: MirakurunTunerUser)
        ensures
            r.deep_view() == self.deep_view(),
    {
        MirakurunTunerUser { info: self.info.clone(), priority: self.priority.0 }
    }
}

/// A user in the list of tuners.
pub struct MirakurunTunerUser {
    pub info: TunerUserInfo,
    pub priority: i32,
}

impl DeepView for MirakurunTunerUser {
    type V = TunerUserView;

    open spec fn deep_view(&self) -> TunerUserView {
        TunerUserView { info: self.info.deep_view(), priority: self.priority as int }
    }
}

} // verus!
