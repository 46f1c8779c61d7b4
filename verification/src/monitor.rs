//! The state of the monitoring loop: the address last confirmed, and the time
//! before which no new lookup is made.

use crate::notify::{text_of, ChangeEvent, ChangeModel};
use vstd::prelude::*;

verus! {

/// An address together with the time, in seconds, at which a lookup confirmed
/// it.
#[derive(Clone, Debug, PartialEq, Eq)]
pub struct IPSnapshot {
    pub value: String,
    pub observed_at: u64,
}

/// The mathematical value of an [`IPSnapshot`].
pub struct SnapshotModel {
    pub value: Seq<char>,
    pub observed_at: nat,
}

impl View for IPSnapshot {
    type V = SnapshotModel;

    open spec fn view(&self) -> SnapshotModel {
        SnapshotModel { value: self.value@, observed_at: self.observed_at as nat }
    }
}

/// The view of an optional snapshot.
pub open spec fn snapshot_of(snapshot: Option<IPSnapshot>) -> Option<SnapshotModel> {
    match snapshot {
        Some(s) => Some(s@),
        None => None,
    }
}

/// What the loop remembers between lookups. It is initialized exactly when it
/// holds a snapshot.
pub struct MonitorState {
    last_snapshot: Option<IPSnapshot>,
    is_initialized: bool,
    next_allowed_check: u64,
}

/// The mathematical value of a [`MonitorState`].
pub struct MonitorModel {
    pub last_snapshot: Option<SnapshotModel>,
    pub is_initialized: bool,
    pub next_allowed_check: nat,
}

/// How a freshly fetched address compares with the state.
#[derive(Clone, Debug, PartialEq, Eq)]
pub enum Assessment {
    /// No address was stored before: this is the first one.
    First,
    /// The address is the stored one.
    Unchanged,
    /// The address differs from the stored one.
    Changed(ChangeEvent),
}

/// The mathematical value of an [`Assessment`].
pub enum AssessmentModel {
    First,
    Unchanged,
    Changed(ChangeModel),
}

impl View for Assessment {
    type V = AssessmentModel;

    open spec fn view(&self) -> AssessmentModel {
        match *self {
            Assessment::First => AssessmentModel::First,
            Assessment::Unchanged => AssessmentModel::Unchanged,
            Assessment::Changed(event) => AssessmentModel::Changed(event@),
        }
    }
}

impl MonitorModel {
    /// The state at start: nothing stored, and a lookup is due at once.
    pub open spec fn initial() -> MonitorModel {
        MonitorModel { last_snapshot: None, is_initialized: false, next_allowed_check: 0 }
    }

    /// The state is initialized exactly when it holds a snapshot.
    pub open spec fn wf(self) -> bool {
        self.is_initialized == (self.last_snapshot is Some)
    }

    /// A lookup may be made at `now`.
    pub open spec fn is_due(self, now: nat) -> bool {
        now >= self.next_allowed_check
    }

    /// How `ip` compares with what is stored. A change carries the stored
    /// address, the new one and `label`.
    pub open spec fn assessment(self, ip: Seq<char>, label: Option<Seq<char>>) -> AssessmentModel {
        match self.last_snapshot {
            None => AssessmentModel::First,
            Some(snapshot) => if snapshot.value == ip {
                AssessmentModel::Unchanged
            } else {
                AssessmentModel::Changed(
                    ChangeModel { previous: Some(snapshot.value), current: ip, client_label: label },
                )
            },
        }
    }

    /// The state after an attempt that ended at `now` and stores nothing: the
    /// next lookup waits for `interval` seconds, the rest stays.
    pub open spec fn deferred(self, now: nat, interval: nat) -> MonitorModel {
        MonitorModel { next_allowed_check: now + interval, ..self }
    }

    /// The state after an attempt that ended at `now` and confirmed `ip`.
    pub open spec fn stored(self, ip: Seq<char>, now: nat, interval: nat) -> MonitorModel {
        MonitorModel {
            last_snapshot: Some(SnapshotModel { value: ip, observed_at: now }),
            is_initialized: true,
            next_allowed_check: now + interval,
        }
    }
}

impl View for MonitorState {
    type V = MonitorModel;

    closed spec fn view(&self) -> MonitorModel {
        MonitorModel {
            last_snapshot: snapshot_of(self.last_snapshot),
            is_initialized: self.is_initialized,
            next_allowed_check: self.next_allowed_check as nat,
        }
    }
}

impl MonitorState {
    #[verifier::type_invariant]
    spec fn consistent(self) -> bool {
        self.is_initialized == (self.last_snapshot is Some)
    }

    /// The state at start.
    pub fn new() -> (state: MonitorState)
        ensures
            state@ == MonitorModel::initial(),
    {
        MonitorState { last_snapshot: None, is_initialized: false, next_allowed_check: 0 }
    }

    /// The address last confirmed, with the time of its confirmation.
    pub fn last_snapshot(&self) -> (snapshot: Option<&IPSnapshot>)
        ensures
            self@.wf(),
            match snapshot {
                Some(s) => self@.last_snapshot == Some(s@),
                None => self@.last_snapshot is None,
            },
    {
        proof {
            use_type_invariant(self);
        }
        self.last_snapshot.as_ref()
    }

    /// Whether a lookup has succeeded yet.
    pub fn is_initialized(&self) -> (initialized: bool)
        ensures
            self@.wf(),
            initialized == self@.is_initialized,
    {
        proof {
            use_type_invariant(self);
        }
        self.is_initialized
    }

    /// The time before which no lookup is made.
    pub fn next_allowed_check(&self) -> (time: u64)
        ensures
            time == self@.next_allowed_check,
    {
        self.next_allowed_check
    }

    /// Whether a lookup may be made at `now`.
    pub fn is_due(&self, now: u64) -> (due: bool)
        ensures
            due == self@.is_due(now as nat),
    {
        now >= self.next_allowed_check
    }

    /// Compares a freshly fetched address with the stored one.
    pub fn assess(&self, ip: &String, label: &Option<String>) -> (assessment: Assessment)
        ensures
            self@.wf(),
            assessment@ == self@.assessment(ip@, text_of(*label)),
    {
        proof {
            use_type_invariant(self);
        }
        match &self.last_snapshot {
            None => Assessment::First,
            Some(snapshot) => {
                if snapshot.value == *ip {
                    Assessment::Unchanged
                } else {
                    let client_label = match label {
                        Some(name) => Some(name.clone()),
                        None => None,
                    };
                    Assessment::Changed(
                        ChangeEvent {
                            previous: Some(snapshot.value.clone()),
                            current: ip.clone(),
                            client_label,
                        },
                    )
                }
            },
        }
    }

    /// Closes an attempt that stores nothing, be it a failed lookup or one that
    /// confirmed the stored address: only the time of the next lookup moves.
    pub fn defer(&mut self, now: u64, interval: u64)
        requires
            now + interval <= u64::MAX,
        ensures
            final(self)@ == old(self)@.deferred(now as nat, interval as nat),
            final(self)@.wf(),
        no_unwind
    {
        proof {
            use_type_invariant(&*self);
        }
        self.next_allowed_check = now + interval;
    }

    /// Closes an attempt that confirmed `ip` as the address to remember.
    pub fn store(&mut self, ip: String, now: u64, interval: u64)
        requires
            now + interval <= u64::MAX,
        ensures
            final(self)@ == old(self)@.stored(ip@, now as nat, interval as nat),
            final(self)@.wf(),
        no_unwind
    {
        *self = MonitorState {
            last_snapshot: Some(IPSnapshot { value: ip, observed_at: now }),
            is_initialized: true,
            next_allowed_check: now + interval,
        };
    }
}

} // verus!
