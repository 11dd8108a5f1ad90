use vstd::prelude::*;
use crate::ipv4::Ipv4Address;
use crate::status::{ClassifyError, DdnsStatus, LogLevel, is_success_spec, level_spec, status_of};

verus! {

/// What woke the update worker.
#[derive(Clone, Copy, Debug, PartialEq, Eq, Structural)]
pub enum Wake {
    /// The probe sent a new address.
    Changed(Ipv4Address),
    /// The max-interval timeout elapsed with nothing received.
    TimedOut,
    /// The probe's side of the channel is gone.
    Disconnected,
    /// Shutdown was requested.
    Shutdown,
}

/// Why an update is sent.
#[derive(Clone, Copy, Debug, PartialEq, Eq, Structural)]
pub enum UpdateReason {
    AddressChanged(Ipv4Address),
    Refresh,
}

/// What the update worker does after a wake-up.
#[derive(Clone, Copy, Debug, PartialEq, Eq, Structural)]
pub enum WorkerAction {
    /// Send exactly one request to the update endpoint.
    Update(UpdateReason),
    /// Leave the loop.
    Exit,
}

/// An update that got no classified answer.
#[derive(Clone, Debug, PartialEq, Eq)]
pub enum UpdateError {
    /// The request failed before a body came back.
    Network,
    /// The body was not in the provider's vocabulary.
    Classify(ClassifyError),
}

pub open spec fn action_of(wake: Wake) -> WorkerAction {
    match wake {
        Wake::Changed(ip) => WorkerAction::Update(UpdateReason::AddressChanged(ip)),
        Wake::TimedOut => WorkerAction::Update(UpdateReason::Refresh),
        Wake::Disconnected | Wake::Shutdown => WorkerAction::Exit,
    }
}

/// `a + b`, or the largest `u64` where that does not fit.
pub open spec fn add_capped(a: u64, b: u64) -> u64 {
    if a + b > u64::MAX {
        u64::MAX
    } else {
        (a + b) as u64
    }
}

/// Seconds left until `deadline` at time `now`.
pub open spec fn wait_spec(deadline: u64, now: u64) -> u64 {
    if deadline > now {
        (deadline - now) as u64
    } else {
        0
    }
}

/// The deadline after an update at `now`: a success pushes it to one max
/// interval from now; a failure leaves it, unless it has passed, in which
/// case the next refresh is one max interval away.
pub open spec fn next_deadline(deadline: u64, max_interval: u64, success: bool, now: u64) -> u64 {
    if success || now >= deadline {
        add_capped(now, max_interval)
    } else {
        deadline
    }
}

/// The update worker's timer: when the next refresh is due.
#[derive(Clone, Copy, Debug, PartialEq, Eq, Structural)]
pub struct UpdateWorker {
    pub max_interval: u64,
    /// Time, in seconds on the worker's clock, at which a refresh is due.
    pub deadline: u64,
}

impl UpdateWorker {
    /// The timer never lies more than one max interval ahead of `now`.
    pub open spec fn wf_at(&self, now: u64) -> bool {
        &&& self.max_interval > 0
        &&& self.deadline <= now + self.max_interval
    }

    /// A worker started at `now`, with its first refresh one max interval away.
    pub fn new(max_interval: u64, now: u64) -> (r: UpdateWorker)
        requires
            max_interval > 0,
        ensures
            r.max_interval == max_interval,
            r.deadline == add_capped(now, max_interval),
            r.wf_at(now),
    {
        UpdateWorker { max_interval, deadline: now.saturating_add(max_interval) }
    }

    /// How long to wait for a change at `now` before refreshing.
    pub fn wait_timeout(&self, now: u64) -> (r: u64)
        ensures
            r == wait_spec(self.deadline, now),
            self.wf_at(now) ==> r <= self.max_interval,
    {
        if self.deadline > now {
            self.deadline - now
        } else {
            0
        }
    }

    /// Every wake-up but a closed channel or shutdown leads to one update.
    pub fn on_wake(&self, wake: Wake) -> (r: WorkerAction)
        ensures
            r == action_of(wake),
    {
        match wake {
            Wake::Changed(ip) => WorkerAction::Update(UpdateReason::AddressChanged(ip)),
            Wake::TimedOut => WorkerAction::Update(UpdateReason::Refresh),
            Wake::Disconnected | Wake::Shutdown => WorkerAction::Exit,
        }
    }

    /// Moves the timer after an update at `now` that succeeded or not.
    pub fn record(&mut self, success: bool, now: u64)
        ensures
            final(self).max_interval == old(self).max_interval,
            final(self).deadline == next_deadline(
                old(self).deadline,
                old(self).max_interval,
                success,
                now,
            ),
            old(self).wf_at(now) ==> final(self).wf_at(now),
    {
        if success || now >= self.deadline {
            self.deadline = now.saturating_add(self.max_interval);
        }
    }

    /// Classifies the update endpoint's answer at `now` (`None` when the
    /// request failed) and moves the timer: only `Good` and `NoChg` count as
    /// success.
    pub fn on_response(&mut self, body: Option<&str>, now: u64) -> (r: Result<
        DdnsStatus,
        UpdateError,
    >)
        ensures
            final(self).max_interval == old(self).max_interval,
            match body {
                None => r == Err::<DdnsStatus, UpdateError>(UpdateError::Network),
                Some(b) => match r {
                    Ok(st) => status_of(b@) == Some(st),
                    Err(UpdateError::Classify(ClassifyError::InvalidResponse(t))) => status_of(
                        b@,
                    ).is_none() && t@ == b@,
                    Err(UpdateError::Network) => false,
                },
            },
            final(self).deadline == next_deadline(
                old(self).deadline,
                old(self).max_interval,
                r is Ok && is_success_spec(r->Ok_0),
                now,
            ),
            old(self).wf_at(now) ==> final(self).wf_at(now),
    {
        let r = match body {
            None => Err(UpdateError::Network),
            Some(b) => match DdnsStatus::from_response(b) {
                Ok(st) => Ok(st),
                Err(e) => Err(UpdateError::Classify(e)),
            },
        };
        let success = match &r {
            Ok(st) => st.is_success(),
            Err(_) => false,
        };
        self.record(success, now);
        r
    }
}

/// How loudly to report the result of an update.
pub fn result_level(r: &Result<DdnsStatus, UpdateError>) -> (l: LogLevel)
    ensures
        l == match r {
            Ok(st) => level_spec(*st),
            Err(UpdateError::Network) => LogLevel::Warn,
            Err(UpdateError::Classify(_)) => LogLevel::Error,
        },
{
    match r {
        Ok(st) => st.level(),
        Err(UpdateError::Network) => LogLevel::Warn,
        Err(UpdateError::Classify(_)) => LogLevel::Error,
    }
}

/// With the address held constant the worker still updates at least once in
/// every max interval: from any state it keeps, and at any later time, it
/// waits no longer than `max_interval` before a refresh.
pub proof fn lemma_refresh_within_max_interval(w: UpdateWorker, now: u64, later: u64)
    requires
        w.wf_at(now),
        now <= later,
    ensures
        wait_spec(w.deadline, later) <= w.max_interval,
        forall|success: bool|
            #![trigger next_deadline(w.deadline, w.max_interval, success, later)]
            next_deadline(w.deadline, w.max_interval, success, later) <= later + w.max_interval,
{
}

/// Shutdown and a closed channel end the worker; nothing else does, and
/// each other wake-up sends exactly one update.
pub proof fn lemma_exit_only_on_stop(wake: Wake)
    ensures
        (action_of(wake) == WorkerAction::Exit) <==> (wake == Wake::Shutdown || wake
            == Wake::Disconnected),
{
}

} // verus!
