use vstd::prelude::*;

use crate::links::now_timestamp;
use crate::models::Scan;

verus! {

/// Where a resolution stands. Once the link is found, its original URL is
/// carried along until the redirect.
#[derive(Debug)]
pub enum ResolvePhase {
    Start,
    LookingUp,
    Recording(String),
    Finished,
}

/// What the store reports back to a resolution.
#[derive(Debug)]
pub enum ResolveEvent {
    Begin,
    LookupFailed,
    LinkAbsent,
    LinkFound(String),
    /// The scan was logged and the link's counter bumped, together.
    ScanRecorded,
    /// Neither the scan nor the counter update was stored.
    ScanRecordFailed,
}

/// How a resolution ends.
#[derive(Debug)]
pub enum ResolveOutcome {
    /// Permanent redirect to the original URL.
    Redirect(String),
    NotFound,
    StorageFailure,
}

/// What a resolution asks for next.
#[derive(Debug)]
pub enum ResolveAction {
    /// Look up the original URL of the link with this id.
    LookUp(String),
    /// In one atomic step, append this scan to the log and add one to the
    /// scan counter of the link it names.
    RecordScan(Scan),
    /// Answer the client.
    Respond(ResolveOutcome),
}

/// One resolution of a short link, on behalf of one caller.
#[derive(Debug)]
pub struct Resolver {
    pub id: String,
    pub ip: String,
    pub user_agent: String,
    pub phase: ResolvePhase,
}

pub open spec fn unknown_agent() -> Seq<char> {
    "Unknown"@
}

/// The resolution's next state and action, on `event`, with `now` as the
/// time at which a scan would be logged.
pub open spec fn next(r: Resolver, event: ResolveEvent, now: String) -> (Resolver, ResolveAction) {
    let finish = |o: ResolveOutcome| (Resolver { phase: ResolvePhase::Finished, ..r }, ResolveAction::Respond(o));
    match (r.phase, event) {
        (ResolvePhase::Start, ResolveEvent::Begin) => (
            Resolver { phase: ResolvePhase::LookingUp, ..r },
            ResolveAction::LookUp(r.id),
        ),
        (ResolvePhase::LookingUp, ResolveEvent::LookupFailed) => finish(ResolveOutcome::StorageFailure),
        (ResolvePhase::LookingUp, ResolveEvent::LinkAbsent) => finish(ResolveOutcome::NotFound),
        (ResolvePhase::LookingUp, ResolveEvent::LinkFound(url)) => (
            Resolver { phase: ResolvePhase::Recording(url), ..r },
            ResolveAction::RecordScan(
                Scan { link_id: r.id, ip_address: r.ip, user_agent: r.user_agent, scanned_at: now },
            ),
        ),
        (ResolvePhase::Recording(_), ResolveEvent::ScanRecordFailed) => finish(ResolveOutcome::StorageFailure),
        (ResolvePhase::Recording(url), ResolveEvent::ScanRecorded) => finish(ResolveOutcome::Redirect(url)),
        _ => finish(ResolveOutcome::StorageFailure),
    }
}

/// How many store actions a resolution in this phase may still ask for.
pub open spec fn phase_rank(p: ResolvePhase) -> nat {
    match p {
        ResolvePhase::Start => 2,
        ResolvePhase::LookingUp => 1,
        _ => 0,
    }
}

impl Resolver {
    /// A fresh resolution of `id` for the caller at `ip`; a caller that sent no
    /// readable user agent is logged as `Unknown`.
    pub fn new(id: String, ip: String, user_agent: Option<String>) -> (r: Resolver)
        ensures
            r.id == id,
            r.ip == ip,
            r.user_agent@ == (match user_agent {
                Some(ua) => ua@,
                None => unknown_agent(),
            }),
            r.phase is Start,
    {
        let user_agent = match user_agent {
            Some(ua) => ua,
            None => {
                proof {
                    reveal_strlit("Unknown");
                }
                "Unknown".to_string()
            },
        };
        Resolver { id, ip, user_agent, phase: ResolvePhase::Start }
    }

    /// Takes `event` and returns the next action, logging a scan at `now`.
    pub fn step_with(&mut self, event: ResolveEvent, now: String) -> (a: ResolveAction)
        ensures
            (*final(self), a) == next(*old(self), event, now),
    {
        let mut phase = ResolvePhase::Finished;
        std::mem::swap(&mut self.phase, &mut phase);
        match (phase, event) {
            (ResolvePhase::Start, ResolveEvent::Begin) => {
                self.phase = ResolvePhase::LookingUp;
                ResolveAction::LookUp(self.id.clone())
            },
            (ResolvePhase::LookingUp, ResolveEvent::LookupFailed) => ResolveAction::Respond(
                ResolveOutcome::StorageFailure,
            ),
            (ResolvePhase::LookingUp, ResolveEvent::LinkAbsent) => ResolveAction::Respond(
                ResolveOutcome::NotFound,
            ),
            (ResolvePhase::LookingUp, ResolveEvent::LinkFound(url)) => {
                self.phase = ResolvePhase::Recording(url);
                ResolveAction::RecordScan(
                    Scan {
                        link_id: self.id.clone(),
                        ip_address: self.ip.clone(),
                        user_agent: self.user_agent.clone(),
                        scanned_at: now,
                    },
                )
            },
            (ResolvePhase::Recording(_), ResolveEvent::ScanRecordFailed) => ResolveAction::Respond(
                ResolveOutcome::StorageFailure,
            ),
            (ResolvePhase::Recording(url), ResolveEvent::ScanRecorded) => ResolveAction::Respond(
                ResolveOutcome::Redirect(url),
            ),
            _ => ResolveAction::Respond(ResolveOutcome::StorageFailure),
        }
    }

    /// Takes `event` and returns the next action; a scan is logged at the
    /// current time.
    pub fn step(&mut self, event: ResolveEvent) -> (a: ResolveAction)
        ensures
            exists|now: String| (*final(self), a) == #[trigger] next(*old(self), event, now),
    {
        let now = now_timestamp();
        self.step_with(event, now)
    }
}

impl ResolveOutcome {
    pub open spec fn status_spec(&self) -> u16 {
        match self {
            ResolveOutcome::Redirect(_) => 308,
            ResolveOutcome::NotFound => 404,
            ResolveOutcome::StorageFailure => 500,
        }
    }

    /// The HTTP status of this answer.
    pub fn status(&self) -> (r: u16)
        ensures
            r == self.status_spec(),
    {
        match self {
            ResolveOutcome::Redirect(_) => 308,
            ResolveOutcome::NotFound => 404,
            ResolveOutcome::StorageFailure => 500,
        }
    }
}

} // verus!
