use vstd::prelude::*;
use vstd::string::*;

use crate::links::{now_timestamp, ApiError};
use crate::models::LocationResponse;

verus! {

/// Where a location registration stands.
#[derive(Debug, PartialEq, Eq, Structural)]
pub enum LocationPhase {
    Start,
    Checking,
    Saving,
    Finished,
}

/// What the store reports back to a location registration.
#[derive(Debug)]
pub enum LocationEvent {
    Begin,
    CountFailed,
    /// How many links have the registration's identifier.
    Counted(i64),
    /// The location was stored under this row id.
    Saved(i64),
    SaveFailed,
}

/// What a location registration asks for next.
#[derive(Debug)]
pub enum LocationAction {
    /// Count the links with this id.
    CountLinks(String),
    /// Store the client's location for this link, created at this time.
    Save { link_id: String, created_at: String },
    /// Answer the client.
    Respond(Result<LocationResponse, ApiError>),
}

/// One registration of a client's location against a short link.
pub struct LocationFlow {
    pub id: String,
    pub phase: LocationPhase,
}

/// The confirmation sent once a location of link `id` is stored.
pub open spec fn location_message(id: Seq<char>) -> Seq<char> {
    "Ubicación registrada para QR "@ + id
}

/// The registration's next phase `p` and action `a` from `f` on `event`, with
/// `now` as the creation time of a saved location.
pub open spec fn location_next(f: LocationFlow, event: LocationEvent, now: String, p: LocationPhase, a: LocationAction) -> bool {
    match (f.phase, event) {
        (LocationPhase::Start, LocationEvent::Begin) => p == LocationPhase::Checking
            && a == LocationAction::CountLinks(f.id),
        (LocationPhase::Checking, LocationEvent::Counted(n)) => if n == 0 {
            p == LocationPhase::Finished && a == LocationAction::Respond(
                Err(ApiError::NotFound),
            )
        } else {
            &&& p == LocationPhase::Saving
            &&& a matches LocationAction::Save { link_id, created_at } && link_id == f.id && created_at == now
        },
        (LocationPhase::Saving, LocationEvent::Saved(row)) => {
            &&& p == LocationPhase::Finished
            &&& a matches LocationAction::Respond(Ok(resp)) && resp.message@ == location_message(
                f.id@,
            ) && resp.location_id == row
        },
        (LocationPhase::Saving, LocationEvent::SaveFailed) => p
            == LocationPhase::Finished && a == LocationAction::Respond(
            Err(ApiError::LocationNotSaved),
        ),
        _ => p == LocationPhase::Finished && a == LocationAction::Respond(
            Err(ApiError::Storage),
        ),
    }
}

impl LocationFlow {
    /// A fresh registration against link `id`.
    pub fn new(id: String) -> (r: LocationFlow)
        ensures
            r.id == id,
            r.phase == LocationPhase::Start,
    {
        LocationFlow { id, phase: LocationPhase::Start }
    }

    /// Takes `event` and returns the next action; a saved location is created
    /// at `now`. The location is saved only after a count that found the link.
    pub fn step_with(&mut self, event: LocationEvent, now: String) -> (a: LocationAction)
        ensures
            final(self).id == old(self).id,
            location_next(*old(self), event, now, final(self).phase, a),
    {
        let phase = if self.phase == LocationPhase::Start {
            LocationPhase::Start
        } else if self.phase == LocationPhase::Checking {
            LocationPhase::Checking
        } else if self.phase == LocationPhase::Saving {
            LocationPhase::Saving
        } else {
            LocationPhase::Finished
        };
        self.phase = LocationPhase::Finished;
        match (phase, event) {
            (LocationPhase::Start, LocationEvent::Begin) => {
                self.phase = LocationPhase::Checking;
                LocationAction::CountLinks(self.id.clone())
            },
            (LocationPhase::Checking, LocationEvent::Counted(n)) => {
                if n == 0 {
                    LocationAction::Respond(Err(ApiError::NotFound))
                } else {
                    self.phase = LocationPhase::Saving;
                    LocationAction::Save { link_id: self.id.clone(), created_at: now }
                }
            },
            (LocationPhase::Saving, LocationEvent::Saved(row)) => {
                let mut message = "Ubicación registrada para QR ".to_string();
                message.append(self.id.as_str());
                LocationAction::Respond(Ok(LocationResponse { message, location_id: row }))
            },
            (LocationPhase::Saving, LocationEvent::SaveFailed) => LocationAction::Respond(
                Err(ApiError::LocationNotSaved),
            ),
            _ => LocationAction::Respond(Err(ApiError::Storage)),
        }
    }

    /// Takes `event` and returns the next action; a saved location is created
    /// at the current time.
    pub fn step(&mut self, event: LocationEvent) -> (a: LocationAction)
        ensures
            final(self).id == old(self).id,
            exists|now: String| #[trigger] location_next(*old(self), event, now, final(self).phase, a),
    {
        self.step_with(event, now_timestamp())
    }
}

} // verus!
