//! The requests of the HTTPS ingress and the answers to them.

use crate::error::Error;
use crate::geosubmit::client::{
    observation_defect, observed_towers, parse_observation, report, report_text, Observation,
};
use crate::geosubmit::payload::{defect, defect_text, optional_towers, position_of};
use crate::json::{lookup, parsed_json, Json, JsonView, Member};
use crate::text::text_eq;
use vstd::prelude::*;

verus! {

/// What a companion device sends in: a position, cell towers if it has any,
/// and whatever else it chose to add.
#[derive(Debug, PartialEq, Eq)]
pub struct PartialPayload {
    /// The position, not yet looked into.
    pub position: Json,
    /// The cell towers, not yet looked into; `None` where the message has
    /// none or gives `null` for them.
    pub cell_towers: Option<Json>,
    /// The other members of the message, kept and never interpreted.
    pub extra: Vec<Member>,
}

/// The mathematical value of a `PartialPayload`.
pub struct PartialPayloadView {
    pub position: JsonView,
    pub cell_towers: Option<JsonView>,
    pub extra: Seq<(Seq<char>, JsonView)>,
}

/// The value of an optional JSON value.
pub open spec fn optional_view(json: Option<Json>) -> Option<JsonView> {
    match json {
        Some(json) => Some(json@),
        None => None,
    }
}

/// The values of a list of members.
pub open spec fn member_views(members: Seq<Member>) -> Seq<(Seq<char>, JsonView)> {
    members.map_values(|member: Member| member@)
}

impl View for PartialPayload {
    type V = PartialPayloadView;

    open spec fn view(&self) -> PartialPayloadView {
        PartialPayloadView {
            position: self.position@,
            cell_towers: optional_view(self.cell_towers),
            extra: member_views(self.extra@),
        }
    }
}

/// Whether a member with this key is one of those that a message may add
/// freely.
pub open spec fn is_extra(key: Seq<char>) -> bool {
    key != "position"@ && key != "cell_towers"@
}

/// The members of a message that are neither its position nor its cell
/// towers, in their order.
pub open spec fn extra_members(members: Seq<(Seq<char>, JsonView)>) -> Seq<(Seq<char>, JsonView)>
    decreases members.len(),
{
    if members.len() == 0 {
        seq![]
    } else {
        let before = extra_members(members.drop_last());
        if is_extra(members.last().0) {
            before.push(members.last())
        } else {
            before
        }
    }
}

/// The cell towers of a message: none where the member is missing or `null`.
pub open spec fn towers_member(members: Seq<(Seq<char>, JsonView)>) -> Option<JsonView> {
    match lookup(members, "cell_towers"@) {
        None => None,
        Some(JsonView::Null) => None,
        Some(towers) => Some(towers),
    }
}

/// The message that `json` holds: `json` must be an object with a member
/// `position`.
pub open spec fn payload_of(json: JsonView) -> Option<PartialPayloadView> {
    match json {
        JsonView::Object(members) => match lookup(members, "position"@) {
            Some(position) => Some(
                PartialPayloadView {
                    position,
                    cell_towers: towers_member(members),
                    extra: extra_members(members),
                },
            ),
            None => None,
        },
        _ => None,
    }
}

/// The message that the JSON text `bytes` holds.
pub open spec fn payload_of_text(bytes: Seq<u8>) -> Option<PartialPayloadView> {
    match parsed_json(bytes) {
        Some(json) => payload_of(json),
        None => None,
    }
}

impl PartialPayload {
    /// Reads a message from a JSON value. It must be an object with a member
    /// `position`, whose value is taken as it is; so is `cell_towers`, unless
    /// it is `null`. All other members are kept aside.
    pub fn from_json(json: &Json) -> (r: Result<PartialPayload, Error>)
        ensures
            match payload_of(json@) {
                Some(payload) => r matches Ok(p) && p@ == payload,
                None => r matches Err(Error::Serialization(text)) && text@ == defect_text(
                    "position"@,
                ),
            },
    {
        let position = match json.get("position") {
            Some(position) => position.clone(),
            None => return Err(defect("position")),
        };
        let cell_towers = match json.get("cell_towers") {
            None => None,
            Some(Json::Null) => None,
            Some(towers) => Some(towers.clone()),
        };
        match json {
            Json::Object(members) => {
                let mut extra: Vec<Member> = Vec::new();
                let mut i: usize = 0;
                assert(json@->Object_0.take(0) =~= Seq::empty());
                while i < members.len()
                    invariant
                        i <= members.len(),
                        json@ is Object,
                        json@->Object_0.len() == members.len(),
                        forall|k: int| 0 <= k < members.len() ==> json@->Object_0[k] == members[k]@,
                        member_views(extra@) =~= extra_members(json@->Object_0.take(i as int)),
                    decreases members.len() - i,
                {
                    proof {
                        let next = json@->Object_0.take(i + 1);
                        assert(next.drop_last() =~= json@->Object_0.take(i as int));
                        assert(next.last() == members[i as int]@);
                    }
                    let key = members[i].key.as_str();
                    if !text_eq(key, "position") && !text_eq(key, "cell_towers") {
                        let ghost before = extra@;
                        extra.push(members[i].clone());
                        assert(member_views(extra@) =~= member_views(before).push(
                            members[i as int]@,
                        ));
                    }
                    i += 1;
                }
                assert(json@->Object_0.take(i as int) =~= json@->Object_0);
                Ok(PartialPayload { position, cell_towers, extra })
            },
            _ => Err(defect("position")),
        }
    }

    /// Reads a message from JSON text: `None` where the text is no JSON or
    /// the JSON is no message.
    pub fn parse(bytes: &[u8]) -> (r: Option<PartialPayload>)
        ensures
            match payload_of_text(bytes@) {
                Some(payload) => r matches Some(p) && p@ == payload,
                None => r is None,
            },
    {
        match Json::parse(bytes) {
            Some(json) => match PartialPayload::from_json(&json) {
                Ok(payload) => Some(payload),
                Err(_) => None,
            },
            None => None,
        }
    }
}

/// The status that answers a request whose body is malformed.
pub const BAD_REQUEST: u16 = 400;

/// How long the answer to a submission waits for the delivery, in seconds.
pub const INGRESS_WAIT_SECS: u64 = 3;

/// What keeps a request body from being an observation: `position` where
/// the body is no message, else the defect of the caller's data.
pub open spec fn submit_defect(body: JsonView) -> Option<Seq<char>> {
    match payload_of(body) {
        Some(payload) => observation_defect(payload.position, payload.cell_towers),
        None => Some("position"@),
    }
}

/// Reads the body of a submission into the caller's part of an observation.
/// A malformed body is answered with `BAD_REQUEST`; nothing else is.
pub fn process_submit(body: &Json) -> (r: Result<Observation, u16>)
    ensures
        match submit_defect(body@) {
            Some(_) => r == Err::<Observation, u16>(BAD_REQUEST),
            None => r matches Ok(observation) && observation.position@ == position_of(
                payload_of(body@)->0.position,
            ) && optional_towers(observation.cell_towers) == observed_towers(
                payload_of(body@)->0.cell_towers,
            ),
        },
{
    let payload = match PartialPayload::from_json(body) {
        Ok(payload) => payload,
        Err(_) => return Err(BAD_REQUEST),
    };
    let towers = match &payload.cell_towers {
        Some(towers) => Some(towers),
        None => None,
    };
    match parse_observation(&payload.position, towers) {
        Ok(observation) => Ok(observation),
        Err(_) => Err(BAD_REQUEST),
    }
}

/// How the bounded wait for a delivery ended.
#[derive(Debug, PartialEq, Eq)]
pub enum WaitOutcome {
    /// The delivery ended within the wait, with this result.
    Finished(Result<(), Error>),
    /// The task of the delivery broke down.
    Panicked(String),
    /// The wait ran out; the delivery goes on by itself.
    TimedOut,
}

/// The line that goes to the log after the wait.
pub open spec fn wait_log(outcome: WaitOutcome) -> Seq<char> {
    match outcome {
        WaitOutcome::Finished(result) => report_text(result),
        WaitOutcome::Panicked(cause) => "Task panicked: "@ + cause@,
        WaitOutcome::TimedOut => "Request took too long, not waiting for status..."@,
    }
}

/// The answer to a submission whose record was assembled, together with the
/// line for the log. The answer is the same however the wait ended: it
/// acknowledges the assembly, never the delivery, whose result shows in the
/// log alone.
pub fn acknowledge(outcome: &WaitOutcome) -> (r: (String, String))
    ensures
        r.0@ == "Successful"@,
        r.1@ == wait_log(*outcome),
{
    let log = match outcome {
        WaitOutcome::Finished(result) => report(result),
        WaitOutcome::Panicked(cause) => String::from_str("Task panicked: ").concat(
            cause.as_str(),
        ),
        WaitOutcome::TimedOut => String::from_str(
            "Request took too long, not waiting for status...",
        ),
    };
    (String::from_str("Successful"), log)
}

/// Answers the liveness probe.
pub fn handle_status() -> (r: Result<String, u16>)
    ensures
        r matches Ok(text) && text@ == "ok"@,
{
    Ok(String::from_str("ok"))
}

/// Answers the reserved endpoint.
pub fn handle_request() -> (r: Result<String, u16>)
    ensures
        r matches Ok(text) && text@ == "ok"@,
{
    Ok(String::from_str("ok"))
}

} // verus!
