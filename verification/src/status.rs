//! The states a clerk can be in and the events a clerk's shift records,
//! with the integer codes under which the database stores them.

use vstd::prelude::*;

verus! {

/// All possible behaviours for a clerk status.
#[derive(Clone, Copy, Debug, PartialEq, Eq, Structural)]
pub enum Status {
    Offline,
    Online,
    Oncall,
}

/// The events a clerk's time log records.
#[derive(Clone, Copy, Debug, PartialEq, Eq, Structural)]
pub enum ClerkTimeEventType {
    Gone,
    Available,
    Busy,
    GoneForTextChat,
    BackFromTextChat,
    GoneForVoiceChat,
    BackFromVoiceChatt,
}

pub open spec fn status_code_spec(s: Status) -> i32 {
    match s {
        Status::Offline => 0,
        Status::Online => 1,
        Status::Oncall => 2,
    }
}

pub open spec fn event_code_spec(e: ClerkTimeEventType) -> i32 {
    match e {
        ClerkTimeEventType::Gone => 0,
        ClerkTimeEventType::Available => 1,
        ClerkTimeEventType::Busy => 2,
        ClerkTimeEventType::GoneForTextChat => 3,
        ClerkTimeEventType::BackFromTextChat => 4,
        ClerkTimeEventType::GoneForVoiceChat => 5,
        ClerkTimeEventType::BackFromVoiceChatt => 6,
    }
}

impl Status {
    /// The integer stored in `status_clerk.status`.
    pub fn code(&self) -> (c: i32)
        ensures
            c == status_code_spec(*self),
    {
        match self {
            Status::Offline => 0,
            Status::Online => 1,
            Status::Oncall => 2,
        }
    }
}

impl ClerkTimeEventType {
    /// The integer stored in `clerk_time.clerk_time_event_type`.
    pub fn code(&self) -> (c: i32)
        ensures
            c == event_code_spec(*self),
    {
        match self {
            ClerkTimeEventType::Gone => 0,
            ClerkTimeEventType::Available => 1,
            ClerkTimeEventType::Busy => 2,
            ClerkTimeEventType::GoneForTextChat => 3,
            ClerkTimeEventType::BackFromTextChat => 4,
            ClerkTimeEventType::GoneForVoiceChat => 5,
            ClerkTimeEventType::BackFromVoiceChatt => 6,
        }
    }
}

/// Each status and each time-log event is stored under its own code, so a
/// stored code names one status or event: statuses use 0 to 2, events 0 to 6.
pub proof fn lemma_codes_name_one_value(s: Status, e: ClerkTimeEventType)
    ensures
        0 <= status_code_spec(s) <= 2,
        forall|t: Status| status_code_spec(t) == status_code_spec(s) ==> t == s,
        0 <= event_code_spec(e) <= 6,
        forall|f: ClerkTimeEventType| event_code_spec(f) == event_code_spec(e) ==> f == e,
{
}

} // verus!
