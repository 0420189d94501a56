//! Clerks' weekly schedules and the attendance tags that say what a clerk
//! attends to.

use vstd::prelude::*;
use crate::models::{ClerkSchedule, EmailNotificationListJoin, NewAttendanceTag, NewClerkSchedule, NewClerkTag};
use crate::numbers::{parse_i32, parse_i32_spec};
use crate::text::{split_on, split_spec};

verus! {

/// Whether `s` is the schedule a clerk gets before anyone sets one: no
/// working day, each day open from 00:00 to 23:59.
pub open spec fn is_default_schedule(s: NewClerkSchedule, user_id: i32) -> bool {
    let day_start = "00:00"@;
    let day_end = "23:59"@;
    &&& s.clerk_schedule_user_id == user_id
    &&& !s.clerk_schedule_mon && s.clerk_schedule_mon_init@ == day_start && s.clerk_schedule_mon_end@ == day_end
    &&& !s.clerk_schedule_tue && s.clerk_schedule_tue_init@ == day_start && s.clerk_schedule_tue_end@ == day_end
    &&& !s.clerk_schedule_wed && s.clerk_schedule_wed_init@ == day_start && s.clerk_schedule_wed_end@ == day_end
    &&& !s.clerk_schedule_thu && s.clerk_schedule_thu_init@ == day_start && s.clerk_schedule_thu_end@ == day_end
    &&& !s.clerk_schedule_fri && s.clerk_schedule_fri_init@ == day_start && s.clerk_schedule_fri_end@ == day_end
    &&& !s.clerk_schedule_sat && s.clerk_schedule_sat_init@ == day_start && s.clerk_schedule_sat_end@ == day_end
    &&& !s.clerk_schedule_sun && s.clerk_schedule_sun_init@ == day_start && s.clerk_schedule_sun_end@ == day_end
}

/// The schedule a clerk gets before anyone sets one.
pub fn default_clerk_schedule(user_id: i32) -> (res: NewClerkSchedule)
    ensures
        is_default_schedule(res, user_id),
{
    NewClerkSchedule {
        clerk_schedule_user_id: user_id,
        clerk_schedule_mon: false,
        clerk_schedule_mon_init: String::from_str("00:00"),
        clerk_schedule_mon_end: String::from_str("23:59"),
        clerk_schedule_tue: false,
        clerk_schedule_tue_init: String::from_str("00:00"),
        clerk_schedule_tue_end: String::from_str("23:59"),
        clerk_schedule_wed: false,
        clerk_schedule_wed_init: String::from_str("00:00"),
        clerk_schedule_wed_end: String::from_str("23:59"),
        clerk_schedule_thu: false,
        clerk_schedule_thu_init: String::from_str("00:00"),
        clerk_schedule_thu_end: String::from_str("23:59"),
        clerk_schedule_fri: false,
        clerk_schedule_fri_init: String::from_str("00:00"),
        clerk_schedule_fri_end: String::from_str("23:59"),
        clerk_schedule_sat: false,
        clerk_schedule_sat_init: String::from_str("00:00"),
        clerk_schedule_sat_end: String::from_str("23:59"),
        clerk_schedule_sun: false,
        clerk_schedule_sun_init: String::from_str("00:00"),
        clerk_schedule_sun_end: String::from_str("23:59"),
    }
}

/// What a schedule lookup leads to: the stored schedules, or, when the
/// clerk has none, the default schedule to store before looking again.
pub fn schedule_or_default(found: Vec<ClerkSchedule>, user_id: i32) -> (res: Result<Vec<ClerkSchedule>, NewClerkSchedule>)
    ensures
        match res {
            Ok(v) => found.len() > 0 && v@ == found@,
            Err(d) => found.len() == 0 && is_default_schedule(d, user_id),
        },
{
    if found.len() > 0 {
        Ok(found)
    } else {
        Err(default_clerk_schedule(user_id))
    }
}

/// The tag ids of a comma-separated list (`3,5,8`), when every piece is a number.
pub open spec fn tag_ids_spec(text: Seq<char>) -> Option<Seq<i32>> {
    let pieces = split_spec(text, ',');
    if forall|i: int| 0 <= i < pieces.len() ==> parse_i32_spec(#[trigger] pieces[i]) is Some {
        Some(pieces.map_values(|p: Seq<char>| parse_i32_spec(p)->0))
    } else {
        None
    }
}

/// The tag ids of a comma-separated list; `None` when a piece is not a number.
pub fn parse_tag_ids(text: &str) -> (res: Option<Vec<i32>>)
    ensures
        match res {
            Some(v) => tag_ids_spec(text@) == Some(v@),
            None => tag_ids_spec(text@) is None,
        },
{
    let pieces = split_on(text, ',');
    let ghost sp = split_spec(text@, ',');
    let mut ids: Vec<i32> = Vec::new();
    let mut i: usize = 0;
    while i < pieces.len()
        invariant
            sp == split_spec(text@, ','),
            pieces.len() == sp.len(),
            forall|k: int| 0 <= k < pieces.len() ==> #[trigger] pieces[k]@ == sp[k],
            i <= pieces.len(),
            ids@.len() == i,
            forall|k: int| 0 <= k < i ==> parse_i32_spec(#[trigger] sp[k]) == Some(ids@[k]),
        decreases pieces.len() - i,
    {
        match parse_i32(pieces[i].as_str()) {
            Some(id) => {
                ids.push(id);
            },
            None => {
                assert(parse_i32_spec(sp[i as int]) is None);
                return None;
            },
        }
        i = i + 1;
    }
    assert(ids@ =~= sp.map_values(|p: Seq<char>| parse_i32_spec(p)->0));
    Some(ids)
}

/// The links that relate the clerk `user_id` to each of the tags, in order.
pub fn clerk_tag_links(user_id: i32, tag_ids: &Vec<i32>) -> (res: Vec<NewClerkTag>)
    ensures
        res.len() == tag_ids.len(),
        forall|i: int| 0 <= i < res.len() ==> (#[trigger] res[i]).clerk_tag_user_id == user_id
            && res[i].clerk_tag_attendance_tag_id == tag_ids[i],
{
    let mut res: Vec<NewClerkTag> = Vec::new();
    let mut i: usize = 0;
    while i < tag_ids.len()
        invariant
            i <= tag_ids.len(),
            res.len() == i,
            forall|k: int| 0 <= k < i ==> (#[trigger] res[k]).clerk_tag_user_id == user_id
                && res[k].clerk_tag_attendance_tag_id == tag_ids[k],
        decreases tag_ids.len() - i,
    {
        res.push(NewClerkTag { clerk_tag_user_id: user_id, clerk_tag_attendance_tag_id: tag_ids[i] });
        i = i + 1;
    }
    res
}

/// A new attendance tag with the name and slug the form gives.
pub fn new_attendance_tag(name: &str, slug: &str) -> (res: NewAttendanceTag)
    ensures
        res.attendance_tag_name@ == name@,
        res.attendance_tag_slug@ == slug@,
{
    NewAttendanceTag {
        attendance_tag_name: String::from_str(name),
        attendance_tag_slug: String::from_str(slug),
    }
}

/// The request of the client `client_id` to be mailed when the clerk
/// `clerk_id` comes online.
pub fn notification_request(client_id: i32, clerk_id: i32) -> (res: EmailNotificationListJoin)
    ensures
        res.client_id == client_id,
        res.clerk_id == clerk_id,
{
    EmailNotificationListJoin { client_id, clerk_id }
}

} // verus!
