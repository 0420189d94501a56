//! Testimonials clients leave about clerks. A new one waits for an
//! administrator; the public pages list only approved testimonials that
//! say something. The administration's switches (testimonial approval,
//! account and product activity) store the opposite of the state the page
//! shows.

use vstd::prelude::*;

verus! {

/// A testimonial to store, without its date (the server stamps it).
#[derive(Debug)]
pub struct TestimonialDraft {
    pub testimonials_clerk_id: i32,
    pub testimonials_client_id: i32,
    pub testimonials_content: String,
    pub testimonials_value: i32,
    pub testimonials_status: bool,
}

/// The testimonial a client submits about a clerk: stored unapproved.
pub fn submitted_testimonial(client_id: i32, clerk_id: i32, content: &str, value: i32) -> (res: TestimonialDraft)
    ensures
        res.testimonials_clerk_id == clerk_id,
        res.testimonials_client_id == client_id,
        res.testimonials_content@ == content@,
        res.testimonials_value == value,
        !res.testimonials_status,
{
    TestimonialDraft {
        testimonials_clerk_id: clerk_id,
        testimonials_client_id: client_id,
        testimonials_content: String::from_str(content),
        testimonials_value: value,
        testimonials_status: false,
    }
}

/// Whether a testimonial appears on the testimonials page: approved, with some text.
pub open spec fn listed_spec(status: bool, content: Seq<char>) -> bool {
    status && content.len() > 0
}

/// Whether a testimonial appears on the testimonials page.
pub fn listed_on_testimonials_page(status: bool, content: &str) -> (res: bool)
    ensures
        res == listed_spec(status, content@),
{
    status && content.unicode_len() > 0
}

/// The state an administration switch stores when the page shows `shown`.
pub fn switched(shown: bool) -> (res: bool)
    ensures
        res == !shown,
{
    !shown
}

/// A testimonial just submitted is listed nowhere, whatever it says; once
/// approved it is listed exactly when it has some text.
pub proof fn lemma_testimonials_wait_for_approval(content: Seq<char>)
    ensures
        !listed_spec(false, content),
        listed_spec(true, content) <==> content.len() > 0,
{
}

} // verus!
