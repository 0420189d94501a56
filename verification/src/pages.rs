//! The editable pages of the site: which template shows them and under
//! which title their content is stored.

use vstd::prelude::*;

verus! {

/// A page to show: the template that renders it and the title under which
/// its content is stored.
#[derive(Debug)]
pub struct PageRequest {
    pub template: String,
    pub page_title: String,
}

/// The privacy policy for a visitor without a session.
pub fn privacy_policy_no_login() -> (res: PageRequest)
    ensures
        res.template@ == "home/privacy"@,
        res.page_title@ == "Privacidade"@,
{
    PageRequest { template: String::from_str("home/privacy"), page_title: String::from_str("Privacidade") }
}

/// The privacy policy under its Portuguese address; the same page.
pub fn privacy_policy_no_login_pt() -> (res: PageRequest)
    ensures
        res.template@ == "home/privacy"@,
        res.page_title@ == "Privacidade"@,
{
    privacy_policy_no_login()
}

/// The frequently asked questions for a visitor without a session.
pub fn faq_no_login() -> (res: PageRequest)
    ensures
        res.template@ == "home/faq"@,
        res.page_title@ == "FAQ"@,
{
    PageRequest { template: String::from_str("home/faq"), page_title: String::from_str("FAQ") }
}

/// The frequently asked questions under their Portuguese address; the same page.
pub fn faq_no_login_pt() -> (res: PageRequest)
    ensures
        res.template@ == "home/faq"@,
        res.page_title@ == "FAQ"@,
{
    faq_no_login()
}

/// The page about the house for a visitor without a session.
pub fn about_us_no_login() -> (res: PageRequest)
    ensures
        res.template@ == "home/about"@,
        res.page_title@ == "Sobre"@,
{
    PageRequest { template: String::from_str("home/about"), page_title: String::from_str("Sobre") }
}

/// The page about the house under its Portuguese address; the same page.
pub fn about_us_no_login_pt() -> (res: PageRequest)
    ensures
        res.template@ == "home/about"@,
        res.page_title@ == "Sobre"@,
{
    about_us_no_login()
}

/// The content a page editor stores: the text sent, or nothing when the
/// form sends no content field.
pub fn page_content_to_store(content: Option<&str>) -> (res: String)
    ensures
        res@ == match content {
            Some(c) => c@,
            None => Seq::<char>::empty(),
        },
{
    match content {
        Some(c) => String::from_str(c),
        None => String::new(),
    }
}

} // verus!
