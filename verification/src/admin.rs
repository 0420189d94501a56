//! The administration panel's section pages, and what a visitor without an
//! administrator session is told instead.

use vstd::prelude::*;

verus! {

/// The sections of the administration panel.
#[derive(Clone, Copy, Debug, PartialEq, Eq, Structural)]
pub enum AdminSection {
    Home,
    Clerks,
    Clients,
    Sales,
    Products,
    Blog,
    Mail,
    Chats,
    Voice,
    Intends,
    Testimonials,
    Config,
    AttendanceTags,
    Pages,
}

/// A page to render: its template and the path the menu marks as current.
#[derive(Debug)]
pub struct AdminPage {
    pub template: String,
    pub path: String,
}

/// The template and menu path of each section.
pub open spec fn admin_page_spec(section: AdminSection) -> (Seq<char>, Seq<char>) {
    match section {
        AdminSection::Home => ("pages/home/index"@, "/"@),
        AdminSection::Clerks => ("pages/clerk/list"@, "/clerk"@),
        AdminSection::Clients => ("pages/client/list"@, "/clients"@),
        AdminSection::Sales => ("pages/sales/list"@, "/voice"@),
        AdminSection::Products => ("pages/product/list"@, "/clerk"@),
        AdminSection::Blog => ("pages/blog/index"@, "/"@),
        AdminSection::Mail => ("pages/mail/index"@, "/"@),
        AdminSection::Chats => ("pages/chat/list"@, "/clerk"@),
        AdminSection::Voice => ("pages/voice/list"@, "/voice"@),
        AdminSection::Intends => ("pages/intends/list"@, "/clients"@),
        AdminSection::Testimonials => ("pages/testimonials/list"@, "/clerk"@),
        AdminSection::Config => ("pages/config/index"@, "/admin/config/"@),
        AdminSection::AttendanceTags => ("pages/config/attendance-tags"@, "/admin/attendance-tags"@),
        AdminSection::Pages => ("pages/pages/index"@, "/"@),
    }
}

fn page(template: &str, path: &str) -> (res: AdminPage)
    ensures
        res.template@ == template@,
        res.path@ == path@,
{
    AdminPage { template: String::from_str(template), path: String::from_str(path) }
}

/// The page of a section.
pub fn admin_page(section: AdminSection) -> (res: AdminPage)
    ensures
        (res.template@, res.path@) == admin_page_spec(section),
{
    match section {
        AdminSection::Home => page("pages/home/index", "/"),
        AdminSection::Clerks => page("pages/clerk/list", "/clerk"),
        AdminSection::Clients => page("pages/client/list", "/clients"),
        AdminSection::Sales => page("pages/sales/list", "/voice"),
        AdminSection::Products => page("pages/product/list", "/clerk"),
        AdminSection::Blog => page("pages/blog/index", "/"),
        AdminSection::Mail => page("pages/mail/index", "/"),
        AdminSection::Chats => page("pages/chat/list", "/clerk"),
        AdminSection::Voice => page("pages/voice/list", "/voice"),
        AdminSection::Intends => page("pages/intends/list", "/clients"),
        AdminSection::Testimonials => page("pages/testimonials/list", "/clerk"),
        AdminSection::Config => page("pages/config/index", "/admin/config/"),
        AdminSection::AttendanceTags => page("pages/config/attendance-tags", "/admin/attendance-tags"),
        AdminSection::Pages => page("pages/pages/index", "/"),
    }
}

/// Where a visitor without an administrator session is sent, and the notice shown.
#[derive(Debug)]
pub struct SessionNotice {
    pub redirect: String,
    pub flash: String,
}

pub open spec fn expired_session_flash() -> Seq<char> {
    "Ops... parece que sua sessão é inválida. Por favor, refaça o login."@
}

/// What any section answers a visitor without an administrator session.
pub fn expired_admin_session() -> (res: SessionNotice)
    ensures
        res.redirect@ == "/admin/login"@,
        res.flash@ == expired_session_flash(),
{
    SessionNotice {
        redirect: String::from_str("/admin/login"),
        flash: String::from_str("Ops... parece que sua sessão é inválida. Por favor, refaça o login."),
    }
}

/// The length and the seventh and eighth characters of a section's template,
/// which tell the templates apart.
spec fn template_key(section: AdminSection) -> (nat, char, char) {
    let t = admin_page_spec(section).0;
    (t.len(), t[6], t[7])
}

proof fn lemma_template_key(section: AdminSection)
    ensures
        template_key(section) == (match section {
            AdminSection::Home => (16nat, 'h', 'o'),
            AdminSection::Clerks => (16nat, 'c', 'l'),
            AdminSection::Clients => (17nat, 'c', 'l'),
            AdminSection::Sales => (16nat, 's', 'a'),
            AdminSection::Products => (18nat, 'p', 'r'),
            AdminSection::Blog => (16nat, 'b', 'l'),
            AdminSection::Mail => (16nat, 'm', 'a'),
            AdminSection::Chats => (15nat, 'c', 'h'),
            AdminSection::Voice => (16nat, 'v', 'o'),
            AdminSection::Intends => (18nat, 'i', 'n'),
            AdminSection::Testimonials => (23nat, 't', 'e'),
            AdminSection::Config => (18nat, 'c', 'o'),
            AdminSection::AttendanceTags => (28nat, 'c', 'o'),
            AdminSection::Pages => (17nat, 'p', 'a'),
        }),
{
    match section {
        AdminSection::Home => {
            reveal_strlit("pages/home/index");
        },
        AdminSection::Clerks => {
            reveal_strlit("pages/clerk/list");
        },
        AdminSection::Clients => {
            reveal_strlit("pages/client/list");
        },
        AdminSection::Sales => {
            reveal_strlit("pages/sales/list");
        },
        AdminSection::Products => {
            reveal_strlit("pages/product/list");
        },
        AdminSection::Blog => {
            reveal_strlit("pages/blog/index");
        },
        AdminSection::Mail => {
            reveal_strlit("pages/mail/index");
        },
        AdminSection::Chats => {
            reveal_strlit("pages/chat/list");
        },
        AdminSection::Voice => {
            reveal_strlit("pages/voice/list");
        },
        AdminSection::Intends => {
            reveal_strlit("pages/intends/list");
        },
        AdminSection::Testimonials => {
            reveal_strlit("pages/testimonials/list");
        },
        AdminSection::Config => {
            reveal_strlit("pages/config/index");
        },
        AdminSection::AttendanceTags => {
            reveal_strlit("pages/config/attendance-tags");
        },
        AdminSection::Pages => {
            reveal_strlit("pages/pages/index");
        },
    }
}

/// No two sections share a template: each section shows its own page.
pub proof fn lemma_sections_have_own_templates(a: AdminSection, b: AdminSection)
    requires
        a != b,
    ensures
        admin_page_spec(a).0 != admin_page_spec(b).0,
{
    lemma_template_key(a);
    lemma_template_key(b);
}

} // verus!
