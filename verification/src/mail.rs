//! The mails the platform sends: the notice that a clerk a client waits
//! for is online, a clerk's answer to a client's mail, and a new password.
//! Each is a raw message with its headers; the HTML body comes from a
//! template rendered by the caller.

use vstd::prelude::*;

verus! {

/// The address every mail is sent from.
pub open spec fn sender_spec() -> Seq<char> {
    "templosagrado.marketing@gmail.com"@
}

/// The address every mail is sent from.
pub fn sender() -> (res: String)
    ensures
        res@ == sender_spec(),
{
    String::from_str("templosagrado.marketing@gmail.com")
}

/// A raw message: the headers, then `body`.
pub open spec fn raw_mail_spec(date: Seq<char>, subject: Seq<char>, to: Seq<char>, body: Seq<char>) -> Seq<char> {
    "Date: <"@ + date + ">\r\n"@ + "From: Templo Sagrado <"@ + sender_spec() + ">\r\n"@
        + "Subject: "@ + subject + " \r\n"@ + "To: <"@ + to + ">\r\n"@
        + "Content-Type: text/html; charset='UTF-8' \r\n"@
        + "Content-Transfer-Encoding: quoted-printable \r\n"@ + body
}

fn raw_mail(date: &str, subject: &str, to: &str, body: &str) -> (res: String)
    ensures
        res@ == raw_mail_spec(date@, subject@, to@, body@),
{
    let mut s = String::from_str("Date: <");
    s.append(date);
    s.append(">\r\n");
    s.append("From: Templo Sagrado <");
    s.append("templosagrado.marketing@gmail.com");
    s.append(">\r\n");
    s.append("Subject: ");
    s.append(subject);
    s.append(" \r\n");
    s.append("To: <");
    s.append(to);
    s.append(">\r\n");
    s.append("Content-Type: text/html; charset='UTF-8' \r\n");
    s.append("Content-Transfer-Encoding: quoted-printable \r\n");
    s.append(body);
    s
}

/// The subject of the notice that a clerk is online, for the client `user_name`.
pub open spec fn online_subject_spec(user_name: Seq<char>) -> Seq<char> {
    user_name + ", O atendente que você mostrou interesse está disponível AGORA!"@
}

/// The notice to `user_name` at `to` that the clerk they asked about is
/// online; `body` is the rendered notice, `date` the sending time.
pub fn online_notice_mail(date: &str, user_name: &str, to: &str, body: &str) -> (res: String)
    ensures
        res@ == raw_mail_spec(date@, online_subject_spec(user_name@), to@, body@),
{
    let mut subject = String::from_str(user_name);
    subject.append(", O atendente que você mostrou interesse está disponível AGORA!");
    raw_mail(date, subject.as_str(), to, body)
}

/// The closing line of a clerk's answer.
pub open spec fn answer_tail_spec() -> Seq<char> {
    " \r\n\r\n E-mail de atendimento (Está salvo em sua conta para visualização posterior) "@
}

/// A clerk's answer with `subject` to the client at `to`; `body` is the
/// rendered answer.
pub fn answer_mail(date: &str, subject: &str, to: &str, body: &str) -> (res: String)
    ensures
        res@ == raw_mail_spec(date@, subject@, to@, body@ + answer_tail_spec()),
{
    let mut full = String::from_str(body);
    full.append(" \r\n\r\n E-mail de atendimento (Está salvo em sua conta para visualização posterior) ");
    raw_mail(date, subject, to, full.as_str())
}

/// The closing line of a new-password mail.
pub open spec fn password_tail_spec() -> Seq<char> {
    " \r\n\r\n Sugerimos que mude a sua snha o quanto antes. "@
}

/// The mail that hands a new password to the user at `to`; `body` is the
/// rendered message holding it.
pub fn password_mail(date: &str, to: &str, body: &str) -> (res: String)
    ensures
        res@ == raw_mail_spec(date@, "Sua nova senha"@, to@, body@ + password_tail_spec()),
{
    let mut full = String::from_str(body);
    full.append(" \r\n\r\n Sugerimos que mude a sua snha o quanto antes. ");
    raw_mail(date, "Sua nova senha", to, full.as_str())
}

/// Every mail starts with its date header and names its recipient in a
/// `To:` header placed after the sender and subject.
pub proof fn lemma_mail_headers(date: Seq<char>, subject: Seq<char>, to: Seq<char>, body: Seq<char>)
    ensures
        raw_mail_spec(date, subject, to, body).take(7) == "Date: <"@,
        ({
            let start: int = (7 + date.len() + 3 + 22 + sender_spec().len() + 3 + 9 + subject.len() + 3) as int;
            raw_mail_spec(date, subject, to, body).subrange(start, start + 5 + to.len() + 3) == "To: <"@
                + to + ">\r\n"@
        }),
{
    reveal_strlit("Date: <");
    reveal_strlit(">\r\n");
    reveal_strlit("From: Templo Sagrado <");
    reveal_strlit("templosagrado.marketing@gmail.com");
    reveal_strlit("Subject: ");
    reveal_strlit(" \r\n");
    reveal_strlit("To: <");
    let m = raw_mail_spec(date, subject, to, body);
    assert(m.take(7) =~= "Date: <"@);
    let start: int = (7 + date.len() + 3 + 22 + sender_spec().len() + 3 + 9 + subject.len() + 3) as int;
    assert(m.subrange(start, start + 5 + to.len() + 3) =~= "To: <"@ + to + ">\r\n"@);
}

/// The text handlebars renders from a template registered as `mail-notify`
/// with the data `{"mail_data": [items...]}`, or `None` when the template
/// does not compile or does not render.
pub uninterp spec fn rendered_with_list(template: Seq<char>, items: Seq<Seq<char>>) -> Option<Seq<char>>;

/// The text handlebars renders from a template registered as `mail-pass`
/// with the data `{"mail_data": text}`, or `None` when the template does
/// not compile or does not render.
pub uninterp spec fn rendered_with_text(template: Seq<char>, text: Seq<char>) -> Option<Seq<char>>;

pub open spec fn string_views(v: Seq<String>) -> Seq<Seq<char>> {
    v.map_values(|s: String| s@)
}

/// handlebars' `Handlebars::new`, `register_template_string("mail-notify", template)`
/// and `render("mail-notify", {"mail_data": items})`. The result is named by
/// `rendered_with_list`: it depends on the template and the items alone.
/// A compile or render error gives `None`.
#[verifier::external_body]
fn render_with_list(template: &str, items: &Vec<String>) -> (res: Option<String>)
    ensures
        match rendered_with_list(template@, string_views(items@)) {
            Some(b) => res matches Some(r) && r@ == b,
            None => res is None,
        },
{
    let mut handlebars = handlebars::Handlebars::new();
    handlebars.register_template_string("mail-notify", template).ok()?;
    let mut context = std::collections::HashMap::new();
    context.insert("mail_data", items);
    handlebars.render("mail-notify", &context).ok()
}

/// handlebars' `Handlebars::new`, `register_template_string("mail-pass", template)`
/// and `render("mail-pass", {"mail_data": text})`. The result is named by
/// `rendered_with_text`: it depends on the template and the text alone.
/// A compile or render error gives `None`.
#[verifier::external_body]
fn render_with_text(template: &str, text: &str) -> (res: Option<String>)
    ensures
        match rendered_with_text(template@, text@) {
            Some(b) => res matches Some(r) && r@ == b,
            None => res is None,
        },
{
    let mut handlebars = handlebars::Handlebars::new();
    handlebars.register_template_string("mail-pass", template).ok()?;
    let mut context = std::collections::HashMap::new();
    context.insert("mail_data", text);
    handlebars.render("mail-pass", &context).ok()
}

/// The notice that a clerk is online, its body rendered from `template`
/// with `[user_name, clerk_name, clerk_slug]`; `None` when the template does
/// not render (the server stops then).
pub fn online_notice_from_template(
    date: &str,
    template: &str,
    user_name: &str,
    to: &str,
    clerk_name: &str,
    clerk_slug: &str,
) -> (res: Option<String>)
    ensures
        match rendered_with_list(template@, seq![user_name@, clerk_name@, clerk_slug@]) {
            Some(b) => res matches Some(m) && m@ == raw_mail_spec(date@, online_subject_spec(user_name@), to@, b),
            None => res is None,
        },
{
    let items = vec![String::from_str(user_name), String::from_str(clerk_name), String::from_str(clerk_slug)];
    assert(string_views(items@) =~= seq![user_name@, clerk_name@, clerk_slug@]);
    match render_with_list(template, &items) {
        Some(body) => Some(online_notice_mail(date, user_name, to, body.as_str())),
        None => None,
    }
}

/// A clerk's answer, its body rendered from `template` with
/// `[content, clerk_name, clerk_slug]`; `None` when the template does not render.
pub fn answer_mail_from_template(
    date: &str,
    template: &str,
    subject: &str,
    content: &str,
    to: &str,
    clerk_name: &str,
    clerk_slug: &str,
) -> (res: Option<String>)
    ensures
        match rendered_with_list(template@, seq![content@, clerk_name@, clerk_slug@]) {
            Some(b) => res matches Some(m) && m@ == raw_mail_spec(date@, subject@, to@, b + answer_tail_spec()),
            None => res is None,
        },
{
    let items = vec![String::from_str(content), String::from_str(clerk_name), String::from_str(clerk_slug)];
    assert(string_views(items@) =~= seq![content@, clerk_name@, clerk_slug@]);
    match render_with_list(template, &items) {
        Some(body) => Some(answer_mail(date, subject, to, body.as_str())),
        None => None,
    }
}

/// The mail that hands over a new password, its body rendered from
/// `template` with the password; `None` when the template does not render.
pub fn password_mail_from_template(date: &str, template: &str, password: &str, to: &str) -> (res: Option<String>)
    ensures
        match rendered_with_text(template@, password@) {
            Some(b) => res matches Some(m) && m@ == raw_mail_spec(date@, "Sua nova senha"@, to@, b + password_tail_spec()),
            None => res is None,
        },
{
    match render_with_text(template, password) {
        Some(body) => Some(password_mail(date, to, body.as_str())),
        None => None,
    }
}

} // verus!
