//! Passwords and logins. Stored passwords are SHA-512 digests; clients and
//! clerks log in with their e-mail and password, the administration with
//! its own fixed credentials.

use vstd::prelude::*;
use crate::accounts::{client_type, UserAccount};
use crate::dates::{read_date, read_date_spec, CalendarDate, DateError, DateOrder};
use crate::models::NewAddress;
use crate::numbers::{i32_to_text, signed_text};
use crate::secrets::{is_ascii_alphanumeric, random_alphanumeric, sha512_hex, sha512_hex_spec};
use crate::text::text_eq;

verus! {

/// The stored form of a password: its SHA-512 digest.
pub fn hash_password(plain: &str) -> (res: String)
    ensures
        res@ == sha512_hex_spec(plain@),
{
    sha512_hex(plain)
}

/// Whether `candidate` is exactly the stored password column of the user
/// (the first row found).
pub fn check_pass(stored: &Vec<String>, candidate: &str) -> (res: bool)
    requires
        stored.len() > 0,
    ensures
        res == (stored[0]@ == candidate@),
{
    text_eq(stored[0].as_str(), candidate)
}

/// The password column after a profile form is saved: a form that sends
/// back the stored digest keeps it, any other value is a new password and
/// is stored as its digest.
pub open spec fn stored_password_spec(stored: Seq<char>, submitted: Seq<char>) -> Seq<char> {
    if stored == submitted {
        submitted
    } else {
        sha512_hex_spec(submitted)
    }
}

/// The password column after a profile form is saved.
pub fn password_to_store(stored: &Vec<String>, submitted: &str) -> (res: String)
    requires
        stored.len() > 0,
    ensures
        res@ == stored_password_spec(stored[0]@, submitted@),
        stored[0]@ == submitted@ ==> res@ == stored[0]@,
        stored[0]@ != submitted@ ==> res@ == sha512_hex_spec(submitted@),
{
    if check_pass(stored, submitted) {
        String::from_str(submitted)
    } else {
        hash_password(submitted)
    }
}

/// Saving a profile form stores a new password whenever the password
/// field differs from the stored column, whatever that column holds
/// (a digest or anything else): the column becomes the digest of what was
/// typed. Only a form that sends the stored column back keeps it.
pub proof fn lemma_changed_password_is_stored(stored: Seq<char>, submitted: Seq<char>)
    ensures
        stored != submitted ==> stored_password_spec(stored, submitted) == sha512_hex_spec(submitted),
        stored == submitted ==> stored_password_spec(stored, submitted) == stored,
{
}

/// Saving a profile form that sends back the stored password column leaves
/// the column unchanged, so editing a profile never rehashes a password.
pub proof fn lemma_resubmitted_password_kept(stored: Seq<char>)
    ensures
        stored_password_spec(stored, stored) == stored,
{
}

/// Saving a profile form twice with the same password value stores the
/// same column as saving it once: a new password is digested once, not again.
pub proof fn lemma_password_save_idempotent(stored: Seq<char>, submitted: Seq<char>)
    ensures
        stored_password_spec(stored_password_spec(stored, submitted), submitted) == stored_password_spec(
            stored,
            submitted,
        ),
{
}

/// What a login attempt leads to.
#[derive(Debug)]
pub enum LoginDecision {
    /// Store `cookie` as the user's session and go to `redirect`.
    Granted { user_id: i32, cookie: String, redirect: String },
    /// Go back to `redirect` showing `flash`.
    Refused { redirect: String, flash: String },
}

pub open spec fn login_refused_flash() -> Seq<char> {
    "Ops... Não encontramos seus dados... Por favor, tente novamente ou recupere sua senha abaixo."@
}

/// The login of a client or clerk, given the (id, type) rows that match
/// the e-mail and password digest: the first match logs in, clients to
/// their account page and clerks to their attendance page.
pub fn client_login(matches: &Vec<(i32, i32)>) -> (res: LoginDecision)
    ensures
        match res {
            LoginDecision::Granted { user_id, cookie, redirect } => matches.len() > 0 && user_id
                == matches[0].0 && cookie@ == signed_text(user_id as int) && redirect@ == (if matches[0].1
                == client_type() {
                "/my-acc"@
            } else {
                "/atendimento"@
            }),
            LoginDecision::Refused { redirect, flash } => matches.len() == 0 && redirect@ == "/login"@
                && flash@ == login_refused_flash(),
        },
{
    if matches.len() > 0 {
        let (user_id, user_type) = matches[0];
        let cookie = i32_to_text(user_id);
        let redirect = if user_type == 1 {
            String::from_str("/my-acc")
        } else {
            String::from_str("/atendimento")
        };
        LoginDecision::Granted { user_id, cookie, redirect }
    } else {
        LoginDecision::Refused {
            redirect: String::from_str("/login"),
            flash: String::from_str(
                "Ops... Não encontramos seus dados... Por favor, tente novamente ou recupere sua senha abaixo.",
            ),
        }
    }
}

/// What an administration login attempt leads to.
#[derive(Debug)]
pub enum AdminLoginDecision {
    /// Store `cookie_value` under `cookie_name` and go to `redirect`.
    Granted { cookie_name: String, cookie_value: String, redirect: String },
    /// Go back to `redirect` showing `flash`.
    Refused { redirect: String, flash: String },
}

pub open spec fn admin_email() -> Seq<char> {
    "atendimento@templo-sagrado.com"@
}

pub open spec fn admin_password() -> Seq<char> {
    "templo-vonmuller-2021"@
}

/// The administration login: only the fixed e-mail and password open the panel.
pub fn admin_login(email: &str, password: &str) -> (res: AdminLoginDecision)
    ensures
        match res {
            AdminLoginDecision::Granted { cookie_name, cookie_value, redirect } => email@ == admin_email()
                && password@ == admin_password() && cookie_name@ == "easytarot_administrative_user"@
                && cookie_value@ == "1"@ && redirect@ == "/admin"@,
            AdminLoginDecision::Refused { redirect, flash } => !(email@ == admin_email() && password@
                == admin_password()) && redirect@ == "/admin/login"@ && flash@
                == "Senha/usuário não confere."@,
        },
{
    if text_eq(email, "atendimento@templo-sagrado.com") && text_eq(password, "templo-vonmuller-2021") {
        AdminLoginDecision::Granted {
            cookie_name: String::from_str("easytarot_administrative_user"),
            cookie_value: String::from_str("1"),
            redirect: String::from_str("/admin"),
        }
    } else {
        AdminLoginDecision::Refused {
            redirect: String::from_str("/admin/login"),
            flash: String::from_str("Senha/usuário não confere."),
        }
    }
}

/// The fields of the client registration form.
#[derive(Debug)]
pub struct FormNewUser {
    pub user_name: String,
    pub user_email: String,
    pub user_birthdate: String,
    pub user_genre: String,
    pub user_phone: String,
    pub user_zip_code: String,
    pub user_city: String,
    pub user_street: String,
    pub user_addr_num: String,
    pub user_alias: String,
    pub user_pass: String,
    pub user_uni: String,
    pub user_news_letter: Option<String>,
}

/// Whether `a` is the user row of a registration form `f`: the birthdate
/// is the one the form writes `yyyy-mm-dd`, the password is stored as its
/// digest, every client subscribes to the newsletter.
pub open spec fn registered_account(f: FormNewUser, a: UserAccount) -> bool {
    &&& read_date_spec(f.user_birthdate@, '-', DateOrder::YearMonthDay) == Ok::<CalendarDate, DateError>(a.user_birthdate)
    &&& a.user_name@ == f.user_name@
    &&& a.user_email@ == f.user_email@
    &&& a.user_password@ == sha512_hex_spec(f.user_pass@)
    &&& a.user_genre@ == f.user_genre@
    &&& a.user_alias matches Some(x) && x@ == f.user_alias@
    &&& a.user_newsletter
    &&& a.user_type_id == client_type()
    &&& a.user_status == Some(true)
    &&& a.user_uni matches Some(x) && x@ == f.user_uni@
    &&& a.user_fb_id matches Some(x) && x@ == Seq::<char>::empty()
}

/// The user row of a registration: the birthdate is written `yyyy-mm-dd`,
/// the password is stored as its digest, every client subscribes to the
/// newsletter.
pub fn registration_account(f: &FormNewUser) -> (res: Result<UserAccount, DateError>)
    ensures
        match res {
            Ok(a) => registered_account(*f, a),
            Err(e) => read_date_spec(f.user_birthdate@, '-', DateOrder::YearMonthDay) == Err::<CalendarDate, DateError>(e),
        },
{
    let birthdate = match read_date(f.user_birthdate.as_str(), '-', DateOrder::YearMonthDay) {
        Ok(d) => d,
        Err(e) => {
            return Err(e);
        },
    };
    Ok(UserAccount {
        user_name: f.user_name.clone(),
        user_email: f.user_email.clone(),
        user_password: hash_password(f.user_pass.as_str()),
        user_birthdate: birthdate,
        user_genre: f.user_genre.clone(),
        user_alias: Some(f.user_alias.clone()),
        user_newsletter: true,
        user_type_id: 1,
        user_status: Some(true),
        user_uni: Some(f.user_uni.clone()),
        user_fb_id: Some(String::new()),
    })
}

/// The address row of a registration; clients are placed in Portugal.
pub fn registration_address(f: &FormNewUser, user_id: i32) -> (res: NewAddress)
    ensures
        res.address_number@ == f.user_addr_num@,
        res.address_street@ == f.user_street@,
        res.address_city@ == f.user_city@,
        res.address_state@ == "Portugal"@,
        res.address_country@ == "Portugal"@,
        res.address_postalcode@ == f.user_zip_code@,
        res.user_id == user_id,
{
    NewAddress {
        address_number: f.user_addr_num.clone(),
        address_street: f.user_street.clone(),
        address_city: f.user_city.clone(),
        address_state: String::from_str("Portugal"),
        address_country: String::from_str("Portugal"),
        address_postalcode: f.user_zip_code.clone(),
        user_id,
    }
}

/// The step of a registration that failed.
#[derive(Clone, Copy, Debug, PartialEq, Eq, Structural)]
pub enum RegistrationStep {
    Birthdate,
    User,
    Address,
    Phone,
}

/// The reply the registration page gets: `success`, or the code of the
/// step that failed (nothing is stored then).
pub open spec fn registration_reply_spec(failed: Option<RegistrationStep>) -> Seq<char> {
    match failed {
        None => "success"@,
        Some(RegistrationStep::Birthdate) => "invalid_date_error"@,
        Some(RegistrationStep::User) => "user_error"@,
        Some(RegistrationStep::Address) => "address_error"@,
        Some(RegistrationStep::Phone) => "phone_error"@,
    }
}

/// The reply the registration page gets.
pub fn registration_reply(failed: Option<RegistrationStep>) -> (res: String)
    ensures
        res@ == registration_reply_spec(failed),
{
    match failed {
        None => String::from_str("success"),
        Some(RegistrationStep::Birthdate) => String::from_str("invalid_date_error"),
        Some(RegistrationStep::User) => String::from_str("user_error"),
        Some(RegistrationStep::Address) => String::from_str("address_error"),
        Some(RegistrationStep::Phone) => String::from_str("phone_error"),
    }
}

/// The first step of a registration: the user row to store, or, when the
/// birthdate cannot be read for whatever reason (too few parts, a part
/// that is not a number, a day that does not exist), the reply
/// `invalid_date_error`, and then nothing is stored.
pub fn registration_account_or_reply(f: &FormNewUser) -> (res: Result<UserAccount, String>)
    ensures
        res is Ok <==> read_date_spec(f.user_birthdate@, '-', DateOrder::YearMonthDay) is Ok,
        match res {
            Ok(a) => registered_account(*f, a),
            Err(reply) => reply@ == registration_reply_spec(Some(RegistrationStep::Birthdate))
                && reply@ == "invalid_date_error"@,
        },
{
    match registration_account(f) {
        Ok(a) => Ok(a),
        Err(_) => Err(registration_reply(Some(RegistrationStep::Birthdate))),
    }
}

/// The user row of a first Facebook login: the Facebook id, digested, is
/// the password and is kept as the Facebook id; the birthdate is written
/// `yyyy-mm-dd`; `alias` and `uni` are the values to store.
pub fn facebook_account_with(
    email: &str,
    name: &str,
    facebook_id: &str,
    birthdate: &str,
    alias: String,
    uni: String,
) -> (res: Result<UserAccount, DateError>)
    ensures
        match res {
            Ok(a) => {
                &&& read_date_spec(birthdate@, '-', DateOrder::YearMonthDay) == Ok::<CalendarDate, DateError>(a.user_birthdate)
                &&& a.user_name@ == name@
                &&& a.user_email@ == email@
                &&& a.user_password@ == sha512_hex_spec(facebook_id@)
                &&& a.user_genre@ == Seq::<char>::empty()
                &&& a.user_alias matches Some(x) && x@ == alias@
                &&& a.user_newsletter
                &&& a.user_type_id == client_type()
                &&& a.user_status == Some(true)
                &&& a.user_uni matches Some(x) && x@ == uni@
                &&& a.user_fb_id matches Some(x) && x@ == facebook_id@
            },
            Err(e) => read_date_spec(birthdate@, '-', DateOrder::YearMonthDay) == Err::<CalendarDate, DateError>(e),
        },
{
    let date = match read_date(birthdate, '-', DateOrder::YearMonthDay) {
        Ok(d) => d,
        Err(e) => {
            return Err(e);
        },
    };
    Ok(UserAccount {
        user_name: String::from_str(name),
        user_email: String::from_str(email),
        user_password: hash_password(facebook_id),
        user_birthdate: date,
        user_genre: String::new(),
        user_alias: Some(alias),
        user_newsletter: true,
        user_type_id: 1,
        user_status: Some(true),
        user_uni: Some(uni),
        user_fb_id: Some(String::from_str(facebook_id)),
    })
}

/// The user row of a first Facebook login, with a fresh random alias of 30
/// letters and digits and a fresh random `uni` of 10 (which ones is left to
/// the random generator); otherwise as `facebook_account_with`.
pub fn facebook_account(email: &str, name: &str, facebook_id: &str, birthdate: &str) -> (res: Result<
    UserAccount,
    DateError,
>)
    ensures
        match res {
            Ok(a) => {
                &&& read_date_spec(birthdate@, '-', DateOrder::YearMonthDay) == Ok::<CalendarDate, DateError>(a.user_birthdate)
                &&& a.user_name@ == name@
                &&& a.user_email@ == email@
                &&& a.user_password@ == sha512_hex_spec(facebook_id@)
                &&& a.user_genre@ == Seq::<char>::empty()
                &&& a.user_alias matches Some(x) && x@.len() == 30 && forall|i: int|
                    0 <= i < x@.len() ==> is_ascii_alphanumeric(#[trigger] x@[i])
                &&& a.user_newsletter
                &&& a.user_type_id == client_type()
                &&& a.user_status == Some(true)
                &&& a.user_uni matches Some(x) && x@.len() == 10 && forall|i: int|
                    0 <= i < x@.len() ==> is_ascii_alphanumeric(#[trigger] x@[i])
                &&& a.user_fb_id matches Some(x) && x@ == facebook_id@
            },
            Err(e) => read_date_spec(birthdate@, '-', DateOrder::YearMonthDay) == Err::<CalendarDate, DateError>(e),
        },
{
    let alias = random_alphanumeric(30);
    let uni = random_alphanumeric(10);
    facebook_account_with(email, name, facebook_id, birthdate, alias, uni)
}

/// What a Facebook login leads to, given the ids of the users with that
/// Facebook id and e-mail.
#[derive(Debug)]
pub enum FacebookStep {
    /// Store `cookie` as the session and go to `redirect`.
    LogIn { user_id: i32, cookie: String, redirect: String },
    /// No such user yet: create one, then log it in.
    Create,
}

/// A known Facebook user (the first match) logs in to the account page;
/// an unknown one is created first.
pub fn facebook_login(known: &Vec<i32>) -> (res: FacebookStep)
    ensures
        match res {
            FacebookStep::LogIn { user_id, cookie, redirect } => known.len() > 0 && user_id == known[0]
                && cookie@ == signed_text(user_id as int) && redirect@ == "/my-acc"@,
            FacebookStep::Create => known.len() == 0,
        },
{
    if known.len() > 0 {
        let user_id = known[0];
        FacebookStep::LogIn { user_id, cookie: i32_to_text(user_id), redirect: String::from_str("/my-acc") }
    } else {
        FacebookStep::Create
    }
}

/// A generated password: the text mailed to the user and the digest stored.
#[derive(Debug)]
pub struct NewPassword {
    pub plain: String,
    pub digest: String,
}

/// A fresh password of 10 random letters and digits (which ones is left to
/// the random generator), with the digest to store for it.
pub fn new_password() -> (res: NewPassword)
    ensures
        res.plain@.len() == 10,
        forall|i: int| 0 <= i < res.plain@.len() ==> is_ascii_alphanumeric(#[trigger] res.plain@[i]),
        res.digest@ == sha512_hex_spec(res.plain@),
{
    let plain = random_alphanumeric(10);
    let digest = hash_password(plain.as_str());
    NewPassword { plain, digest }
}

/// The empty address row of a user created from a Facebook login.
pub fn empty_address(user_id: i32) -> (res: NewAddress)
    ensures
        res.address_number@ == Seq::<char>::empty(),
        res.address_street@ == Seq::<char>::empty(),
        res.address_city@ == Seq::<char>::empty(),
        res.address_state@ == Seq::<char>::empty(),
        res.address_country@ == Seq::<char>::empty(),
        res.address_postalcode@ == Seq::<char>::empty(),
        res.user_id == user_id,
{
    NewAddress {
        address_number: String::new(),
        address_street: String::new(),
        address_city: String::new(),
        address_state: String::new(),
        address_country: String::new(),
        address_postalcode: String::new(),
        user_id,
    }
}

} // verus!
