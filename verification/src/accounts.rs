//! The records behind a user account: what the registration, profile and
//! clerk forms store. Balances, bonuses and timestamps are added by the
//! server when it writes the user row.

use vstd::prelude::*;
use crate::dates::{read_date, read_date_spec, CalendarDate, DateError, DateOrder};
use crate::models::{NewAddress, NewClerkBank, NewClerkInfo, NewPhone, NewStatusClerk};
use crate::numbers::{parse_bool, parse_bool_spec, parse_i32, parse_i32_spec};
use crate::auth::{hash_password, password_to_store, stored_password_spec};
use crate::secrets::{is_ascii_alphanumeric, random_alphanumeric, sha512_hex_spec};

verus! {

/// The user types: clients buy minutes, clerks attend them.
pub open spec fn client_type() -> i32 {
    1
}

pub open spec fn clerk_type() -> i32 {
    2
}

/// A user row without its balance, bonus and timestamps.
#[derive(Debug)]
pub struct UserAccount {
    pub user_name: String,
    pub user_email: String,
    pub user_password: String,
    pub user_birthdate: CalendarDate,
    pub user_genre: String,
    pub user_alias: Option<String>,
    pub user_newsletter: bool,
    pub user_type_id: i32,
    pub user_status: Option<bool>,
    pub user_uni: Option<String>,
    pub user_fb_id: Option<String>,
}

/// The text fields of the form that creates or edits a clerk.
#[derive(Debug)]
pub struct ClerkForm {
    pub user_name: String,
    pub user_phone_number: String,
    pub user_genre: String,
    pub user_birthdate: String,
    pub clerk_info_cpf: String,
    pub clerk_info_comission_rate: String,
    pub user_zip_code: String,
    pub user_city: String,
    pub user_state: String,
    pub user_street: String,
    pub user_addr_num: String,
    pub user_email: String,
    pub user_password: String,
    pub clerk_info_experience: String,
    pub clerk_info_phrase: String,
    pub clerk_bank_name: String,
    pub clerk_bank_account_type: String,
    pub clerk_bank_agency_number: String,
    pub clerk_bank_acc_number: String,
    pub clerk_bank_cpf: String,
    pub clerk_info_chat: String,
    pub clerk_info_mail: String,
    pub clerk_info_voice: String,
    pub clerk_info_webcam: String,
    pub clerk_info_priority: String,
    pub clerk_info_exhibition: String,
    pub clerk_info_description: String,
    pub clerk_info_long_description: String,
}

/// Whether the clerk form creates a clerk or edits one.
#[derive(Clone, Copy, Debug, PartialEq, Eq, Structural)]
pub enum ClerkFormUse {
    Create,
    Edit,
}

/// Why a clerk form cannot be stored.
#[derive(Clone, Copy, Debug, PartialEq, Eq, Structural)]
pub enum ClerkFormError {
    /// The birthdate (`dd/mm/yyyy`) cannot be read.
    Birthdate(DateError),
    /// An availability field (chat, mail, voice, webcam) is not `true` or `false`.
    Availability,
}

/// Everything a clerk form stores besides the user row's balances.
#[derive(Debug)]
pub struct ClerkRecords {
    pub account: UserAccount,
    pub profile: NewClerkInfo,
    pub bank: NewClerkBank,
    pub address: NewAddress,
    pub phone: NewPhone,
}

/// A phone row of the only phone type.
pub fn phone_record(number: &str, user_id: i32) -> (res: NewPhone)
    ensures
        res.phone_number@ == number@,
        res.user_id == user_id,
        res.phone_type_id == 1,
{
    NewPhone { phone_number: String::from_str(number), user_id, phone_type_id: 1 }
}

/// The presence row of a new clerk: offline and available for nothing.
pub fn offline_clerk_status(clerk_id: i32) -> (res: NewStatusClerk)
    ensures
        res.clerk_id == clerk_id,
        res.status == 0,
        !res.is_available_chat && !res.is_available_voice && !res.is_available_video
            && !res.is_available_mail,
{
    NewStatusClerk {
        clerk_id,
        status: 0,
        is_available_chat: false,
        is_available_voice: false,
        is_available_video: false,
        is_available_mail: false,
    }
}

/// The alias stored for a clerk: 30 random letters and digits for a new
/// clerk (which ones is left to the random generator), `Tarologo` for an
/// edited one.
pub fn clerk_alias(use_: ClerkFormUse) -> (res: String)
    ensures
        use_ == ClerkFormUse::Create ==> res@.len() == 30 && forall|i: int|
            0 <= i < res@.len() ==> is_ascii_alphanumeric(#[trigger] res@[i]),
        use_ == ClerkFormUse::Edit ==> res@ == "Tarologo"@,
{
    match use_ {
        ClerkFormUse::Create => random_alphanumeric(30),
        ClerkFormUse::Edit => String::from_str("Tarologo"),
    }
}

/// The availability flags of a clerk form, when all four read as booleans.
pub open spec fn clerk_flags_spec(f: ClerkForm) -> Option<(bool, bool, bool, bool)> {
    match (
        parse_bool_spec(f.clerk_info_chat@),
        parse_bool_spec(f.clerk_info_mail@),
        parse_bool_spec(f.clerk_info_voice@),
        parse_bool_spec(f.clerk_info_webcam@),
    ) {
        (Some(c), Some(m), Some(v), Some(w)) => Some((c, m, v, w)),
        _ => None,
    }
}

/// The priority of a clerk form: its number, or 0 when it is not one.
pub open spec fn clerk_priority_spec(f: ClerkForm) -> i32 {
    match parse_i32_spec(f.clerk_info_priority@) {
        Some(p) => p,
        None => 0,
    }
}

/// What a clerk form stores, or why it cannot be stored. `password` is
/// the value for the password column, `alias` the alias to store and
/// `image` the public path of the profile picture; the caller has chosen them.
pub open spec fn clerk_records_ok(
    f: ClerkForm,
    use_: ClerkFormUse,
    user_id: i32,
    password: Seq<char>,
    alias: Seq<char>,
    image: Seq<char>,
    r: ClerkRecords,
) -> bool {
    let (chat, mail, voice, webcam) = clerk_flags_spec(f)->0;
    &&& read_date_spec(f.user_birthdate@, '/', DateOrder::DayMonthYear) == Ok::<CalendarDate, DateError>(r.account.user_birthdate)
    &&& r.account.user_name@ == f.user_name@
    &&& r.account.user_email@ == f.user_email@
    &&& r.account.user_password@ == password
    &&& r.account.user_genre@ == f.user_genre@
    &&& r.account.user_alias matches Some(a) && a@ == alias
    &&& r.account.user_newsletter
    &&& r.account.user_type_id == clerk_type()
    &&& r.account.user_status == Some(true)
    &&& r.account.user_uni matches Some(u) && u@ == (match use_ {
        ClerkFormUse::Create => f.clerk_info_cpf@,
        ClerkFormUse::Edit => f.clerk_bank_cpf@,
    })
    &&& r.account.user_fb_id matches Some(fb) && fb@ == Seq::<char>::empty()
    &&& r.profile.clerk_image matches Some(x) && x@ == image
    &&& r.profile.clerk_description matches Some(x) && x@ == f.clerk_info_description@
    &&& r.profile.clerk_info_long_description matches Some(x) && x@ == f.clerk_info_long_description@
    &&& r.profile.clerk_info_experience matches Some(x) && x@ == f.clerk_info_experience@
    &&& r.profile.clerk_info_cpf matches Some(x) && x@ == f.clerk_info_cpf@
    &&& r.profile.clerk_info_phrase matches Some(x) && x@ == f.clerk_info_phrase@
    &&& r.profile.clerk_info_comission_rate matches Some(x) && x@ == f.clerk_info_comission_rate@
    &&& r.profile.clerk_info_exhibition matches Some(x) && x@ == f.clerk_info_exhibition@
    &&& r.profile.clerk_info_chat == Some(chat)
    &&& r.profile.clerk_info_mail == Some(mail)
    &&& r.profile.clerk_info_voice == Some(voice)
    &&& r.profile.clerk_info_webcam == Some(webcam)
    &&& r.profile.clerk_info_priority == Some(clerk_priority_spec(f))
    &&& r.profile.user_id == user_id
    &&& r.bank.clerk_id == user_id
    &&& r.bank.clerk_bank_name@ == f.clerk_bank_name@
    &&& r.bank.clerk_bank_account_type@ == f.clerk_bank_account_type@
    &&& r.bank.clerk_bank_agency_number@ == f.clerk_bank_agency_number@
    &&& r.bank.clerk_bank_acc_number@ == f.clerk_bank_acc_number@
    &&& r.bank.clerk_bank_cpf@ == f.clerk_bank_cpf@
    &&& r.address.address_number@ == f.user_addr_num@
    &&& r.address.address_street@ == f.user_street@
    &&& r.address.address_city@ == f.user_city@
    &&& r.address.address_state@ == f.user_state@
    &&& r.address.address_country@ == (match use_ {
        ClerkFormUse::Create => "Europa"@,
        ClerkFormUse::Edit => "Portugal"@,
    })
    &&& r.address.address_postalcode@ == f.user_zip_code@
    &&& r.address.user_id == user_id
    &&& r.phone.phone_number@ == f.user_phone_number@
    &&& r.phone.user_id == user_id
    &&& r.phone.phone_type_id == 1
}

/// What a clerk form stores for the clerk `user_id`: the user row, the
/// profile, the bank account, the address and the phone. The birthdate is
/// written `dd/mm/yyyy`; the availabilities must read as booleans; a
/// priority that is not a number counts as 0.
pub fn clerk_records(
    f: &ClerkForm,
    use_: ClerkFormUse,
    user_id: i32,
    password: String,
    alias: String,
    image: String,
) -> (res: Result<ClerkRecords, ClerkFormError>)
    ensures
        match res {
            Ok(r) => clerk_flags_spec(*f) is Some && clerk_records_ok(
                *f,
                use_,
                user_id,
                password@,
                alias@,
                image@,
                r,
            ),
            Err(ClerkFormError::Birthdate(e)) => read_date_spec(
                f.user_birthdate@,
                '/',
                DateOrder::DayMonthYear,
            ) == Err::<CalendarDate, DateError>(e),
            Err(ClerkFormError::Availability) => read_date_spec(
                f.user_birthdate@,
                '/',
                DateOrder::DayMonthYear,
            ) is Ok && clerk_flags_spec(*f) is None,
        },
{
    let birthdate = match read_date(f.user_birthdate.as_str(), '/', DateOrder::DayMonthYear) {
        Ok(d) => d,
        Err(e) => {
            return Err(ClerkFormError::Birthdate(e));
        },
    };
    let chat = parse_bool(f.clerk_info_chat.as_str());
    let mail = parse_bool(f.clerk_info_mail.as_str());
    let voice = parse_bool(f.clerk_info_voice.as_str());
    let webcam = parse_bool(f.clerk_info_webcam.as_str());
    let (chat, mail, voice, webcam) = match (chat, mail, voice, webcam) {
        (Some(c), Some(m), Some(v), Some(w)) => (c, m, v, w),
        _ => {
            return Err(ClerkFormError::Availability);
        },
    };
    let priority = match parse_i32(f.clerk_info_priority.as_str()) {
        Some(p) => p,
        None => 0,
    };
    let uni = match use_ {
        ClerkFormUse::Create => f.clerk_info_cpf.clone(),
        ClerkFormUse::Edit => f.clerk_bank_cpf.clone(),
    };
    let country = match use_ {
        ClerkFormUse::Create => String::from_str("Europa"),
        ClerkFormUse::Edit => String::from_str("Portugal"),
    };
    let account = UserAccount {
        user_name: f.user_name.clone(),
        user_email: f.user_email.clone(),
        user_password: password,
        user_birthdate: birthdate,
        user_genre: f.user_genre.clone(),
        user_alias: Some(alias),
        user_newsletter: true,
        user_type_id: 2,
        user_status: Some(true),
        user_uni: Some(uni),
        user_fb_id: Some(String::new()),
    };
    let profile = NewClerkInfo {
        clerk_description: Some(f.clerk_info_description.clone()),
        clerk_info_long_description: Some(f.clerk_info_long_description.clone()),
        clerk_info_experience: Some(f.clerk_info_experience.clone()),
        clerk_image: Some(image),
        clerk_info_cpf: Some(f.clerk_info_cpf.clone()),
        clerk_info_phrase: Some(f.clerk_info_phrase.clone()),
        clerk_info_comission_rate: Some(f.clerk_info_comission_rate.clone()),
        clerk_info_chat: Some(chat),
        clerk_info_mail: Some(mail),
        clerk_info_voice: Some(voice),
        clerk_info_webcam: Some(webcam),
        clerk_info_exhibition: Some(f.clerk_info_exhibition.clone()),
        clerk_info_priority: Some(priority),
        user_id,
    };
    let bank = NewClerkBank {
        clerk_id: user_id,
        clerk_bank_name: f.clerk_bank_name.clone(),
        clerk_bank_account_type: f.clerk_bank_account_type.clone(),
        clerk_bank_agency_number: f.clerk_bank_agency_number.clone(),
        clerk_bank_acc_number: f.clerk_bank_acc_number.clone(),
        clerk_bank_cpf: f.clerk_bank_cpf.clone(),
    };
    let address = NewAddress {
        address_number: f.user_addr_num.clone(),
        address_street: f.user_street.clone(),
        address_city: f.user_city.clone(),
        address_state: f.user_state.clone(),
        address_country: country,
        address_postalcode: f.user_zip_code.clone(),
        user_id,
    };
    let phone = phone_record(f.user_phone_number.as_str(), user_id);
    Ok(ClerkRecords { account, profile, bank, address, phone })
}

/// Each availability a clerk form stores is the boolean written in its own
/// field: chat from `clerk_info_chat`, mail from `clerk_info_mail`, voice
/// from `clerk_info_voice`, webcam from `clerk_info_webcam`. The form's
/// availabilities are refused exactly when one of the four fields is
/// neither `true` nor `false`.
pub proof fn lemma_clerk_availabilities_follow_their_fields(
    f: ClerkForm,
    use_: ClerkFormUse,
    user_id: i32,
    password: Seq<char>,
    alias: Seq<char>,
    image: Seq<char>,
    r: ClerkRecords,
)
    ensures
        clerk_flags_spec(f) is Some <==> (parse_bool_spec(f.clerk_info_chat@) is Some && parse_bool_spec(
            f.clerk_info_mail@,
        ) is Some && parse_bool_spec(f.clerk_info_voice@) is Some && parse_bool_spec(
            f.clerk_info_webcam@,
        ) is Some),
        clerk_flags_spec(f) is Some && clerk_records_ok(f, use_, user_id, password, alias, image, r) ==> {
            &&& r.profile.clerk_info_chat == parse_bool_spec(f.clerk_info_chat@)
            &&& r.profile.clerk_info_mail == parse_bool_spec(f.clerk_info_mail@)
            &&& r.profile.clerk_info_voice == parse_bool_spec(f.clerk_info_voice@)
            &&& r.profile.clerk_info_webcam == parse_bool_spec(f.clerk_info_webcam@)
        },
{
}

/// The password column a clerk form stores: the digest of the password sent
/// for a new clerk; for an edited clerk, the stored column when the form
/// sends it back unchanged, else the digest of what it sends.
pub open spec fn clerk_password_spec(use_: ClerkFormUse, stored: Seq<String>, submitted: Seq<char>) -> Seq<char> {
    match use_ {
        ClerkFormUse::Create => sha512_hex_spec(submitted),
        ClerkFormUse::Edit => stored_password_spec(stored[0]@, submitted),
    }
}

/// Everything a clerk form stores for the clerk `user_id`, with the
/// password, alias and picture chosen as the form's use asks: the password
/// as `clerk_password_spec` says (`stored` holds the clerk's stored password
/// column when editing), the alias 30 random letters and digits for a new
/// clerk and `Tarologo` for an edited one, and `image` as the picture.
pub fn clerk_records_for(
    f: &ClerkForm,
    use_: ClerkFormUse,
    user_id: i32,
    stored: &Vec<String>,
    image: String,
) -> (res: Result<ClerkRecords, ClerkFormError>)
    requires
        use_ == ClerkFormUse::Edit ==> stored.len() > 0,
    ensures
        match res {
            Ok(r) => {
                &&& clerk_flags_spec(*f) is Some
                &&& r.account.user_alias is Some
                &&& clerk_records_ok(
                    *f,
                    use_,
                    user_id,
                    clerk_password_spec(use_, stored@, f.user_password@),
                    r.account.user_alias->0@,
                    image@,
                    r,
                )
                &&& use_ == ClerkFormUse::Create ==> {
                    let alias = r.account.user_alias->0@;
                    alias.len() == 30 && forall|i: int|
                        0 <= i < alias.len() ==> is_ascii_alphanumeric(#[trigger] alias[i])
                }
                &&& use_ == ClerkFormUse::Edit ==> r.account.user_alias->0@ == "Tarologo"@
            },
            Err(ClerkFormError::Birthdate(e)) => read_date_spec(
                f.user_birthdate@,
                '/',
                DateOrder::DayMonthYear,
            ) == Err::<CalendarDate, DateError>(e),
            Err(ClerkFormError::Availability) => read_date_spec(
                f.user_birthdate@,
                '/',
                DateOrder::DayMonthYear,
            ) is Ok && clerk_flags_spec(*f) is None,
        },
{
    let password = match use_ {
        ClerkFormUse::Create => hash_password(f.user_password.as_str()),
        ClerkFormUse::Edit => password_to_store(stored, f.user_password.as_str()),
    };
    let alias = clerk_alias(use_);
    let res = clerk_records(f, use_, user_id, password, alias, image);
    res
}

} // verus!
