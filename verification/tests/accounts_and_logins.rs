use templo::auth::registration_account_or_reply;
use templo::accounts::clerk_records_for;
use templo::accounts::clerk_alias;
use templo::accounts::{
    clerk_records, offline_clerk_status, phone_record, ClerkForm, ClerkFormError, ClerkFormUse,
};
use templo::auth::{
    admin_login, check_pass, client_login, empty_address, facebook_account, facebook_account_with,
    hash_password, new_password,
    password_to_store, registration_account, registration_address, registration_reply,
    AdminLoginDecision, LoginDecision, FormNewUser, RegistrationStep,
};
use templo::dates::{CalendarDate, DateError};
use templo::secrets::{sign_hash, sys_sign};

const ABC_DIGEST: &str = "ddaf35a193617abacc417349ae20413112e6fa4e89a97ea20a9eeee64b55d39a2192992a274fc1a836ba3c23a3feebbd454d4423643ce80e2a9ac94fa54ca49f";

fn registration(birthdate: &str) -> FormNewUser {
    FormNewUser {
        user_name: "Ana".to_string(),
        user_email: "ana@example.com".to_string(),
        user_birthdate: birthdate.to_string(),
        user_genre: "F".to_string(),
        user_phone: "912345678".to_string(),
        user_zip_code: "1000-001".to_string(),
        user_city: "Lisboa".to_string(),
        user_street: "Rua A".to_string(),
        user_addr_num: "12".to_string(),
        user_alias: "aninha".to_string(),
        user_pass: "abc".to_string(),
        user_uni: "u123".to_string(),
        user_news_letter: None,
    }
}

fn clerk_form(birthdate: &str, chat: &str, priority: &str) -> ClerkForm {
    ClerkForm {
        user_name: "Mestre Ana".to_string(),
        user_phone_number: "911111111".to_string(),
        user_genre: "F".to_string(),
        user_birthdate: birthdate.to_string(),
        clerk_info_cpf: "CPF-1".to_string(),
        clerk_info_comission_rate: "0.5".to_string(),
        user_zip_code: "2000".to_string(),
        user_city: "Porto".to_string(),
        user_state: "Norte".to_string(),
        user_street: "Rua B".to_string(),
        user_addr_num: "3".to_string(),
        user_email: "mestre@example.com".to_string(),
        user_password: "secret".to_string(),
        clerk_info_experience: "10 anos".to_string(),
        clerk_info_phrase: "Paz".to_string(),
        clerk_bank_name: "Banco".to_string(),
        clerk_bank_account_type: "corrente".to_string(),
        clerk_bank_agency_number: "001".to_string(),
        clerk_bank_acc_number: "12345".to_string(),
        clerk_bank_cpf: "CPF-2".to_string(),
        clerk_info_chat: chat.to_string(),
        clerk_info_mail: "false".to_string(),
        clerk_info_voice: "true".to_string(),
        clerk_info_webcam: "false".to_string(),
        clerk_info_priority: priority.to_string(),
        clerk_info_exhibition: "Mestre Ana".to_string(),
        clerk_info_description: "Tarot".to_string(),
        clerk_info_long_description: "Tarot e astrologia".to_string(),
    }
}

#[test]
fn password_digest_is_sha512_hex() {
    assert_eq!(hash_password("abc"), ABC_DIGEST);
    let d = hash_password("");
    assert_eq!(d.len(), 128);
    assert!(d.chars().all(|c| c.is_ascii_hexdigit() && !c.is_ascii_uppercase()));
    assert_ne!(hash_password("abc"), hash_password("abd"));
}

#[test]
fn check_pass_compares_with_the_first_row() {
    let stored = vec!["x1".to_string(), "x2".to_string()];
    assert!(check_pass(&stored, "x1"));
    assert!(!check_pass(&stored, "x2"));
    assert!(!check_pass(&stored, "x"));
}

#[test]
fn resubmitted_password_is_kept_and_a_new_one_digested() {
    let stored = vec![ABC_DIGEST.to_string()];
    assert_eq!(password_to_store(&stored, ABC_DIGEST), ABC_DIGEST);
    assert_eq!(password_to_store(&stored, "abc"), ABC_DIGEST);
    let stored = vec!["old".to_string()];
    assert_eq!(password_to_store(&stored, "abc"), ABC_DIGEST);
}

#[test]
fn client_login_routes_by_user_type() {
    match client_login(&vec![(42, 1), (7, 2)]) {
        LoginDecision::Granted { user_id, cookie, redirect } => {
            assert_eq!(user_id, 42);
            assert_eq!(cookie, "42");
            assert_eq!(redirect, "/my-acc");
        }
        other => panic!("unexpected {:?}", other),
    }
    match client_login(&vec![(-3, 2)]) {
        LoginDecision::Granted { user_id, cookie, redirect } => {
            assert_eq!(user_id, -3);
            assert_eq!(cookie, "-3");
            assert_eq!(redirect, "/atendimento");
        }
        other => panic!("unexpected {:?}", other),
    }
}

#[test]
fn client_login_refused_without_match() {
    match client_login(&vec![]) {
        LoginDecision::Refused { redirect, flash } => {
            assert_eq!(redirect, "/login");
            assert!(flash.starts_with("Ops... Não encontramos seus dados"));
        }
        other => panic!("unexpected {:?}", other),
    }
}

#[test]
fn admin_login_needs_both_fixed_credentials() {
    match admin_login("atendimento@templo-sagrado.com", "templo-vonmuller-2021") {
        AdminLoginDecision::Granted { cookie_name, cookie_value, redirect } => {
            assert_eq!(cookie_name, "easytarot_administrative_user");
            assert_eq!(cookie_value, "1");
            assert_eq!(redirect, "/admin");
        }
        other => panic!("unexpected {:?}", other),
    }
    for (e, p) in [
        ("atendimento@templo-sagrado.com", "wrong"),
        ("someone@else.com", "templo-vonmuller-2021"),
        ("", ""),
    ] {
        match admin_login(e, p) {
            AdminLoginDecision::Refused { redirect, flash } => {
                assert_eq!(redirect, "/admin/login");
                assert_eq!(flash, "Senha/usuário não confere.");
            }
            other => panic!("unexpected {:?}", other),
        }
    }
}

#[test]
fn registration_builds_a_client() {
    let f = registration("1990-05-17");
    let a = registration_account(&f).unwrap();
    assert_eq!(a.user_name, "Ana");
    assert_eq!(a.user_email, "ana@example.com");
    assert_eq!(a.user_password, ABC_DIGEST);
    assert_eq!(a.user_birthdate, CalendarDate { year: 1990, month: 5, day: 17 });
    assert_eq!(a.user_alias.as_deref(), Some("aninha"));
    assert!(a.user_newsletter);
    assert_eq!(a.user_type_id, 1);
    assert_eq!(a.user_status, Some(true));
    assert_eq!(a.user_uni.as_deref(), Some("u123"));
    assert_eq!(a.user_fb_id.as_deref(), Some(""));
    let addr = registration_address(&f, 9);
    assert_eq!(addr.address_number, "12");
    assert_eq!(addr.address_street, "Rua A");
    assert_eq!(addr.address_city, "Lisboa");
    assert_eq!(addr.address_state, "Portugal");
    assert_eq!(addr.address_country, "Portugal");
    assert_eq!(addr.address_postalcode, "1000-001");
    assert_eq!(addr.user_id, 9);
}

#[test]
fn registration_refuses_a_bad_birthdate() {
    assert_eq!(registration_account(&registration("17/05/1990")).unwrap_err(), DateError::Incomplete);
    assert_eq!(registration_account(&registration("1990-02-31")).unwrap_err(), DateError::Invalid);
}

#[test]
fn registration_replies() {
    assert_eq!(registration_reply(None), "success");
    assert_eq!(registration_reply(Some(RegistrationStep::Birthdate)), "invalid_date_error");
    assert_eq!(registration_reply(Some(RegistrationStep::User)), "user_error");
    assert_eq!(registration_reply(Some(RegistrationStep::Address)), "address_error");
    assert_eq!(registration_reply(Some(RegistrationStep::Phone)), "phone_error");
}

#[test]
fn facebook_account_uses_the_facebook_id() {
    let a = facebook_account_with("a@b.c", "Ana", "abc", "2001-01-02", "al".to_string(), "un".to_string()).unwrap();
    assert_eq!(a.user_password, ABC_DIGEST);
    assert_eq!(a.user_fb_id.as_deref(), Some("abc"));
    assert_eq!(a.user_genre, "");
    assert_eq!(a.user_alias.as_deref(), Some("al"));
    assert_eq!(a.user_uni.as_deref(), Some("un"));
    assert_eq!(a.user_type_id, 1);
    assert_eq!(a.user_birthdate, CalendarDate { year: 2001, month: 1, day: 2 });
    assert_eq!(
        facebook_account_with("a@b.c", "Ana", "abc", "", "al".to_string(), "un".to_string()).unwrap_err(),
        DateError::Incomplete
    );
    let e = empty_address(5);
    assert_eq!(e.user_id, 5);
    assert_eq!(e.address_city, "");
    assert_eq!(e.address_country, "");
}

#[test]
fn clerk_records_on_create() {
    let f = clerk_form("17/05/1980", "true", "3");
    let r = clerk_records(&f, ClerkFormUse::Create, 11, "pw".to_string(), "alias".to_string(), "/img.png".to_string()).unwrap();
    assert_eq!(r.account.user_type_id, 2);
    assert_eq!(r.account.user_password, "pw");
    assert_eq!(r.account.user_birthdate, CalendarDate { year: 1980, month: 5, day: 17 });
    assert_eq!(r.account.user_uni.as_deref(), Some("CPF-1"));
    assert_eq!(r.account.user_alias.as_deref(), Some("alias"));
    assert_eq!(r.profile.clerk_info_chat, Some(true));
    assert_eq!(r.profile.clerk_info_mail, Some(false));
    assert_eq!(r.profile.clerk_info_voice, Some(true));
    assert_eq!(r.profile.clerk_info_webcam, Some(false));
    assert_eq!(r.profile.clerk_info_priority, Some(3));
    assert_eq!(r.profile.clerk_image.as_deref(), Some("/img.png"));
    assert_eq!(r.profile.user_id, 11);
    assert_eq!(r.bank.clerk_id, 11);
    assert_eq!(r.bank.clerk_bank_cpf, "CPF-2");
    assert_eq!(r.address.address_country, "Europa");
    assert_eq!(r.address.address_state, "Norte");
    assert_eq!(r.phone.phone_number, "911111111");
    assert_eq!(r.phone.phone_type_id, 1);
}

#[test]
fn clerk_records_on_edit() {
    let f = clerk_form("17/05/1980", "false", "not a number");
    let r = clerk_records(&f, ClerkFormUse::Edit, 11, "pw".to_string(), "alias".to_string(), "/i".to_string()).unwrap();
    assert_eq!(r.account.user_uni.as_deref(), Some("CPF-2"));
    assert_eq!(r.address.address_country, "Portugal");
    assert_eq!(r.profile.clerk_info_chat, Some(false));
    assert_eq!(r.profile.clerk_info_priority, Some(0));
}

#[test]
fn clerk_form_errors() {
    let f = clerk_form("1980-05-17", "true", "1");
    assert!(matches!(
        clerk_records(&f, ClerkFormUse::Create, 1, String::new(), String::new(), String::new()),
        Err(ClerkFormError::Birthdate(DateError::Incomplete))
    ));
    let f = clerk_form("31/02/1980", "true", "1");
    assert!(matches!(
        clerk_records(&f, ClerkFormUse::Create, 1, String::new(), String::new(), String::new()),
        Err(ClerkFormError::Birthdate(DateError::Invalid))
    ));
    let f = clerk_form("17/05/1980", "yes", "1");
    assert!(matches!(
        clerk_records(&f, ClerkFormUse::Edit, 1, String::new(), String::new(), String::new()),
        Err(ClerkFormError::Availability)
    ));
}

#[test]
fn small_records() {
    let p = phone_record("999", 4);
    assert_eq!((p.phone_number.as_str(), p.user_id, p.phone_type_id), ("999", 4, 1));
    let s = offline_clerk_status(8);
    assert_eq!(s.clerk_id, 8);
    assert_eq!(s.status, 0);
    assert!(!s.is_available_chat && !s.is_available_voice && !s.is_available_video && !s.is_available_mail);
}

#[test]
fn signatures() {
    assert_eq!(sys_sign(), "SignedAsSystem");
    let a = sign_hash();
    let b = sign_hash();
    assert_eq!(a.len(), 64);
    assert!(a.chars().all(|c| c.is_ascii_alphanumeric()));
    assert_eq!(b.len(), 64);
}

#[test]
fn clerk_aliases() {
    let a = clerk_alias(ClerkFormUse::Create);
    assert_eq!(a.chars().count(), 30);
    assert!(a.chars().all(|c| c.is_ascii_alphanumeric()));
    assert_eq!(clerk_alias(ClerkFormUse::Edit), "Tarologo");
}

#[test]
fn facebook_account_draws_alias_and_uni() {
    let a = facebook_account("a@b.c", "Ana", "abc", "2001-01-02").unwrap();
    let alias = a.user_alias.unwrap();
    let uni = a.user_uni.unwrap();
    assert_eq!(alias.chars().count(), 30);
    assert_eq!(uni.chars().count(), 10);
    assert!(alias.chars().chain(uni.chars()).all(|c| c.is_ascii_alphanumeric()));
    assert_eq!(a.user_password, ABC_DIGEST);
    assert_eq!(facebook_account("a@b.c", "Ana", "abc", "2001-13-02").unwrap_err(), DateError::Invalid);
}

#[test]
fn generated_password_and_its_digest() {
    let p = new_password();
    assert_eq!(p.plain.chars().count(), 10);
    assert!(p.plain.chars().all(|c| c.is_ascii_alphanumeric()));
    assert_eq!(p.digest, hash_password(&p.plain));
}

#[test]
fn saving_the_same_password_twice_is_stable() {
    let once = password_to_store(&vec!["old".to_string()], "abc");
    let twice = password_to_store(&vec![once.clone()], "abc");
    assert_eq!(once, ABC_DIGEST);
    assert_eq!(twice, once);
}

#[test]
fn every_unreadable_birthdate_is_answered_invalid_date_error() {
    for bad in ["2020-05", "2020", "abc", "2020-13-01", "", "2021-02-29", "x-1-1"] {
        assert_eq!(registration_account_or_reply(&registration(bad)).unwrap_err(), "invalid_date_error", "{:?}", bad);
    }
    let a = registration_account_or_reply(&registration("1990-05-17")).unwrap();
    assert_eq!(a.user_birthdate, CalendarDate { year: 1990, month: 5, day: 17 });
    assert_eq!(a.user_password, ABC_DIGEST);
}

#[test]
fn clerk_records_choose_password_alias_and_image() {
    let f = clerk_form("17/05/1980", "true", "3");
    let r = clerk_records_for(&f, ClerkFormUse::Create, 11, &vec![], "/img.png".to_string()).unwrap();
    assert_eq!(r.account.user_password, hash_password("secret"));
    let alias = r.account.user_alias.clone().unwrap();
    assert_eq!(alias.chars().count(), 30);
    assert!(alias.chars().all(|c| c.is_ascii_alphanumeric()));
    assert_eq!(r.profile.clerk_image.as_deref(), Some("/img.png"));
    assert_eq!(r.profile.user_id, 11);

    let stored = vec!["secret".to_string()];
    let r = clerk_records_for(&f, ClerkFormUse::Edit, 11, &stored, "/old.png".to_string()).unwrap();
    assert_eq!(r.account.user_password, "secret");
    assert_eq!(r.account.user_alias.as_deref(), Some("Tarologo"));
    assert_eq!(r.profile.clerk_image.as_deref(), Some("/old.png"));
    let stored = vec!["other".to_string()];
    let r = clerk_records_for(&f, ClerkFormUse::Edit, 11, &stored, "/old.png".to_string()).unwrap();
    assert_eq!(r.account.user_password, hash_password("secret"));

    let bad = clerk_form("17/05/1980", "maybe", "3");
    assert!(matches!(
        clerk_records_for(&bad, ClerkFormUse::Create, 1, &vec![], String::new()),
        Err(ClerkFormError::Availability)
    ));
}
