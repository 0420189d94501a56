use templo::attend::{attend_command, status_write, AttendMessage, StatusWrite};
use templo::auth::{facebook_login, FacebookStep};
use templo::dates::CalendarDate;
use templo::mail::{
    answer_mail, answer_mail_from_template, online_notice_from_template, online_notice_mail, password_mail,
    password_mail_from_template,
};
use templo::stats::{chart_days, chart_weeks, weekday_from_sunday};

const DATE: &str = "Sun, 01 Mar 2020 10:00:00 +0000";

fn date(year: i32, month: u32, day: u32) -> CalendarDate {
    CalendarDate { year, month, day }
}

fn clerk_message(action: &str) -> AttendMessage {
    AttendMessage {
        action: action.to_string(),
        clerk_id: Some(7),
        client_id: None,
        data: None,
        voice: Some(true),
        text: Some(false),
        video: Some(true),
        from: "Clerk".to_string(),
    }
}

#[test]
fn online_notice_is_rendered_from_its_template() {
    let template = "<p>{{mail_data.[0]}}, {{mail_data.[1]}} is at /{{mail_data.[2]}}</p>";
    let mail = online_notice_from_template(DATE, template, "Ana", "ana@example.com", "Rosa", "rosa");
    assert_eq!(
        mail,
        Some(online_notice_mail(DATE, "Ana", "ana@example.com", "<p>Ana, Rosa is at /rosa</p>"))
    );
}

#[test]
fn answer_mail_is_rendered_from_its_template() {
    let template = "{{mail_data.[0]}} -- {{mail_data.[1]}} ({{mail_data.[2]}})";
    let mail = answer_mail_from_template(DATE, template, "Re: amor", "As cartas dizem sim", "ana@example.com", "Rosa", "rosa");
    assert_eq!(
        mail,
        Some(answer_mail(DATE, "Re: amor", "ana@example.com", "As cartas dizem sim -- Rosa (rosa)"))
    );
}

#[test]
fn password_mail_is_rendered_from_its_template() {
    let mail = password_mail_from_template(DATE, "Senha: {{mail_data}}", "Xy12ab", "ana@example.com");
    assert_eq!(mail, Some(password_mail(DATE, "ana@example.com", "Senha: Xy12ab")));
}

#[test]
fn broken_templates_give_no_mail() {
    assert_eq!(online_notice_from_template(DATE, "{{#if}}", "Ana", "a@b.c", "Rosa", "rosa"), None);
    assert_eq!(answer_mail_from_template(DATE, "{{/each}}", "s", "c", "a@b.c", "Rosa", "rosa"), None);
    assert_eq!(password_mail_from_template(DATE, "{{#each mail_data}}", "Xy12ab", "a@b.c"), None);
}

#[test]
fn presence_writes_of_clerk_messages() {
    assert_eq!(
        status_write(attend_command(&clerk_message("im-in"))),
        Some(StatusWrite::Online { clerk_id: 7, status: 1, chat: false, voice: true, video: true, mail: true })
    );
    assert_eq!(
        status_write(attend_command(&clerk_message("im-busy"))),
        Some(StatusWrite::StatusOnly { clerk_id: 7, status: 2 })
    );
    assert_eq!(
        status_write(attend_command(&clerk_message("im-out"))),
        Some(StatusWrite::StatusOnly { clerk_id: 7, status: 0 })
    );
    assert_eq!(status_write(attend_command(&clerk_message("refresh"))), None);
}

#[test]
fn facebook_users_log_in_or_are_created() {
    match facebook_login(&vec![5, 9]) {
        FacebookStep::LogIn { user_id, cookie, redirect } => {
            assert_eq!(user_id, 5);
            assert_eq!(cookie, "5");
            assert_eq!(redirect, "/my-acc");
        }
        FacebookStep::Create => panic!("a known user must log in"),
    }
    assert!(matches!(facebook_login(&vec![]), FacebookStep::Create));
}

#[test]
fn daily_chart_days_cross_a_leap_day() {
    assert_eq!(
        chart_days(date(2020, 3, 1), 2),
        vec![date(2020, 3, 1), date(2020, 2, 29), date(2020, 2, 28)]
    );
    assert_eq!(chart_days(date(2021, 1, 1), 1), vec![date(2021, 1, 1), date(2020, 12, 31)]);
    assert!(chart_days(date(2020, 3, 1), 0).is_empty());
    assert!(chart_days(date(2020, 3, 1), 366).is_empty());
}

#[test]
fn weekdays_from_sunday() {
    assert_eq!(weekday_from_sunday(date(2020, 3, 1)), 0);
    assert_eq!(weekday_from_sunday(date(2024, 1, 1)), 1);
    assert_eq!(weekday_from_sunday(date(1970, 1, 1)), 4);
    assert_eq!(weekday_from_sunday(date(2023, 12, 30)), 6);
}

#[test]
fn weekly_chart_windows_end_on_mondays() {
    assert_eq!(
        chart_weeks(date(2020, 3, 1), 2),
        vec![(date(2020, 2, 24), date(2020, 3, 2)), (date(2020, 2, 17), date(2020, 2, 24))]
    );
    assert_eq!(chart_weeks(date(2024, 1, 1), 1), vec![(date(2024, 1, 1), date(2024, 1, 8))]);
    assert!(chart_weeks(date(2024, 1, 1), 0).is_empty());
    assert!(chart_weeks(date(2024, 1, 1), 53).is_empty());
}
