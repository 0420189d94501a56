use templo::admin::{admin_page, expired_admin_session, AdminSection};
use templo::testimonials::{listed_on_testimonials_page, submitted_testimonial, switched};
use templo::uploads::image_after_edit;
use templo::clerks::{
    clerk_tag_links, default_clerk_schedule, new_attendance_tag, notification_request,
    parse_tag_ids, schedule_or_default,
};
use templo::logs::{manual_log_line, panic_log_line, panic_message, thread_label, Backtrace, PanicLocation};
use templo::mail::{answer_mail, online_notice_mail, password_mail, sender};
use templo::models::ClerkSchedule;
use templo::pages::{
    about_us_no_login, about_us_no_login_pt, faq_no_login, faq_no_login_pt, page_content_to_store,
    privacy_policy_no_login, privacy_policy_no_login_pt,
};
use templo::products::product_texts;
use templo::sales::{
    initial_sale_status, paypal_payment_record, sale_line, status_credits_buyer,
    stripe_payment_record, stripe_sale_update, PaymentChannel, SourceData, StripeUpdate,
};
use templo::sitemap::{sitemap_entries, PriorityTier};
use templo::slug::{clerk_name_and_slug, slugify};
use templo::stats::{day_labels, day_offsets, month_windows, week_labels, week_window_ends};
use templo::uploads::{base_path, file_extension, place_call_recording, place_upload, stored_paths, UploadArea};

const ABC_HEX: &str = "ddaf35a193617abacc417349ae20413112e6fa4e89a97ea20a9eeee64b55d39a2192992a274fc1a836ba3c23a3feebbd454d4423643ce80e2a9ac94fa54ca49f";

#[test]
fn fixed_pages() {
    for p in [privacy_policy_no_login(), privacy_policy_no_login_pt()] {
        assert_eq!((p.template.as_str(), p.page_title.as_str()), ("home/privacy", "Privacidade"));
    }
    for p in [faq_no_login(), faq_no_login_pt()] {
        assert_eq!((p.template.as_str(), p.page_title.as_str()), ("home/faq", "FAQ"));
    }
    for p in [about_us_no_login(), about_us_no_login_pt()] {
        assert_eq!((p.template.as_str(), p.page_title.as_str()), ("home/about", "Sobre"));
    }
    assert_eq!(page_content_to_store(Some("<p>x</p>")), "<p>x</p>");
    assert_eq!(page_content_to_store(None), "");
}

#[test]
fn product_defaults() {
    let t = product_texts(None, None, None, "/");
    assert_eq!(t.product_title, "NADA INFORMADO");
    assert_eq!(t.product_description, "");
    assert_eq!(t.product_image, "/");
    let t = product_texts(Some("60 min"), Some("Pacote"), Some("/assets/uploads/a.png".to_string()), "");
    assert_eq!(t.product_title, "60 min");
    assert_eq!(t.product_description, "Pacote");
    assert_eq!(t.product_image, "/assets/uploads/a.png");
    assert_eq!(product_texts(None, None, None, "").product_image, "");
}

#[test]
fn sales_credit_only_when_confirmed() {
    assert_eq!(initial_sale_status(PaymentChannel::Direct), 1);
    assert_eq!(initial_sale_status(PaymentChannel::Stripe), 0);
    assert_eq!(initial_sale_status(PaymentChannel::Paypal), 0);
    assert!(status_credits_buyer(1));
    assert!(!status_credits_buyer(0));
    assert!(!status_credits_buyer(2));
    for c in [PaymentChannel::Direct, PaymentChannel::Stripe, PaymentChannel::Paypal] {
        assert_eq!(status_credits_buyer(initial_sale_status(c)), c == PaymentChannel::Direct);
    }
}

#[test]
fn sale_records() {
    let l = sale_line(5, 77);
    assert_eq!((l.product_list_amount, l.product_list_use_points, l.product_id, l.sale_id), (1, false, 5, 77));
    let s = stripe_payment_record("src_1", 77);
    assert_eq!((s.stripe_payment_source.as_str(), s.sale_id), ("src_1", 77));
    let p = paypal_payment_record("PAY-9", 78);
    assert_eq!((p.paypal_payment_source_identifier.as_str(), p.paypal_payment_sale_id), ("PAY-9", 78));
    let charge = SourceData { stripe_source: "src".to_string(), status: "1".to_string(), product_id: "3".to_string() };
    assert_eq!(stripe_sale_update(&charge), Some(StripeUpdate { status: 1, product_id: 3 }));
    let charge = SourceData { stripe_source: "src".to_string(), status: "0".to_string(), product_id: "12".to_string() };
    assert_eq!(stripe_sale_update(&charge), Some(StripeUpdate { status: 0, product_id: 12 }));
    let charge = SourceData { stripe_source: "src".to_string(), status: "paid".to_string(), product_id: "3".to_string() };
    assert_eq!(stripe_sale_update(&charge), None);
    let charge = SourceData { stripe_source: "src".to_string(), status: "1".to_string(), product_id: "".to_string() };
    assert_eq!(stripe_sale_update(&charge), None);
}

#[test]
fn sitemap_in_portuguese() {
    let profiles = vec!["mestre-ana".to_string()];
    let posts = vec!["o-louco".to_string(), "a-torre".to_string()];
    let e = sitemap_entries("https://t.com", "PT", &profiles, &posts);
    assert_eq!(e.len(), 11 + 1 + 2);
    assert_eq!(e[0].loc, "https://t.com");
    assert_eq!(e[0].tier, PriorityTier::Home);
    assert_eq!(e[1].loc, "https://t.com/cadastre-se");
    assert_eq!(e[10].loc, "https://t.com/contato");
    assert_eq!(e[10].tier, PriorityTier::Fixed);
    assert_eq!(e[11].loc, "https://t.com/tarologo/mestre-ana");
    assert_eq!(e[11].tier, PriorityTier::Profile);
    assert_eq!(e[12].loc, "https://t.com/artigos/o-louco");
    assert_eq!(e[13].loc, "https://t.com/artigos/a-torre");
    assert_eq!(e[13].tier, PriorityTier::Post);
}

#[test]
fn sitemap_in_english() {
    let e = sitemap_entries("https://t.com", "EN", &vec![], &vec!["p".to_string()]);
    assert_eq!(e.len(), 12);
    assert_eq!(e[1].loc, "https://t.com/register");
    assert_eq!(e[5].loc, "https://t.com/frequently-asked-question");
    assert_eq!(e[11].loc, "https://t.com/blog-post/p");
    assert!(e.iter().all(|x| x.loc.starts_with("https://t.com")));
    assert!(e.iter().skip(1).all(|x| x.tier != PriorityTier::Home));
    let e = sitemap_entries("w", "EN", &vec!["a".to_string()], &vec![]);
    assert_eq!(e[11].loc, "w/tarologist/a");
}

#[test]
fn slugs() {
    assert_eq!(slugify("Mestre Ana"), "mestre-ana");
    assert_eq!(slugify("ÁGUA Viva Luz"), "água-viva-luz");
    assert!(!slugify("a b  c").contains(' '));
    let (n, s) = clerk_name_and_slug(Some("Mestre Ana"));
    assert_eq!((n.as_str(), s.as_str()), ("Mestre Ana", "mestre-ana"));
    let (n, s) = clerk_name_and_slug(None);
    assert_eq!((n.as_str(), s.as_str()), ("-", "-"));
}

#[test]
fn chart_windows() {
    assert_eq!(day_offsets(3), vec![0, 1, 2, 3]);
    assert!(day_offsets(0).is_empty());
    assert!(day_offsets(366).is_empty());
    assert_eq!(day_offsets(365).len(), 366);
    assert_eq!(week_window_ends(3), vec![0, 1, 2]);
    assert!(week_window_ends(53).is_empty());
    assert_eq!(week_labels(3), vec![2, 1, 0]);
    assert!(week_labels(0).is_empty());
    assert_eq!(month_windows(2), vec![(0, -1), (1, 0), (2, 1)]);
    assert!(month_windows(37).is_empty());
}

#[test]
fn day_labels_end_today() {
    // Today is a Tuesday (2); eight days back is a Monday.
    assert_eq!(day_labels(8, 2), vec![1, 2, 3, 4, 5, 6, 0, 1, 2]);
    assert_eq!(day_labels(1, 0), vec![6, 0]);
    assert!(day_labels(0, 3).is_empty());
    let l = day_labels(30, 4);
    assert_eq!(*l.last().unwrap(), 4);
    for w in l.windows(2) {
        assert_eq!(w[1], (w[0] + 1) % 7);
    }
}

#[test]
fn upload_places() {
    assert_eq!(base_path(), "/var/www/templo-sagrado.com/assets/uploads/");
    assert_eq!(file_extension("photo.jpg").as_deref(), Some("jpg"));
    assert_eq!(file_extension("a.tar.gz").as_deref(), Some("tar"));
    assert_eq!(file_extension("noext"), None);
    assert_eq!(file_extension(".hidden").as_deref(), Some("hidden"));
    let p = stored_paths(UploadArea::LayoutImages, "n", "png");
    assert_eq!(p.absolute, "/var/www/templo-sagrado.com/assets/home/img/n.png");
    assert_eq!(p.public, "/assets/home/img/n.png");
    let p = place_upload(UploadArea::Uploads, "me.jpg", "abc").unwrap();
    assert_eq!(p.absolute, format!("/var/www/templo-sagrado.com/assets/uploads/{}.jpg", ABC_HEX));
    assert_eq!(p.public, format!("/assets/uploads/{}.jpg", ABC_HEX));
    assert!(place_upload(UploadArea::Uploads, "me", "abc").is_none());
    let r = place_call_recording("abc");
    assert_eq!(r.absolute, format!("/var/www/templo-sagrado.com/assets/uploads//{}.ogg", ABC_HEX));
    assert_eq!(r.public, format!("/assets/uploads/{}..ogg", ABC_HEX));
}

#[test]
fn mails() {
    assert_eq!(sender(), "templosagrado.marketing@gmail.com");
    let m = online_notice_mail("D", "Ana", "ana@x.pt", "<b>hi</b>");
    assert_eq!(
        m,
        "Date: <D>\r\nFrom: Templo Sagrado <templosagrado.marketing@gmail.com>\r\nSubject: Ana, O atendente que você mostrou interesse está disponível AGORA! \r\nTo: <ana@x.pt>\r\nContent-Type: text/html; charset='UTF-8' \r\nContent-Transfer-Encoding: quoted-printable \r\n<b>hi</b>"
    );
    let m = answer_mail("D", "Re: x", "c@x.pt", "body");
    assert!(m.starts_with("Date: <D>\r\n"));
    assert!(m.contains("Subject: Re: x \r\nTo: <c@x.pt>\r\n"));
    assert!(m.ends_with("body \r\n\r\n E-mail de atendimento (Está salvo em sua conta para visualização posterior) "));
    let m = password_mail("D", "c@x.pt", "nova: 123");
    assert!(m.contains("Subject: Sua nova senha \r\n"));
    assert!(m.ends_with("nova: 123 \r\n\r\n Sugerimos que mude a sua snha o quanto antes. "));
}

#[test]
fn log_lines() {
    let _ = Backtrace::new();
    assert_eq!(manual_log_line("DB", "insert", "boom"), "[DB] details: 'insert' - error_message: 'boom'");
    assert_eq!(thread_label(Some("main")), "main");
    assert_eq!(thread_label(None), "unnamed");
    assert_eq!(panic_message(Some("oops")), "oops");
    assert_eq!(panic_message(None), "Box<Any>");
    let loc = Some(PanicLocation { file: "src/main.rs".to_string(), line: 12, column: 5 });
    assert_eq!(panic_log_line("main", "oops", &loc), "[Panic]-thread 'main' panicked at 'oops': src/main.rs:12:5 ");
    assert_eq!(panic_log_line("t", "m", &None), "[Panic]-thread 't' panicked at 'm' ");
}

fn stored_schedule(user_id: i32) -> ClerkSchedule {
    let s = |v: &str| v.to_string();
    ClerkSchedule {
        clerk_schedule_id: 1,
        clerk_schedule_user_id: user_id,
        clerk_schedule_mon: true,
        clerk_schedule_mon_init: s("09:00"),
        clerk_schedule_mon_end: s("18:00"),
        clerk_schedule_tue: false,
        clerk_schedule_tue_init: s("00:00"),
        clerk_schedule_tue_end: s("23:59"),
        clerk_schedule_wed: false,
        clerk_schedule_wed_init: s("00:00"),
        clerk_schedule_wed_end: s("23:59"),
        clerk_schedule_thu: false,
        clerk_schedule_thu_init: s("00:00"),
        clerk_schedule_thu_end: s("23:59"),
        clerk_schedule_fri: false,
        clerk_schedule_fri_init: s("00:00"),
        clerk_schedule_fri_end: s("23:59"),
        clerk_schedule_sat: false,
        clerk_schedule_sat_init: s("00:00"),
        clerk_schedule_sat_end: s("23:59"),
        clerk_schedule_sun: false,
        clerk_schedule_sun_init: s("00:00"),
        clerk_schedule_sun_end: s("23:59"),
    }
}

#[test]
fn schedules() {
    let d = default_clerk_schedule(6);
    assert_eq!(d.clerk_schedule_user_id, 6);
    assert!(!d.clerk_schedule_mon && !d.clerk_schedule_sun);
    assert_eq!(d.clerk_schedule_wed_init, "00:00");
    assert_eq!(d.clerk_schedule_fri_end, "23:59");
    match schedule_or_default(vec![stored_schedule(6)], 6) {
        Ok(v) => {
            assert_eq!(v.len(), 1);
            assert_eq!(v[0].clerk_schedule_mon_init, "09:00");
        }
        Err(_) => panic!("a stored schedule is returned"),
    }
    match schedule_or_default(vec![], 6) {
        Ok(_) => panic!("the default is to be stored"),
        Err(d) => assert_eq!(d.clerk_schedule_user_id, 6),
    }
}

#[test]
fn tags() {
    assert_eq!(parse_tag_ids("3,5,8"), Some(vec![3, 5, 8]));
    assert_eq!(parse_tag_ids("7"), Some(vec![7]));
    assert_eq!(parse_tag_ids("3,x"), None);
    assert_eq!(parse_tag_ids(""), None);
    assert_eq!(parse_tag_ids("3,,4"), None);
    let links = clerk_tag_links(9, &vec![3, 5]);
    assert_eq!(links.len(), 2);
    assert_eq!((links[1].clerk_tag_user_id, links[1].clerk_tag_attendance_tag_id), (9, 5));
    let t = new_attendance_tag("Amor", "amor");
    assert_eq!((t.attendance_tag_name.as_str(), t.attendance_tag_slug.as_str()), ("Amor", "amor"));
    let n = notification_request(1, 2);
    assert_eq!((n.client_id, n.clerk_id), (1, 2));
}

#[test]
fn edited_images() {
    let p = place_upload(UploadArea::Uploads, "new.png", "abc");
    assert_eq!(image_after_edit(p, "/old.png".to_string()), format!("/assets/uploads/{}.png", ABC_HEX));
    assert_eq!(image_after_edit(None, "/old.png".to_string()), "/old.png");
}

#[test]
fn testimonials_wait_for_approval() {
    let t = submitted_testimonial(3, 8, "Muito boa", 5);
    assert_eq!((t.testimonials_clerk_id, t.testimonials_client_id, t.testimonials_value), (8, 3, 5));
    assert_eq!(t.testimonials_content, "Muito boa");
    assert!(!t.testimonials_status);
    assert!(!listed_on_testimonials_page(t.testimonials_status, &t.testimonials_content));
    let approved = switched(t.testimonials_status);
    assert!(approved);
    assert!(listed_on_testimonials_page(approved, &t.testimonials_content));
    assert!(!listed_on_testimonials_page(true, ""));
    assert!(!switched(true));
}

#[test]
fn admin_sections() {
    let p = admin_page(AdminSection::Clerks);
    assert_eq!((p.template.as_str(), p.path.as_str()), ("pages/clerk/list", "/clerk"));
    let p = admin_page(AdminSection::AttendanceTags);
    assert_eq!((p.template.as_str(), p.path.as_str()), ("pages/config/attendance-tags", "/admin/attendance-tags"));
    let p = admin_page(AdminSection::Sales);
    assert_eq!((p.template.as_str(), p.path.as_str()), ("pages/sales/list", "/voice"));
    let all = [
        AdminSection::Home,
        AdminSection::Clerks,
        AdminSection::Clients,
        AdminSection::Sales,
        AdminSection::Products,
        AdminSection::Blog,
        AdminSection::Mail,
        AdminSection::Chats,
        AdminSection::Voice,
        AdminSection::Intends,
        AdminSection::Testimonials,
        AdminSection::Config,
        AdminSection::AttendanceTags,
        AdminSection::Pages,
    ];
    let mut templates: Vec<String> = all.iter().map(|s| admin_page(*s).template).collect();
    templates.sort();
    templates.dedup();
    assert_eq!(templates.len(), all.len());
    let n = expired_admin_session();
    assert_eq!(n.redirect, "/admin/login");
    assert_eq!(n.flash, "Ops... parece que sua sessão é inválida. Por favor, refaça o login.");
}

#[test]
fn upload_paths_name_the_same_file() {
    for area in [UploadArea::Uploads, UploadArea::LayoutImages] {
        let p = place_upload(area, "x.webp", "2021-05-01 10:00:00").unwrap();
        let file = p.public.rsplit('/').next().unwrap().to_string();
        assert!(file.ends_with(".webp"));
        assert!(p.absolute.ends_with(&format!("/{}", file)));
    }
}
