//! The records the platform stores, as plain data. The server maps each
//! to its table.

use vstd::prelude::*;

verus! {

/// A clerk's profile, as written to `clerk_info`.
#[derive(Debug)]
pub struct NewClerkInfo {
    pub clerk_description: Option<String>,
    pub clerk_info_long_description: Option<String>,
    pub clerk_info_experience: Option<String>,
    pub clerk_image: Option<String>,
    pub clerk_info_cpf: Option<String>,
    pub clerk_info_phrase: Option<String>,
    pub clerk_info_comission_rate: Option<String>,
    pub clerk_info_chat: Option<bool>,
    pub clerk_info_mail: Option<bool>,
    pub clerk_info_voice: Option<bool>,
    pub clerk_info_webcam: Option<bool>,
    pub clerk_info_exhibition: Option<String>,
    pub clerk_info_priority: Option<i32>,
    pub user_id: i32,
}

/// A stored clerk profile.
#[derive(Debug)]
pub struct ClerkInfo {
    pub clerk_info_id: i32,
    pub clerk_description: Option<String>,
    pub clerk_info_long_description: Option<String>,
    pub clerk_info_experience: Option<String>,
    pub clerk_image: Option<String>,
    pub clerk_info_cpf: Option<String>,
    pub clerk_info_phrase: Option<String>,
    pub clerk_info_comission_rate: Option<String>,
    pub clerk_info_chat: Option<bool>,
    pub clerk_info_mail: Option<bool>,
    pub clerk_info_voice: Option<bool>,
    pub clerk_info_webcam: Option<bool>,
    pub clerk_info_exhibition: Option<String>,
    pub clerk_info_priority: Option<i32>,
    pub user_id: i32,
}

/// A clerk's bank account, as written to `clerk_bank`.
#[derive(Debug)]
pub struct NewClerkBank {
    pub clerk_id: i32,
    pub clerk_bank_name: String,
    pub clerk_bank_account_type: String,
    pub clerk_bank_agency_number: String,
    pub clerk_bank_acc_number: String,
    pub clerk_bank_cpf: String,
}

/// A stored clerk bank account.
#[derive(Debug)]
pub struct ClerkBank {
    pub clerk_bank_id: i32,
    pub clerk_id: i32,
    pub clerk_bank_name: String,
    pub clerk_bank_account_type: String,
    pub clerk_bank_agency_number: String,
    pub clerk_bank_acc_number: String,
    pub clerk_bank_cpf: String,
}

/// A user type to store.
#[derive(Debug)]
pub struct NewUserType {
    pub user_type_title: String,
}

/// A stored user type (1 client, 2 clerk).
#[derive(Debug)]
pub struct UserType {
    pub user_type_id: i32,
    pub user_type_title: String,
}

/// A stored PayPal payment reference.
#[derive(Debug)]
pub struct PaypalPayment {
    pub paypal_payment_id: i32,
    pub paypal_payment_source_identifier: String,
    pub paypal_payment_sale_id: i32,
}

/// A PayPal payment reference to store.
#[derive(Debug)]
pub struct NewPaypalPayment {
    pub paypal_payment_source_identifier: String,
    pub paypal_payment_sale_id: i32,
}

/// A stored address.
#[derive(Debug)]
pub struct Address {
    pub address_id: i32,
    pub address_number: Option<String>,
    pub address_street: Option<String>,
    pub address_city: Option<String>,
    pub address_state: Option<String>,
    pub address_country: Option<String>,
    pub address_postalcode: Option<String>,
    pub user_id: i32,
}

/// An address, as written to `address`.
#[derive(Debug)]
pub struct NewAddress {
    pub address_number: String,
    pub address_street: String,
    pub address_city: String,
    pub address_state: String,
    pub address_country: String,
    pub address_postalcode: String,
    pub user_id: i32,
}

/// A stored phone number.
#[derive(Debug)]
pub struct Phone {
    pub phone_id: i32,
    pub phone_number: String,
    pub user_id: i32,
    pub phone_type_id: i32,
}

/// A phone number, as written to `phone`.
#[derive(Debug)]
pub struct NewPhone {
    pub phone_number: String,
    pub user_id: i32,
    pub phone_type_id: i32,
}

/// A stored product category.
#[derive(Debug)]
pub struct ProductCategory {
    pub product_category_id: i32,
    pub product_category_title: String,
}

/// A stored line of a sale.
#[derive(Debug)]
pub struct ProductList {
    pub product_list_id: i32,
    pub product_list_amount: i32,
    pub product_list_use_points: bool,
    pub product_id: i32,
    pub sale_id: i32,
}

/// A line of a sale to store.
#[derive(Debug)]
pub struct NewProductList {
    pub product_list_amount: i32,
    pub product_list_use_points: bool,
    pub product_id: i32,
    pub sale_id: i32,
}

/// New content for an element of the page layout.
#[derive(Debug)]
pub struct UpdateSysLayoutItem {
    pub syspage_content: String,
}

/// A stored editable page.
#[derive(Debug)]
pub struct SysPage {
    pub syspage_id: i32,
    pub syspage_title: String,
    pub syspage_contet: String,
}

/// A client's request to be mailed when a clerk comes online.
#[derive(Debug)]
pub struct EmailNotificationListJoin {
    pub client_id: i32,
    pub clerk_id: i32,
}

/// A stored request to be mailed when a clerk comes online.
#[derive(Debug)]
pub struct EmailNotificationList {
    pub email_notification_id: i32,
    pub client_id: i32,
    pub clerk_id: i32,
}

/// A stored message to a clerk.
#[derive(Debug)]
pub struct Message {
    pub message_id: i32,
    pub clerk_info_id: i32,
    pub user_id: i32,
    pub message_header: String,
    pub message_body: String,
}

/// A clerk's presence, as written to `status_clerk`.
#[derive(Debug)]
pub struct NewStatusClerk {
    pub clerk_id: i32,
    pub status: i32,
    pub is_available_chat: bool,
    pub is_available_voice: bool,
    pub is_available_video: bool,
    pub is_available_mail: bool,
}

/// A stored clerk presence.
#[derive(Debug)]
pub struct StatusClerk {
    pub status_clerk_id: i32,
    pub clerk_id: i32,
    pub status: i32,
    pub is_available_chat: bool,
    pub is_available_voice: bool,
    pub is_available_video: bool,
    pub is_available_mail: bool,
}

/// A Stripe payment reference to store.
#[derive(Debug)]
pub struct NewStripePayment {
    pub stripe_payment_source: String,
    pub sale_id: i32,
}

/// A stored Stripe payment reference.
#[derive(Debug)]
pub struct StripePayment {
    pub stripe_payment_id: i32,
    pub stripe_payment_source: String,
    pub sale_id: i32,
}

/// A stored attendance tag (a subject clerks attend to).
#[derive(Debug)]
pub struct AttendanceTag {
    pub attendance_tag_id: i32,
    pub attendance_tag_name: String,
    pub attendance_tag_slug: String,
}

/// An attendance tag to store.
#[derive(Debug)]
pub struct NewAttendanceTag {
    pub attendance_tag_name: String,
    pub attendance_tag_slug: String,
}

/// A stored link between a clerk and an attendance tag.
#[derive(Debug)]
pub struct ClerkTag {
    pub clerk_tag_id: i32,
    pub clerk_tag_user_id: i32,
    pub clerk_tag_attendance_tag_id: i32,
}

/// A link between a clerk and an attendance tag to store.
#[derive(Debug)]
pub struct NewClerkTag {
    pub clerk_tag_user_id: i32,
    pub clerk_tag_attendance_tag_id: i32,
}

/// A stored weekly schedule of a clerk: for each day, whether the clerk works and from when to when (`HH:MM`).
#[derive(Debug)]
pub struct ClerkSchedule {
    pub clerk_schedule_id: i32,
    pub clerk_schedule_user_id: i32,
    pub clerk_schedule_mon: bool,
    pub clerk_schedule_mon_init: String,
    pub clerk_schedule_mon_end: String,
    pub clerk_schedule_tue: bool,
    pub clerk_schedule_tue_init: String,
    pub clerk_schedule_tue_end: String,
    pub clerk_schedule_wed: bool,
    pub clerk_schedule_wed_init: String,
    pub clerk_schedule_wed_end: String,
    pub clerk_schedule_thu: bool,
    pub clerk_schedule_thu_init: String,
    pub clerk_schedule_thu_end: String,
    pub clerk_schedule_fri: bool,
    pub clerk_schedule_fri_init: String,
    pub clerk_schedule_fri_end: String,
    pub clerk_schedule_sat: bool,
    pub clerk_schedule_sat_init: String,
    pub clerk_schedule_sat_end: String,
    pub clerk_schedule_sun: bool,
    pub clerk_schedule_sun_init: String,
    pub clerk_schedule_sun_end: String,
}

/// A weekly schedule to store.
#[derive(Debug)]
pub struct NewClerkSchedule {
    pub clerk_schedule_user_id: i32,
    pub clerk_schedule_mon: bool,
    pub clerk_schedule_mon_init: String,
    pub clerk_schedule_mon_end: String,
    pub clerk_schedule_tue: bool,
    pub clerk_schedule_tue_init: String,
    pub clerk_schedule_tue_end: String,
    pub clerk_schedule_wed: bool,
    pub clerk_schedule_wed_init: String,
    pub clerk_schedule_wed_end: String,
    pub clerk_schedule_thu: bool,
    pub clerk_schedule_thu_init: String,
    pub clerk_schedule_thu_end: String,
    pub clerk_schedule_fri: bool,
    pub clerk_schedule_fri_init: String,
    pub clerk_schedule_fri_end: String,
    pub clerk_schedule_sat: bool,
    pub clerk_schedule_sat_init: String,
    pub clerk_schedule_sat_end: String,
    pub clerk_schedule_sun: bool,
    pub clerk_schedule_sun_init: String,
    pub clerk_schedule_sun_end: String,
}

/// The status column of the clerk listing.
#[derive(Debug)]
pub struct ClerksViewListingStatusClerk {
    pub status: i32,
}

/// The picture column of the clerk listing.
#[derive(Debug)]
pub struct ClerksViewListingClerkInfo {
    pub clerk_image: Option<String>,
}

/// The clerk column of the chat listing.
#[derive(Debug)]
pub struct DataTablesChatsClerk {
    pub clerk_info_exhibition: Option<String>,
}

/// The client column of the chat listing.
#[derive(Debug)]
pub struct DatatTablesChatUser {
    pub user_name: String,
}

/// The clerk column of the intend listing.
#[derive(Debug)]
pub struct DataTablesIntendsClerk {
    pub clerk_info_exhibition: Option<String>,
}

/// The client column of the intend listing.
#[derive(Debug)]
pub struct DataTablesIntendsClient {
    pub user_name: String,
}

/// The clerk column of the call listing.
#[derive(Debug)]
pub struct DataTablesVoiceClerk {
    pub clerk_info_exhibition: Option<String>,
}

/// The client column of the call listing.
#[derive(Debug)]
pub struct DataTablesVoiceUser {
    pub user_name: String,
}

/// chrono's date and time without a time zone, carried through listing rows.
#[verifier::external_type_specification]
#[verifier::external_body]
pub struct ExNaiveDateTime(chrono::NaiveDateTime);

/// A row of the chat listing.
#[derive(Debug)]
pub struct DataTablesChats {
    pub chat_id: i32,
    pub init_time: chrono::NaiveDateTime,
    pub client_id: i32,
    pub clerk_id: i32,
}

/// A row of the intend listing.
#[derive(Debug)]
pub struct DataTablesIntends {
    pub intend_type: i32,
    pub intend_status: i32,
    pub intend_ask_time: chrono::NaiveDateTime,
    pub intend_received_time: Option<chrono::NaiveDateTime>,
    pub intend_answer_time: Option<chrono::NaiveDateTime>,
}

/// A row of the call listing.
#[derive(Debug)]
pub struct DataTablesVoice {
    pub call_id: i32,
    pub call_begin_date: chrono::NaiveDateTime,
    pub user_id: i32,
    pub clerk_id: i32,
    pub call_file: Option<String>,
}

/// A row of the banner listing.
#[derive(Debug)]
pub struct DataTablesBannerListing {
    pub banner_creation_date: chrono::NaiveDateTime,
    pub banner_mobile: String,
    pub banner_desktop: String,
    pub banner_id: i32,
}

} // verus!
