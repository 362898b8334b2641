use buy_me_a_coffee::digits::u32_decimal;
use buy_me_a_coffee::request::api_prefix;
use buy_me_a_coffee::request::extra_request;
use buy_me_a_coffee::request::extras_request;
use buy_me_a_coffee::request::masked_token;
use buy_me_a_coffee::request::members_request;
use buy_me_a_coffee::request::membership_request;
use buy_me_a_coffee::request::status_value;
use buy_me_a_coffee::request::support_request;
use buy_me_a_coffee::request::supporters_request;
use buy_me_a_coffee::request::user_agent;
use buy_me_a_coffee::MemberStatus;

#[test]
fn decimal_rendering() {
    assert_eq!(u32_decimal(0), "0");
    assert_eq!(u32_decimal(7), "7");
    assert_eq!(u32_decimal(10), "10");
    assert_eq!(u32_decimal(305), "305");
    assert_eq!(u32_decimal(4294967295), "4294967295");
}

#[test]
fn member_status_query_values() {
    assert_eq!(status_value(MemberStatus::Active), "active");
    assert_eq!(status_value(MemberStatus::Inactive), "inactive");
    assert_eq!(status_value(MemberStatus::All), "all");
}

#[test]
fn members_request_carries_status_and_page() {
    let r = members_request(MemberStatus::Inactive, 3);
    assert_eq!(r.path, "/v1/subscriptions");
    assert_eq!(r.query.len(), 2);
    assert_eq!(r.query[0], ("status".to_string(), "inactive".to_string()));
    assert_eq!(r.query[1], ("page".to_string(), "3".to_string()));
}

#[test]
fn lookup_requests_put_the_id_in_the_path() {
    assert_eq!(membership_request(42).path, "/v1/subscriptions/42");
    assert!(membership_request(42).query.is_empty());
    assert_eq!(support_request(0).path, "/v1/supporters/0");
    assert_eq!(extra_request(123456).path, "/v1/extras/123456");
}

#[test]
fn list_requests_carry_the_page() {
    let r = supporters_request(1);
    assert_eq!(r.path, "/v1/supporters");
    assert_eq!(r.query, vec![("page".to_string(), "1".to_string())]);
    let r = extras_request(9);
    assert_eq!(r.path, "/v1/extras");
    assert_eq!(r.query, vec![("page".to_string(), "9".to_string())]);
}

#[test]
fn fixed_transport_constants() {
    assert_eq!(api_prefix(), "https://developers.buymeacoffee.com/api");
    assert_eq!(user_agent(), "buy-me-a-coffee-rs/0.1.0");
}

#[test]
fn masked_token_hides_every_character() {
    assert_eq!(masked_token(""), "");
    assert_eq!(masked_token("secret"), "******");
    assert_eq!(masked_token("a longer token 123"), "******************");
}
