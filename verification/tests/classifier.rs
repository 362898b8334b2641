use buy_me_a_coffee::classify::classify_membership;
use buy_me_a_coffee::classify::classify_membership_page;
use buy_me_a_coffee::classify::classify_purchase_page;
use buy_me_a_coffee::classify::classify_support_page;
use buy_me_a_coffee::Error;
use buy_me_a_coffee::ServerError;

const JSON_CT: &[u8] = b"application/json; charset=utf-8";

#[test]
#[should_panic = "Client(401)"]
fn unauthorized_error() {
    // With a bad token the API redirects to its HTML login page.
    classify_membership_page(200, Some(b"text/html; charset=utf-8".as_slice()), "<html></html>").unwrap();
}

#[test]
#[should_panic = "Client(404)"]
fn not_found_error() {
    classify_membership(404, Some(JSON_CT), "{}").unwrap();
}

#[test]
#[should_panic = "No subscriptions"]
fn no_subscriptions_error() {
    classify_membership_page(
        200,
        Some(JSON_CT),
        "{\"error_code\":3001,\"error\":\"No subscriptions\"}",
    )
    .unwrap();
}

#[test]
#[should_panic = "No supporters"]
fn no_supporters_error() {
    classify_support_page(
        200,
        Some(JSON_CT),
        "{\"error_code\":3001,\"error\":\"No supporters\"}",
    )
    .unwrap();
}

#[test]
fn html_response_is_unauthorized_whatever_the_status() {
    for status in [200u16, 302, 404, 500] {
        let r = classify_membership(status, Some(b"text/html".as_slice()), "{}");
        assert_eq!(r.unwrap_err(), Error::Client(401));
    }
}

#[test]
fn html_detection_matches_substrings() {
    let r = classify_membership(200, Some(b"application/xhtml+xml".as_slice()), "{}");
    assert_eq!(r.unwrap_err(), Error::Client(401));
}

#[test]
fn client_fault_keeps_status() {
    for status in [400u16, 401, 403, 404, 418, 429, 499] {
        let r = classify_membership(status, Some(JSON_CT), "{}");
        assert_eq!(r.unwrap_err(), Error::Client(status));
    }
}

#[test]
fn client_fault_without_content_type() {
    let r = classify_membership(404, None, "");
    assert_eq!(r.unwrap_err(), Error::Client(404));
}

#[test]
fn server_fault_with_code_and_legacy_error_field() {
    let r = classify_membership_page(
        200,
        Some(JSON_CT),
        "{\"error_code\":3001,\"error\":\"No subscriptions\"}",
    );
    assert_eq!(
        r.unwrap_err(),
        Error::Server(ServerError {
            error_code: Some(3001),
            reason: "No subscriptions".to_string(),
        })
    );
}

#[test]
fn server_fault_with_reason_field_and_no_code() {
    let r = classify_membership(200, Some(JSON_CT), "{\"reason\":\"maintenance\"}");
    assert_eq!(
        r.unwrap_err(),
        Error::Server(ServerError { error_code: None, reason: "maintenance".to_string() })
    );
}

#[test]
fn reason_field_is_preferred_over_legacy_error_field() {
    let r = classify_membership(
        200,
        Some(JSON_CT),
        "{\"reason\":\"first\",\"error\":\"second\"}",
    );
    assert_eq!(
        r.unwrap_err(),
        Error::Server(ServerError { error_code: None, reason: "first".to_string() })
    );
}

#[test]
fn malformed_json_is_a_decode_error() {
    let r = classify_membership(200, Some(JSON_CT), "not json at all {");
    assert_eq!(r.unwrap_err(), Error::Decode);
}

#[test]
fn body_matching_neither_shape_is_a_decode_error() {
    let r = classify_membership(200, Some(JSON_CT), "{\"unrelated\":true}");
    assert_eq!(r.unwrap_err(), Error::Decode);
}

#[test]
fn non_string_reason_is_not_the_error_shape() {
    // A numeric `reason` does not match the error shape, and the body is
    // no membership either, so the decode fails as a whole.
    let r = classify_membership(200, Some(JSON_CT), "{\"reason\":5}");
    assert_eq!(r.unwrap_err(), Error::Decode);
}

#[test]
fn out_of_range_error_code_is_not_the_error_shape() {
    let r = classify_membership(
        200,
        Some(JSON_CT),
        "{\"error\":\"big\",\"error_code\":70000}",
    );
    assert_eq!(r.unwrap_err(), Error::Decode);
}

#[test]
fn empty_page_decodes_with_its_metadata() {
    let body =
        "{\"current_page\":1,\"data\":[],\"from\":0,\"last_page\":1,\"per_page\":5,\"to\":0,\"total\":0}";
    let page = classify_membership_page(200, Some(JSON_CT), body).unwrap();
    assert_eq!(page.current_page, 1);
    assert!(page.data.is_empty());
    assert_eq!(page.from, 0);
    assert_eq!(page.last_page, 1);
    assert_eq!(page.per_page, 5);
    assert_eq!(page.to, 0);
    assert_eq!(page.total, 0);
}

#[test]
fn page_with_a_bad_item_is_a_decode_error() {
    let body =
        "{\"current_page\":1,\"data\":[{\"support_id\":\"not a number\"}],\"from\":1,\"last_page\":1,\"per_page\":5,\"to\":1,\"total\":1}";
    let r = classify_support_page(200, Some(JSON_CT), body);
    assert_eq!(r.unwrap_err(), Error::Decode);
}

#[test]
fn purchase_page_requires_the_nested_extra() {
    let body =
        "{\"current_page\":1,\"data\":[{\"purchase_id\":7,\"purchased_on\":\"a\",\"purchase_updated_on\":\"b\",\"purchase_is_revoked\":false,\"purchase_amount\":\"5\",\"purchase_currency\":\"USD\",\"purchase_question\":\"q\",\"payer_email\":\"e\",\"payer_name\":\"n\"}],\"from\":1,\"last_page\":1,\"per_page\":5,\"to\":1,\"total\":1}";
    let r = classify_purchase_page(200, Some(JSON_CT), body);
    assert_eq!(r.unwrap_err(), Error::Decode);
}

#[test]
fn classification_is_idempotent() {
    // The same read-only request, classified twice, ends the same way:
    // nothing inside the classifier carries state between calls.
    let body = "{\"error\":\"No subscriptions\"}";
    let first = classify_membership_page(200, Some(JSON_CT), body);
    let second = classify_membership_page(200, Some(JSON_CT), body);
    assert_eq!(first.unwrap_err(), second.unwrap_err());

    let first = classify_membership(404, Some(JSON_CT), "{}");
    let second = classify_membership(404, Some(JSON_CT), "{}");
    assert_eq!(first.unwrap_err(), second.unwrap_err());
}

#[test]
fn server_error_message_includes_the_code() {
    let e = ServerError { error_code: Some(3001), reason: "No subscriptions".to_string() };
    assert_eq!(e.message(), "3001 No subscriptions");
    let e = ServerError { error_code: None, reason: "No supporters".to_string() };
    assert_eq!(e.message(), "No supporters");
}
