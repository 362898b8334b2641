use buy_me_a_coffee::classify::classify_membership;
use buy_me_a_coffee::classify::classify_purchase;
use buy_me_a_coffee::classify::classify_support;
use buy_me_a_coffee::classify::classify_membership_page;
use buy_me_a_coffee::entities::decode_membership;
use buy_me_a_coffee::JsonValue;
use buy_me_a_coffee::classify::contains_html;

const JSON_CT: &[u8] = b"application/json";

fn membership_body() -> String {
    "{\"subscription_id\":42,\"subscription_cancelled_on\":null,\"subscription_created_on\":\"2023-01-01 00:00:00\",\"subscription_updated_on\":\"2023-02-01 00:00:00\",\"subscription_current_period_start\":\"2023-02-01 00:00:00\",\"subscription_current_period_end\":\"2023-03-01 00:00:00\",\"subscription_coffee_price\":\"5.00\",\"subscription_coffee_num\":3,\"subscription_is_cancelled\":false,\"subscription_currency\":\"USD\",\"subscription_message\":\"keep it up\",\"message_visibility\":1,\"subscription_duration_type\":\"month\",\"referer\":null,\"country\":\"DE\",\"transaction_id\":\"tx-1\",\"payer_email\":\"someone@example.com\",\"payer_name\":\"Someone\"}"
    .to_string()
}

#[test]
fn membership_success_populates_every_field() {
    let m = classify_membership(200, Some(JSON_CT), &membership_body()).unwrap();
    assert_eq!(m.id, 42);
    assert_eq!(m.cancelled_on, None);
    assert_eq!(m.created_on, "2023-01-01 00:00:00");
    assert_eq!(m.updated_on, "2023-02-01 00:00:00");
    assert_eq!(m.current_period_start, "2023-02-01 00:00:00");
    assert_eq!(m.current_period_end, "2023-03-01 00:00:00");
    assert_eq!(m.coffee_price, "5.00");
    assert_eq!(m.coffee_num, 3);
    assert!(!m.is_cancelled);
    // Absent boolean flags default to false.
    assert!(!m.is_cancelled_at_period_end);
    assert_eq!(m.currency, "USD");
    assert_eq!(m.message.as_deref(), Some("keep it up"));
    assert_eq!(m.message_visibility, 1);
    assert_eq!(m.duration_type, "month");
    assert_eq!(m.referer, None);
    assert_eq!(m.country.as_deref(), Some("DE"));
    assert_eq!(m.transaction_id, "tx-1");
    assert_eq!(m.payer_email, "someone@example.com");
    assert_eq!(m.payer_name, "Someone");
}

#[test]
fn membership_page_with_one_record() {
    let body = format!(
        "{{\"current_page\":1,\"data\":[{}],\"from\":1,\"last_page\":2,\"per_page\":5,\"to\":1,\"total\":6}}",
        membership_body()
    );
    let page = classify_membership_page(200, Some(JSON_CT), &body).unwrap();
    assert_eq!(page.current_page, 1);
    assert_eq!(page.data.len(), 1);
    assert_eq!(page.data[0].id, 42);
    assert_eq!(page.last_page, 2);
    assert_eq!(page.per_page, 5);
    assert_eq!(page.total, 6);
}

#[test]
fn membership_with_a_missing_required_field_fails() {
    // Drop the required transaction_id.
    let body = membership_body().replace("\"transaction_id\":\"tx-1\",", "");
    let r = classify_membership(200, Some(JSON_CT), &body);
    assert!(r.is_err());
}

#[test]
fn membership_ignores_unknown_fields() {
    let body = membership_body().replace(
        "\"subscription_id\":42,",
        "\"subscription_id\":42,\"a_future_field\":\"ignored\",",
    );
    let m = classify_membership(200, Some(JSON_CT), &body).unwrap();
    assert_eq!(m.id, 42);
}

#[test]
fn membership_id_out_of_range_fails() {
    let body = membership_body().replace(
        "\"subscription_id\":42,",
        "\"subscription_id\":4294967296,",
    );
    let r = classify_membership(200, Some(JSON_CT), &body);
    assert!(r.is_err());
}

#[test]
fn support_success_populates_every_field() {
    let body = "{\"support_id\":17,\"support_note\":\"thanks\",\"support_coffees\":2,\"transaction_id\":\"tx-2\",\"support_visibility\":1,\"support_created_on\":\"2023-01-05 00:00:00\",\"support_updated_on\":\"2023-01-06 00:00:00\",\"transfer_id\":null,\"supporter_name\":\"Someone\",\"support_coffee_price\":\"3.00\",\"support_email\":\"someone@example.com\",\"support_currency\":\"EUR\",\"support_note_pinned\":0,\"referer\":null,\"country\":null,\"payer_email\":\"someone@example.com\",\"payment_platform\":\"stripe\",\"payer_name\":\"Someone\"}";
    let s = classify_support(200, Some(JSON_CT), body).unwrap();
    assert_eq!(s.id, 17);
    assert_eq!(s.note.as_deref(), Some("thanks"));
    assert_eq!(s.coffee_num, 2);
    assert_eq!(s.transaction_id, "tx-2");
    assert_eq!(s.visibility, 1);
    assert_eq!(s.created_on, "2023-01-05 00:00:00");
    assert_eq!(s.updated_on, "2023-01-06 00:00:00");
    assert_eq!(s.transfer_id, None);
    assert_eq!(s.supporter_name.as_deref(), Some("Someone"));
    assert_eq!(s.coffee_price, "3.00");
    assert_eq!(s.email, "someone@example.com");
    // is_refunded is absent and defaults to false.
    assert!(!s.is_refunded);
    assert_eq!(s.currency, "EUR");
    assert_eq!(s.note_pinned, 0);
    assert_eq!(s.referer, None);
    assert_eq!(s.country, None);
    assert_eq!(s.payer_email, "someone@example.com");
    assert_eq!(s.payment_platform, "stripe");
    assert_eq!(s.payer_name, "Someone");
}

#[test]
fn purchase_success_with_nested_extra() {
    let body = "{\"purchase_id\":9,\"purchased_on\":\"2023-03-01 00:00:00\",\"purchase_updated_on\":\"2023-03-02 00:00:00\",\"purchase_is_revoked\":false,\"purchase_amount\":\"10.00\",\"purchase_currency\":\"USD\",\"purchase_question\":\"\",\"payer_email\":\"someone@example.com\",\"payer_name\":\"Someone\",\"extra\":{\"reward_id\":4,\"reward_title\":\"Sticker\",\"reward_description\":\"a sticker\",\"reward_confirmation_message\":\"enjoy\",\"reward_question\":\"\",\"reward_used\":1,\"reward_created_on\":\"2023-01-01 00:00:00\",\"reward_updated_on\":\"2023-01-02 00:00:00\",\"reward_deleted_on\":null,\"reward_is_active\":true,\"reward_image\":\"https://example.com/sticker.png\",\"reward_slots\":10,\"reward_coffee_price\":\"2.00\",\"reward_order\":1}}";
    let p = classify_purchase(200, Some(JSON_CT), body).unwrap();
    assert_eq!(p.id, 9);
    assert_eq!(p.created_on, "2023-03-01 00:00:00");
    assert_eq!(p.updated_on, "2023-03-02 00:00:00");
    assert!(!p.is_revoked);
    assert_eq!(p.amount, "10.00");
    assert_eq!(p.currency, "USD");
    assert_eq!(p.question, "");
    assert_eq!(p.extra.id, 4);
    assert_eq!(p.extra.title, "Sticker");
    assert_eq!(p.extra.used, 1);
    assert_eq!(p.extra.deleted_on, None);
    assert!(p.extra.is_active);
    assert_eq!(p.extra.slots, 10);
    assert_eq!(p.extra.coffee_price, "2.00");
    assert_eq!(p.extra.order, 1);
}

#[test]
fn decoder_reads_a_hand_built_object() {
    // The decoders are ordinary functions over the JSON model; a value
    // built without any parser decodes the same way.
    let v = JsonValue::Obj(vec![
        ("subscription_id".to_string(), JsonValue::UInt(42)),
        ("subscription_created_on".to_string(), JsonValue::Str("a".to_string())),
        ("subscription_updated_on".to_string(), JsonValue::Str("b".to_string())),
        ("subscription_current_period_start".to_string(), JsonValue::Str("c".to_string())),
        ("subscription_current_period_end".to_string(), JsonValue::Str("d".to_string())),
        ("subscription_coffee_price".to_string(), JsonValue::Str("5".to_string())),
        ("subscription_coffee_num".to_string(), JsonValue::UInt(1)),
        ("subscription_currency".to_string(), JsonValue::Str("USD".to_string())),
        ("message_visibility".to_string(), JsonValue::UInt(0)),
        ("subscription_duration_type".to_string(), JsonValue::Str("month".to_string())),
        ("transaction_id".to_string(), JsonValue::Str("tx".to_string())),
        ("payer_email".to_string(), JsonValue::Str("e".to_string())),
        ("payer_name".to_string(), JsonValue::Str("n".to_string())),
    ]);
    let m = decode_membership(&v).unwrap();
    assert_eq!(m.id, 42);
    assert_eq!(m.cancelled_on, None);
    assert!(!m.is_cancelled);
    assert_eq!(m.payer_name, "n");
}

#[test]
fn decoder_rejects_a_non_object() {
    assert!(decode_membership(&JsonValue::UInt(3)).is_none());
    assert!(decode_membership(&JsonValue::Null).is_none());
}

#[test]
fn object_lookup_takes_the_first_binding() {
    // The model resolves a repeated key to its first binding; the
    // outside parser never produces one, but the model is defined for it.
    let v = JsonValue::Obj(vec![
        ("reason".to_string(), JsonValue::Str("first".to_string())),
        ("reason".to_string(), JsonValue::Str("second".to_string())),
    ]);
    let e = buy_me_a_coffee::classify::error_body(&v).unwrap();
    assert_eq!(e.reason, "first");
    assert_eq!(e.error_code, None);
}

#[test]
fn html_marker_detection_edges() {
    assert!(contains_html(b"html".as_slice()));
    assert!(contains_html(b"application/xhtml".as_slice()));
    assert!(contains_html(b"text/html; charset=utf-8".as_slice()));
    assert!(!contains_html(b"htm".as_slice()));
    assert!(!contains_html(b"".as_slice()));
    assert!(!contains_html(b"application/json".as_slice()));
    assert!(contains_html(b"htmhtmlx".as_slice()));
}
