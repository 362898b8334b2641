//! The typed records the API returns, and their decoders.
//!
//! Each record's fields map one to one to documented API fields under a
//! fixed rename table; the tables live in the decoders' spec functions,
//! one lookup per field.  A decoder accepts an object exactly when every
//! required field is present with the right shape: strings must be JSON
//! strings, numbers must be unsigned integers in range, optional fields
//! may be absent or `null`, and a small number of boolean flags default
//! to `false` when absent.  Unknown fields are ignored.

use vstd::prelude::*;

use crate::json::JsonValue;
use crate::json::bool_field;
use crate::json::bool_field_or_false;
use crate::json::obj_get;
use crate::json::opt_str_field;
use crate::json::spec_bool_field;
use crate::json::spec_bool_field_or_false;
use crate::json::spec_opt_str_field;
use crate::json::spec_str_field;
use crate::json::spec_u16_field;
use crate::json::spec_u32_field;
use crate::json::spec_u8_field;
use crate::json::str_field;
use crate::json::u16_field;
use crate::json::u32_field;
use crate::json::u8_field;

verus! {

/// One page of a paginated list result, as reported by the server.
///
/// No invariant is enforced beyond what the server sent: the client
/// forwards the page metadata as-is.
#[derive(Debug)]
pub struct Page<T> {
    pub current_page: u16,
    pub data: Vec<T>,
    pub from: u16,
    pub last_page: u16,
    pub per_page: u16,
    pub to: u16,
    pub total: u16,
}

/// A recurring membership record.
#[derive(Debug)]
pub struct Membership {
    pub id: u32,
    pub cancelled_on: Option<String>,
    pub created_on: String,
    pub updated_on: String,
    pub current_period_start: String,
    pub current_period_end: String,
    pub coffee_price: String,
    pub coffee_num: u16,
    pub is_cancelled: bool,
    pub is_cancelled_at_period_end: bool,
    pub currency: String,
    pub message: Option<String>,
    pub message_visibility: u8,
    pub duration_type: String,
    pub referer: Option<String>,
    pub country: Option<String>,
    pub transaction_id: String,
    pub payer_email: String,
    pub payer_name: String,
}

/// A one-time support record.
#[derive(Debug)]
pub struct Support {
    pub id: u32,
    pub note: Option<String>,
    pub coffee_num: u16,
    pub transaction_id: String,
    pub visibility: u8,
    pub created_on: String,
    pub updated_on: String,
    pub transfer_id: Option<String>,
    pub supporter_name: Option<String>,
    pub coffee_price: String,
    pub email: String,
    pub is_refunded: bool,
    pub currency: String,
    pub note_pinned: u8,
    pub referer: Option<String>,
    pub country: Option<String>,
    pub payer_email: String,
    pub payment_platform: String,
    pub payer_name: String,
}

/// A purchase of an extra (a reward).
#[derive(Debug)]
pub struct Purchase {
    pub id: u32,
    pub created_on: String,
    pub updated_on: String,
    pub is_revoked: bool,
    pub amount: String,
    pub currency: String,
    pub question: String,
    pub payer_email: String,
    pub payer_name: String,
    pub extra: Extra,
}

/// The reward attached to a purchase.
#[derive(Debug)]
pub struct Extra {
    pub id: u32,
    pub title: String,
    pub description: String,
    pub confirmation_message: String,
    pub question: String,
    pub used: u8,
    pub created_on: String,
    pub updated_on: String,
    pub deleted_on: Option<String>,
    pub is_active: bool,
    pub image: String,
    pub slots: u8,
    pub coffee_price: String,
    pub order: u8,
}

/// The reward record an object's fields denote, if they have the
/// required shape.
pub open spec fn spec_decode_extra_fields(o: Seq<(String, JsonValue)>) -> Option<Extra> {
    let id = spec_u32_field(o, "reward_id"@);
    let title = spec_str_field(o, "reward_title"@);
    let description = spec_str_field(o, "reward_description"@);
    let confirmation_message = spec_str_field(o, "reward_confirmation_message"@);
    let question = spec_str_field(o, "reward_question"@);
    let used = spec_u8_field(o, "reward_used"@);
    let created_on = spec_str_field(o, "reward_created_on"@);
    let updated_on = spec_str_field(o, "reward_updated_on"@);
    let deleted_on = spec_opt_str_field(o, "reward_deleted_on"@);
    let is_active = spec_bool_field(o, "reward_is_active"@);
    let image = spec_str_field(o, "reward_image"@);
    let slots = spec_u8_field(o, "reward_slots"@);
    let coffee_price = spec_str_field(o, "reward_coffee_price"@);
    let order = spec_u8_field(o, "reward_order"@);
    if id is Some && title is Some && description is Some && confirmation_message is Some
        && question is Some && used is Some && created_on is Some && updated_on is Some
        && deleted_on is Some && is_active is Some && image is Some && slots is Some
        && coffee_price is Some && order is Some {
        Some(Extra {
            id: id.unwrap(),
            title: title.unwrap(),
            description: description.unwrap(),
            confirmation_message: confirmation_message.unwrap(),
            question: question.unwrap(),
            used: used.unwrap(),
            created_on: created_on.unwrap(),
            updated_on: updated_on.unwrap(),
            deleted_on: deleted_on.unwrap(),
            is_active: is_active.unwrap(),
            image: image.unwrap(),
            slots: slots.unwrap(),
            coffee_price: coffee_price.unwrap(),
            order: order.unwrap(),
        })
    } else {
        None
    }
}

/// The reward record a JSON value denotes: it must be an object of the
/// required shape.
pub open spec fn spec_decode_extra(v: JsonValue) -> Option<Extra> {
    match v {
        JsonValue::Obj(o) => spec_decode_extra_fields(o@),
        _ => None,
    }
}

/// Decodes a reward record.
pub fn decode_extra(v: &JsonValue) -> (r: Option<Extra>)
    ensures
        r == spec_decode_extra(*v),
{
    let o = match v {
        JsonValue::Obj(o) => o,
        _ => { return None; },
    };
    let id = match u32_field(o, "reward_id") { Some(x) => x, None => { return None; } };
    let title = match str_field(o, "reward_title") { Some(x) => x, None => { return None; } };
    let description = match str_field(o, "reward_description") {
        Some(x) => x,
        None => { return None; },
    };
    let confirmation_message = match str_field(o, "reward_confirmation_message") {
        Some(x) => x,
        None => { return None; },
    };
    let question = match str_field(o, "reward_question") { Some(x) => x, None => { return None; } };
    let used = match u8_field(o, "reward_used") { Some(x) => x, None => { return None; } };
    let created_on = match str_field(o, "reward_created_on") {
        Some(x) => x,
        None => { return None; },
    };
    let updated_on = match str_field(o, "reward_updated_on") {
        Some(x) => x,
        None => { return None; },
    };
    let deleted_on = match opt_str_field(o, "reward_deleted_on") {
        Some(x) => x,
        None => { return None; },
    };
    let is_active = match bool_field(o, "reward_is_active") {
        Some(x) => x,
        None => { return None; },
    };
    let image = match str_field(o, "reward_image") { Some(x) => x, None => { return None; } };
    let slots = match u8_field(o, "reward_slots") { Some(x) => x, None => { return None; } };
    let coffee_price = match str_field(o, "reward_coffee_price") {
        Some(x) => x,
        None => { return None; },
    };
    let order = match u8_field(o, "reward_order") { Some(x) => x, None => { return None; } };
    Some(Extra {
        id,
        title,
        description,
        confirmation_message,
        question,
        used,
        created_on,
        updated_on,
        deleted_on,
        is_active,
        image,
        slots,
        coffee_price,
        order,
    })
}

/// The membership record an object's fields denote, if they have the
/// required shape.
pub open spec fn spec_decode_membership_fields(o: Seq<(String, JsonValue)>) -> Option<Membership> {
    let id = spec_u32_field(o, "subscription_id"@);
    let cancelled_on = spec_opt_str_field(o, "subscription_cancelled_on"@);
    let created_on = spec_str_field(o, "subscription_created_on"@);
    let updated_on = spec_str_field(o, "subscription_updated_on"@);
    let current_period_start = spec_str_field(o, "subscription_current_period_start"@);
    let current_period_end = spec_str_field(o, "subscription_current_period_end"@);
    let coffee_price = spec_str_field(o, "subscription_coffee_price"@);
    let coffee_num = spec_u16_field(o, "subscription_coffee_num"@);
    let is_cancelled = spec_bool_field_or_false(o, "subscription_is_cancelled"@);
    let is_cancelled_at_period_end = spec_bool_field_or_false(
        o,
        "subscription_is_cancelled_at_period_end"@,
    );
    let currency = spec_str_field(o, "subscription_currency"@);
    let message = spec_opt_str_field(o, "subscription_message"@);
    let message_visibility = spec_u8_field(o, "message_visibility"@);
    let duration_type = spec_str_field(o, "subscription_duration_type"@);
    let referer = spec_opt_str_field(o, "referer"@);
    let country = spec_opt_str_field(o, "country"@);
    let transaction_id = spec_str_field(o, "transaction_id"@);
    let payer_email = spec_str_field(o, "payer_email"@);
    let payer_name = spec_str_field(o, "payer_name"@);
    if id is Some && cancelled_on is Some && created_on is Some && updated_on is Some
        && current_period_start is Some && current_period_end is Some && coffee_price is Some
        && coffee_num is Some && is_cancelled is Some && is_cancelled_at_period_end is Some
        && currency is Some && message is Some && message_visibility is Some
        && duration_type is Some && referer is Some && country is Some && transaction_id is Some
        && payer_email is Some && payer_name is Some {
        Some(Membership {
            id: id.unwrap(),
            cancelled_on: cancelled_on.unwrap(),
            created_on: created_on.unwrap(),
            updated_on: updated_on.unwrap(),
            current_period_start: current_period_start.unwrap(),
            current_period_end: current_period_end.unwrap(),
            coffee_price: coffee_price.unwrap(),
            coffee_num: coffee_num.unwrap(),
            is_cancelled: is_cancelled.unwrap(),
            is_cancelled_at_period_end: is_cancelled_at_period_end.unwrap(),
            currency: currency.unwrap(),
            message: message.unwrap(),
            message_visibility: message_visibility.unwrap(),
            duration_type: duration_type.unwrap(),
            referer: referer.unwrap(),
            country: country.unwrap(),
            transaction_id: transaction_id.unwrap(),
            payer_email: payer_email.unwrap(),
            payer_name: payer_name.unwrap(),
        })
    } else {
        None
    }
}

/// The membership record a JSON value denotes: it must be an object of
/// the required shape.
pub open spec fn spec_decode_membership(v: JsonValue) -> Option<Membership> {
    match v {
        JsonValue::Obj(o) => spec_decode_membership_fields(o@),
        _ => None,
    }
}

/// Decodes a membership record.
pub fn decode_membership(v: &JsonValue) -> (r: Option<Membership>)
    ensures
        r == spec_decode_membership(*v),
{
    let o = match v {
        JsonValue::Obj(o) => o,
        _ => { return None; },
    };
    let id = match u32_field(o, "subscription_id") { Some(x) => x, None => { return None; } };
    let cancelled_on = match opt_str_field(o, "subscription_cancelled_on") {
        Some(x) => x,
        None => { return None; },
    };
    let created_on = match str_field(o, "subscription_created_on") {
        Some(x) => x,
        None => { return None; },
    };
    let updated_on = match str_field(o, "subscription_updated_on") {
        Some(x) => x,
        None => { return None; },
    };
    let current_period_start = match str_field(o, "subscription_current_period_start") {
        Some(x) => x,
        None => { return None; },
    };
    let current_period_end = match str_field(o, "subscription_current_period_end") {
        Some(x) => x,
        None => { return None; },
    };
    let coffee_price = match str_field(o, "subscription_coffee_price") {
        Some(x) => x,
        None => { return None; },
    };
    let coffee_num = match u16_field(o, "subscription_coffee_num") {
        Some(x) => x,
        None => { return None; },
    };
    let is_cancelled = match bool_field_or_false(o, "subscription_is_cancelled") {
        Some(x) => x,
        None => { return None; },
    };
    let is_cancelled_at_period_end = match bool_field_or_false(
        o,
        "subscription_is_cancelled_at_period_end",
    ) {
        Some(x) => x,
        None => { return None; },
    };
    let currency = match str_field(o, "subscription_currency") {
        Some(x) => x,
        None => { return None; },
    };
    let message = match opt_str_field(o, "subscription_message") {
        Some(x) => x,
        None => { return None; },
    };
    let message_visibility = match u8_field(o, "message_visibility") {
        Some(x) => x,
        None => { return None; },
    };
    let duration_type = match str_field(o, "subscription_duration_type") {
        Some(x) => x,
        None => { return None; },
    };
    let referer = match opt_str_field(o, "referer") { Some(x) => x, None => { return None; } };
    let country = match opt_str_field(o, "country") { Some(x) => x, None => { return None; } };
    let transaction_id = match str_field(o, "transaction_id") {
        Some(x) => x,
        None => { return None; },
    };
    let payer_email = match str_field(o, "payer_email") { Some(x) => x, None => { return None; } };
    let payer_name = match str_field(o, "payer_name") { Some(x) => x, None => { return None; } };
    Some(Membership {
        id,
        cancelled_on,
        created_on,
        updated_on,
        current_period_start,
        current_period_end,
        coffee_price,
        coffee_num,
        is_cancelled,
        is_cancelled_at_period_end,
        currency,
        message,
        message_visibility,
        duration_type,
        referer,
        country,
        transaction_id,
        payer_email,
        payer_name,
    })
}

/// A decoded membership carries every field exactly as the body
/// provided it, under the fixed rename table: a well-formed success
/// body loses nothing and invents nothing in decoding.
pub proof fn lemma_membership_fields_exact(o: Seq<(String, JsonValue)>, m: Membership)
    requires
        spec_decode_membership_fields(o) == Some(m),
    ensures
        Some(m.id) == spec_u32_field(o, "subscription_id"@),
        Some(m.cancelled_on) == spec_opt_str_field(o, "subscription_cancelled_on"@),
        Some(m.created_on) == spec_str_field(o, "subscription_created_on"@),
        Some(m.updated_on) == spec_str_field(o, "subscription_updated_on"@),
        Some(m.current_period_start) == spec_str_field(o, "subscription_current_period_start"@),
        Some(m.current_period_end) == spec_str_field(o, "subscription_current_period_end"@),
        Some(m.coffee_price) == spec_str_field(o, "subscription_coffee_price"@),
        Some(m.coffee_num) == spec_u16_field(o, "subscription_coffee_num"@),
        Some(m.is_cancelled) == spec_bool_field_or_false(o, "subscription_is_cancelled"@),
        Some(m.is_cancelled_at_period_end) == spec_bool_field_or_false(
            o,
            "subscription_is_cancelled_at_period_end"@,
        ),
        Some(m.currency) == spec_str_field(o, "subscription_currency"@),
        Some(m.message) == spec_opt_str_field(o, "subscription_message"@),
        Some(m.message_visibility) == spec_u8_field(o, "message_visibility"@),
        Some(m.duration_type) == spec_str_field(o, "subscription_duration_type"@),
        Some(m.referer) == spec_opt_str_field(o, "referer"@),
        Some(m.country) == spec_opt_str_field(o, "country"@),
        Some(m.transaction_id) == spec_str_field(o, "transaction_id"@),
        Some(m.payer_email) == spec_str_field(o, "payer_email"@),
        Some(m.payer_name) == spec_str_field(o, "payer_name"@),
{
}

/// The support record an object's fields denote, if they have the
/// required shape.
pub open spec fn spec_decode_support_fields(o: Seq<(String, JsonValue)>) -> Option<Support> {
    let id = spec_u32_field(o, "support_id"@);
    let note = spec_opt_str_field(o, "support_note"@);
    let coffee_num = spec_u16_field(o, "support_coffees"@);
    let transaction_id = spec_str_field(o, "transaction_id"@);
    let visibility = spec_u8_field(o, "support_visibility"@);
    let created_on = spec_str_field(o, "support_created_on"@);
    let updated_on = spec_str_field(o, "support_updated_on"@);
    let transfer_id = spec_opt_str_field(o, "transfer_id"@);
    let supporter_name = spec_opt_str_field(o, "supporter_name"@);
    let coffee_price = spec_str_field(o, "support_coffee_price"@);
    let email = spec_str_field(o, "support_email"@);
    let is_refunded = spec_bool_field_or_false(o, "is_refunded"@);
    let currency = spec_str_field(o, "support_currency"@);
    let note_pinned = spec_u8_field(o, "support_note_pinned"@);
    let referer = spec_opt_str_field(o, "referer"@);
    let country = spec_opt_str_field(o, "country"@);
    let payer_email = spec_str_field(o, "payer_email"@);
    let payment_platform = spec_str_field(o, "payment_platform"@);
    let payer_name = spec_str_field(o, "payer_name"@);
    if id is Some && note is Some && coffee_num is Some && transaction_id is Some
        && visibility is Some && created_on is Some && updated_on is Some && transfer_id is Some
        && supporter_name is Some && coffee_price is Some && email is Some && is_refunded is Some
        && currency is Some && note_pinned is Some && referer is Some && country is Some
        && payer_email is Some && payment_platform is Some && payer_name is Some {
        Some(Support {
            id: id.unwrap(),
            note: note.unwrap(),
            coffee_num: coffee_num.unwrap(),
            transaction_id: transaction_id.unwrap(),
            visibility: visibility.unwrap(),
            created_on: created_on.unwrap(),
            updated_on: updated_on.unwrap(),
            transfer_id: transfer_id.unwrap(),
            supporter_name: supporter_name.unwrap(),
            coffee_price: coffee_price.unwrap(),
            email: email.unwrap(),
            is_refunded: is_refunded.unwrap(),
            currency: currency.unwrap(),
            note_pinned: note_pinned.unwrap(),
            referer: referer.unwrap(),
            country: country.unwrap(),
            payer_email: payer_email.unwrap(),
            payment_platform: payment_platform.unwrap(),
            payer_name: payer_name.unwrap(),
        })
    } else {
        None
    }
}

/// The support record a JSON value denotes: it must be an object of the
/// required shape.
pub open spec fn spec_decode_support(v: JsonValue) -> Option<Support> {
    match v {
        JsonValue::Obj(o) => spec_decode_support_fields(o@),
        _ => None,
    }
}

/// Decodes a support record.
pub fn decode_support(v: &JsonValue) -> (r: Option<Support>)
    ensures
        r == spec_decode_support(*v),
{
    let o = match v {
        JsonValue::Obj(o) => o,
        _ => { return None; },
    };
    let id = match u32_field(o, "support_id") { Some(x) => x, None => { return None; } };
    let note = match opt_str_field(o, "support_note") { Some(x) => x, None => { return None; } };
    let coffee_num = match u16_field(o, "support_coffees") {
        Some(x) => x,
        None => { return None; },
    };
    let transaction_id = match str_field(o, "transaction_id") {
        Some(x) => x,
        None => { return None; },
    };
    let visibility = match u8_field(o, "support_visibility") {
        Some(x) => x,
        None => { return None; },
    };
    let created_on = match str_field(o, "support_created_on") {
        Some(x) => x,
        None => { return None; },
    };
    let updated_on = match str_field(o, "support_updated_on") {
        Some(x) => x,
        None => { return None; },
    };
    let transfer_id = match opt_str_field(o, "transfer_id") {
        Some(x) => x,
        None => { return None; },
    };
    let supporter_name = match opt_str_field(o, "supporter_name") {
        Some(x) => x,
        None => { return None; },
    };
    let coffee_price = match str_field(o, "support_coffee_price") {
        Some(x) => x,
        None => { return None; },
    };
    let email = match str_field(o, "support_email") { Some(x) => x, None => { return None; } };
    let is_refunded = match bool_field_or_false(o, "is_refunded") {
        Some(x) => x,
        None => { return None; },
    };
    let currency = match str_field(o, "support_currency") {
        Some(x) => x,
        None => { return None; },
    };
    let note_pinned = match u8_field(o, "support_note_pinned") {
        Some(x) => x,
        None => { return None; },
    };
    let referer = match opt_str_field(o, "referer") { Some(x) => x, None => { return None; } };
    let country = match opt_str_field(o, "country") { Some(x) => x, None => { return None; } };
    let payer_email = match str_field(o, "payer_email") { Some(x) => x, None => { return None; } };
    let payment_platform = match str_field(o, "payment_platform") {
        Some(x) => x,
        None => { return None; },
    };
    let payer_name = match str_field(o, "payer_name") { Some(x) => x, None => { return None; } };
    Some(Support {
        id,
        note,
        coffee_num,
        transaction_id,
        visibility,
        created_on,
        updated_on,
        transfer_id,
        supporter_name,
        coffee_price,
        email,
        is_refunded,
        currency,
        note_pinned,
        referer,
        country,
        payer_email,
        payment_platform,
        payer_name,
    })
}

/// The purchase record an object's fields denote, if they have the
/// required shape; the nested `extra` object must itself decode as a
/// reward record.
pub open spec fn spec_decode_purchase_fields(o: Seq<(String, JsonValue)>) -> Option<Purchase> {
    let id = spec_u32_field(o, "purchase_id"@);
    let created_on = spec_str_field(o, "purchased_on"@);
    let updated_on = spec_str_field(o, "purchase_updated_on"@);
    let is_revoked = spec_bool_field(o, "purchase_is_revoked"@);
    let amount = spec_str_field(o, "purchase_amount"@);
    let currency = spec_str_field(o, "purchase_currency"@);
    let question = spec_str_field(o, "purchase_question"@);
    let payer_email = spec_str_field(o, "payer_email"@);
    let payer_name = spec_str_field(o, "payer_name"@);
    let extra = match obj_get(o, "extra"@) {
        Some(v) => spec_decode_extra(v),
        None => None,
    };
    if id is Some && created_on is Some && updated_on is Some && is_revoked is Some
        && amount is Some && currency is Some && question is Some && payer_email is Some
        && payer_name is Some && extra is Some {
        Some(Purchase {
            id: id.unwrap(),
            created_on: created_on.unwrap(),
            updated_on: updated_on.unwrap(),
            is_revoked: is_revoked.unwrap(),
            amount: amount.unwrap(),
            currency: currency.unwrap(),
            question: question.unwrap(),
            payer_email: payer_email.unwrap(),
            payer_name: payer_name.unwrap(),
            extra: extra.unwrap(),
        })
    } else {
        None
    }
}

/// The purchase record a JSON value denotes: it must be an object of the
/// required shape.
pub open spec fn spec_decode_purchase(v: JsonValue) -> Option<Purchase> {
    match v {
        JsonValue::Obj(o) => spec_decode_purchase_fields(o@),
        _ => None,
    }
}

/// Decodes a purchase record.
pub fn decode_purchase(v: &JsonValue) -> (r: Option<Purchase>)
    ensures
        r == spec_decode_purchase(*v),
{
    let o = match v {
        JsonValue::Obj(o) => o,
        _ => { return None; },
    };
    let id = match u32_field(o, "purchase_id") { Some(x) => x, None => { return None; } };
    let created_on = match str_field(o, "purchased_on") { Some(x) => x, None => { return None; } };
    let updated_on = match str_field(o, "purchase_updated_on") {
        Some(x) => x,
        None => { return None; },
    };
    let is_revoked = match bool_field(o, "purchase_is_revoked") {
        Some(x) => x,
        None => { return None; },
    };
    let amount = match str_field(o, "purchase_amount") { Some(x) => x, None => { return None; } };
    let currency = match str_field(o, "purchase_currency") {
        Some(x) => x,
        None => { return None; },
    };
    let question = match str_field(o, "purchase_question") {
        Some(x) => x,
        None => { return None; },
    };
    let payer_email = match str_field(o, "payer_email") { Some(x) => x, None => { return None; } };
    let payer_name = match str_field(o, "payer_name") { Some(x) => x, None => { return None; } };
    let extra = match crate::json::lookup(o, "extra") {
        Some(i) => match decode_extra(&o[i].1) {
            Some(x) => x,
            None => { return None; },
        },
        None => { return None; },
    };
    Some(Purchase {
        id,
        created_on,
        updated_on,
        is_revoked,
        amount,
        currency,
        question,
        payer_email,
        payer_name,
        extra,
    })
}

/// Whether a JSON value is a page object whose metadata fields are in
/// range and whose every `data` item decodes under `d`.
pub open spec fn spec_page_decodable<T>(v: JsonValue, d: spec_fn(JsonValue) -> Option<T>) -> bool {
    match v {
        JsonValue::Obj(o) => {
            &&& spec_u16_field(o@, "current_page"@) is Some
            &&& spec_u16_field(o@, "from"@) is Some
            &&& spec_u16_field(o@, "last_page"@) is Some
            &&& spec_u16_field(o@, "per_page"@) is Some
            &&& spec_u16_field(o@, "to"@) is Some
            &&& spec_u16_field(o@, "total"@) is Some
            &&& match obj_get(o@, "data"@) {
                Some(JsonValue::Arr(items)) => forall|i: int|
                    0 <= i < items@.len() ==> d(items@[i]) is Some,
                _ => false,
            }
        },
        _ => false,
    }
}

/// Whether `p` is exactly the page a JSON value denotes under `d`: each
/// metadata field equals the corresponding body field and the items are
/// the decoded `data` entries, in the server's order.
pub open spec fn spec_page_matches<T>(
    v: JsonValue,
    d: spec_fn(JsonValue) -> Option<T>,
    p: Page<T>,
) -> bool {
    match v {
        JsonValue::Obj(o) => {
            &&& Some(p.current_page) == spec_u16_field(o@, "current_page"@)
            &&& Some(p.from) == spec_u16_field(o@, "from"@)
            &&& Some(p.last_page) == spec_u16_field(o@, "last_page"@)
            &&& Some(p.per_page) == spec_u16_field(o@, "per_page"@)
            &&& Some(p.to) == spec_u16_field(o@, "to"@)
            &&& Some(p.total) == spec_u16_field(o@, "total"@)
            &&& match obj_get(o@, "data"@) {
                Some(JsonValue::Arr(items)) => {
                    &&& p.data@.len() == items@.len()
                    &&& forall|i: int|
                        0 <= i < items@.len() ==> Some(p.data@[i]) == d(items@[i])
                },
                _ => false,
            }
        },
        _ => false,
    }
}

/// The decoder a membership page applies to each `data` item.
pub open spec fn membership_decoder() -> spec_fn(JsonValue) -> Option<Membership> {
    |v: JsonValue| spec_decode_membership(v)
}

/// The decoder a support page applies to each `data` item.
pub open spec fn support_decoder() -> spec_fn(JsonValue) -> Option<Support> {
    |v: JsonValue| spec_decode_support(v)
}

/// The decoder a purchase page applies to each `data` item.
pub open spec fn purchase_decoder() -> spec_fn(JsonValue) -> Option<Purchase> {
    |v: JsonValue| spec_decode_purchase(v)
}

/// Extracts the six page-metadata fields: current page, first index,
/// last page, items per page, last index, total count.
fn page_meta(o: &Vec<(String, JsonValue)>) -> (r: Option<(u16, u16, u16, u16, u16, u16)>)
    ensures
        r is Some <==> {
            &&& spec_u16_field(o@, "current_page"@) is Some
            &&& spec_u16_field(o@, "from"@) is Some
            &&& spec_u16_field(o@, "last_page"@) is Some
            &&& spec_u16_field(o@, "per_page"@) is Some
            &&& spec_u16_field(o@, "to"@) is Some
            &&& spec_u16_field(o@, "total"@) is Some
        },
        r matches Some(t) ==> {
            &&& Some(t.0) == spec_u16_field(o@, "current_page"@)
            &&& Some(t.1) == spec_u16_field(o@, "from"@)
            &&& Some(t.2) == spec_u16_field(o@, "last_page"@)
            &&& Some(t.3) == spec_u16_field(o@, "per_page"@)
            &&& Some(t.4) == spec_u16_field(o@, "to"@)
            &&& Some(t.5) == spec_u16_field(o@, "total"@)
        },
{
    let current_page = match u16_field(o, "current_page") {
        Some(x) => x,
        None => { return None; },
    };
    let from = match u16_field(o, "from") { Some(x) => x, None => { return None; } };
    let last_page = match u16_field(o, "last_page") { Some(x) => x, None => { return None; } };
    let per_page = match u16_field(o, "per_page") { Some(x) => x, None => { return None; } };
    let to = match u16_field(o, "to") { Some(x) => x, None => { return None; } };
    let total = match u16_field(o, "total") { Some(x) => x, None => { return None; } };
    Some((current_page, from, last_page, per_page, to, total))
}

/// Decodes a page of membership records.
#[verifier::loop_isolation(false)]
pub fn decode_membership_page(v: &JsonValue) -> (r: Option<Page<Membership>>)
    ensures
        r is Some <==> spec_page_decodable(*v, membership_decoder()),
        r matches Some(p) ==> spec_page_matches(*v, membership_decoder(), p),
{
    let o = match v {
        JsonValue::Obj(o) => o,
        _ => { return None; },
    };
    let meta = match page_meta(o) { Some(t) => t, None => { return None; } };
    let items = match crate::json::lookup(o, "data") {
        Some(i) => match &o[i].1 {
            JsonValue::Arr(items) => items,
            _ => { return None; },
        },
        None => { return None; },
    };
    let n = items.len();
    let mut data: Vec<Membership> = Vec::new();
    let mut idx: usize = 0;
    while idx < n
        invariant
            n == items@.len(),
            idx <= n,
            data@.len() == idx,
            forall|j: int| 0 <= j < idx ==> Some(data@[j]) == spec_decode_membership(items@[j]),
        decreases n - idx,
    {
        match decode_membership(&items[idx]) {
            Some(m) => data.push(m),
            None => {
                proof {
                    assert(exists|j: int|
                        0 <= j < items@.len() && membership_decoder()(items@[j]) is None);
                }
                return None;
            },
        }
        idx += 1;
    }
    Some(Page {
        current_page: meta.0,
        data,
        from: meta.1,
        last_page: meta.2,
        per_page: meta.3,
        to: meta.4,
        total: meta.5,
    })
}

/// Decodes a page of support records.
#[verifier::loop_isolation(false)]
pub fn decode_support_page(v: &JsonValue) -> (r: Option<Page<Support>>)
    ensures
        r is Some <==> spec_page_decodable(*v, support_decoder()),
        r matches Some(p) ==> spec_page_matches(*v, support_decoder(), p),
{
    let o = match v {
        JsonValue::Obj(o) => o,
        _ => { return None; },
    };
    let meta = match page_meta(o) { Some(t) => t, None => { return None; } };
    let items = match crate::json::lookup(o, "data") {
        Some(i) => match &o[i].1 {
            JsonValue::Arr(items) => items,
            _ => { return None; },
        },
        None => { return None; },
    };
    let n = items.len();
    let mut data: Vec<Support> = Vec::new();
    let mut idx: usize = 0;
    while idx < n
        invariant
            n == items@.len(),
            idx <= n,
            data@.len() == idx,
            forall|j: int| 0 <= j < idx ==> Some(data@[j]) == spec_decode_support(items@[j]),
        decreases n - idx,
    {
        match decode_support(&items[idx]) {
            Some(m) => data.push(m),
            None => {
                proof {
                    assert(exists|j: int|
                        0 <= j < items@.len() && support_decoder()(items@[j]) is None);
                }
                return None;
            },
        }
        idx += 1;
    }
    Some(Page {
        current_page: meta.0,
        data,
        from: meta.1,
        last_page: meta.2,
        per_page: meta.3,
        to: meta.4,
        total: meta.5,
    })
}

/// Decodes a page of purchase records.
#[verifier::loop_isolation(false)]
pub fn decode_purchase_page(v: &JsonValue) -> (r: Option<Page<Purchase>>)
    ensures
        r is Some <==> spec_page_decodable(*v, purchase_decoder()),
        r matches Some(p) ==> spec_page_matches(*v, purchase_decoder(), p),
{
    let o = match v {
        JsonValue::Obj(o) => o,
        _ => { return None; },
    };
    let meta = match page_meta(o) { Some(t) => t, None => { return None; } };
    let items = match crate::json::lookup(o, "data") {
        Some(i) => match &o[i].1 {
            JsonValue::Arr(items) => items,
            _ => { return None; },
        },
        None => { return None; },
    };
    let n = items.len();
    let mut data: Vec<Purchase> = Vec::new();
    let mut idx: usize = 0;
    while idx < n
        invariant
            n == items@.len(),
            idx <= n,
            data@.len() == idx,
            forall|j: int| 0 <= j < idx ==> Some(data@[j]) == spec_decode_purchase(items@[j]),
        decreases n - idx,
    {
        match decode_purchase(&items[idx]) {
            Some(m) => data.push(m),
            None => {
                proof {
                    assert(exists|j: int|
                        0 <= j < items@.len() && purchase_decoder()(items@[j]) is None);
                }
                return None;
            },
        }
        idx += 1;
    }
    Some(Page {
        current_page: meta.0,
        data,
        from: meta.1,
        last_page: meta.2,
        per_page: meta.3,
        to: meta.4,
        total: meta.5,
    })
}

} // verus!
