//! The messages that go to the Telegram notification service: the IMSI is
//! sent as a number, read from the text that the webhook carried.
use vstd::prelude::*;
use crate::decimal::{parse_u128_chars, parse_u128_spec};
use crate::text::{strip_quotes, without_quotes};

verus! {

/// The IMSI as a number: the text with its `"` removed, read as an unsigned
/// integer. `None` when what is left is not one.
pub fn imsi_number(imsi: &str) -> (r: Option<u128>)
    ensures
        r == parse_u128_spec(without_quotes(imsi@)),
{
    let cs = strip_quotes(imsi);
    parse_u128_chars(&cs)
}

/// The body of a balance alert.
#[derive(Debug)]
pub struct BalanceMessage {
    pub imsi: u128,
    pub balance_less: String,
    pub balance_lable: String,
    pub balance_type: String,
}

/// The body of a location alert.
#[derive(Debug)]
pub struct LocationMessage {
    pub imsi: u128,
    pub location: String,
}

/// The balance alert for a subscriber. The IMSI must read as a number (see
/// `imsi_number`): the alert cannot be sent otherwise.
pub fn balance_message(imsi: &str, balance_less: &str, balance_lable: &str, balance_type: &str) -> (m:
    BalanceMessage)
    requires
        parse_u128_spec(without_quotes(imsi@)) is Some,
    ensures
        m.imsi == parse_u128_spec(without_quotes(imsi@))->0,
        m.balance_less@ == balance_less@,
        m.balance_lable@ == balance_lable@,
        m.balance_type@ == balance_type@,
{
    BalanceMessage {
        imsi: imsi_number(imsi).unwrap(),
        balance_less: balance_less.to_owned(),
        balance_lable: balance_lable.to_owned(),
        balance_type: balance_type.to_owned(),
    }
}

/// The location alert for a subscriber. The IMSI must read as a number (see
/// `imsi_number`): the alert cannot be sent otherwise.
pub fn location_message(imsi: &str, location: &str) -> (m: LocationMessage)
    requires
        parse_u128_spec(without_quotes(imsi@)) is Some,
    ensures
        m.imsi == parse_u128_spec(without_quotes(imsi@))->0,
        m.location@ == location@,
{
    LocationMessage { imsi: imsi_number(imsi).unwrap(), location: location.to_owned() }
}

/// Where balance alerts are posted on the notification service.
pub fn balance_endpoint(service_url: &str) -> (u: String)
    ensures
        u@ == service_url@ + "/nc/balance"@,
{
    let mut u = service_url.to_owned();
    u.append("/nc/balance");
    u
}

/// Where location alerts are posted on the notification service.
pub fn location_endpoint(service_url: &str) -> (u: String)
    ensures
        u@ == service_url@ + "/nc/location"@,
{
    let mut u = service_url.to_owned();
    u.append("/nc/location");
    u
}

} // verus!
