//! Notification relay.
//!
//! Maps price alerts to the text of OS notifications and accounts for
//! best-effort batch delivery. The OS notification call itself is the
//! caller's: it reports each outcome back, and the functions here say
//! exactly what is sent and what is counted.

use crate::decimal::{dec_spec, dec_string};
use crate::errors::{AppError, AppResult};
use crate::types::PriceAlert;
use vstd::prelude::*;

verus! {

/// Service for sending notifications.
///
/// Abstracts the notification mechanism; the caller implements it over
/// this module's message building and outcome accounting.
pub trait NotificationService: Send + Sync {
    /// Send a price alert notification.
    fn send_price_alert(&self, route: &str, old_price: u64, new_price: u64) -> AppResult<()>;

    /// Send multiple price alert notifications, counting successes.
    fn send_batch_alerts(&self, alerts: &Vec<PriceAlert>) -> AppResult<u32>;
}

/// The fixed title of every price-alert notification.
pub fn notification_title() -> (t: String)
    ensures
        t@ == "\u{1F514} Price Alert"@,
{
    String::from_str("\u{1F514} Price Alert")
}

/// The body of a single price-alert notification: the route and both
/// prices, rendered with no decimal places.
pub open spec fn price_alert_message_spec(route: Seq<char>, old_price: nat, new_price: nat) -> Seq<
    char,
> {
    route + " dropped from $"@ + dec_spec(old_price) + " to $"@ + dec_spec(new_price) + "!"@
}

/// The body of a per-alert notification within a batch: the route and the
/// new price, rendered with no decimal places.
pub open spec fn batch_alert_message_spec(route: Seq<char>, new_price: nat) -> Seq<char> {
    route + " dropped to $"@ + dec_spec(new_price) + "!"@
}

/// Format the body of a single price-alert notification.
pub fn price_alert_message(route: &str, old_price: u64, new_price: u64) -> (m: String)
    ensures
        m@ == price_alert_message_spec(route@, old_price as nat, new_price as nat),
{
    String::from_str(route)
        .concat(" dropped from $")
        .concat(dec_string(old_price).as_str())
        .concat(" to $")
        .concat(dec_string(new_price).as_str())
        .concat("!")
}

/// Format the body of one alert's notification within a batch.
pub fn batch_alert_message(alert: &PriceAlert) -> (m: String)
    ensures
        m@ == batch_alert_message_spec(alert.route@, alert.new_price as nat),
{
    String::from_str(alert.route.as_str())
        .concat(" dropped to $")
        .concat(dec_string(alert.new_price).as_str())
        .concat("!")
}

/// The outcome of a single send: a dispatch failure surfaces as a
/// notification error carrying the dispatcher's message; nothing else
/// fails.
pub fn price_alert_outcome(dispatch: Result<(), String>) -> (r: AppResult<()>)
    ensures
        r is Ok <==> dispatch is Ok,
        dispatch matches Err(e) ==> (r matches Err(AppError::Notification(m)) && m@ == e@),
{
    match dispatch {
        Ok(()) => Ok(()),
        Err(e) => Err(AppError::Notification(e)),
    }
}

/// How many of the outcomes are successes.
pub open spec fn count_true(s: Seq<bool>) -> nat
    decreases s.len(),
{
    if s.len() == 0 {
        0
    } else {
        count_true(s.drop_last()) + if s.last() {
            1nat
        } else {
            0nat
        }
    }
}

/// Account for a best-effort batch: given one delivery outcome per alert,
/// in order, the number of successfully dispatched notifications. A
/// failed alert is silently skipped, never propagated, and not counted.
pub fn send_batch_alerts(alerts: &Vec<PriceAlert>, delivered: &Vec<bool>) -> (n: u32)
    requires
        delivered@.len() == alerts@.len(),
        alerts@.len() <= u32::MAX,
    ensures
        n as nat == count_true(delivered@),
        n <= alerts@.len(),
{
    let mut n: u32 = 0;
    let mut i: usize = 0;
    proof {
        assert(delivered@.take(0) =~= Seq::<bool>::empty());
    }
    while i < delivered.len()
        invariant
            i <= delivered@.len(),
            delivered@.len() == alerts@.len(),
            alerts@.len() <= u32::MAX,
            n as nat == count_true(delivered@.take(i as int)),
            n <= i,
        decreases delivered@.len() - i,
    {
        proof {
            assert(delivered@.take(i as int + 1).drop_last() =~= delivered@.take(i as int));
            assert(delivered@.take(i as int + 1).last() == delivered@[i as int]);
        }
        if delivered[i] {
            n = n + 1;
        }
        i = i + 1;
    }
    proof {
        assert(delivered@.take(delivered@.len() as int) =~= delivered@);
    }
    n
}

} // verus!
