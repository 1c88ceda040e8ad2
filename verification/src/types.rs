//! Type definitions for the flight tracker app.

use vstd::prelude::*;

verus! {

/// Price alert received from the server.
///
/// All fields are externally supplied and immutable; this component does
/// not construct or validate them beyond presence. Prices are carried in
/// whole currency units — exactly what the notification text shows, which
/// renders them with no decimal places.
#[derive(Debug, Clone)]
pub struct PriceAlert {
    pub id: String,
    pub route: String,
    pub old_price: u64,
    pub new_price: u64,
    pub triggered_at: String,
}

} // verus!
