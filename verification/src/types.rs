//! What the backend sends: the menu, a payment session, and its status.
//! The JSON decoding lives with the HTTP client in the application; these
//! are the values it produces.

use vstd::prelude::*;

verus! {

#[derive(Debug, Clone)]
pub struct MenuItem {
    pub id: String,
    pub name: String,
    pub price_usdc: String,
}

#[derive(Debug, Clone)]
pub struct Session {
    pub session_id: String,
    pub payment_url: String,
}

#[derive(Debug, Clone, Copy, PartialEq, Eq, Structural)]
pub enum PaymentStatus {
    Pending,
    Confirmed,
    Failed,
}

#[derive(Debug, Clone, Copy, PartialEq, Eq, Structural)]
pub struct SessionStatus {
    pub status: PaymentStatus,
}

} // verus!
