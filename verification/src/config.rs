//! Service configuration.
//!
//! All knobs the pipeline needs, gathered once at startup by the embedding
//! process and passed in by reference; the library reads only the fee
//! settings, the rest parameterizes the collaborator clients around it.

use vstd::prelude::*;

use crate::price::FEE_BPS_DENOMINATOR;

verus! {

/// Connection endpoints, credentials and fee settings of one deployment.
#[derive(Clone, Debug)]
pub struct Config {
    pub postgres_uri: String,
    pub rabbitmq_uri: String,
    pub retry_ttl: u32,
    pub redis_host: String,
    pub redis_port: u16,
    pub redis_password: String,
    pub sui_rpc: String,
    pub ticketland_dapp: String,
    pub stripe_key: String,
    /// Protocol fee on a primary sale, in basis points.
    pub ticket_purchase_protocol_fee: i64,
    /// Protocol fee on a secondary sale, in basis points.
    pub secondary_market_protocol_fee: i64,
    pub operator_priv_key: String,
}

impl Config {
    /// Both protocol fees are basis-point shares: within `[0, 10_000]`.
    pub open spec fn spec_fees_in_range(self) -> bool {
        &&& 0 <= self.ticket_purchase_protocol_fee <= FEE_BPS_DENOMINATOR
        &&& 0 <= self.secondary_market_protocol_fee <= FEE_BPS_DENOMINATOR
    }

    /// Checks the basis-point range of both protocol fees; the embedding
    /// process must refuse a configuration for which this is false.
    pub fn fees_in_range(&self) -> (b: bool)
        ensures
            b == self.spec_fees_in_range(),
    {
        0 <= self.ticket_purchase_protocol_fee
            && self.ticket_purchase_protocol_fee <= FEE_BPS_DENOMINATOR
            && 0 <= self.secondary_market_protocol_fee
            && self.secondary_market_protocol_fee <= FEE_BPS_DENOMINATOR
    }
}

} // verus!
