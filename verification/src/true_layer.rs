//! Data shapes and pure logic of the aggregator client.
//!
//! The HTTP transport lives outside the library; what is kept here is what
//! the client computes: the authorization link, the hostname per
//! environment, and the classification of failed responses into the error
//! taxonomy.  Response bodies reach the library as already-decoded plain
//! values of the types below.

use vstd::prelude::*;

use crate::amount::Amount;
use crate::Error;

verus! {

/// The aggregator environment a deployment talks to.
#[derive(Clone, Copy, Debug, PartialEq, Eq, Structural)]
pub enum Env {
    Sandbox,
    Live,
}

/// Client credentials and environment for the aggregator.
#[derive(Debug)]
pub struct TrueLayerConfig {
    pub client_id: String,
    pub client_secret: String,
    pub env: Env,
}

/// The structured error body of a 4xx response from the aggregator.
#[derive(Debug, PartialEq)]
pub struct ErrorResponse {
    pub error: String,
    pub error_description: Option<String>,
}

/// A successful answer of the token endpoint.
#[derive(Debug, PartialEq)]
pub struct TokenResponse {
    pub access_token: String,
    pub expires_in: i64,
    pub refresh_token: String,
    pub token_type: String,
}

/// A financial institution as listed by the aggregator.
#[derive(Debug, PartialEq)]
pub struct Provider {
    pub provider_id: String,
    pub display_name: String,
    pub logo_url: String,
}

/// The metadata the aggregator reports for an access token.
#[derive(Debug, PartialEq)]
pub struct TokenMetadata {
    pub provider: ProviderMetadata,
}

/// The provider a token belongs to.
#[derive(Debug, PartialEq)]
pub struct ProviderMetadata {
    pub provider_id: String,
    pub display_name: String,
    pub logo_uri: String,
}

/// A bank account under a provider.
#[derive(Debug, PartialEq)]
pub struct Account {
    pub account_id: String,
    pub account_type: String,
    pub account_number: AccountNumber,
    pub currency: String,
    pub display_name: String,
    pub update_timestamp: String,
    pub provider: ProviderMetadata,
    pub description: Option<String>,
}

/// The number(s) identifying an account.
#[derive(Debug, PartialEq)]
pub struct AccountNumber {
    pub iban: Option<String>,
    pub number: Option<String>,
    pub sort_code: Option<String>,
}

/// A transaction as returned by the aggregator, reduced to the fields the
/// engine stores or reads.  The timestamp is seconds since the Unix
/// epoch; the amount is an exact decimal.
#[derive(Debug, PartialEq)]
pub struct Transaction {
    pub transaction_id: String,
    pub timestamp: i64,
    pub description: String,
    pub transaction_type: String,
    pub transaction_category: String,
    pub merchant_name: Option<String>,
    pub amount: Amount,
    pub currency: String,
}

/// Clones an aggregator transaction.
pub fn clone_transaction(t: &Transaction) -> (r: Transaction)
    ensures
        r == *t,
{
    Transaction {
        transaction_id: t.transaction_id.clone(),
        timestamp: t.timestamp,
        description: t.description.clone(),
        transaction_type: t.transaction_type.clone(),
        transaction_category: t.transaction_category.clone(),
        merchant_name: crate::text::clone_opt_string(&t.merchant_name),
        amount: t.amount,
        currency: t.currency.clone(),
    }
}

/// Clones a list of aggregator transactions.
pub fn clone_transactions(v: &Vec<Transaction>) -> (r: Vec<Transaction>)
    ensures
        r@ == v@,
{
    let mut r: Vec<Transaction> = Vec::new();
    let mut i: usize = 0;
    while i < v.len()
        invariant
            0 <= i <= v@.len(),
            r@ =~= v@.take(i as int),
        decreases v@.len() - i,
    {
        r.push(clone_transaction(&v[i]));
        i += 1;
        proof {
            assert(r@ =~= v@.take(i as int));
        }
    }
    proof {
        assert(v@.take(v@.len() as int) =~= v@);
    }
    r
}

/// The hostname of the aggregator for each environment.
pub open spec fn hostname_spec(env: Env) -> Seq<char> {
    match env {
        Env::Sandbox => "truelayer-sandbox.com"@,
        Env::Live => "truelayer.com"@,
    }
}

/// The `providers` query parameter for each environment.
pub open spec fn providers_param_spec(env: Env) -> Seq<char> {
    match env {
        Env::Sandbox => "uk-ob-all%20uk-oauth-all%20uk-cs-mock"@,
        Env::Live => "uk-ob-all%20uk-oauth-all"@,
    }
}

/// The authorization link the connect flow redirects the user to.
pub open spec fn auth_link_spec(config: TrueLayerConfig, callback: Seq<char>) -> Seq<char> {
    "https://auth."@ + hostname_spec(config.env)
        + "/?response_type=code&client_id="@ + config.client_id@
        + "&scope=info%20accounts%20balance%20cards%20transactions%20direct_debits%20standing_orders%20offline_access&redirect_uri="@
        + callback + "&providers="@ + providers_param_spec(config.env)
}

impl TrueLayerConfig {
    /// The hostname of the aggregator this configuration points at.
    pub fn hostname(&self) -> (r: &'static str)
        ensures
            r@ == hostname_spec(self.env),
    {
        match self.env {
            Env::Sandbox => "truelayer-sandbox.com",
            Env::Live => "truelayer.com",
        }
    }

    /// Builds the authorization link that starts the connect flow, ending
    /// at the given callback address.
    pub fn auth_link(&self, callback: &str) -> (r: String)
        ensures
            r@ == auth_link_spec(*self, callback@),
    {
        let providers = match self.env {
            Env::Sandbox => "uk-ob-all%20uk-oauth-all%20uk-cs-mock",
            Env::Live => "uk-ob-all%20uk-oauth-all",
        };
        let mut link = String::from_str("https://auth.");
        link.append(self.hostname());
        link.append("/?response_type=code&client_id=");
        link.append(self.client_id.as_str());
        link.append(
            "&scope=info%20accounts%20balance%20cards%20transactions%20direct_debits%20standing_orders%20offline_access&redirect_uri=",
        );
        link.append(callback);
        link.append("&providers=");
        link.append(providers);
        proof {
            assert(link@ =~= auth_link_spec(*self, callback@));
        }
        link
    }
}

/// Classifies a failed aggregator response: a 4xx with a structured body is
/// an authentication error, a 4xx whose body could not be decoded is a
/// decode error, and any other non-success status is an upstream error.
pub fn tl_error(status: u16, body: Option<ErrorResponse>) -> (e: Error)
    ensures
        400 <= status < 500 && body is Some ==> e == (Error::AuthError {
            code: body->Some_0.error,
            description: body->Some_0.error_description,
        }),
        400 <= status < 500 && body is None ==> e == Error::DecodeError,
        !(400 <= status < 500) ==> e == (Error::UpstreamError { status }),
{
    if 400 <= status && status < 500 {
        match body {
            Some(b) => Error::AuthError { code: b.error, description: b.error_description },
            None => Error::DecodeError,
        }
    } else {
        Error::UpstreamError { status }
    }
}

} // verus!
