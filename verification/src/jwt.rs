//! Claims carried by the access and refresh tokens.

use vstd::prelude::*;
use crate::clock::{max_utc_seconds, min_utc_seconds, now_seconds};
use crate::models::{Credential, RoleAccessLevel};
use crate::text::{as_signed, to_signed};

verus! {

/// Node credentials carried in a token.
#[derive(Debug, Clone, PartialEq, Eq)]
pub struct NodeCredentials {
    pub node_id: String,
    pub node_alias: String,
    /// `lnd` or `cln`.
    pub node_type: String,
    pub macaroon: String,
    pub tls_cert: String,
    pub client_cert: Option<String>,
    pub client_key: Option<String>,
    pub ca_cert: Option<String>,
    pub address: String,
}

/// Token claims: the user, its account and role, optional node credentials,
/// and the expiry and issue instants in Unix seconds.
#[derive(Debug, Clone, PartialEq, Eq)]
pub struct Claims {
    /// User ID.
    pub sub: String,
    pub account_id: String,
    pub role: String,
    pub role_access_level: RoleAccessLevel,
    pub node_credentials: Option<NodeCredentials>,
    pub exp: usize,
    pub iat: usize,
}

/// Largest number of whole seconds a time span can hold.
pub open spec fn max_span_seconds() -> int {
    9_223_372_036_854_775
}

/// Seconds in the thirty days that a refresh token lives.
pub open spec fn refresh_lifetime_seconds() -> int {
    2_592_000
}

impl Claims {
    /// The account the token belongs to.
    pub fn account_id(&self) -> (r: &str)
        ensures
            r@ == self.account_id@,
    {
        self.account_id.as_str()
    }

    /// Whether the token carries node credentials.
    pub fn has_node_credentials(&self) -> (r: bool)
        ensures
            r == self.node_credentials is Some,
    {
        self.node_credentials.is_some()
    }

    /// The node credentials the token carries, if any.
    pub fn node_credentials(&self) -> (r: Option<&NodeCredentials>)
        ensures
            match r {
                Some(c) => self.node_credentials == Some(*c),
                None => self.node_credentials is None,
            },
    {
        match &self.node_credentials {
            Some(c) => Some(c),
            None => None,
        }
    }

    /// Claims of an access token issued at `now_secs` that expires
    /// `expires_in` seconds later (the span is taken as a signed number of
    /// seconds, as the token issuer does).
    pub fn access(
        user_id: String,
        account_id: String,
        role: String,
        role_access_level: RoleAccessLevel,
        node_credentials: Option<NodeCredentials>,
        now_secs: i64,
        expires_in: u64,
    ) -> (r: Claims)
        requires
            -max_span_seconds() <= as_signed(expires_in) <= max_span_seconds(),
            min_utc_seconds() <= now_secs + as_signed(expires_in) <= max_utc_seconds(),
        ensures
            r.sub == user_id,
            r.account_id == account_id,
            r.role == role,
            r.role_access_level == role_access_level,
            r.node_credentials == node_credentials,
            r.exp == (now_secs + as_signed(expires_in)) as usize,
            r.iat == now_secs as usize,
    {
        let span = to_signed(expires_in);
        let exp = now_secs + span;
        Claims {
            sub: user_id,
            account_id,
            role,
            role_access_level,
            node_credentials,
            exp: exp as usize,
            iat: now_secs as usize,
        }
    }

    /// Claims of a refresh token issued at `now_secs`: thirty days of life, no
    /// account, role or node credentials.
    pub fn refresh(user_id: String, role_access_level: RoleAccessLevel, now_secs: i64) -> (r: Claims)
        requires
            now_secs + refresh_lifetime_seconds() <= max_utc_seconds(),
        ensures
            r.sub == user_id,
            r.account_id@ == Seq::<char>::empty(),
            r.role@ == Seq::<char>::empty(),
            r.role_access_level == role_access_level,
            r.node_credentials is None,
            r.exp == (now_secs + refresh_lifetime_seconds()) as usize,
            r.iat == now_secs as usize,
    {
        let exp = now_secs + 2_592_000;
        Claims {
            sub: user_id,
            account_id: String::new(),
            role: String::new(),
            role_access_level,
            node_credentials: None,
            exp: exp as usize,
            iat: now_secs as usize,
        }
    }

    /// Access-token claims issued now (by the clock); `None` when the span
    /// is out of a time span's range, the clock cannot be read as a UTC
    /// date-time, or the expiry would fall outside that range.
    pub fn access_now(
        user_id: String,
        account_id: String,
        role: String,
        role_access_level: RoleAccessLevel,
        node_credentials: Option<NodeCredentials>,
        expires_in: u64,
    ) -> (r: Option<Claims>)
        ensures
            r matches Some(c) ==> {
                &&& c.sub == user_id
                &&& c.account_id == account_id
                &&& c.role == role
                &&& c.role_access_level == role_access_level
                &&& c.node_credentials == node_credentials
                &&& exists|t: i64|
                    #![trigger (t as usize)]
                    min_utc_seconds() <= t + as_signed(expires_in) <= max_utc_seconds() && c.iat == (
                    t as usize) && c.exp == (t + as_signed(expires_in)) as usize
            },
            as_signed(expires_in) < -max_span_seconds() || as_signed(expires_in) > max_span_seconds()
                ==> r is None,
    {
        let now = match now_seconds() {
            Some(t) => t,
            None => {
                return None;
            },
        };
        let span = to_signed(expires_in);
        if span < -9_223_372_036_854_775 || span > 9_223_372_036_854_775 {
            return None;
        }
        if span > 0 && now > 8_210_266_876_799 - span {
            return None;
        }
        if span < 0 && now < -8_334_601_315_200 - span {
            return None;
        }
        let c = Claims::access(
            user_id,
            account_id,
            role,
            role_access_level,
            node_credentials,
            now,
            expires_in,
        );
        assert(c.iat == (now as usize));
        Some(c)
    }

    /// Refresh-token claims issued now (by the clock); `None` when the clock
    /// cannot be read as a UTC date-time or thirty days from now fall outside
    /// that range.
    pub fn refresh_now(user_id: String, role_access_level: RoleAccessLevel) -> (r: Option<Claims>)
        ensures
            r matches Some(c) ==> {
                &&& c.sub == user_id
                &&& c.account_id@ == Seq::<char>::empty()
                &&& c.role@ == Seq::<char>::empty()
                &&& c.role_access_level == role_access_level
                &&& c.node_credentials is None
                &&& exists|t: i64|
                    #![trigger (t as usize)]
                    min_utc_seconds() <= t && t + refresh_lifetime_seconds() <= max_utc_seconds()
                        && c.iat == (t as usize) && c.exp == (t + refresh_lifetime_seconds()) as usize
            },
    {
        let now = match now_seconds() {
            Some(t) => t,
            None => {
                return None;
            },
        };
        if now > 8_210_266_876_799 - 2_592_000 {
            return None;
        }
        let c = Claims::refresh(user_id, role_access_level, now);
        assert(c.iat == (now as usize));
        Some(c)
    }
}

/// `n` is the token form of stored credentials `c`: the same fields, with a
/// missing node type read as `lnd`.
pub open spec fn is_token_form(n: NodeCredentials, c: Credential) -> bool {
    &&& n.node_id == c.node_id
    &&& n.node_alias == c.node_alias
    &&& n.node_type@ == match c.node_type {
        Some(t) => t@,
        None => "lnd"@,
    }
    &&& n.macaroon == c.macaroon
    &&& n.tls_cert == c.tls_cert
    &&& n.client_cert == c.client_cert
    &&& n.client_key == c.client_key
    &&& n.ca_cert == c.ca_cert
    &&& n.address == c.address
}

impl NodeCredentials {
    /// The token form of stored credentials; a missing node type means `lnd`.
    pub fn from_credential(c: Credential) -> (r: NodeCredentials)
        ensures
            is_token_form(r, c),
    {
        let node_type = match c.node_type {
            Some(t) => t,
            None => String::from_str("lnd"),
        };
        NodeCredentials {
            node_id: c.node_id,
            node_alias: c.node_alias,
            node_type,
            macaroon: c.macaroon,
            tls_cert: c.tls_cert,
            client_cert: c.client_cert,
            client_key: c.client_key,
            ca_cert: c.ca_cert,
            address: c.address,
        }
    }
}

/// A copy of optional text.
pub(crate) fn copy_opt(o: &Option<String>) -> (r: Option<String>)
    ensures
        r == *o,
{
    match o {
        Some(x) => Some(x.clone()),
        None => None,
    }
}

/// The token form of stored credentials, read from a borrowed record.
pub(crate) fn token_form_of(c: &Credential) -> (r: NodeCredentials)
    ensures
        is_token_form(r, *c),
{
    let node_type = match &c.node_type {
        Some(t) => t.clone(),
        None => String::from_str("lnd"),
    };
    NodeCredentials {
        node_id: c.node_id.clone(),
        node_alias: c.node_alias.clone(),
        node_type,
        macaroon: c.macaroon.clone(),
        tls_cert: c.tls_cert.clone(),
        client_cert: copy_opt(&c.client_cert),
        client_key: copy_opt(&c.client_key),
        ca_cert: copy_opt(&c.ca_cert),
        address: c.address.clone(),
    }
}

/// The node credentials a token carries for the stored credentials found:
/// none for none, else their token form.
pub open spec fn token_credentials_for(n: Option<NodeCredentials>, c: Option<Credential>) -> bool {
    match (n, c) {
        (None, None) => true,
        (Some(n), Some(c)) => is_token_form(n, c),
        _ => false,
    }
}

/// The claims an access token is to be signed with (its instants are taken
/// when it is signed).
#[derive(Debug, Clone, PartialEq, Eq)]
pub struct TokenRequest {
    pub user_id: String,
    pub account_id: String,
    pub role: String,
    pub role_access_level: RoleAccessLevel,
    pub node_credentials: Option<NodeCredentials>,
}

} // verus!
