//! Decisions shared by the HTTP handlers: node credentials in tokens, node
//! kinds, payment hashes and public keys, and the error answers of node
//! operations.

use vstd::prelude::*;
use crate::events::{hex_digit, hex_lower};
use crate::errors::{lightning_error_detail, lightning_error_prefix, HttpError, LightningError};
use crate::jwt::{Claims, NodeCredentials};
use crate::models::Credential;
use crate::text::{concat, concat3, str_eq};

verus! {

/// Handle to a secp256k1 public key of the `bitcoin` crate.
#[verifier::external_type_specification]
#[verifier::external_body]
pub struct ExPublicKey(bitcoin::secp256k1::PublicKey);

/// The node credentials a token carries; a token without them is 401
/// `No node credentials found in token` (`missing_credentials`).
pub fn extract_node_credentials(claims: &Claims) -> (r: Result<&NodeCredentials, HttpError>)
    ensures
        match r {
            Ok(c) => claims.node_credentials == Some(*c),
            Err(e) => claims.node_credentials is None && e.status == 401 && e.message@
                == "No node credentials found in token"@ && e.code@ == "missing_credentials"@,
        },
{
    match claims.node_credentials() {
        Some(c) => Ok(c),
        None => Err(HttpError::new(401, "No node credentials found in token", "missing_credentials")),
    }
}

/// Node implementations a client can be made for.
#[derive(Debug, Clone, Copy, PartialEq, Eq, Structural)]
pub enum NodeKind {
    Lnd,
    Cln,
}

/// The kind of node named by a credential's node type: `lnd` or `cln`;
/// anything else is 400 `Unsupported node type` (`unsupported_node_type`).
pub fn node_kind(node_type: &str) -> (r: Result<NodeKind, HttpError>)
    ensures
        node_type@ == "lnd"@ ==> r == Ok::<NodeKind, HttpError>(NodeKind::Lnd),
        node_type@ != "lnd"@ && node_type@ == "cln"@ ==> r == Ok::<NodeKind, HttpError>(
            NodeKind::Cln,
        ),
        node_type@ != "lnd"@ && node_type@ != "cln"@ ==> (r matches Err(e) && e.status == 400
            && e.message@ == "Unsupported node type"@ && e.code@ == "unsupported_node_type"@),
{
    if str_eq(node_type, "lnd") {
        Ok(NodeKind::Lnd)
    } else if str_eq(node_type, "cln") {
        Ok(NodeKind::Cln)
    } else {
        Err(HttpError::new(400, "Unsupported node type", "unsupported_node_type"))
    }
}

/// The TLS parts a Core Lightning connection needs: client certificate,
/// client key and CA certificate, each required in that order (400
/// `Missing client certificate for CLN` / `missing_client_cert`, `Missing
/// client key for CLN` / `missing_client_key`, `Missing CA certificate for
/// CLN` / `missing_ca_cert`).
pub fn extract_cln_tls_components(c: &NodeCredentials) -> (r: Result<(String, String, String), HttpError>)
    ensures
        match (c.client_cert, c.client_key, c.ca_cert) {
            (Some(cert), Some(key), Some(ca)) => r == Ok::<(String, String, String), HttpError>(
                (cert, key, ca),
            ),
            (None, _, _) => r matches Err(e) && e.status == 400 && e.message@
                == "Missing client certificate for CLN"@ && e.code@ == "missing_client_cert"@,
            (Some(_), None, _) => r matches Err(e) && e.status == 400 && e.message@
                == "Missing client key for CLN"@ && e.code@ == "missing_client_key"@,
            (Some(_), Some(_), None) => r matches Err(e) && e.status == 400 && e.message@
                == "Missing CA certificate for CLN"@ && e.code@ == "missing_ca_cert"@,
        },
{
    let cert = match &c.client_cert {
        Some(x) => x.clone(),
        None => {
            return Err(
                HttpError::new(400, "Missing client certificate for CLN", "missing_client_cert"),
            );
        },
    };
    let key = match &c.client_key {
        Some(x) => x.clone(),
        None => {
            return Err(HttpError::new(400, "Missing client key for CLN", "missing_client_key"));
        },
    };
    let ca = match &c.ca_cert {
        Some(x) => x.clone(),
        None => {
            return Err(HttpError::new(400, "Missing CA certificate for CLN", "missing_ca_cert"));
        },
    };
    Ok((cert, key, ca))
}

/// An ASCII hexadecimal digit, in either case.
pub open spec fn is_hex_char(c: char) -> bool {
    ('0' <= c && c <= '9') || ('a' <= c && c <= 'f') || ('A' <= c && c <= 'F')
}

/// The value of a hexadecimal digit.
pub open spec fn hex_char_value(c: char) -> int {
    if '0' <= c && c <= '9' {
        c as int - 48
    } else if 'a' <= c && c <= 'f' {
        c as int - 87
    } else {
        c as int - 55
    }
}

/// Text that decodes as hexadecimal: an even number of hexadecimal digits.
pub open spec fn hex_decodes(s: Seq<char>) -> bool {
    s.len() % 2 == 0 && forall|i: int| 0 <= i < s.len() ==> is_hex_char(#[trigger] s[i])
}

/// The bytes that hexadecimal digit pairs stand for, high digit first.
pub open spec fn hex_decoded(s: Seq<char>) -> Seq<u8> {
    Seq::new(
        (s.len() / 2) as nat,
        |i: int| (hex_char_value(s[2 * i]) * 16 + hex_char_value(s[2 * i + 1])) as u8,
    )
}

/// The text of the error `hex::decode` reports for text that does not decode.
pub uninterp spec fn hex_decode_error_text(s: Seq<char>) -> Seq<char>;

/// Calls `hex::decode` on a text. It reads the text's UTF-8 bytes; a
/// character outside ASCII is never a hexadecimal digit, so the claim is
/// stated over the characters. Claimed: it succeeds exactly on an even
/// number of hexadecimal digits (either case) and then gives the bytes the
/// digit pairs stand for; otherwise the error's text depends on the text
/// alone.
#[verifier::external_body]
pub(crate) fn hex_decode(s: &str) -> (r: Result<Vec<u8>, String>)
    ensures
        match r {
            Ok(v) => hex_decodes(s@) && v@ == hex_decoded(s@),
            Err(e) => !hex_decodes(s@) && e@ == hex_decode_error_text(s@),
        },
{
    match hex::decode(s) {
        Ok(v) => Ok(v),
        Err(e) => Err(e.to_string()),
    }
}

/// Each character of bytes' lowercase hexadecimal text: two digits per
/// byte, high digit first.
proof fn lemma_hex_lower_digits(b: Seq<u8>)
    ensures
        hex_lower(b).len() == 2 * b.len(),
        forall|i: int|
            0 <= i < b.len() ==> hex_lower(b)[2 * i] == hex_digit((b[i] / 16) as nat)
                && hex_lower(b)[2 * i + 1] == hex_digit((b[i] % 16) as nat),
    decreases b.len(),
{
    if b.len() > 0 {
        let init = b.drop_last();
        lemma_hex_lower_digits(init);
        assert forall|i: int| 0 <= i < b.len() implies hex_lower(b)[2 * i] == hex_digit(
            (b[i] / 16) as nat,
        ) && hex_lower(b)[2 * i + 1] == hex_digit((b[i] % 16) as nat) by {
            if i < b.len() - 1 {
                assert(init[i] == b[i]);
            }
        }
    }
}

/// A digit below sixteen is a hexadecimal digit that reads back as itself.
proof fn lemma_hex_digit_value(n: nat)
    requires
        n < 16,
    ensures
        is_hex_char(hex_digit(n)),
        hex_char_value(hex_digit(n)) == n,
{
}

/// A payment hash rendered as lowercase hexadecimal (as event data shows
/// it) decodes back to the same bytes.
pub proof fn law_rendered_hash_parses_back(b: Seq<u8>)
    ensures
        hex_decodes(hex_lower(b)),
        hex_decoded(hex_lower(b)) == b,
{
    lemma_hex_lower_digits(b);
    let s = hex_lower(b);
    assert forall|j: int| 0 <= j < s.len() implies is_hex_char(#[trigger] s[j]) by {
        let i = j / 2;
        lemma_hex_digit_value((b[i] / 16) as nat);
        lemma_hex_digit_value((b[i] % 16) as nat);
        assert(j == 2 * i || j == 2 * i + 1);
    }
    assert forall|i: int| 0 <= i < b.len() implies #[trigger] hex_decoded(s)[i] == b[i] by {
        lemma_hex_digit_value((b[i] / 16) as nat);
        lemma_hex_digit_value((b[i] % 16) as nat);
        assert((b[i] / 16) * 16 + b[i] % 16 == b[i]);
    }
    assert(hex_decoded(s) =~= b);
}

/// Parses a payment hash: hexadecimal text of exactly 32 bytes. Text that
/// does not decode is 400 `Invalid payment hash format: <error>`
/// (`invalid_payment_hash`); another length is 400 `Payment hash must be 32
/// bytes` (`invalid_payment_hash_length`).
pub fn parse_payment_hash(s: &str) -> (r: Result<Vec<u8>, HttpError>)
    ensures
        !hex_decodes(s@) ==> (r matches Err(e) && e.status == 400 && e.message@
            == "Invalid payment hash format: "@ + hex_decode_error_text(s@) && e.code@
            == "invalid_payment_hash"@),
        hex_decodes(s@) && hex_decoded(s@).len() != 32 ==> (r matches Err(
            e,
        ) && e.status == 400 && e.message@ == "Payment hash must be 32 bytes"@ && e.code@
            == "invalid_payment_hash_length"@),
        hex_decodes(s@) && hex_decoded(s@).len() == 32 ==> (r matches Ok(
            v,
        ) && v@ == hex_decoded(s@)),
{
    let bytes = match hex_decode(s) {
        Ok(v) => v,
        Err(e) => {
            let message = concat("Invalid payment hash format: ", e.as_str());
            return Err(
                HttpError { status: 400, message, code: String::from_str("invalid_payment_hash") },
            );
        },
    };
    if bytes.len() != 32 {
        return Err(
            HttpError::new(400, "Payment hash must be 32 bytes", "invalid_payment_hash_length"),
        );
    }
    Ok(bytes)
}

/// The text of the error `PublicKey::from_str` reports for a text, or `None`
/// when the text parses.
pub uninterp spec fn public_key_error(s: Seq<char>) -> Option<Seq<char>>;

/// Calls `bitcoin::secp256k1::PublicKey::from_str`. Claimed: whether the text
/// parses, and the error's text when it does not, depend on the text alone;
/// the key itself is not modelled.
#[verifier::external_body]
pub(crate) fn secp256k1_public_key(s: &str) -> (r: Result<bitcoin::secp256k1::PublicKey, String>)
    ensures
        match r {
            Ok(_) => public_key_error(s@) is None,
            Err(e) => public_key_error(s@) == Some(e@),
        },
{
    match <bitcoin::secp256k1::PublicKey as std::str::FromStr>::from_str(s) {
        Ok(k) => Ok(k),
        Err(e) => Err(e.to_string()),
    }
}

/// Parses a node's public key; text that does not parse is 400
/// `Invalid node public key: <error>` (`invalid_public_key`).
pub fn parse_public_key(node_id: &str) -> (r: Result<bitcoin::secp256k1::PublicKey, HttpError>)
    ensures
        public_key_error(node_id@) is None <==> r is Ok,
        public_key_error(node_id@) matches Some(m) ==> (r matches Err(e) && e.status == 400
            && e.message@ == "Invalid node public key: "@ + m && e.code@ == "invalid_public_key"@),
{
    match secp256k1_public_key(node_id) {
        Ok(k) => Ok(k),
        Err(e) => {
            let message = concat("Invalid node public key: ", e.as_str());
            Err(HttpError { status: 400, message, code: String::from_str("invalid_public_key") })
        },
    }
}

/// `s` with every space replaced by an underscore.
pub open spec fn spaces_to_underscores(s: Seq<char>) -> Seq<char> {
    s.map_values(|c: char| if c == ' ' { '_' } else { c })
}

/// Replaces every space of a text by an underscore.
pub fn replace_spaces(s: &str) -> (r: String)
    ensures
        r@ == spaces_to_underscores(s@),
{
    let n = s.unicode_len();
    let mut out = String::new();
    let mut i: usize = 0;
    while i < n
        invariant
            n == s@.len(),
            i <= n,
            out@ == spaces_to_underscores(s@.take(i as int)),
        decreases n - i,
    {
        let c = s.get_char(i);
        proof {
            reveal_strlit("_");
        }
        if c == ' ' {
            out.append("_");
        } else {
            out.append(s.substring_char(i, i + 1));
        }
        assert(out@ =~= spaces_to_underscores(s@.take(i + 1)));
        i += 1;
    }
    assert(s@.take(n as int) =~= s@);
    out
}

/// The answer to a failed node operation: 500 `Failed to <operation>:
/// <error>`, with the code `<operation with spaces as underscores>_error`.
pub fn handle_node_error(e: &LightningError, operation: &str) -> (r: HttpError)
    ensures
        r.status == 500,
        r.message@ == "Failed to "@ + operation@ + ": "@ + lightning_error_prefix(*e)
            + lightning_error_detail(*e),
        r.code@ == spaces_to_underscores(operation@) + "_error"@,
{
    let text = e.message();
    let head = concat3("Failed to ", operation, ": ");
    let message = concat(head.as_str(), text.as_str());
    let op = replace_spaces(operation);
    let code = concat(op.as_str(), "_error");
    HttpError { status: 500, message, code }
}

/// Whether the authenticated user has stored node credentials, and which.
#[derive(Debug, Clone, PartialEq, Eq)]
pub struct CredentialStatus {
    pub has_credential: bool,
    pub node_id: Option<String>,
    pub node_alias: Option<String>,
}

/// The credential status for the credentials found for a user.
pub fn credential_status(found: Option<Credential>) -> (r: CredentialStatus)
    ensures
        match found {
            Some(c) => r == (CredentialStatus {
                has_credential: true,
                node_id: Some(c.node_id),
                node_alias: Some(c.node_alias),
            }),
            None => r == (CredentialStatus { has_credential: false, node_id: None, node_alias: None }),
        },
{
    match found {
        Some(c) => CredentialStatus {
            has_credential: true,
            node_id: Some(c.node_id),
            node_alias: Some(c.node_alias),
        },
        None => CredentialStatus { has_credential: false, node_id: None, node_alias: None },
    }
}

/// Only a token holder whose role is `Admin` may change access levels;
/// anyone else gets 403 with the plain message `Only Admin users can change
/// role access levels`.
pub fn require_admin(role: &str) -> (r: Result<(), (u16, String)>)
    ensures
        role@ == "Admin"@ ==> r is Ok,
        role@ != "Admin"@ ==> (r matches Err(e) && e.0 == 403 && e.1@
            == "Only Admin users can change role access levels"@),
{
    if !str_eq(role, "Admin") {
        return Err((403, String::from_str("Only Admin users can change role access levels")));
    }
    Ok(())
}

} // verus!
