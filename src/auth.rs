//! Login validation: a signed token carried in an `Auth` frame is checked and
//! its claims become the session's `Account`.
use crate::codec::ProtocolCategory;
use crate::text::{bounded_decimal, parse_u64, same_text};
use vstd::prelude::*;

verus! {

#[verifier::external_type_specification]
#[verifier::external_body]
pub struct ExDecodingKey(jsonwebtoken::DecodingKey);

#[verifier::external_type_specification]
#[verifier::external_body]
pub struct ExJwtError(jsonwebtoken::errors::Error);

#[verifier::external_type_specification]
#[verifier::external_body]
pub struct ExDecodeError(prost::DecodeError);

/// Relies on jsonwebtoken's `DecodingKey::from_secret`, which keeps a copy
/// of the HMAC secret.
pub assume_specification[ jsonwebtoken::DecodingKey::from_secret ](
    secret: &[u8],
) -> jsonwebtoken::DecodingKey;

/// What prost's `Message` impl for `String` decodes from `body`: the text in
/// field 1, other fields skipped; `None` where the bytes are malformed.
pub uninterp spec fn string_message(body: Seq<u8>) -> Option<Seq<char>>;

/// Relies on prost's `Message::decode` for `String`, whose result depends on
/// the bytes alone.
#[verifier::external_body]
fn decode_string_message(body: &[u8]) -> (r: Result<String, prost::DecodeError>)
    ensures
        match r {
            Ok(t) => string_message(body@) == Some(t@),
            Err(_) => string_message(body@) is None,
        },
{
    <String as prost::Message>::decode(body)
}

/// The text of the string claim `name` in the payload of `token`: `None`
/// where the payload has no such member or its value is not a string. The
/// payload is part of the token, so this depends on the token alone.
pub uninterp spec fn token_claim(token: Seq<char>, name: Seq<char>) -> Option<Seq<char>>;

/// The text view of an optional claim.
pub open spec fn claim_view(c: Option<String>) -> Option<Seq<char>> {
    match c {
        Some(s) => Some(s@),
        None => None,
    }
}

/// Relies on jsonwebtoken's `decode` with an HS256 `Validation`, which checks
/// the token's format, signature and expiry (against the clock) and hands
/// back its payload, and on serde_json's `Value::get` and `Value::as_str` to
/// read the payload's string members `names`. Whether the token is accepted
/// is not promised; what an accepted token's claims are is.
#[verifier::external_body]
fn decode_claims(token: &str, key: &jsonwebtoken::DecodingKey, names: (&str, &str, &str)) -> (r:
    Result<(Option<String>, Option<String>, Option<String>), jsonwebtoken::errors::Error>)
    ensures
        r matches Ok((a, c, p)) ==> claim_view(a) == token_claim(token@, names.0@) && claim_view(c)
            == token_claim(token@, names.1@) && claim_view(p) == token_claim(token@, names.2@),
{
    let validation = jsonwebtoken::Validation::new(jsonwebtoken::Algorithm::HS256);
    let claims = jsonwebtoken::decode::<serde_json::Value>(token, key, &validation)?.claims;
    let text = |name: &str| claims.get(name).and_then(serde_json::Value::as_str).map(String::from);
    Ok((text(names.0), text(names.1), text(names.2)))
}

/// What an authenticated account may do.
#[derive(Clone, Copy, Debug, PartialEq, Eq, Structural)]
pub enum Privilege {
    /// No privilege beyond playing; written `None` in a token.
    Basic,
    Manager,
    Admin,
}

/// The identity attached to a session once it has logged in.
#[derive(Clone, Copy, Debug, PartialEq, Eq, Structural)]
pub struct Account {
    pub account_id: u64,
    pub character_id: u64,
    pub privilege: Privilege,
}

impl Account {
    /// An account with no privilege beyond playing.
    pub fn new(account_id: u64, character_id: u64) -> (r: Account)
        ensures
            r == (Account { account_id, character_id, privilege: Privilege::Basic }),
    {
        Account { account_id, character_id, privilege: Privilege::Basic }
    }
}

impl Default for Account {
    /// The empty account: both ids zero.
    fn default() -> (r: Account)
        ensures
            r == (Account { account_id: 0, character_id: 0, privilege: Privilege::Basic }),
    {
        Account::new(0, 0)
    }
}

/// Why a login was refused. Every refusal closes the session.
#[derive(Clone, Copy, Debug, PartialEq, Eq, Structural)]
pub enum LoginError {
    /// The frame does not belong to the `Auth` category.
    WrongCategory,
    /// The body is not a `Login` message.
    MalformedBody,
    /// The token's format, signature or expiry was refused.
    InvalidToken,
    /// A claim is absent or is not a string.
    MissingClaim,
    InvalidAccountId,
    InvalidCharacterId,
    InvalidPrivilege,
}

/// The holder of the key that login tokens are checked with.
pub struct AuthConfig {
    pub key: jsonwebtoken::DecodingKey,
}

impl AuthConfig {
    /// Builds the HMAC key from the shared secret.
    pub fn load(secret: &[u8]) -> (r: AuthConfig) {
        AuthConfig { key: jsonwebtoken::DecodingKey::from_secret(secret) }
    }
}

/// The privilege that a token's privilege claim names.
pub open spec fn privilege_of(s: Seq<char>) -> Option<Privilege> {
    if s == "None"@ {
        Some(Privilege::Basic)
    } else if s == "Manager"@ {
        Some(Privilege::Manager)
    } else if s == "Admin"@ {
        Some(Privilege::Admin)
    } else {
        None
    }
}

/// The account that three claim texts describe, or the first claim at fault.
pub open spec fn account_of_claims(aid: Seq<char>, cid: Seq<char>, prv: Seq<char>) -> Result<
    Account,
    LoginError,
> {
    let a = bounded_decimal(aid, u64::MAX as nat);
    let c = bounded_decimal(cid, u64::MAX as nat);
    let p = privilege_of(prv);
    if a is None {
        Err(LoginError::InvalidAccountId)
    } else if c is None {
        Err(LoginError::InvalidCharacterId)
    } else if p is None {
        Err(LoginError::InvalidPrivilege)
    } else {
        Ok(Account { account_id: a->0 as u64, character_id: c->0 as u64, privilege: p->0 })
    }
}

/// Reads a privilege claim: `None`, `Manager` or `Admin`, exactly.
pub fn parse_privilege(s: &str) -> (r: Option<Privilege>)
    ensures
        r == privilege_of(s@),
{
    if same_text(s, "None") {
        Some(Privilege::Basic)
    } else if same_text(s, "Manager") {
        Some(Privilege::Manager)
    } else if same_text(s, "Admin") {
        Some(Privilege::Admin)
    } else {
        None
    }
}

/// Builds the account from the token's claims: the account id, the
/// character id (both decimal `u64`) and the privilege.
pub fn account_from_claims(aid: &str, cid: &str, prv: &str) -> (r: Result<Account, LoginError>)
    ensures
        r == account_of_claims(aid@, cid@, prv@),
{
    let account_id = match parse_u64(aid) {
        Some(v) => v,
        None => return Err(LoginError::InvalidAccountId),
    };
    let character_id = match parse_u64(cid) {
        Some(v) => v,
        None => return Err(LoginError::InvalidCharacterId),
    };
    let privilege = match parse_privilege(prv) {
        Some(p) => p,
        None => return Err(LoginError::InvalidPrivilege),
    };
    Ok(Account { account_id, character_id, privilege })
}

/// The account that three optional claim texts describe: a missing claim
/// refuses the login, else `account_of_claims` decides.
pub open spec fn account_of_claim_texts(
    aid: Option<Seq<char>>,
    cid: Option<Seq<char>>,
    prv: Option<Seq<char>>,
) -> Result<Account, LoginError> {
    if aid is None || cid is None || prv is None {
        Err(LoginError::MissingClaim)
    } else {
        account_of_claims(aid->0, cid->0, prv->0)
    }
}

/// What logging in with `token` gives once its signature and expiry are
/// accepted: the account that its `aid`, `cid` and `prv` claims describe.
pub open spec fn login_of_token(token: Seq<char>) -> Result<Account, LoginError> {
    account_of_claim_texts(
        token_claim(token, "aid"@),
        token_claim(token, "cid"@),
        token_claim(token, "prv"@),
    )
}

/// Builds the account from the claim texts of an accepted token.
pub fn account_from_claim_texts(aid: Option<String>, cid: Option<String>, prv: Option<String>) -> (r:
    Result<Account, LoginError>)
    ensures
        r == account_of_claim_texts(claim_view(aid), claim_view(cid), claim_view(prv)),
{
    match (aid, cid, prv) {
        (Some(a), Some(c), Some(p)) => account_from_claims(a.as_str(), c.as_str(), p.as_str()),
        _ => Err(LoginError::MissingClaim),
    }
}

/// Checks a login token against `key` and builds the account from its
/// claims `aid`, `cid` and `prv`. A token whose format, signature or expiry
/// is refused gives `InvalidToken`; that check is the token library's and
/// depends on the clock. Any other outcome is exactly `login_of_token`.
pub fn handle_login(token: &str, key: &jsonwebtoken::DecodingKey) -> (r: Result<
    Account,
    LoginError,
>)
    ensures
        r == Err::<Account, LoginError>(LoginError::InvalidToken) || r == login_of_token(token@),
{
    let (aid, cid, prv) = match decode_claims(token, key, ("aid", "cid", "prv")) {
        Ok(c) => c,
        Err(_) => return Err(LoginError::InvalidToken),
    };
    account_from_claim_texts(aid, cid, prv)
}

/// Handles one inbound frame of the auth room: it must be an `Auth` frame
/// whose body is a `Login` message (the token in field 1), and the token
/// must pass `handle_login`.
pub fn handle_in_message(
    category: ProtocolCategory,
    body: &[u8],
    key: &jsonwebtoken::DecodingKey,
) -> (r: Result<Account, LoginError>)
    ensures
        (r == Err::<Account, LoginError>(LoginError::WrongCategory)) == (category
            != ProtocolCategory::Auth),
        (r == Err::<Account, LoginError>(LoginError::MalformedBody)) == (category
            == ProtocolCategory::Auth && string_message(body@) is None),
        category == ProtocolCategory::Auth && string_message(body@) is Some ==> (r == Err::<
            Account,
            LoginError,
        >(LoginError::InvalidToken) || r == login_of_token(string_message(body@)->0)),
{
    if category != ProtocolCategory::Auth {
        return Err(LoginError::WrongCategory);
    }
    let token = match decode_string_message(body) {
        Ok(t) => t,
        Err(_) => return Err(LoginError::MalformedBody),
    };
    handle_login(token.as_str(), key)
}

} // verus!
