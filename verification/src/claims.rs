use std::collections::BTreeMap;

use jsonwebtoken::{Algorithm, DecodingKey, EncodingKey, Header, Validation};
use serde_json::Value;
use vstd::prelude::*;
use vstd::string::*;

verus! {

/// The secret that signs and checks every token of this service.
pub const SECRET_KEY: &'static str = "rahasia12345";

/// The company that every token of this service is issued for.
pub const COMPANY: &'static str = "Codepolitan";

/// The claims carried by the tokens this service issues: the user's email
/// as subject, the user's name, and the issuing company.
pub struct Claims {
    pub sub: String,
    pub username: String,
    pub company: String,
}

/// Claims as plain text.
pub struct ClaimsView {
    pub sub: Seq<char>,
    pub username: Seq<char>,
    pub company: Seq<char>,
}

impl ClaimsView {
    /// A token is accepted when it was issued for the company of this service.
    pub open spec fn is_valid(self) -> bool {
        self.company == COMPANY@
    }
}

impl View for Claims {
    type V = ClaimsView;

    open spec fn view(&self) -> ClaimsView {
        ClaimsView { sub: self.sub@, username: self.username@, company: self.company@ }
    }
}

impl Claims {
    /// Whether the claims were issued for the company of this service.
    pub fn is_valid(&self) -> (res: bool)
        ensures
            res == self@.is_valid(),
    {
        self.company == String::from_str(COMPANY)
    }

    /// Picks the three claims out of the entries of a decoded token.
    pub fn from_entries(entries: &Vec<(String, Option<String>)>) -> (res: Option<Claims>)
        ensures
            match res {
                Some(c) => claims_of(entries_view(entries@)) == Some(c@),
                None => claims_of(entries_view(entries@)) is None,
            },
    {
        let sub = lookup_claim(entries, &String::from_str("sub"));
        let username = lookup_claim(entries, &String::from_str("username"));
        let company = lookup_claim(entries, &String::from_str("company"));
        match (sub, username, company) {
            (Some(sub), Some(username), Some(company)) => Some(Claims { sub, username, company }),
            _ => None,
        }
    }
}

/// The entries of a decoded token as plain text: each claim's name, and its
/// value where that value is a string.
pub open spec fn entries_view(e: Seq<(String, Option<String>)>) -> Seq<(Seq<char>, Option<Seq<char>>)> {
    e.map_values(|p: (String, Option<String>)| (p.0@, match p.1 {
        Some(s) => Some(s@),
        None => None,
    }))
}

/// The string value of the first entry named `key`; `None` where no entry
/// has that name or its value is not a string.
pub open spec fn claim_value(e: Seq<(Seq<char>, Option<Seq<char>>)>, key: Seq<char>) -> Option<Seq<char>>
    decreases e.len(),
{
    if e.len() == 0 {
        None
    } else if e[0].0 == key {
        e[0].1
    } else {
        claim_value(e.drop_first(), key)
    }
}

/// The claims that the entries of a decoded token hold: all three of
/// `sub`, `username` and `company` must be there, as strings.
pub open spec fn claims_of(e: Seq<(Seq<char>, Option<Seq<char>>)>) -> Option<ClaimsView> {
    match (claim_value(e, "sub"@), claim_value(e, "username"@), claim_value(e, "company"@)) {
        (Some(sub), Some(username), Some(company)) => Some(
            ClaimsView { sub, username, company },
        ),
        _ => None,
    }
}

fn lookup_claim(entries: &Vec<(String, Option<String>)>, key: &String) -> (res: Option<String>)
    ensures
        match res {
            Some(v) => claim_value(entries_view(entries@), key@) == Some(v@),
            None => claim_value(entries_view(entries@), key@) is None,
        },
{
    let ghost ev = entries_view(entries@);
    let mut i: usize = 0;
    assert(ev.skip(0) =~= ev);
    while i < entries.len()
        invariant
            0 <= i <= entries.len(),
            ev == entries_view(entries@),
            claim_value(ev, key@) == claim_value(ev.skip(i as int), key@),
        decreases entries.len() - i,
    {
        assert(ev.skip(i as int).drop_first() =~= ev.skip(i + 1));
        if entries[i].0 == *key {
            return match &entries[i].1 {
                Some(v) => Some(v.clone()),
                None => None,
            };
        }
        i = i + 1;
    }
    assert(ev.skip(i as int).len() == 0);
    None
}

/// The entries of the claims `sub`, `username` and `company` as decoding
/// hands them out: in the order of their names.
pub open spec fn claim_entries(sub: Seq<char>, username: Seq<char>, company: Seq<char>) -> Seq<(Seq<char>, Option<Seq<char>>)> {
    seq![("company"@, Some(company)), ("sub"@, Some(sub)), ("username"@, Some(username))]
}

/// Reading the claims back from their entries gives the claims.
pub proof fn lemma_claims_of_entries(sub: Seq<char>, username: Seq<char>, company: Seq<char>)
    ensures
        claims_of(claim_entries(sub, username, company)) == Some(ClaimsView { sub, username, company }),
{
    reveal_strlit("sub");
    reveal_strlit("username");
    reveal_strlit("company");
    let e = claim_entries(sub, username, company);
    assert("company"@.len() == 7 && "sub"@.len() == 3 && "username"@.len() == 8);
    let e1 = e.drop_first();
    let e2 = e1.drop_first();
    assert(e1[0].0 == "sub"@ && e2[0].0 == "username"@);
    assert(claim_value(e, "company"@) == Some(company));
    assert(claim_value(e1, "sub"@) == Some(sub));
    assert(claim_value(e, "sub"@) == Some(sub));
    assert(claim_value(e2, "username"@) == Some(username));
    assert(claim_value(e1, "username"@) == Some(username));
    assert(claim_value(e, "username"@) == Some(username));
}

/// The token that `jsonwebtoken::encode` makes of the claims `sub`,
/// `username` and `company` under the default header (HS256) and an HMAC
/// key of the bytes of `secret`.
pub uninterp spec fn hs256_token(sub: Seq<char>, username: Seq<char>, company: Seq<char>, secret: Seq<char>) -> Seq<char>;

/// What `jsonwebtoken::decode` finds in `token` checked as HS256 against an
/// HMAC key of the bytes of `secret`, no claim being required and neither
/// expiry nor audience being checked: the claims in the order of their
/// names, each with its value where that is a string; `None` where the
/// token is malformed or its signature does not match.
pub uninterp spec fn hs256_claims(token: Seq<char>, secret: Seq<char>) -> Option<Seq<(Seq<char>, Option<Seq<char>>)>>;

/// Signs the three claims with `jsonwebtoken::encode` (default header,
/// HS256, HMAC key from `secret`). The claims are serialised as a JSON
/// object in the order `sub`, `username`, `company`, the order in which
/// [`Claims`] declares them. The contract claims that the token is the
/// named result, that encoding cannot fail (HMAC signing and serialising
/// string claims have no error case in that crate), and that decoding the
/// token with the same secret gives the three claims back.
#[verifier::external_body]
fn encode_hs256(sub: &str, username: &str, company: &str, secret: &str) -> (token: Option<String>)
    ensures
        token is Some,
        token.unwrap()@ == hs256_token(sub@, username@, company@, secret@),
        hs256_claims(token.unwrap()@, secret@) == Some(claim_entries(sub@, username@, company@)),
{
    let mut claims = serde_json::Map::new();
    claims.insert("sub".to_string(), Value::from(sub));
    claims.insert("username".to_string(), Value::from(username));
    claims.insert("company".to_string(), Value::from(company));
    jsonwebtoken::encode(&Header::default(), &claims, &EncodingKey::from_secret(secret.as_bytes())).ok()
}

/// Checks and decodes a token with `jsonwebtoken::decode` (HS256, HMAC key
/// from `secret`, no required claims, no expiry or audience check) into a
/// map of claims, handed out in order with string values kept and other
/// values replaced by `None`. The contract claims only that the result is
/// the named one.
#[verifier::external_body]
fn decode_hs256(token: &str, secret: &str) -> (res: Option<Vec<(String, Option<String>)>>)
    ensures
        match res {
            Some(v) => hs256_claims(token@, secret@) == Some(entries_view(v@)),
            None => hs256_claims(token@, secret@) is None,
        },
{
    let mut validation = Validation::new(Algorithm::HS256);
    validation.required_spec_claims.clear();
    validation.validate_exp = false;
    validation.validate_aud = false;
    let key = DecodingKey::from_secret(secret.as_bytes());
    let data = jsonwebtoken::decode::<BTreeMap<String, Value>>(token, &key, &validation).ok()?;
    Some(data.claims.into_iter().map(|(k, v)| (k, match v {
        Value::String(s) => Some(s),
        _ => None,
    })).collect())
}

/// The claims that a token of this service carries, if it is genuine.
pub open spec fn token_claims(token: Seq<char>) -> Option<ClaimsView> {
    match hs256_claims(token, SECRET_KEY@) {
        Some(e) => claims_of(e),
        None => None,
    }
}

/// The claims of a token issued to a user.
pub open spec fn issued_claims(email: Seq<char>, username: Seq<char>) -> ClaimsView {
    ClaimsView { sub: email, username, company: COMPANY@ }
}

/// Checks a token against the secret of this service and reads its claims.
pub fn decode_claims(token: &str) -> (res: Option<Claims>)
    ensures
        match res {
            Some(c) => token_claims(token@) == Some(c@),
            None => token_claims(token@) is None,
        },
{
    match decode_hs256(token, SECRET_KEY) {
        Some(entries) => Claims::from_entries(&entries),
        None => None,
    }
}

/// Issues the token of a user: its subject is the user's email, and it is
/// valid. Checking the token gives these claims back.
pub fn issue_token(email: &str, username: &str) -> (token: String)
    ensures
        token@ == hs256_token(email@, username@, COMPANY@, SECRET_KEY@),
        token_claims(token@) == Some(issued_claims(email@, username@)),
        issued_claims(email@, username@).is_valid(),
{
    let token = encode_hs256(email, username, COMPANY, SECRET_KEY);
    proof {
        lemma_claims_of_entries(email@, username@, COMPANY@);
    }
    token.unwrap()
}

} // verus!
