//! Access tokens: a minimal, fixed-shape claim set signed with the shared
//! secret.

use crate::backend::{hs256_encode, hs256_token};
use crate::error::{ApiError, InternalReason};
use vstd::prelude::*;

verus! {

/// The value of one claim.
#[derive(Clone, Debug)]
pub enum ClaimValue {
    Text(String),
    Integer(i64),
}

/// One named claim of a token.
#[derive(Clone, Debug)]
pub struct Claim {
    pub name: String,
    pub value: ClaimValue,
}

/// A claim value as the contracts see it.
pub ghost enum ClaimValueView {
    Text(Seq<char>),
    Integer(int),
}

/// A claim as the contracts see it.
pub ghost struct ClaimView {
    pub name: Seq<char>,
    pub value: ClaimValueView,
}

impl View for ClaimValue {
    type V = ClaimValueView;

    open spec fn view(&self) -> ClaimValueView {
        match self {
            ClaimValue::Text(text) => ClaimValueView::Text(text@),
            ClaimValue::Integer(number) => ClaimValueView::Integer(*number as int),
        }
    }
}

impl View for Claim {
    type V = ClaimView;

    open spec fn view(&self) -> ClaimView {
        ClaimView { name: self.name@, value: self.value@ }
    }
}

/// The views of a list of claims, in order.
pub open spec fn claim_views(claims: Seq<Claim>) -> Seq<ClaimView> {
    Seq::new(claims.len(), |i: int| claims[i]@)
}

/// The expiry of a token issued at `issued_at` that lives `ttl_minutes`.
pub open spec fn expiry(issued_at: int, ttl_minutes: int) -> int {
    issued_at + ttl_minutes * 60
}

/// A lifetime can be minted if its length in seconds and the expiry it leads
/// to are both 64-bit values.
pub open spec fn lifetime_fits(issued_at: int, ttl_minutes: int) -> bool {
    &&& i64::MIN <= ttl_minutes * 60 <= i64::MAX
    &&& i64::MIN <= expiry(issued_at, ttl_minutes) <= i64::MAX
}

/// The claims of an access token: the subject under the name that consumers
/// match on literally, then issued-at and expiry.
pub open spec fn claim_set(principal: Seq<char>, issued_at: int, expires_at: int) -> Seq<
    ClaimView,
> {
    seq![
        ClaimView { name: "sun"@, value: ClaimValueView::Text(principal) },
        ClaimView { name: "iat"@, value: ClaimValueView::Integer(issued_at) },
        ClaimView { name: "exp"@, value: ClaimValueView::Integer(expires_at) },
    ]
}

/// The token minted for a principal: signed over exactly `claim_set`, with
/// the expiry a lifetime after issue. An empty token counts as a failure to
/// sign.
pub open spec fn minted(secret: Seq<u8>, principal: Seq<char>, issued_at: int, ttl_minutes: int)
    -> Result<Seq<char>, ApiError> {
    if !lifetime_fits(issued_at, ttl_minutes) {
        Err(ApiError::Internal(InternalReason::TokenLifetime))
    } else {
        match hs256_token(
            secret,
            claim_set(principal, issued_at, expiry(issued_at, ttl_minutes)),
        ) {
            Some(token) => if token.len() > 0 {
                Ok(token)
            } else {
                Err(ApiError::Internal(InternalReason::TokenSigning))
            },
            None => Err(ApiError::Internal(InternalReason::TokenSigning)),
        }
    }
}

/// The length of a lifetime in seconds, if it is a 64-bit value.
pub fn lifetime_seconds(ttl_minutes: i64) -> (r: Option<i64>)
    ensures
        r matches Some(seconds) ==> seconds == ttl_minutes * 60,
        r is None ==> !(i64::MIN <= ttl_minutes * 60 <= i64::MAX),
{
    let seconds: i128 = ttl_minutes as i128 * 60;
    if seconds < i64::MIN as i128 || seconds > i64::MAX as i128 {
        None
    } else {
        Some(seconds as i64)
    }
}

/// The expiry of a token issued at `issued_at`, if the lifetime fits.
pub fn expires_at(issued_at: i64, ttl_minutes: i64) -> (r: Option<i64>)
    ensures
        r matches Some(at) ==> lifetime_fits(issued_at as int, ttl_minutes as int) && at == expiry(
            issued_at as int,
            ttl_minutes as int,
        ),
        r is None ==> !lifetime_fits(issued_at as int, ttl_minutes as int),
{
    match lifetime_seconds(ttl_minutes) {
        None => None,
        Some(seconds) => {
            let at: i128 = issued_at as i128 + seconds as i128;
            if at < i64::MIN as i128 || at > i64::MAX as i128 {
                None
            } else {
                Some(at as i64)
            }
        },
    }
}

/// Builds the claim list of an access token.
pub fn claims_for(principal: &str, issued_at: i64, expires_at: i64) -> (claims: Vec<Claim>)
    ensures
        claim_views(claims@) == claim_set(principal@, issued_at as int, expires_at as int),
{
    let mut claims: Vec<Claim> = Vec::new();
    claims.push(Claim { name: "sun".to_owned(), value: ClaimValue::Text(principal.to_owned()) });
    claims.push(Claim { name: "iat".to_owned(), value: ClaimValue::Integer(issued_at) });
    claims.push(Claim { name: "exp".to_owned(), value: ClaimValue::Integer(expires_at) });
    assert(claim_views(claims@) =~= claim_set(principal@, issued_at as int, expires_at as int));
    claims
}

/// A freshly minted token with the times it carries.
#[derive(Debug)]
pub struct Minted {
    pub token: String,
    pub expires_at: i64,
    pub expires_in: i64,
}

/// Mints the access token of a principal and reports its expiry and its
/// lifetime in seconds. The token is never empty.
pub fn mint_with_expiry(secret: &[u8], principal: &str, issued_at: i64, ttl_minutes: i64) -> (r:
    Result<Minted, ApiError>)
    ensures
        r matches Ok(m) ==> minted(secret@, principal@, issued_at as int, ttl_minutes as int)
            == Ok::<Seq<char>, ApiError>(m.token@) && m.token@.len() > 0 && m.expires_at == expiry(
            issued_at as int,
            ttl_minutes as int,
        ) && m.expires_in == ttl_minutes * 60,
        r matches Err(e) ==> minted(secret@, principal@, issued_at as int, ttl_minutes as int)
            == Err::<Seq<char>, ApiError>(e),
{
    let at = match expires_at(issued_at, ttl_minutes) {
        Some(at) => at,
        None => {
            return Err(ApiError::Internal(InternalReason::TokenLifetime));
        },
    };
    let seconds = match lifetime_seconds(ttl_minutes) {
        Some(seconds) => seconds,
        None => {
            return Err(ApiError::Internal(InternalReason::TokenLifetime));
        },
    };
    let claims = claims_for(principal, issued_at, at);
    match hs256_encode(secret, &claims) {
        Ok(token) => if token.as_str().is_empty() {
            Err(ApiError::Internal(InternalReason::TokenSigning))
        } else {
            Ok(Minted { token, expires_at: at, expires_in: seconds })
        },
        Err(_) => Err(ApiError::Internal(InternalReason::TokenSigning)),
    }
}

/// Mints the access token of a principal. The token is never empty.
pub fn mint(secret: &[u8], principal: &str, issued_at: i64, ttl_minutes: i64) -> (r: Result<
    String,
    ApiError,
>)
    ensures
        r matches Ok(token) ==> minted(
            secret@,
            principal@,
            issued_at as int,
            ttl_minutes as int,
        ) == Ok::<Seq<char>, ApiError>(token@) && token@.len() > 0,
        r matches Err(e) ==> minted(secret@, principal@, issued_at as int, ttl_minutes as int)
            == Err::<Seq<char>, ApiError>(e),
{
    match mint_with_expiry(secret, principal, issued_at, ttl_minutes) {
        Ok(m) => Ok(m.token),
        Err(e) => Err(e),
    }
}

/// A minted token is never empty, and it is the one signed over the
/// principal as subject, the issue time, and the expiry a lifetime later.
pub proof fn lemma_minted_token(
    secret: Seq<u8>,
    principal: Seq<char>,
    issued_at: int,
    ttl_minutes: int,
)
    requires
        minted(secret, principal, issued_at, ttl_minutes) is Ok,
    ensures
        ({
            let token = minted(secret, principal, issued_at, ttl_minutes)->Ok_0;
            let claims = claim_set(principal, issued_at, issued_at + ttl_minutes * 60);
            &&& token.len() > 0
            &&& hs256_token(secret, claims) == Some(token)
            &&& claims.len() == 3
            &&& claims[0] == (ClaimView { name: "sun"@, value: ClaimValueView::Text(principal) })
            &&& claims[1] == (ClaimView {
                name: "iat"@,
                value: ClaimValueView::Integer(issued_at),
            })
            &&& claims[2] == (ClaimView {
                name: "exp"@,
                value: ClaimValueView::Integer(issued_at + ttl_minutes * 60),
            })
        }),
{
}

/// The claims of a token depend on its own principal and issue time alone,
/// and a request received later is never issued earlier: issued-at and expiry
/// both follow the clock.
pub proof fn lemma_claims_follow_the_clock(
    principal_a: Seq<char>,
    principal_b: Seq<char>,
    now_a: int,
    now_b: int,
    ttl_minutes: int,
)
    requires
        now_a <= now_b,
    ensures
        claim_set(principal_a, now_a, expiry(now_a, ttl_minutes))[1].value
            == ClaimValueView::Integer(now_a),
        claim_set(principal_b, now_b, expiry(now_b, ttl_minutes))[1].value
            == ClaimValueView::Integer(now_b),
        expiry(now_a, ttl_minutes) <= expiry(now_b, ttl_minutes),
        expiry(now_a, ttl_minutes) - now_a == expiry(now_b, ttl_minutes) - now_b,
{
}

} // verus!
