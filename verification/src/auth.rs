//! Credential representation: the two authentication schemes a registry may
//! demand, how a held credential is attached to an outgoing request, and the
//! masking applied to a bearer token before it may be logged.

use vstd::prelude::*;
use vstd::string::*;

use crate::challenge::opt_str_view;

verus! {

// ---------------------------------------------------------------------------
// Credentials.
// ---------------------------------------------------------------------------

/// Mathematical content of a bearer credential.
pub struct BearerAuthSpec {
    pub token: Seq<char>,
    pub expires_in: Option<u32>,
    pub issued_at: Option<Seq<char>>,
    pub refresh_token: Option<Seq<char>>,
}

/// Mathematical content of a basic credential.
pub struct BasicAuthSpec {
    pub user: Seq<char>,
    pub password: Option<Seq<char>>,
}

/// Mathematical content of a held credential of either scheme.
pub enum AuthSpec {
    Bearer(BearerAuthSpec),
    Basic(BasicAuthSpec),
}

/// Bearer HTTP authentication material, in the shape the token endpoint
/// answers with: an opaque token and optional expiry metadata.
#[derive(Debug, Clone)]
pub struct BearerAuth {
    pub token: String,
    pub expires_in: Option<u32>,
    pub issued_at: Option<String>,
    pub refresh_token: Option<String>,
}

impl View for BearerAuth {
    type V = BearerAuthSpec;

    open spec fn view(&self) -> BearerAuthSpec {
        BearerAuthSpec {
            token: self.token@,
            expires_in: self.expires_in,
            issued_at: opt_str_view(self.issued_at),
            refresh_token: opt_str_view(self.refresh_token),
        }
    }
}

/// Basic HTTP authentication material: a user name and an optional password
/// (an absent password means "send the empty password").
#[derive(Debug, Clone)]
pub struct BasicAuth {
    pub user: String,
    pub password: Option<String>,
}

impl View for BasicAuth {
    type V = BasicAuthSpec;

    open spec fn view(&self) -> BasicAuthSpec {
        BasicAuthSpec { user: self.user@, password: opt_str_view(self.password) }
    }
}

impl BasicAuth {
    /// Build basic-authentication material from a stored credential pair.
    pub fn from_credentials(user: String, password: String) -> (r: BasicAuth)
        ensures
            r@ == (BasicAuthSpec { user: user@, password: Some(password@) }),
    {
        BasicAuth { user, password: Some(password) }
    }
}

/// All supported authentication schemes; the credential a client holds once
/// authentication has succeeded.
#[derive(Debug, Clone)]
pub enum Auth {
    Bearer(BearerAuth),
    Basic(BasicAuth),
}

impl View for Auth {
    type V = AuthSpec;

    open spec fn view(&self) -> AuthSpec {
        match self {
            Auth::Bearer(b) => AuthSpec::Bearer(b@),
            Auth::Basic(b) => AuthSpec::Basic(b@),
        }
    }
}

// ---------------------------------------------------------------------------
// Attaching a credential to an outgoing request.
// ---------------------------------------------------------------------------

/// Mathematical content of an authorization choice.
pub enum RequestAuthorizationSpec {
    Bearer(Seq<char>),
    Basic(Seq<char>, Option<Seq<char>>),
}

/// Mathematical content of a request in progress.
pub struct RegistryRequestSpec {
    pub url: Seq<char>,
    pub authorization: Option<RequestAuthorizationSpec>,
}

/// The authorization to carry on an outgoing request: either a bearer token
/// for an `Authorization: Bearer` header, or a user/password pair for HTTP
/// Basic authentication.
#[derive(Debug, Clone)]
pub enum RequestAuthorization {
    Bearer(String),
    Basic(String, Option<String>),
}

impl View for RequestAuthorization {
    type V = RequestAuthorizationSpec;

    open spec fn view(&self) -> RequestAuthorizationSpec {
        match self {
            RequestAuthorization::Bearer(t) => RequestAuthorizationSpec::Bearer(t@),
            RequestAuthorization::Basic(u, p) => RequestAuthorizationSpec::Basic(
                u@,
                opt_str_view(*p),
            ),
        }
    }
}

/// A request in progress: the URL it will be sent to and the authorization
/// chosen for it, if any.
#[derive(Debug, Clone)]
pub struct RegistryRequest {
    pub url: String,
    pub authorization: Option<RequestAuthorization>,
}

impl View for RegistryRequest {
    type V = RegistryRequestSpec;

    open spec fn view(&self) -> RegistryRequestSpec {
        RegistryRequestSpec {
            url: self.url@,
            authorization: match self.authorization {
                Some(a) => Some(a@),
                None => None,
            },
        }
    }
}

impl RegistryRequest {
    /// A request for `url` carrying no authorization yet.
    pub fn new(url: String) -> (r: RegistryRequest)
        ensures
            r@.url == url@,
            r@.authorization is None,
    {
        RegistryRequest { url, authorization: None }
    }
}

impl Auth {
    /// Augment a request in progress with the authentication this credential
    /// stands for: the bearer token for a Bearer credential, the user and
    /// password for a Basic one.  The request's URL is untouched.
    pub fn add_auth_headers(&self, request: RegistryRequest) -> (r: RegistryRequest)
        ensures
            r@.url == request@.url,
            match self {
                Auth::Bearer(b) => r@.authorization == Some(
                    RequestAuthorizationSpec::Bearer(b.token@),
                ),
                Auth::Basic(b) => r@.authorization == Some(
                    RequestAuthorizationSpec::Basic(b.user@, opt_str_view(b.password)),
                ),
            },
    {
        match self {
            Auth::Bearer(b) => RegistryRequest {
                url: request.url,
                authorization: Some(RequestAuthorization::Bearer(b.token.clone())),
            },
            Auth::Basic(b) => RegistryRequest {
                url: request.url,
                authorization: Some(
                    RequestAuthorization::Basic(
                        b.user.clone(),
                        match &b.password {
                            Some(p) => Some(p.clone()),
                            None => None,
                        },
                    ),
                ),
            },
        }
    }
}

// ---------------------------------------------------------------------------
// Token masking.
// ---------------------------------------------------------------------------

/// Start of the masked range: `min(1, n - 1)` for a token of `n` characters.
pub open spec fn mask_start(n: int) -> int {
    if n - 1 < 1 {
        n - 1
    } else {
        1
    }
}

/// End of the masked range: `max(n - 1, 1)` for a token of `n` characters.
pub open spec fn mask_end(n: int) -> int {
    if n - 1 > 1 {
        n - 1
    } else {
        1
    }
}

/// The masked form of a token: the characters in `[mask_start, mask_end)`
/// are each replaced by `*`, the rest stay.  For a token of two or more
/// characters this keeps the first and last character visible; the single
/// character of a one-character token is itself replaced.
pub open spec fn mask_spec(t: Seq<char>) -> Seq<char>
    recommends
        t.len() >= 1,
{
    let n = t.len() as int;
    t.subrange(0, mask_start(n)) + Seq::new((mask_end(n) - mask_start(n)) as nat, |i: int| '*')
        + t.subrange(mask_end(n), n)
}

/// Mask a bearer token for logging.  The token must not be empty: an empty
/// token is rejected as invalid before anything may be logged, so masking
/// is never reached for it.
pub fn mask_token(token: &str) -> (r: String)
    requires
        token@.len() >= 1,
    ensures
        r@ == mask_spec(token@),
{
    let n = token.unicode_len();
    let start: usize = if n - 1 < 1 {
        n - 1
    } else {
        1
    };
    let end: usize = if n - 1 > 1 {
        n - 1
    } else {
        1
    };
    let mut out = token.substring_char(0, start).to_owned();
    let mut k: usize = start;
    while k < end
        invariant
            start <= k <= end,
            n == token@.len(),
            start as int == mask_start(n as int),
            end as int == mask_end(n as int),
            out@ == token@.subrange(0, start as int) + Seq::new((k - start) as nat, |i: int| '*'),
        decreases end - k,
    {
        out.append("*");
        proof {
            reveal_strlit("*");
            assert(out@ =~= token@.subrange(0, start as int) + Seq::new(
                (k + 1 - start) as nat,
                |i: int| '*',
            ));
        }
        k += 1;
    }
    out.append(token.substring_char(end, n));
    proof {
        assert(out@ =~= mask_spec(token@));
    }
    out
}

/// Masking keeps the length of the token; every position inside the masked
/// range holds `*` and every position outside it is preserved — so for a
/// token of two or more characters the first and last character stay
/// visible.
pub proof fn lemma_mask_shape(t: Seq<char>)
    requires
        t.len() >= 1,
    ensures
        mask_spec(t).len() == t.len(),
        forall|i: int|
            0 <= i < t.len() && !(mask_start(t.len() as int) <= i < mask_end(t.len() as int))
                ==> mask_spec(t)[i] == t[i],
        forall|i: int|
            mask_start(t.len() as int) <= i < mask_end(t.len() as int) ==> mask_spec(t)[i] == '*',
        t.len() >= 2 ==> mask_spec(t)[0] == t[0] && mask_spec(t)[t.len() - 1] == t[t.len() - 1],
{
    let n = t.len() as int;
    assert(mask_spec(t).len() == t.len());
}

} // verus!
