//! The authentication orchestrator's decision steps.
//!
//! One authentication attempt runs probe → parse → (token exchange) →
//! verify, in that order, and every network round-trip is the caller's:
//! each step here is a pure decision over the plain values a response
//! carried — a status code, an optional header, a decoded token reply —
//! and the whole attempt is captured by [`authenticate_flow_spec`], a
//! function of the stored credentials and the observed responses alone.

use vstd::prelude::*;
use vstd::string::*;

use crate::auth::{Auth, AuthSpec, BasicAuth, BasicAuthSpec, BearerAuth, BearerAuthSpec};
use crate::challenge::{
    opt_str_view, parse_bytes, str_eq, ChallengeSpec, ParseError, ParseErrorSpec,
    WwwAuthenticateHeaderContent,
};

verus! {

// ---------------------------------------------------------------------------
// Errors.
// ---------------------------------------------------------------------------

/// Mathematical content of an authentication failure.
pub enum AuthErrorSpec {
    NoCredentials,
    MissingChallenge,
    MalformedChallenge(ParseErrorSpec),
    TokenEndpointError(u16),
    InvalidToken,
    LoginFailed,
    UnexpectedStatus(u16),
}

/// Why an authentication attempt failed.  Every failure is terminal for the
/// attempt, and leaves the client without a credential.
#[derive(Debug, Clone)]
pub enum AuthError {
    /// No stored credentials to negotiate with.
    NoCredentials,
    /// The probed registry did not answer with a `WWW-Authenticate` header.
    MissingChallenge,
    /// The challenge header did not parse.
    MalformedChallenge(ParseError),
    /// The token endpoint answered with the carried non-200 status.
    TokenEndpointError(u16),
    /// The token endpoint answered with an empty token or the
    /// `unauthenticated` sentinel.
    InvalidToken,
    /// The verifying probe still rejected the freshly adopted credential.
    LoginFailed,
    /// An authentication check met a status that is neither 200 nor 401.
    UnexpectedStatus(u16),
}

impl View for AuthError {
    type V = AuthErrorSpec;

    open spec fn view(&self) -> AuthErrorSpec {
        match self {
            AuthError::NoCredentials => AuthErrorSpec::NoCredentials,
            AuthError::MissingChallenge => AuthErrorSpec::MissingChallenge,
            AuthError::MalformedChallenge(e) => AuthErrorSpec::MalformedChallenge(e@),
            AuthError::TokenEndpointError(s) => AuthErrorSpec::TokenEndpointError(*s),
            AuthError::InvalidToken => AuthErrorSpec::InvalidToken,
            AuthError::LoginFailed => AuthErrorSpec::LoginFailed,
            AuthError::UnexpectedStatus(s) => AuthErrorSpec::UnexpectedStatus(*s),
        }
    }
}

// ---------------------------------------------------------------------------
// Views of optional values.
// ---------------------------------------------------------------------------

/// A view of optionally stored credentials as character sequences.
pub open spec fn creds_view(c: Option<(String, String)>) -> Option<(Seq<char>, Seq<char>)> {
    match c {
        Some(p) => Some((p.0@, p.1@)),
        None => None,
    }
}

/// A view of an optionally held credential.
pub open spec fn auth_view(a: Option<Auth>) -> Option<AuthSpec> {
    match a {
        Some(x) => Some(x@),
        None => None,
    }
}

/// A view of an optional header value as a byte sequence.
pub open spec fn opt_bytes_view(h: Option<Vec<u8>>) -> Option<Seq<u8>> {
    match h {
        Some(v) => Some(v@),
        None => None,
    }
}

// ---------------------------------------------------------------------------
// The client's authentication state.
// ---------------------------------------------------------------------------

/// Client authentication state: the registry's base URL, the stored
/// long-lived credentials the negotiation starts from, and the credential
/// currently held — absent until an attempt has succeeded.
#[derive(Debug, Clone)]
pub struct Client {
    pub base_url: String,
    pub credentials: Option<(String, String)>,
    pub auth: Option<Auth>,
}

impl Client {
    /// A fresh, unauthenticated client.
    pub fn new(base_url: String, credentials: Option<(String, String)>) -> (r: Client)
        ensures
            r.base_url@ == base_url@,
            creds_view(r.credentials) == creds_view(credentials),
            r.auth is None,
    {
        Client { base_url, credentials, auth: None }
    }

    /// The registry's base API endpoint, probed both to obtain the
    /// challenge and to check whether access is granted.
    pub fn probe_url(&self) -> (r: String)
        ensures
            r@ == self.base_url@ + "/v2/"@,
    {
        self.base_url.clone().concat("/v2/")
    }

    /// Open an authentication attempt: discard any previously held
    /// credential, and hand out the stored credentials the attempt will
    /// negotiate with — without stored credentials there is nothing to
    /// negotiate, and the attempt fails at once.
    pub fn begin_authenticate(&mut self) -> (r: Result<(String, String), AuthError>)
        ensures
            final(self).base_url == old(self).base_url,
            final(self).credentials == old(self).credentials,
            final(self).auth is None,
            match r {
                Ok(c) => creds_view(old(self).credentials) == Some((c.0@, c.1@)),
                Err(e) => old(self).credentials is None && e@ == AuthErrorSpec::NoCredentials,
            },
    {
        self.auth = None;
        match &self.credentials {
            Some(c) => Ok((c.0.clone(), c.1.clone())),
            None => Err(AuthError::NoCredentials),
        }
    }

    /// Close an authentication attempt: a verifying probe answered with
    /// `verify_status` while `candidate` was attached.  Only a 200 adopts
    /// the candidate; any other status discards it and fails, so no failed
    /// attempt leaves a credential behind.
    pub fn finish_authenticate(&mut self, candidate: Auth, verify_status: u16) -> (r: Result<
        (),
        AuthError,
    >)
        ensures
            final(self).base_url == old(self).base_url,
            final(self).credentials == old(self).credentials,
            verify_status == 200 ==> r is Ok && auth_view(final(self).auth) == Some(candidate@),
            verify_status != 200 ==> final(self).auth is None && (r matches Err(e) && e@
                == AuthErrorSpec::LoginFailed),
    {
        if verify_status == 200 {
            self.auth = Some(candidate);
            Ok(())
        } else {
            self.auth = None;
            Err(AuthError::LoginFailed)
        }
    }
}

// ---------------------------------------------------------------------------
// Step outcomes.
// ---------------------------------------------------------------------------

/// Outcome of the probe step: a registry that does not challenge leaves
/// nothing to negotiate against; otherwise the header value is parsed and
/// a parse failure is a malformed challenge.
pub open spec fn challenge_outcome_spec(header: Option<Seq<u8>>) -> Result<
    ChallengeSpec,
    AuthErrorSpec,
> {
    match header {
        None => Err(AuthErrorSpec::MissingChallenge),
        Some(h) => match parse_bytes(h) {
            Err(e) => Err(AuthErrorSpec::MalformedChallenge(e)),
            Ok(c) => Ok(c),
        },
    }
}

/// Decide the challenge from the probe's optional `WWW-Authenticate`
/// header value.
pub fn challenge_from_probe(header: &Option<Vec<u8>>) -> (r: Result<
    WwwAuthenticateHeaderContent,
    AuthError,
>)
    ensures
        (match r {
            Ok(c) => Ok(c@),
            Err(e) => Err(e@),
        }) == challenge_outcome_spec(opt_bytes_view(*header)),
{
    match header {
        None => Err(AuthError::MissingChallenge),
        Some(h) => match WwwAuthenticateHeaderContent::from_www_authentication_header(
            h.as_slice(),
        ) {
            Ok(c) => Ok(c),
            Err(e) => Err(AuthError::MalformedChallenge(e)),
        },
    }
}

/// A bearer token is acceptable only if it is neither empty nor the
/// literal sentinel `unauthenticated`, which registries answer with when
/// the challenge was satisfied but no real access was granted.
pub open spec fn token_ok(token: Seq<char>) -> bool {
    token.len() > 0 && token != "unauthenticated"@
}

/// Outcome of the token-exchange step: a non-200 status from the token
/// endpoint is fatal, an unacceptable token is fatal, and otherwise the
/// reply becomes the candidate bearer credential.
pub open spec fn bearer_credential_spec(status: u16, reply: BearerAuthSpec) -> Result<
    BearerAuthSpec,
    AuthErrorSpec,
> {
    if status != 200 {
        Err(AuthErrorSpec::TokenEndpointError(status))
    } else if !token_ok(reply.token) {
        Err(AuthErrorSpec::InvalidToken)
    } else {
        Ok(reply)
    }
}

impl BearerAuth {
    /// Validate a decoded token-endpoint reply and build the candidate
    /// bearer credential from it.  An accepted token is never empty, so it
    /// may afterwards be masked for logging.
    pub fn from_token_response(
        status: u16,
        token: String,
        expires_in: Option<u32>,
        issued_at: Option<String>,
        refresh_token: Option<String>,
    ) -> (r: Result<BearerAuth, AuthError>)
        ensures
            (match r {
                Ok(b) => Ok(b@),
                Err(e) => Err(e@),
            }) == bearer_credential_spec(
                status,
                BearerAuthSpec {
                    token: token@,
                    expires_in,
                    issued_at: opt_str_view(issued_at),
                    refresh_token: opt_str_view(refresh_token),
                },
            ),
            r matches Ok(b) ==> b.token@.len() >= 1,
    {
        if status != 200 {
            return Err(AuthError::TokenEndpointError(status));
        }
        if token.as_str().unicode_len() == 0 {
            return Err(AuthError::InvalidToken);
        }
        if str_eq(token.as_str(), "unauthenticated") {
            return Err(AuthError::InvalidToken);
        }
        Ok(BearerAuth { token, expires_in, issued_at, refresh_token })
    }
}

/// Decide the outcome of an authentication check from the status the
/// probe answered with: 200 means access is granted (possibly anonymous),
/// 401 means it is not, and anything else is unexpected.
pub fn is_auth_outcome(status: u16) -> (r: Result<bool, AuthError>)
    ensures
        status == 200 ==> r == Ok::<bool, AuthError>(true),
        status == 401 ==> r == Ok::<bool, AuthError>(false),
        status != 200 && status != 401 ==> (r matches Err(e) && e@ == AuthErrorSpec::UnexpectedStatus(
            status,
        )),
{
    if status == 200 {
        Ok(true)
    } else if status == 401 {
        Ok(false)
    } else {
        Err(AuthError::UnexpectedStatus(status))
    }
}

// ---------------------------------------------------------------------------
// The whole attempt, and its laws.
// ---------------------------------------------------------------------------

/// Outcome of the verifying probe: only a 200 adopts the candidate.
pub open spec fn verify_outcome_spec(candidate: AuthSpec, verify_status: u16) -> Result<
    AuthSpec,
    AuthErrorSpec,
> {
    if verify_status == 200 {
        Ok(candidate)
    } else {
        Err(AuthErrorSpec::LoginFailed)
    }
}

/// One whole authentication attempt as a function of the stored
/// credentials and the observed responses alone: the credential adopted,
/// or the failure.  The steps above decide exactly these branches:
/// `begin_authenticate` the credential check, `challenge_from_probe` the
/// challenge, `BearerAuth::from_token_response` the token exchange, and
/// `finish_authenticate` the verification.  `token_status` and
/// `token_reply` are only consulted on the Bearer path.
pub open spec fn authenticate_flow_spec(
    credentials: Option<(Seq<char>, Seq<char>)>,
    challenge_header: Option<Seq<u8>>,
    token_status: u16,
    token_reply: BearerAuthSpec,
    verify_status: u16,
) -> Result<AuthSpec, AuthErrorSpec> {
    match credentials {
        None => Err(AuthErrorSpec::NoCredentials),
        Some(creds) => match challenge_outcome_spec(challenge_header) {
            Err(e) => Err(e),
            Ok(ChallengeSpec::Basic(_)) => verify_outcome_spec(
                AuthSpec::Basic(BasicAuthSpec { user: creds.0, password: Some(creds.1) }),
                verify_status,
            ),
            Ok(ChallengeSpec::Bearer(_)) => match bearer_credential_spec(
                token_status,
                token_reply,
            ) {
                Err(e) => Err(e),
                Ok(b) => verify_outcome_spec(AuthSpec::Bearer(b), verify_status),
            },
        },
    }
}

/// A probe that carries no challenge header fails the whole attempt with
/// `MissingChallenge`, whatever else the collaborators would answer.
pub proof fn lemma_missing_challenge_is_fatal(
    credentials: (Seq<char>, Seq<char>),
    token_status: u16,
    token_reply: BearerAuthSpec,
    verify_status: u16,
)
    ensures
        authenticate_flow_spec(Some(credentials), None, token_status, token_reply, verify_status)
            == Err::<AuthSpec, AuthErrorSpec>(AuthErrorSpec::MissingChallenge),
{
}

/// Against a Basic challenge, the attempt succeeds exactly when the
/// verifying probe with basic authentication attached answers 200 — and
/// then the adopted credential is the stored user/password pair.
pub proof fn lemma_basic_succeeds_iff_verify_ok(
    user: Seq<char>,
    password: Seq<char>,
    header: Seq<u8>,
    token_status: u16,
    token_reply: BearerAuthSpec,
    verify_status: u16,
)
    requires
        challenge_outcome_spec(Some(header)) matches Ok(c) && c is Basic,
    ensures
        ({
            let r = authenticate_flow_spec(
                Some((user, password)),
                Some(header),
                token_status,
                token_reply,
                verify_status,
            );
            &&& (r is Ok <==> verify_status == 200)
            &&& verify_status == 200 ==> r == Ok::<AuthSpec, AuthErrorSpec>(
                AuthSpec::Basic(BasicAuthSpec { user, password: Some(password) }),
            )
            &&& verify_status != 200 ==> r == Err::<AuthSpec, AuthErrorSpec>(
                AuthErrorSpec::LoginFailed,
            )
        }),
{
}

/// Against a Bearer challenge, a token endpoint answering 200 with the
/// sentinel token `unauthenticated` — or with an empty token — fails the
/// attempt with `InvalidToken`; no credential is adopted, so the client's
/// credential slot, cleared when the attempt opened, stays empty.
pub proof fn lemma_sentinel_token_rejected(
    user: Seq<char>,
    password: Seq<char>,
    header: Seq<u8>,
    token_reply: BearerAuthSpec,
    verify_status: u16,
)
    requires
        challenge_outcome_spec(Some(header)) matches Ok(c) && c is Bearer,
        token_reply.token == "unauthenticated"@ || token_reply.token.len() == 0,
    ensures
        authenticate_flow_spec(Some((user, password)), Some(header), 200, token_reply, verify_status)
            == Err::<AuthSpec, AuthErrorSpec>(AuthErrorSpec::InvalidToken),
{
}

/// The attempt's outcome is a function of the stored credentials and the
/// observed responses alone.  A client opens every attempt by discarding
/// whatever credential it held, and no other state feeds the flow: two
/// attempts over the same inputs adopt the same credential — no stale
/// state accumulates across calls.
pub proof fn lemma_authenticate_repeatable(
    credentials: Option<(Seq<char>, Seq<char>)>,
    challenge_header: Option<Seq<u8>>,
    token_status: u16,
    token_reply: BearerAuthSpec,
    verify_status: u16,
    credentials_again: Option<(Seq<char>, Seq<char>)>,
    challenge_header_again: Option<Seq<u8>>,
    token_status_again: u16,
    token_reply_again: BearerAuthSpec,
    verify_status_again: u16,
)
    requires
        credentials_again == credentials,
        challenge_header_again == challenge_header,
        token_status_again == token_status,
        token_reply_again == token_reply,
        verify_status_again == verify_status,
    ensures
        authenticate_flow_spec(
            credentials_again,
            challenge_header_again,
            token_status_again,
            token_reply_again,
            verify_status_again,
        ) == authenticate_flow_spec(
            credentials,
            challenge_header,
            token_status,
            token_reply,
            verify_status,
        ),
{
}

} // verus!
