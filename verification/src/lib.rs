//! Client-side negotiation of the registry authentication protocol:
//! parsing `WWW-Authenticate` challenge headers, composing token-endpoint
//! URLs, validating bearer tokens, and the decision steps of the
//! authentication flow.  All network traffic is left to the caller; this
//! crate computes, from plain response values, what to do next.

use vstd::prelude::*;

pub mod auth;
pub mod challenge;
pub mod client;

pub use auth::{Auth, AuthSpec, BasicAuth, BasicAuthSpec, BearerAuth, BearerAuthSpec};
pub use auth::{mask_token, RegistryRequest, RequestAuthorization};
pub use challenge::{ParseError, Scheme, WwwAuthenticateHeaderContent};
pub use challenge::{WwwAuthenticateHeaderContentBasic, WwwAuthenticateHeaderContentBearer};
pub use client::{challenge_from_probe, is_auth_outcome, AuthError, Client};

verus! {

} // verus!
