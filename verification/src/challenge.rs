//! Parsing of `WWW-Authenticate` challenge header values.
//!
//! A challenge value names a scheme (`Bearer` or `Basic`, capitalized,
//! case-sensitive) and carries `key="value"` attribute pairs.  Following the
//! reference behaviour of registries, the parser scans the whole value: the
//! first scheme token found anywhere wins, and attribute pairs are collected
//! wherever they occur, left to right and non-overlapping.  For a key that
//! occurs more than once the first occurrence wins (a deliberate policy
//! choice; registries do not send duplicates).  Unrecognized keys are
//! tolerated and ignored, because registries append vendor-specific
//! attributes.

use vstd::prelude::*;
use vstd::string::*;
use vstd::utf8::{decode_utf8, valid_utf8};

verus! {

broadcast use vstd::string::group_string_axioms;

// ---------------------------------------------------------------------------
// Character classes of the challenge grammar.
// ---------------------------------------------------------------------------

/// A lower-case ASCII letter: the characters attribute keys are made of.
pub open spec fn is_lower(c: char) -> bool {
    'a' <= c && c <= 'z'
}

/// An ASCII letter; scheme tokens must be delimited by non-letters.
pub open spec fn is_letter(c: char) -> bool {
    is_lower(c) || ('A' <= c && c <= 'Z')
}

/// Whitespace tolerated around the `=` of an attribute pair.
pub open spec fn is_space(c: char) -> bool {
    c == ' ' || c == '\t' || c == '\n' || c == '\r'
}

fn lower_char(c: char) -> (r: bool)
    ensures
        r == is_lower(c),
{
    'a' <= c && c <= 'z'
}

fn letter_char(c: char) -> (r: bool)
    ensures
        r == is_letter(c),
{
    ('a' <= c && c <= 'z') || ('A' <= c && c <= 'Z')
}

fn space_char(c: char) -> (r: bool)
    ensures
        r == is_space(c),
{
    c == ' ' || c == '\t' || c == '\n' || c == '\r'
}

// ---------------------------------------------------------------------------
// Scheme scan.
// ---------------------------------------------------------------------------

/// The two authentication schemes a registry challenge may name.
#[derive(Debug, Clone, Copy, PartialEq, Eq, Structural)]
pub enum Scheme {
    Bearer,
    Basic,
}

/// `tok` occurs at position `i` of `s` as a whole word: the characters match
/// and no letter directly precedes or follows the occurrence.
pub open spec fn token_at(s: Seq<char>, i: int, tok: Seq<char>) -> bool {
    &&& 0 <= i
    &&& i + tok.len() <= s.len()
    &&& s.subrange(i, i + tok.len() as int) == tok
    &&& (i == 0 || !is_letter(s[i - 1]))
    &&& (i + tok.len() == s.len() || !is_letter(s[i + tok.len() as int]))
}

/// The scheme named by a token standing at position `i`, if any.
pub open spec fn scheme_at(s: Seq<char>, i: int) -> Option<Scheme> {
    if token_at(s, i, "Bearer"@) {
        Some(Scheme::Bearer)
    } else if token_at(s, i, "Basic"@) {
        Some(Scheme::Basic)
    } else {
        None
    }
}

/// The first scheme token at or after position `i`.
pub open spec fn scheme_from(s: Seq<char>, i: int) -> Option<Scheme>
    decreases s.len() - i,
{
    if !(0 <= i && i < s.len()) {
        None
    } else if scheme_at(s, i) is Some {
        scheme_at(s, i)
    } else {
        scheme_from(s, i + 1)
    }
}

/// The scheme of the whole header value: the first scheme token found.
pub open spec fn scheme_of(s: Seq<char>) -> Option<Scheme> {
    scheme_from(s, 0)
}

fn str_token_at(s: &str, n: usize, i: usize, tok: &str, m: usize) -> (b: bool)
    requires
        n == s@.len(),
        m == tok@.len(),
        i <= n,
    ensures
        b == token_at(s@, i as int, tok@),
{
    if m > n - i {
        return false;
    }
    let mut k: usize = 0;
    while k < m
        invariant
            k <= m,
            i + m <= n,
            n == s@.len(),
            m == tok@.len(),
            forall|t: int| 0 <= t < k ==> s@[i + t] == tok@[t],
        decreases m - k,
    {
        if s.get_char(i + k) != tok.get_char(k) {
            proof {
                assert(s@.subrange(i as int, i + m as int)[k as int] == s@[i + k]);
            }
            return false;
        }
        k += 1;
    }
    proof {
        assert(s@.subrange(i as int, i + m as int) =~= tok@);
    }
    let pre_ok = i == 0 || !letter_char(s.get_char(i - 1));
    let post_ok = i + m == n || !letter_char(s.get_char(i + m));
    pre_ok && post_ok
}

fn scheme_at_exec(s: &str, n: usize, i: usize) -> (r: Option<Scheme>)
    requires
        n == s@.len(),
        i <= n,
    ensures
        r == scheme_at(s@, i as int),
{
    proof {
        reveal_strlit("Bearer");
        reveal_strlit("Basic");
    }
    if str_token_at(s, n, i, "Bearer", 6) {
        Some(Scheme::Bearer)
    } else if str_token_at(s, n, i, "Basic", 5) {
        Some(Scheme::Basic)
    } else {
        None
    }
}

fn find_scheme(s: &str, n: usize, i: usize) -> (r: Option<Scheme>)
    requires
        n == s@.len(),
        i <= n,
    ensures
        r == scheme_from(s@, i as int),
    decreases n - i,
{
    if i >= n {
        None
    } else {
        let at = scheme_at_exec(s, n, i);
        if at.is_some() {
            at
        } else {
            find_scheme(s, n, i + 1)
        }
    }
}

// ---------------------------------------------------------------------------
// Attribute scan.
// ---------------------------------------------------------------------------

/// The end of the lower-case run beginning at `i`: the first position at or
/// after `i` holding no lower-case letter.
pub open spec fn key_end(s: Seq<char>, i: int) -> int
    decreases s.len() - i,
{
    if !(0 <= i && i < s.len()) {
        i
    } else if !is_lower(s[i]) {
        i
    } else {
        key_end(s, i + 1)
    }
}

/// The first position at or after `i` holding no whitespace.
pub open spec fn skip_ws(s: Seq<char>, i: int) -> int
    decreases s.len() - i,
{
    if !(0 <= i && i < s.len()) {
        i
    } else if !is_space(s[i]) {
        i
    } else {
        skip_ws(s, i + 1)
    }
}

/// The first position at or after `i` holding a double quote, or the length
/// of `s` if there is none.
pub open spec fn quote_end(s: Seq<char>, i: int) -> int
    decreases s.len() - i,
{
    if !(0 <= i && i < s.len()) {
        i
    } else if s[i] == '"' {
        i
    } else {
        quote_end(s, i + 1)
    }
}

/// The position of the opening quote of the attribute pair beginning at `i`:
/// after the key run and an optional whitespace-framed `=`.
pub open spec fn kv_quote(s: Seq<char>, i: int) -> int {
    skip_ws(s, skip_ws(s, key_end(s, i)) + 1)
}

/// An attribute pair `key="value"` begins exactly at position `i`: a maximal
/// non-empty lower-case key run, optional whitespace, `=`, optional
/// whitespace, and a non-empty double-quoted value that contains no quote.
pub open spec fn kv_at(s: Seq<char>, i: int) -> bool {
    let j = key_end(s, i);
    let p = skip_ws(s, j);
    let q = skip_ws(s, p + 1);
    let r = quote_end(s, q + 1);
    &&& 0 <= i && i < s.len()
    &&& (i == 0 || !is_lower(s[i - 1]))
    &&& is_lower(s[i])
    &&& p < s.len() && s[p] == '='
    &&& q < s.len() && s[q] == '"'
    &&& q + 1 < r && r < s.len()
}

/// The key of the attribute pair beginning at `i`.
pub open spec fn kv_key(s: Seq<char>, i: int) -> Seq<char> {
    s.subrange(i, key_end(s, i))
}

/// The value of the attribute pair beginning at `i`.
pub open spec fn kv_val(s: Seq<char>, i: int) -> Seq<char> {
    s.subrange(kv_quote(s, i) + 1, quote_end(s, kv_quote(s, i) + 1))
}

/// The first position after the attribute pair beginning at `i`.
pub open spec fn kv_end(s: Seq<char>, i: int) -> int {
    quote_end(s, kv_quote(s, i) + 1) + 1
}

/// All attribute pairs found at or after position `i`, scanning left to
/// right without overlap: after a pair is read the scan resumes past its
/// closing quote.
pub open spec fn kv_pairs_from(s: Seq<char>, i: int) -> Seq<(Seq<char>, Seq<char>)>
    decreases s.len() - i,
{
    if !(0 <= i && i < s.len()) {
        Seq::empty()
    } else if kv_at(s, i) {
        let nxt0 = kv_end(s, i);
        let nxt = if nxt0 < i + 1 {
            i + 1
        } else if nxt0 > s.len() {
            s.len() as int
        } else {
            nxt0
        };
        seq![(kv_key(s, i), kv_val(s, i))] + kv_pairs_from(s, nxt)
    } else {
        kv_pairs_from(s, i + 1)
    }
}

/// The value of the first pair carrying `key`, if any: for duplicate keys
/// the first occurrence wins.
pub open spec fn first_val(pairs: Seq<(Seq<char>, Seq<char>)>, key: Seq<char>) -> Option<Seq<char>>
    decreases pairs.len(),
{
    if pairs.len() == 0 {
        None
    } else if pairs[0].0 == key {
        Some(pairs[0].1)
    } else {
        first_val(pairs.drop_first(), key)
    }
}

/// The value the header assigns to `key`, under the scan and
/// first-occurrence-wins policies above.
pub open spec fn attr(s: Seq<char>, key: Seq<char>) -> Option<Seq<char>> {
    first_val(kv_pairs_from(s, 0), key)
}

proof fn lemma_first_val_cons(
    k: Seq<char>,
    v: Seq<char>,
    rest: Seq<(Seq<char>, Seq<char>)>,
    key: Seq<char>,
)
    ensures
        first_val(seq![(k, v)] + rest, key) == if k == key {
            Some(v)
        } else {
            first_val(rest, key)
        },
{
    let pairs = seq![(k, v)] + rest;
    assert(pairs.len() == 1 + rest.len());
    assert(pairs[0] == (k, v));
    assert(pairs.drop_first() =~= rest);
}

fn key_end_exec(s: &str, n: usize, i: usize) -> (r: usize)
    requires
        n == s@.len(),
        i <= n,
    ensures
        r as int == key_end(s@, i as int),
        i <= r <= n,
    decreases n - i,
{
    if i >= n {
        i
    } else if !lower_char(s.get_char(i)) {
        i
    } else {
        key_end_exec(s, n, i + 1)
    }
}

fn skip_ws_exec(s: &str, n: usize, i: usize) -> (r: usize)
    requires
        n == s@.len(),
        i <= n,
    ensures
        r as int == skip_ws(s@, i as int),
        i <= r <= n,
    decreases n - i,
{
    if i >= n {
        i
    } else if !space_char(s.get_char(i)) {
        i
    } else {
        skip_ws_exec(s, n, i + 1)
    }
}

fn quote_end_exec(s: &str, n: usize, i: usize) -> (r: usize)
    requires
        n == s@.len(),
        i <= n,
    ensures
        r as int == quote_end(s@, i as int),
        i <= r <= n,
    decreases n - i,
{
    if i >= n {
        i
    } else if s.get_char(i) == '"' {
        i
    } else {
        quote_end_exec(s, n, i + 1)
    }
}

fn kv_at_exec(s: &str, n: usize, i: usize) -> (r: Option<(String, String, usize)>)
    requires
        n == s@.len(),
        i < n,
    ensures
        r is Some <==> kv_at(s@, i as int),
        r matches Some(t) ==> {
            &&& t.0@ == kv_key(s@, i as int)
            &&& t.1@ == kv_val(s@, i as int)
            &&& t.2 as int == kv_end(s@, i as int)
            &&& i < t.2 <= n
        },
{
    if i > 0 && lower_char(s.get_char(i - 1)) {
        return None;
    }
    if !lower_char(s.get_char(i)) {
        return None;
    }
    let j = key_end_exec(s, n, i);
    let p = skip_ws_exec(s, n, j);
    if !(p < n && s.get_char(p) == '=') {
        return None;
    }
    let q = skip_ws_exec(s, n, p + 1);
    if !(q < n && s.get_char(q) == '"') {
        return None;
    }
    let r = quote_end_exec(s, n, q + 1);
    if !(q + 1 < r && r < n) {
        return None;
    }
    let key = s.substring_char(i, j).to_owned();
    let val = s.substring_char(q + 1, r).to_owned();
    Some((key, val, r + 1))
}

/// A view of an optional owned string as an optional character sequence.
pub open spec fn opt_str_view(o: Option<String>) -> Option<Seq<char>> {
    match o {
        Some(s) => Some(s@),
        None => None,
    }
}

fn scan_kvs(s: &str, n: usize, i: usize) -> (r: (Option<String>, Option<String>, Option<String>))
    requires
        n == s@.len(),
        i <= n,
    ensures
        opt_str_view(r.0) == first_val(kv_pairs_from(s@, i as int), "realm"@),
        opt_str_view(r.1) == first_val(kv_pairs_from(s@, i as int), "service"@),
        opt_str_view(r.2) == first_val(kv_pairs_from(s@, i as int), "scope"@),
    decreases n - i,
{
    if i >= n {
        return (None, None, None);
    }
    match kv_at_exec(s, n, i) {
        Some((key, val, nxt)) => {
            let rest = scan_kvs(s, n, nxt);
            proof {
                reveal_strlit("realm");
                reveal_strlit("service");
                reveal_strlit("scope");
                assert("realm"@.len() == 5 && "service"@.len() == 7 && "scope"@.len() == 5);
                assert("realm"@[2] == 'a' && "scope"@[2] == 'o');
                assert("realm"@ != "service"@ && "realm"@ != "scope"@ && "service"@ != "scope"@);
                assert(kv_pairs_from(s@, i as int) == seq![(kv_key(s@, i as int), kv_val(s@, i as int))]
                    + kv_pairs_from(s@, nxt as int));
                lemma_first_val_cons(
                    kv_key(s@, i as int),
                    kv_val(s@, i as int),
                    kv_pairs_from(s@, nxt as int),
                    "realm"@,
                );
                lemma_first_val_cons(
                    kv_key(s@, i as int),
                    kv_val(s@, i as int),
                    kv_pairs_from(s@, nxt as int),
                    "service"@,
                );
                lemma_first_val_cons(
                    kv_key(s@, i as int),
                    kv_val(s@, i as int),
                    kv_pairs_from(s@, nxt as int),
                    "scope"@,
                );
            }
            if str_eq(key.as_str(), "realm") {
                (Some(val), rest.1, rest.2)
            } else if str_eq(key.as_str(), "service") {
                (rest.0, Some(val), rest.2)
            } else if str_eq(key.as_str(), "scope") {
                (rest.0, rest.1, Some(val))
            } else {
                rest
            }
        },
        None => scan_kvs(s, n, i + 1),
    }
}

// ---------------------------------------------------------------------------
// Parsed challenges and parse errors.
// ---------------------------------------------------------------------------

/// Mathematical content of a parsed Bearer challenge.
pub struct BearerChallengeSpec {
    pub realm: Seq<char>,
    pub service: Option<Seq<char>>,
    pub scope: Option<Seq<char>>,
}

/// Mathematical content of a parsed Basic challenge.
pub struct BasicChallengeSpec {
    pub realm: Seq<char>,
}

/// Mathematical content of a parsed challenge of either scheme.
pub enum ChallengeSpec {
    Bearer(BearerChallengeSpec),
    Basic(BasicChallengeSpec),
}

/// Why a header value failed to parse.
pub enum ParseErrorSpec {
    /// The bytes are not valid UTF-8.
    InvalidEncoding,
    /// No scheme token occurs anywhere in the value.
    NoMethod,
    /// The named attribute is required by the scheme but absent.
    MissingRequiredField(Seq<char>),
}

/// Why a header value failed to parse.
#[derive(Debug, Clone)]
pub enum ParseError {
    /// The bytes are not valid UTF-8.
    InvalidEncoding,
    /// No scheme token occurs anywhere in the value.
    NoMethod,
    /// The named attribute is required by the scheme but absent.
    MissingRequiredField(String),
}

impl View for ParseError {
    type V = ParseErrorSpec;

    open spec fn view(&self) -> ParseErrorSpec {
        match self {
            ParseError::InvalidEncoding => ParseErrorSpec::InvalidEncoding,
            ParseError::NoMethod => ParseErrorSpec::NoMethod,
            ParseError::MissingRequiredField(f) => ParseErrorSpec::MissingRequiredField(f@),
        }
    }
}

/// Parsed content of a `WWW-Authenticate` header naming the Bearer scheme.
/// The realm is the token-endpoint base URL; service and scope are optional.
#[derive(Debug, Clone)]
pub struct WwwAuthenticateHeaderContentBearer {
    pub realm: String,
    pub service: Option<String>,
    pub scope: Option<String>,
}

impl View for WwwAuthenticateHeaderContentBearer {
    type V = BearerChallengeSpec;

    open spec fn view(&self) -> BearerChallengeSpec {
        BearerChallengeSpec {
            realm: self.realm@,
            service: opt_str_view(self.service),
            scope: opt_str_view(self.scope),
        }
    }
}

/// Parsed content of a `WWW-Authenticate` header naming the Basic scheme.
/// The realm is a display label only.
#[derive(Debug, Clone)]
pub struct WwwAuthenticateHeaderContentBasic {
    pub realm: String,
}

impl View for WwwAuthenticateHeaderContentBasic {
    type V = BasicChallengeSpec;

    open spec fn view(&self) -> BasicChallengeSpec {
        BasicChallengeSpec { realm: self.realm@ }
    }
}

/// Parsed content of a `WWW-Authenticate` header value.
#[derive(Debug, Clone)]
pub enum WwwAuthenticateHeaderContent {
    Bearer(WwwAuthenticateHeaderContentBearer),
    Basic(WwwAuthenticateHeaderContentBasic),
}

impl View for WwwAuthenticateHeaderContent {
    type V = ChallengeSpec;

    open spec fn view(&self) -> ChallengeSpec {
        match self {
            WwwAuthenticateHeaderContent::Bearer(b) => ChallengeSpec::Bearer(b@),
            WwwAuthenticateHeaderContent::Basic(b) => ChallengeSpec::Basic(b@),
        }
    }
}

// ---------------------------------------------------------------------------
// The parse function and its specification.
// ---------------------------------------------------------------------------

/// What parsing a decoded header value yields: the first scheme token wins
/// (none at all is an error), and the scheme's required `realm` attribute is
/// looked up among the scanned pairs, together with the optional `service`
/// and `scope` for Bearer.
pub open spec fn parse_chars(s: Seq<char>) -> Result<ChallengeSpec, ParseErrorSpec> {
    match scheme_of(s) {
        None => Err(ParseErrorSpec::NoMethod),
        Some(Scheme::Bearer) => match attr(s, "realm"@) {
            None => Err(ParseErrorSpec::MissingRequiredField("realm"@)),
            Some(realm) => Ok(
                ChallengeSpec::Bearer(
                    BearerChallengeSpec {
                        realm,
                        service: attr(s, "service"@),
                        scope: attr(s, "scope"@),
                    },
                ),
            ),
        },
        Some(Scheme::Basic) => match attr(s, "realm"@) {
            None => Err(ParseErrorSpec::MissingRequiredField("realm"@)),
            Some(realm) => Ok(ChallengeSpec::Basic(BasicChallengeSpec { realm })),
        },
    }
}

/// What parsing the raw header bytes yields: bytes that are not UTF-8 are an
/// encoding error; otherwise the decoded characters are parsed.
pub open spec fn parse_bytes(bytes: Seq<u8>) -> Result<ChallengeSpec, ParseErrorSpec> {
    if !valid_utf8(bytes) {
        Err(ParseErrorSpec::InvalidEncoding)
    } else {
        parse_chars(decode_utf8(bytes))
    }
}

/// The mathematical content of a parse result.
pub open spec fn result_view(r: Result<WwwAuthenticateHeaderContent, ParseError>) -> Result<
    ChallengeSpec,
    ParseErrorSpec,
> {
    match r {
        Ok(c) => Ok(c@),
        Err(e) => Err(e@),
    }
}

/// Relies on String::from_utf8: it returns Ok exactly when the bytes are
/// valid UTF-8, and the returned string is their decoding.
#[verifier::external_body]
fn utf8_decode(bytes: &[u8]) -> (r: Option<String>)
    ensures
        r is Some <==> valid_utf8(bytes@),
        r matches Some(s) ==> s@ == decode_utf8(bytes@),
{
    match String::from_utf8(bytes.to_vec()) {
        Ok(s) => Some(s),
        Err(_) => None,
    }
}

impl WwwAuthenticateHeaderContent {
    /// Parse an already decoded header value.
    pub fn parse_header_str(header: &str) -> (r: Result<Self, ParseError>)
        ensures
            result_view(r) == parse_chars(header@),
    {
        let n = header.unicode_len();
        match find_scheme(header, n, 0) {
            None => Err(ParseError::NoMethod),
            Some(sch) => {
                let (realm, service, scope) = scan_kvs(header, n, 0);
                match realm {
                    None => Err(ParseError::MissingRequiredField("realm".to_owned())),
                    Some(realm) => match sch {
                        Scheme::Bearer => Ok(
                            WwwAuthenticateHeaderContent::Bearer(
                                WwwAuthenticateHeaderContentBearer { realm, service, scope },
                            ),
                        ),
                        Scheme::Basic => Ok(
                            WwwAuthenticateHeaderContent::Basic(
                                WwwAuthenticateHeaderContentBasic { realm },
                            ),
                        ),
                    },
                }
            },
        }
    }

    /// Parse the raw bytes of a `WWW-Authenticate` header value.
    pub fn from_www_authentication_header(header_value: &[u8]) -> (r: Result<Self, ParseError>)
        ensures
            result_view(r) == parse_bytes(header_value@),
    {
        match utf8_decode(header_value) {
            None => Err(ParseError::InvalidEncoding),
            Some(decoded) => Self::parse_header_str(decoded.as_str()),
        }
    }
}

// ---------------------------------------------------------------------------
// Token-endpoint URL composition.
// ---------------------------------------------------------------------------

/// The `?service=...` segment of the token-endpoint URL, empty when the
/// challenge names no service.
pub open spec fn service_part(service: Option<Seq<char>>) -> Seq<char> {
    match service {
        Some(sv) => "?service="@ + sv,
        None => Seq::<char>::empty(),
    }
}

/// The scope segment contributed by the scope at index `j`.  Reproducing the
/// reference behaviour exactly, only scopes after the second are preceded by
/// a `&` separator: the first two run together.
pub open spec fn scope_piece(scopes: Seq<Seq<char>>, j: int) -> Seq<char> {
    (if j > 1 {
        "&"@
    } else {
        Seq::<char>::empty()
    }) + "scope="@ + scopes[j]
}

/// The scope segments of the first `k` requested scopes, in order.
pub open spec fn scope_pieces(scopes: Seq<Seq<char>>, k: int) -> Seq<char>
    decreases k,
{
    if k <= 0 {
        Seq::<char>::empty()
    } else {
        scope_pieces(scopes, k - 1) + scope_piece(scopes, k - 1)
    }
}

/// The whole scope part: empty without requested scopes, otherwise opened
/// with `?` when no service segment was emitted and `&` when one was.
pub open spec fn scope_part(service: Option<Seq<char>>, scopes: Seq<Seq<char>>) -> Seq<char> {
    if scopes.len() == 0 {
        Seq::<char>::empty()
    } else {
        (if service is None {
            "?"@
        } else {
            "&"@
        }) + scope_pieces(scopes, scopes.len() as int)
    }
}

/// The token-endpoint URL composed from a Bearer challenge and the
/// requested scopes.
pub open spec fn auth_ep_spec(b: BearerChallengeSpec, scopes: Seq<Seq<char>>) -> Seq<char> {
    b.realm + service_part(b.service) + scope_part(b.service, scopes)
}

impl WwwAuthenticateHeaderContentBearer {
    /// Compose the token-endpoint URL for the requested scopes: the realm,
    /// a `?service=` segment when the challenge names a service, and the
    /// scope segments.
    pub fn auth_ep(&self, scopes: &Vec<String>) -> (r: String)
        ensures
            r@ == auth_ep_spec(self@, scopes.deep_view()),
    {
        let ghost vs: Seq<Seq<char>> = scopes.deep_view();
        let mut out = self.realm.clone();
        match &self.service {
            Some(sv) => {
                out.append("?service=");
                out.append(sv.as_str());
            },
            None => {},
        }
        proof {
            assert(out@ =~= self@.realm + service_part(self@.service));
        }
        let ghost base: Seq<char> = self@.realm + service_part(self@.service);
        if scopes.len() > 0 {
            if self.service.is_none() {
                out.append("?");
            } else {
                out.append("&");
            }
            let ghost pre: Seq<char> = if self@.service is None {
                "?"@
            } else {
                "&"@
            };
            proof {
                assert(out@ =~= base + pre + scope_pieces(vs, 0));
            }
            let mut j: usize = 0;
            while j < scopes.len()
                invariant
                    j <= scopes.len(),
                    vs == scopes.deep_view(),
                    vs.len() == scopes@.len(),
                    base == self@.realm + service_part(self@.service),
                    pre == (if self@.service is None {
                        "?"@
                    } else {
                        "&"@
                    }),
                    out@ == base + pre + scope_pieces(vs, j as int),
                decreases scopes.len() - j,
            {
                if j > 1 {
                    out.append("&");
                }
                out.append("scope=");
                out.append(scopes[j].as_str());
                proof {
                    assert(vs[j as int] == scopes@[j as int]@);
                    assert(out@ =~= base + pre + scope_pieces(vs, j + 1));
                }
                j += 1;
            }
            proof {
                assert(out@ =~= auth_ep_spec(self@, vs));
            }
        } else {
            proof {
                assert(out@ =~= auth_ep_spec(self@, vs));
            }
        }
        out
    }
}

// ---------------------------------------------------------------------------
// Laws of the parser.
// ---------------------------------------------------------------------------

/// A decoded header value in which no scheme token occurs parses to an
/// error, whatever attribute pairs it carries.
pub proof fn lemma_no_scheme_is_parse_error(s: Seq<char>)
    requires
        scheme_of(s) is None,
    ensures
        parse_chars(s) == Err::<ChallengeSpec, ParseErrorSpec>(ParseErrorSpec::NoMethod),
{
}

/// A decoded header value naming the Bearer scheme but carrying no `realm`
/// attribute parses to a missing-field error naming `realm`.
pub proof fn lemma_bearer_without_realm_is_missing_field(s: Seq<char>)
    requires
        scheme_of(s) == Some(Scheme::Bearer),
        attr(s, "realm"@) is None,
    ensures
        parse_chars(s) == Err::<ChallengeSpec, ParseErrorSpec>(
            ParseErrorSpec::MissingRequiredField("realm"@),
        ),
{
}

// ---------------------------------------------------------------------------
// Equality of parsed challenges.
// ---------------------------------------------------------------------------

fn opt_str_eq(a: &Option<String>, b: &Option<String>) -> (r: bool)
    ensures
        r == (opt_str_view(*a) == opt_str_view(*b)),
{
    match (a, b) {
        (None, None) => true,
        (Some(x), Some(y)) => str_eq(x.as_str(), y.as_str()),
        _ => false,
    }
}

impl PartialEq for WwwAuthenticateHeaderContentBearer {
    fn eq(&self, other: &Self) -> (r: bool) {
        self.realm == other.realm && opt_str_eq(&self.service, &other.service) && opt_str_eq(
            &self.scope,
            &other.scope,
        )
    }
}

impl vstd::std_specs::cmp::PartialEqSpecImpl for WwwAuthenticateHeaderContentBearer {
    open spec fn obeys_eq_spec() -> bool {
        true
    }

    open spec fn eq_spec(&self, other: &Self) -> bool {
        self@ == other@
    }
}

impl PartialEq for WwwAuthenticateHeaderContentBasic {
    fn eq(&self, other: &Self) -> (r: bool) {
        self.realm == other.realm
    }
}

impl vstd::std_specs::cmp::PartialEqSpecImpl for WwwAuthenticateHeaderContentBasic {
    open spec fn obeys_eq_spec() -> bool {
        true
    }

    open spec fn eq_spec(&self, other: &Self) -> bool {
        self@ == other@
    }
}

impl PartialEq for WwwAuthenticateHeaderContent {
    fn eq(&self, other: &Self) -> (r: bool) {
        match (self, other) {
            (
                WwwAuthenticateHeaderContent::Bearer(a),
                WwwAuthenticateHeaderContent::Bearer(b),
            ) => a == b,
            (
                WwwAuthenticateHeaderContent::Basic(a),
                WwwAuthenticateHeaderContent::Basic(b),
            ) => a == b,
            _ => false,
        }
    }
}

impl vstd::std_specs::cmp::PartialEqSpecImpl for WwwAuthenticateHeaderContent {
    open spec fn obeys_eq_spec() -> bool {
        true
    }

    open spec fn eq_spec(&self, other: &Self) -> bool {
        self@ == other@
    }
}

/// Character-for-character equality of two string slices.
pub(crate) fn str_eq(a: &str, b: &str) -> (r: bool)
    ensures
        r == (a@ == b@),
{
    let n = a.unicode_len();
    let m = b.unicode_len();
    if n != m {
        return false;
    }
    let mut k: usize = 0;
    while k < n
        invariant
            k <= n,
            n == a@.len(),
            n == b@.len(),
            forall|t: int| 0 <= t < k ==> a@[t] == b@[t],
        decreases n - k,
    {
        if a.get_char(k) != b.get_char(k) {
            return false;
        }
        k += 1;
    }
    proof {
        assert(a@ =~= b@);
    }
    true
}

} // verus!
