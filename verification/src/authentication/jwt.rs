//! Bearer tokens: what a token claims, and the guard that lets a request
//! pass on a valid token.
use vstd::prelude::*;
use vstd::string::StringSliceAdditionalSpecFns;
use crate::helpers::response::text_view;
use crate::helpers::response::Status;
use crate::helpers::text::text_eq;

verus! {

#[verifier::external_type_specification]
#[verifier::external_body]
pub struct ExValue(serde_json::Value);

#[verifier::external_type_specification]
#[verifier::external_body]
pub struct ExErrorKind(jsonwebtoken::errors::ErrorKind);

/// The member of a JSON object under a name, where the value is an object
/// and the member is a string.
pub uninterp spec fn text_member(value: serde_json::Value, name: Seq<char>) -> Option<Seq<char>>;

/// The member of a JSON object under a name, where the value is an object
/// and the member is a whole number from zero to `u64::MAX`.
pub uninterp spec fn number_member(value: serde_json::Value, name: Seq<char>) -> Option<u64>;

/// `serde_json::Value::get` and `serde_json::Value::as_str`.
#[verifier::external_body]
fn claim_text(claims: &serde_json::Value, name: &str) -> (text: Option<String>)
    ensures
        text_view(text) == text_member(*claims, name@),
{
    Some(claims.get(name)?.as_str()?.to_owned())
}

/// `serde_json::Value::get` and `serde_json::Value::as_u64`.
#[verifier::external_body]
fn claim_number(claims: &serde_json::Value, name: &str) -> (number: Option<u64>)
    ensures
        number == number_member(*claims, name@),
{
    claims.get(name)?.as_u64()
}

/// The bytes that a segment of a token encodes, where it is base64url
/// without padding.
pub uninterp spec fn segment_bytes(segment: Seq<char>) -> Option<Seq<u8>>;

/// The JSON value that bytes spell, where they spell one.
pub uninterp spec fn json_of(bytes: Seq<u8>) -> Option<serde_json::Value>;

/// Bytes that may be missing, as a sequence.
pub open spec fn bytes_view(bytes: Option<Vec<u8>>) -> Option<Seq<u8>> {
    match bytes {
        Some(bytes) => Some(bytes@),
        None => None,
    }
}

/// `base64::Engine::decode` under `base64::engine::general_purpose::URL_SAFE_NO_PAD`:
/// what comes out depends on the segment alone.
#[verifier::external_body]
fn decode_segment(segment: &str) -> (bytes: Option<Vec<u8>>)
    ensures
        bytes_view(bytes) == segment_bytes(segment@),
{
    base64::Engine::decode(&base64::engine::general_purpose::URL_SAFE_NO_PAD, segment).ok()
}

/// `serde_json::from_slice` into a `serde_json::Value`: what comes out
/// depends on the bytes alone.
#[verifier::external_body]
fn parse_json(bytes: &Vec<u8>) -> (value: Option<serde_json::Value>)
    ensures
        value == json_of(bytes@),
{
    serde_json::from_slice::<serde_json::Value>(bytes).ok()
}

/// What `jsonwebtoken::decode` makes of a token where the clock stands at
/// `now` seconds since 1970: the claims of the payload, or why the token was
/// turned down. The token is held against a secret, the one algorithm of
/// that name, a subject and an audience; its expiry is checked with `leeway`
/// seconds of tolerance, and its not-before time is checked where
/// `not_before` says so.
pub uninterp spec fn decoded_at(
    token: Seq<char>,
    secret: Seq<u8>,
    algorithm: Seq<char>,
    subject: Seq<char>,
    audience: Seq<char>,
    leeway: u16,
    not_before: bool,
    now: u64,
) -> Result<serde_json::Value, DecodeFailure>;

/// The failure that a `jsonwebtoken::errors::ErrorKind` stands for.
pub uninterp spec fn kind_of(kind: jsonwebtoken::errors::ErrorKind) -> DecodeFailure;

/// What the decoder gave, with its failure as a [`DecodeFailure`].
pub open spec fn decoded_view(decoded: Result<serde_json::Value, jsonwebtoken::errors::ErrorKind>) -> Result<
    serde_json::Value,
    DecodeFailure,
> {
    match decoded {
        Ok(claims) => Ok(claims),
        Err(kind) => Err(kind_of(kind)),
    }
}

/// `jsonwebtoken::decode` into a JSON value, and on failure
/// `jsonwebtoken::errors::Error::into_kind`; with a key made by
/// `jsonwebtoken::DecodingKey::from_secret` and a `jsonwebtoken::Validation`
/// that allows the one algorithm, tolerates the skew, checks the expiry
/// always and the not-before time as asked, and expects the subject and the
/// audience.
///
/// `decode` reads the clock once, and goes by nothing but the clock, the
/// token and what it is held against; so what it gives is [`decoded_at`]
/// for some reading of the clock. Where the token passes, a subject or an
/// audience that the claims give as a string is the one expected: `decode`
/// rejects any other. The clock is taken to stand at more than 65535
/// seconds since 1970; before that `decode` panics.
#[verifier::external_body]
fn decode_token(token: &str, config: &ValidationConfig, not_before: bool) -> (decoded: Result<
    serde_json::Value,
    jsonwebtoken::errors::ErrorKind,
>)
    ensures
        exists|now: u64|
            decoded_view(decoded) == #[trigger] decoded_at(
                token@,
                config.secret@,
                config.algorithm.name(),
                config.subject@,
                config.audience@,
                config.leeway,
                not_before,
                now,
            ),
        decoded matches Ok(claims) ==> {
            &&& text_member(claims, "sub"@) matches Some(subject) ==> subject == config.subject@
            &&& text_member(claims, "aud"@) matches Some(audience) ==> audience == config.audience@
        },
{
    let algorithm = match config.algorithm {
        SigningAlgorithm::Hs256 => jsonwebtoken::Algorithm::HS256,
        SigningAlgorithm::Hs384 => jsonwebtoken::Algorithm::HS384,
        SigningAlgorithm::Hs512 => jsonwebtoken::Algorithm::HS512,
    };
    let mut validation = jsonwebtoken::Validation::new(algorithm);
    validation.leeway = u64::from(config.leeway);
    validation.validate_nbf = not_before;
    validation.sub = Some(config.subject.clone());
    validation.set_audience(&[config.audience.as_str()]);
    let key = jsonwebtoken::DecodingKey::from_secret(&config.secret);
    match jsonwebtoken::decode::<serde_json::Value>(token, &key, &validation) {
        Ok(data) => Ok(data.claims),
        Err(error) => Err(error.into_kind()),
    }
}

/// The variants of `jsonwebtoken::errors::ErrorKind`, one for one; those
/// that speak of a key and not of a token come out as one.
#[verifier::external_body]
fn failure_kind(kind: &jsonwebtoken::errors::ErrorKind) -> (failure: DecodeFailure)
    ensures
        failure == kind_of(*kind),
{
    match kind {
        jsonwebtoken::errors::ErrorKind::InvalidToken => DecodeFailure::InvalidToken,
        jsonwebtoken::errors::ErrorKind::InvalidSignature => DecodeFailure::InvalidSignature,
        jsonwebtoken::errors::ErrorKind::MissingRequiredClaim(_) => DecodeFailure::MissingRequiredClaim,
        jsonwebtoken::errors::ErrorKind::ExpiredSignature => DecodeFailure::ExpiredSignature,
        jsonwebtoken::errors::ErrorKind::InvalidIssuer => DecodeFailure::InvalidIssuer,
        jsonwebtoken::errors::ErrorKind::InvalidAudience => DecodeFailure::InvalidAudience,
        jsonwebtoken::errors::ErrorKind::InvalidSubject => DecodeFailure::InvalidSubject,
        jsonwebtoken::errors::ErrorKind::ImmatureSignature => DecodeFailure::ImmatureSignature,
        jsonwebtoken::errors::ErrorKind::InvalidAlgorithm => DecodeFailure::InvalidAlgorithm,
        jsonwebtoken::errors::ErrorKind::Base64(_) => DecodeFailure::Base64,
        jsonwebtoken::errors::ErrorKind::Json(_) => DecodeFailure::Json,
        jsonwebtoken::errors::ErrorKind::Utf8(_) => DecodeFailure::Utf8,
        _ => DecodeFailure::Other,
    }
}

/// The HMAC algorithms a token may be signed with.
#[derive(Clone, Copy, Debug, PartialEq, Eq, Structural)]
pub enum SigningAlgorithm {
    Hs256,
    Hs384,
    Hs512,
}

impl SigningAlgorithm {
    /// The algorithm as a token's header names it.
    pub open spec fn name(self) -> Seq<char> {
        match self {
            SigningAlgorithm::Hs256 => "HS256"@,
            SigningAlgorithm::Hs384 => "HS384"@,
            SigningAlgorithm::Hs512 => "HS512"@,
        }
    }

    /// The algorithm as a token's header names it.
    pub fn as_str(self) -> (name: &'static str)
        ensures
            name@ == self.name(),
    {
        match self {
            SigningAlgorithm::Hs256 => "HS256",
            SigningAlgorithm::Hs384 => "HS384",
            SigningAlgorithm::Hs512 => "HS512",
        }
    }
}

/// What a token is held against. Made once, then only read.
pub struct ValidationConfig {
    /// The secret the token must be signed with.
    pub secret: Vec<u8>,
    /// The algorithm the token must be signed with.
    pub algorithm: SigningAlgorithm,
    /// The audience the token must be meant for.
    pub audience: String,
    /// The subject the token must speak of.
    pub subject: String,
    /// How many seconds the clocks of issuer and service may differ.
    pub leeway: u16,
}

impl Default for ValidationConfig {
    /// The secret `secret` under HS256, the audience `me`, the subject
    /// `b@b.com`, and a minute of tolerance.
    fn default() -> (config: ValidationConfig)
        ensures
            config.secret@ == "secret".spec_bytes(),
            config.algorithm == SigningAlgorithm::Hs256,
            config.audience@ == "me"@,
            config.subject@ == "b@b.com"@,
            config.leeway == 60,
    {
        ValidationConfig {
            secret: "secret".as_bytes_vec(),
            algorithm: SigningAlgorithm::Hs256,
            audience: String::from_str("me"),
            subject: String::from_str("b@b.com"),
            leeway: 60,
        }
    }
}

/// Why `jsonwebtoken` turned a token down.
#[derive(Clone, Copy, Debug, PartialEq, Eq, Structural)]
pub enum DecodeFailure {
    InvalidToken,
    InvalidSignature,
    MissingRequiredClaim,
    ExpiredSignature,
    InvalidIssuer,
    InvalidAudience,
    InvalidSubject,
    ImmatureSignature,
    InvalidAlgorithm,
    Base64,
    Json,
    Utf8,
    /// A failure that has to do with the key, not with the token.
    Other,
}

/// Why a request was not let through.
#[derive(Clone, Copy, Debug, PartialEq, Eq, Structural)]
pub enum AuthError {
    /// The request carried no `Authorization` header.
    MissingCredentials,
    /// The token does not verify under the configured algorithm and secret:
    /// its signature is not the one the secret makes, or it was signed under
    /// another algorithm.
    BadSignature,
    /// The token's time is over.
    Expired,
    /// The token's time has not come.
    NotYetValid,
    /// The token speaks of another subject, or to another audience or issuer.
    ClaimMismatch,
    /// The token is no token: wrongly framed, wrongly encoded, or without a
    /// claim that every token must make.
    MalformedToken,
}

impl DecodeFailure {
    /// The reason a request is given for a failure to decode its token.
    pub open spec fn auth_error(self) -> AuthError {
        match self {
            DecodeFailure::InvalidSignature => AuthError::BadSignature,
            DecodeFailure::InvalidAlgorithm => AuthError::BadSignature,
            DecodeFailure::ExpiredSignature => AuthError::Expired,
            DecodeFailure::ImmatureSignature => AuthError::NotYetValid,
            DecodeFailure::InvalidIssuer => AuthError::ClaimMismatch,
            DecodeFailure::InvalidAudience => AuthError::ClaimMismatch,
            DecodeFailure::InvalidSubject => AuthError::ClaimMismatch,
            DecodeFailure::InvalidToken => AuthError::MalformedToken,
            DecodeFailure::MissingRequiredClaim => AuthError::MalformedToken,
            DecodeFailure::Base64 => AuthError::MalformedToken,
            DecodeFailure::Json => AuthError::MalformedToken,
            DecodeFailure::Utf8 => AuthError::MalformedToken,
            DecodeFailure::Other => AuthError::MalformedToken,
        }
    }

    /// The reason a request is given for a failure to decode its token.
    pub fn to_auth_error(self) -> (error: AuthError)
        ensures
            error == self.auth_error(),
    {
        match self {
            DecodeFailure::InvalidSignature | DecodeFailure::InvalidAlgorithm => AuthError::BadSignature,
            DecodeFailure::ExpiredSignature => AuthError::Expired,
            DecodeFailure::ImmatureSignature => AuthError::NotYetValid,
            DecodeFailure::InvalidIssuer | DecodeFailure::InvalidAudience | DecodeFailure::InvalidSubject =>
                AuthError::ClaimMismatch,
            _ => AuthError::MalformedToken,
        }
    }
}

/// What a token claims.
#[derive(Debug)]
pub struct Jwt {
    aud: String,
    exp: u64,
    iat: Option<u64>,
    iss: String,
    nbf: Option<u64>,
    sub: String,
}

/// What a token claims, with its texts as sequences of characters.
pub struct ClaimSet {
    pub audience: Seq<char>,
    pub expires_at: u64,
    pub issued_at: Option<u64>,
    pub issuer: Seq<char>,
    pub not_before: Option<u64>,
    pub subject: Seq<char>,
}

impl View for Jwt {
    type V = ClaimSet;

    closed spec fn view(&self) -> ClaimSet {
        ClaimSet {
            audience: self.aud@,
            expires_at: self.exp,
            issued_at: self.iat,
            issuer: self.iss@,
            not_before: self.nbf,
            subject: self.sub@,
        }
    }
}

/// Whether decoded claims make every claim a token must make: an audience, an
/// issuer and a subject as strings, and an expiry as a number.
pub open spec fn complete(claims: serde_json::Value) -> bool {
    &&& text_member(claims, "aud"@) is Some
    &&& number_member(claims, "exp"@) is Some
    &&& text_member(claims, "iss"@) is Some
    &&& text_member(claims, "sub"@) is Some
}

/// The claims that decoded claims hold, where they are complete.
pub open spec fn claim_set(claims: serde_json::Value) -> ClaimSet {
    ClaimSet {
        audience: text_member(claims, "aud"@)->0,
        expires_at: number_member(claims, "exp"@)->0,
        issued_at: number_member(claims, "iat"@),
        issuer: text_member(claims, "iss"@)->0,
        not_before: number_member(claims, "nbf"@),
        subject: text_member(claims, "sub"@)->0,
    }
}

impl Jwt {
    /// Whom the token is meant for.
    pub fn audience(&self) -> (audience: &str)
        ensures
            audience@ == self@.audience,
    {
        self.aud.as_str()
    }

    /// When the token's time is over, in seconds since 1970.
    pub fn expires_at(&self) -> (expires_at: u64)
        ensures
            expires_at == self@.expires_at,
    {
        self.exp
    }

    /// When the token was issued, in seconds since 1970, where it says so.
    pub fn issued_at(&self) -> (issued_at: Option<u64>)
        ensures
            issued_at == self@.issued_at,
    {
        self.iat
    }

    /// Who issued the token.
    pub fn issuer(&self) -> (issuer: &str)
        ensures
            issuer@ == self@.issuer,
    {
        self.iss.as_str()
    }

    /// When the token's time begins, in seconds since 1970, where it says so.
    pub fn not_before(&self) -> (not_before: Option<u64>)
        ensures
            not_before == self@.not_before,
    {
        self.nbf
    }

    /// Whom the token speaks of.
    pub fn subject(&self) -> (subject: &str)
        ensures
            subject@ == self@.subject,
    {
        self.sub.as_str()
    }

    /// The claims of a token that has passed, read out of its decoded
    /// payload: all of them where the payload is complete, else the verdict
    /// that the token is malformed.
    pub fn from_claims(claims: &serde_json::Value) -> (read: Result<Jwt, AuthError>)
        ensures
            match read {
                Ok(jwt) => complete(*claims) && jwt@ == claim_set(*claims),
                Err(error) => !complete(*claims) && error == AuthError::MalformedToken,
            },
    {
        let aud = claim_text(claims, "aud");
        let exp = claim_number(claims, "exp");
        let iat = claim_number(claims, "iat");
        let iss = claim_text(claims, "iss");
        let nbf = claim_number(claims, "nbf");
        let sub = claim_text(claims, "sub");
        match (aud, exp, iss, sub) {
            (Some(aud), Some(exp), Some(iss), Some(sub)) => Ok(Jwt { aud, exp, iat, iss, nbf, sub }),
            _ => Err(AuthError::MalformedToken),
        }
    }
}

/// The scheme that may stand in front of a token, with the blank behind it.
pub open spec fn scheme() -> Seq<char> {
    seq!['B', 'e', 'a', 'r', 'e', 'r', ' ']
}

/// Whether a header value starts with the scheme.
pub open spec fn has_scheme(raw: Seq<char>) -> bool {
    raw.len() >= 7 && raw.subrange(0, 7) == scheme()
}

/// A header value without the scheme in front of it, however often it
/// stands there. A value without the scheme is the token itself.
pub open spec fn bearer_token(raw: Seq<char>) -> Seq<char>
    decreases raw.len(),
{
    if has_scheme(raw) {
        bearer_token(raw.skip(7))
    } else {
        raw
    }
}

/// How many dots a text holds.
pub open spec fn dots(text: Seq<char>) -> nat
    decreases text.len(),
{
    if text.len() == 0 {
        0
    } else {
        dots(text.drop_last()) + if text.last() == '.' {
            1nat
        } else {
            0nat
        }
    }
}

/// A token is framed as three segments, header, payload and signature, with
/// a dot between each two.
pub open spec fn well_framed(token: Seq<char>) -> bool {
    dots(token) == 2
}

/// The header segment of a token: what stands before its first dot, or all
/// of it where it has none.
pub open spec fn header_of(token: Seq<char>) -> Seq<char>
    decreases token.len(),
{
    if token.len() == 0 || token[0] == '.' {
        Seq::empty()
    } else {
        seq![token[0]] + header_of(token.skip(1))
    }
}

/// The algorithm that a token's header names, where it names one: the
/// member `alg` of the JSON object that the header segment encodes, where
/// that is a string.
pub open spec fn named_algorithm(token: Seq<char>) -> Option<Seq<char>> {
    match segment_bytes(header_of(token)) {
        Some(bytes) => match json_of(bytes) {
            Some(header) => text_member(header, "alg"@),
            None => None,
        },
        None => None,
    }
}

/// Whether an algorithm is named, and is not the one asked for.
pub open spec fn is_another(named: Option<Seq<char>>, algorithm: SigningAlgorithm) -> bool {
    named matches Some(named) && named != algorithm.name()
}

/// Whether a token's header names an algorithm other than the one asked
/// for. Such a token cannot verify under the algorithm asked for.
pub open spec fn names_another_algorithm(token: Seq<char>, algorithm: SigningAlgorithm) -> bool {
    is_another(named_algorithm(token), algorithm)
}

/// Where no dot stands before `end`, and a dot or the end of the token
/// stands at `end`, the header segment is what stands before `end`.
proof fn lemma_header_ends(token: Seq<char>, end: int)
    requires
        0 <= end <= token.len(),
        forall|i: int| 0 <= i < end ==> token[i] != '.',
        end < token.len() ==> token[end] == '.',
    ensures
        header_of(token) == token.take(end),
    decreases end,
{
    if end > 0 {
        lemma_header_ends(token.skip(1), end - 1);
        assert(token.take(end) =~= seq![token[0]] + token.skip(1).take(end - 1));
    } else {
        assert(token.take(end) =~= Seq::<char>::empty());
    }
}

/// Cuts the header segment out of a token.
pub fn header_segment(token: &str) -> (header: &str)
    ensures
        header@ == header_of(token@),
{
    let len = token.unicode_len();
    let mut end: usize = 0;
    let mut found = false;
    for c in it: token.chars()
        invariant
            it.seq() == token@,
            token@.len() == len,
            !found ==> end == it.index(),
            found ==> end < it.index() && token@[end as int] == '.',
            forall|i: int| 0 <= i < end ==> token@[i] != '.',
    {
        if !found {
            if c == '.' {
                found = true;
            } else {
                end = end + 1;
            }
        }
    }
    proof {
        lemma_header_ends(token@, end as int);
    }
    token.substring_char(0, end)
}

/// Reads the algorithm that a token's header names.
pub fn read_algorithm(token: &str) -> (named: Option<String>)
    ensures
        text_view(named) == named_algorithm(token@),
{
    match decode_segment(header_segment(token)) {
        Some(bytes) => match parse_json(&bytes) {
            Some(header) => claim_text(&header, "alg"),
            None => None,
        },
        None => None,
    }
}

/// Tells whether an algorithm is named, and is not the one asked for.
pub fn is_another_algorithm(named: &Option<String>, algorithm: SigningAlgorithm) -> (another: bool)
    ensures
        another == is_another(text_view(*named), algorithm),
{
    match named {
        Some(named) => !text_eq(named.as_str(), algorithm.as_str()),
        None => false,
    }
}

/// Taking the scheme off leaves a text that does not start with it; a text
/// that never started with it is left as it is; and the scheme in front of
/// a text changes nothing in what is left.
pub proof fn lemma_scheme_is_taken_off(raw: Seq<char>)
    ensures
        !has_scheme(bearer_token(raw)),
        !has_scheme(raw) ==> bearer_token(raw) == raw,
        bearer_token(scheme() + raw) == bearer_token(raw),
        bearer_token(bearer_token(raw)) == bearer_token(raw),
    decreases raw.len(),
{
    if has_scheme(raw) {
        lemma_scheme_is_taken_off(raw.skip(7));
    }
    assert((scheme() + raw).subrange(0, 7) =~= scheme());
    assert((scheme() + raw).skip(7) =~= raw);
}

fn starts_with_scheme(raw: &str, len: usize) -> (found: bool)
    requires
        len == raw@.len(),
    ensures
        found == has_scheme(raw@),
{
    if len < 7 {
        return false;
    }
    let found = raw.get_char(0) == 'B' && raw.get_char(1) == 'e' && raw.get_char(2) == 'a' && raw.get_char(3)
        == 'r' && raw.get_char(4) == 'e' && raw.get_char(5) == 'r' && raw.get_char(6) == ' ';
    assert(found == (raw@.subrange(0, 7) =~= scheme()));
    found
}

/// Takes the scheme off the front of a header value.
pub fn strip_scheme(raw: &str) -> (token: &str)
    ensures
        token@ == bearer_token(raw@),
{
    let mut rest = raw;
    let mut len = rest.unicode_len();
    while starts_with_scheme(rest, len)
        invariant
            len == rest@.len(),
            bearer_token(rest@) == bearer_token(raw@),
        decreases len,
    {
        rest = rest.substring_char(7, len);
        len = len - 7;
    }
    rest
}

/// Tells whether a token has its three segments.
pub fn is_well_framed(token: &str) -> (framed: bool)
    ensures
        framed == well_framed(token@),
{
    let len = token.unicode_len();
    let mut count: usize = 0;
    for c in it: token.chars()
        invariant
            it.seq() == token@,
            token@.len() == len,
            count == dots(token@.take(it.index())),
            count <= it.index(),
    {
        assert(token@.take(it.index() + 1).drop_last() =~= token@.take(it.index()));
        if c == '.' {
            count = count + 1;
        }
    }
    assert(token@.take(token@.len() as int) =~= token@);
    count == 2
}

/// What a request's guard decides: the request goes on with what the guard
/// found, or it ends here.
pub enum Outcome<S, E> {
    Success(S),
    Failure(E),
}

/// The status of every request that the guard ends.
pub open spec fn unauthorized() -> Status {
    Status { code: 401 }
}

/// A validation's result with the token's claims as a [`ClaimSet`].
pub open spec fn claims_view(validated: Result<Jwt, AuthError>) -> Result<ClaimSet, AuthError> {
    match validated {
        Ok(jwt) => Ok(jwt@),
        Err(error) => Err(error),
    }
}

/// What becomes of a token once it has been decoded or turned down: the
/// claims of a token that passed and is complete, else the reason it fails.
pub open spec fn verdict(decoded: Result<serde_json::Value, DecodeFailure>) -> Result<ClaimSet, AuthError> {
    match decoded {
        Ok(claims) => if complete(claims) {
            Ok(claim_set(claims))
        } else {
            Err(AuthError::MalformedToken)
        },
        Err(failure) => Err(failure.auth_error()),
    }
}

/// A token that was decoded and makes every claim a token must make gives
/// exactly its claims.
pub proof fn lemma_passed_token_gives_its_claims(claims: serde_json::Value)
    requires
        complete(claims),
    ensures
        verdict(Ok(claims)) == Ok::<ClaimSet, AuthError>(claim_set(claims)),
{
}

/// A token that was turned down for its signature or for its algorithm
/// fails with a bad signature, and no other does; one turned down as expired
/// fails as expired, one turned down as immature fails as not yet valid; and
/// no token that was turned down fails for want of credentials.
pub proof fn lemma_turned_down_token_fails(failure: DecodeFailure)
    ensures
        verdict(Err(failure)) is Err,
        verdict(Err(failure)) != Err::<ClaimSet, AuthError>(AuthError::MissingCredentials),
        failure == DecodeFailure::InvalidSignature || failure == DecodeFailure::InvalidAlgorithm <==> verdict(
            Err(failure),
        ) == Err::<ClaimSet, AuthError>(AuthError::BadSignature),
        failure == DecodeFailure::ExpiredSignature <==> verdict(Err(failure)) == Err::<ClaimSet, AuthError>(
            AuthError::Expired,
        ),
        failure == DecodeFailure::ImmatureSignature <==> verdict(Err(failure)) == Err::<ClaimSet, AuthError>(
            AuthError::NotYetValid,
        ),
{
}

/// Settles a token once it has been decoded or turned down.
pub fn settle(decoded: Result<serde_json::Value, DecodeFailure>) -> (validated: Result<Jwt, AuthError>)
    ensures
        claims_view(validated) == verdict(decoded),
{
    match decoded {
        Ok(claims) => Jwt::from_claims(&claims),
        Err(failure) => Err(failure.to_auth_error()),
    }
}

/// What the guard decides where it has, or has not, a validated token: a
/// request without credentials and a request whose token failed both end
/// with 401 and the reason; a request whose token passed goes on with the
/// token's claims.
pub fn outcome_of(validated: Option<Result<Jwt, AuthError>>) -> (outcome: Outcome<Jwt, (Status, AuthError)>)
    ensures
        match validated {
            None => outcome == Outcome::<Jwt, (Status, AuthError)>::Failure(
                (unauthorized(), AuthError::MissingCredentials),
            ),
            Some(Err(error)) => outcome == Outcome::<Jwt, (Status, AuthError)>::Failure((unauthorized(), error)),
            Some(Ok(jwt)) => outcome == Outcome::<Jwt, (Status, AuthError)>::Success(jwt),
        },
{
    match validated {
        None => Outcome::Failure((Status::new(401), AuthError::MissingCredentials)),
        Some(Err(error)) => Outcome::Failure((Status::new(401), error)),
        Some(Ok(jwt)) => Outcome::Success(jwt),
    }
}

/// What becomes of the value of an `Authorization` header where the clock
/// stands at `now`. The scheme in front of the token is taken off. A token
/// that has not three segments is malformed; one whose header names another
/// algorithm has a bad signature; any other is decoded, with its not-before
/// time checked, and the verdict is on what the decoder gave.
pub open spec fn judged(
    raw: Seq<char>,
    secret: Seq<u8>,
    algorithm: SigningAlgorithm,
    subject: Seq<char>,
    audience: Seq<char>,
    leeway: u16,
    now: u64,
) -> Result<ClaimSet, AuthError> {
    let token = bearer_token(raw);
    if !well_framed(token) {
        Err(AuthError::MalformedToken)
    } else if names_another_algorithm(token, algorithm) {
        Err(AuthError::BadSignature)
    } else {
        verdict(decoded_at(token, secret, algorithm.name(), subject, audience, leeway, true, now))
    }
}

/// A header value whose token has its three segments and names no other
/// algorithm is judged as the decoder decides: a token that the decoder lets
/// pass gives exactly the claims of its payload, all six, where the payload
/// makes every claim a token must make, and is malformed where it does not;
/// a token that the decoder turns down fails for the reason that stands for
/// the decoder's, a bad signature for a signature that does not verify, an
/// expiry for a time that is over, and so on.
pub proof fn lemma_judged_as_decoded(
    raw: Seq<char>,
    secret: Seq<u8>,
    algorithm: SigningAlgorithm,
    subject: Seq<char>,
    audience: Seq<char>,
    leeway: u16,
    now: u64,
)
    requires
        well_framed(bearer_token(raw)),
        !names_another_algorithm(bearer_token(raw), algorithm),
    ensures
        match decoded_at(bearer_token(raw), secret, algorithm.name(), subject, audience, leeway, true, now) {
            Ok(claims) => judged(raw, secret, algorithm, subject, audience, leeway, now) == if complete(claims) {
                Ok::<ClaimSet, AuthError>(claim_set(claims))
            } else {
                Err::<ClaimSet, AuthError>(AuthError::MalformedToken)
            },
            Err(failure) => judged(raw, secret, algorithm, subject, audience, leeway, now) == Err::<
                ClaimSet,
                AuthError,
            >(failure.auth_error()),
        },
{
}

/// [`judged`] by what [`ValidationConfig::default`] gives: the secret
/// `secret` under HS256, the subject `b@b.com`, the audience `me`, and a
/// minute of tolerance.
pub open spec fn judged_by_default(raw: Seq<char>, now: u64) -> Result<ClaimSet, AuthError> {
    judged(raw, "secret".spec_bytes(), SigningAlgorithm::Hs256, "b@b.com"@, "me"@, 60, now)
}

/// What the guard decides, with the claims of a token that passed as a
/// [`ClaimSet`].
pub open spec fn outcome_view(outcome: Outcome<Jwt, (Status, AuthError)>) -> Outcome<
    ClaimSet,
    (Status, AuthError),
> {
    match outcome {
        Outcome::Success(jwt) => Outcome::Success(jwt@),
        Outcome::Failure(failure) => Outcome::Failure(failure),
    }
}

/// What the guard decides on what validation found, or on the want of
/// anything to validate.
pub open spec fn guard_verdict(validated: Option<Result<ClaimSet, AuthError>>) -> Outcome<
    ClaimSet,
    (Status, AuthError),
> {
    match validated {
        None => Outcome::Failure((unauthorized(), AuthError::MissingCredentials)),
        Some(Err(error)) => Outcome::Failure((unauthorized(), error)),
        Some(Ok(claims)) => Outcome::Success(claims),
    }
}

/// The value of a header, where there is one, as a sequence of characters.
pub open spec fn header_view(value: Option<&str>) -> Option<Seq<char>> {
    match value {
        Some(value) => Some(value@),
        None => None,
    }
}

/// What the guard decides on a request's `Authorization` header, or on the
/// want of one, where the clock stands at `now`.
pub open spec fn guarded_at(authorization: Option<Seq<char>>, now: u64) -> Outcome<ClaimSet, (Status, AuthError)> {
    guard_verdict(
        match authorization {
            Some(raw) => Some(judged_by_default(raw, now)),
            None => None,
        },
    )
}

impl ValidationConfig {
    /// Validates the value of an `Authorization` header.
    ///
    /// The scheme in front of the token is taken off. A token that has not
    /// three segments is malformed. A token whose header names another
    /// algorithm than the configured one cannot verify under that, and has a
    /// bad signature. Any other token is decoded, which checks its
    /// signature, its times against the clock, and its subject and audience;
    /// [`settle`] says what becomes of each outcome of that. So a token that
    /// passes speaks of the expected subject to the expected audience, and
    /// no token is turned down for want of credentials.
    pub fn validate(&self, raw: &str) -> (validated: Result<Jwt, AuthError>)
        ensures
            exists|now: u64|
                claims_view(validated) == #[trigger] judged(
                    raw@,
                    self.secret@,
                    self.algorithm,
                    self.subject@,
                    self.audience@,
                    self.leeway,
                    now,
                ),
            !well_framed(bearer_token(raw@)) ==> claims_view(validated) == Err::<ClaimSet, AuthError>(
                AuthError::MalformedToken,
            ),
            well_framed(bearer_token(raw@)) && names_another_algorithm(bearer_token(raw@), self.algorithm)
                ==> claims_view(validated) == Err::<ClaimSet, AuthError>(AuthError::BadSignature),
            validated matches Ok(jwt) ==> jwt@.subject == self.subject@ && jwt@.audience == self.audience@,
            validated matches Err(error) ==> error != AuthError::MissingCredentials,
    {
        let token = strip_scheme(raw);
        if !is_well_framed(token) {
            let validated = Err(AuthError::MalformedToken);
            assert(claims_view(validated) == judged(
                raw@,
                self.secret@,
                self.algorithm,
                self.subject@,
                self.audience@,
                self.leeway,
                0,
            ));
            return validated;
        }
        let named = read_algorithm(token);
        if is_another_algorithm(&named, self.algorithm) {
            let validated = Err(AuthError::BadSignature);
            assert(claims_view(validated) == judged(
                raw@,
                self.secret@,
                self.algorithm,
                self.subject@,
                self.audience@,
                self.leeway,
                0,
            ));
            return validated;
        }
        let decoded = decode_token(token, self, true);
        let ghost now = choose|now: u64|
            decoded_view(decoded) == #[trigger] decoded_at(
                token@,
                self.secret@,
                self.algorithm.name(),
                self.subject@,
                self.audience@,
                self.leeway,
                true,
                now,
            );
        let decoded = match decoded {
            Ok(claims) => Ok(claims),
            Err(kind) => Err(failure_kind(&kind)),
        };
        let validated = settle(decoded);
        assert(claims_view(validated) == judged(
            raw@,
            self.secret@,
            self.algorithm,
            self.subject@,
            self.audience@,
            self.leeway,
            now,
        ));
        validated
    }
}

/// Validates the value of an `Authorization` header against the
/// configuration that [`ValidationConfig::default`] gives.
pub fn is_valid(token: &str) -> (validated: Result<Jwt, AuthError>)
    ensures
        exists|now: u64| claims_view(validated) == #[trigger] judged_by_default(token@, now),
        !well_framed(bearer_token(token@)) ==> claims_view(validated) == Err::<ClaimSet, AuthError>(
            AuthError::MalformedToken,
        ),
        well_framed(bearer_token(token@)) && names_another_algorithm(bearer_token(token@), SigningAlgorithm::Hs256)
            ==> claims_view(validated) == Err::<ClaimSet, AuthError>(AuthError::BadSignature),
        validated matches Ok(jwt) ==> jwt@.subject == "b@b.com"@ && jwt@.audience == "me"@,
        validated matches Err(error) ==> error != AuthError::MissingCredentials,
{
    let config = ValidationConfig::default();
    let validated = config.validate(token);
    proof {
        let now = choose|now: u64|
            claims_view(validated) == #[trigger] judged(
                token@,
                config.secret@,
                config.algorithm,
                config.subject@,
                config.audience@,
                config.leeway,
                now,
            );
        assert(claims_view(validated) == judged_by_default(token@, now));
    }
    validated
}

impl Jwt {
    /// Guards a route: looks at the request's `Authorization` header, if it
    /// has one, and lets the request through on a valid token.
    ///
    /// Without the header the request ends with 401 for want of
    /// credentials; with a token that fails it ends with 401 and the reason,
    /// which is never want of credentials; with a token that passes it goes
    /// on with the token's claims.
    pub fn from_request(authorization: Option<&str>) -> (outcome: Outcome<Jwt, (Status, AuthError)>)
        ensures
            exists|now: u64|
                outcome_view(outcome) == #[trigger] guarded_at(header_view(authorization), now),
            authorization is None ==> outcome == Outcome::<Jwt, (Status, AuthError)>::Failure(
                (unauthorized(), AuthError::MissingCredentials),
            ),
            authorization matches Some(raw) && !well_framed(bearer_token(raw@)) ==> outcome == Outcome::<
                Jwt,
                (Status, AuthError),
            >::Failure((unauthorized(), AuthError::MalformedToken)),
            authorization matches Some(raw) ==> (well_framed(bearer_token(raw@)) && names_another_algorithm(
                bearer_token(raw@),
                SigningAlgorithm::Hs256,
            ) ==> outcome == Outcome::<Jwt, (Status, AuthError)>::Failure(
                (unauthorized(), AuthError::BadSignature),
            )),
            outcome matches Outcome::Failure((status, error)) ==> status == unauthorized() && (error
                == AuthError::MissingCredentials <==> authorization is None),
            outcome matches Outcome::Success(jwt) ==> authorization is Some && jwt@.subject == "b@b.com"@
                && jwt@.audience == "me"@,
    {
        match authorization {
            None => {
                let outcome = outcome_of(None);
                assert(outcome_view(outcome) == guarded_at(header_view(authorization), 0));
                outcome
            },
            Some(raw) => {
                let validated = is_valid(raw);
                let ghost found = claims_view(validated);
                let ghost now = choose|now: u64| found == #[trigger] judged_by_default(raw@, now);
                let outcome = outcome_of(Some(validated));
                assert(outcome_view(outcome) == guarded_at(header_view(authorization), now));
                outcome
            },
        }
    }
}

} // verus!
