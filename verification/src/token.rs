//! The token codec: compact signed tokens of three dot-separated segments.

use crate::base64url;
use crate::base64url::{decode_spec, encode_spec};
use crate::error::{AuthError, IssueError};
use crate::json;
use crate::json::{json_integer_member, json_quoted, json_string_member};
use crate::mac;
use crate::mac::{hs256_tag, signable, LONGEST_INPUT};
use crate::middleware::auth_middleware::{Claims, ClaimsView};
use crate::text::{decimal_text, push_char, push_decimal, same};
use vstd::prelude::*;
use vstd::string::*;
use vstd::utf8::*;

verus! {

/// The position of the first dot of `text` at or after `from`, and the
/// length of `text` where there is none.
pub open spec fn next_dot(text: Seq<char>, from: int) -> int
    decreases text.len() - from,
{
    if from < 0 || from >= text.len() {
        text.len() as int
    } else if text[from] == '.' {
        from
    } else {
        next_dot(text, from + 1)
    }
}

/// `next_dot` finds the first dot: nothing before it is one.
pub proof fn lemma_next_dot(text: Seq<char>, from: int)
    requires
        0 <= from <= text.len(),
    ensures
        from <= next_dot(text, from) <= text.len(),
        next_dot(text, from) < text.len() ==> text[next_dot(text, from)] == '.',
        forall|j: int| from <= j < next_dot(text, from) ==> text[j] != '.',
    decreases text.len() - from,
{
    if from < text.len() && text[from] != '.' {
        lemma_next_dot(text, from + 1);
    }
}

/// Where the text from `from` up to `at` has no dot and `at` is a dot or the
/// end, `at` is where `next_dot` arrives.
pub proof fn lemma_next_dot_is(text: Seq<char>, from: int, at: int)
    requires
        0 <= from <= at <= text.len(),
        forall|j: int| from <= j < at ==> text[j] != '.',
        at < text.len() ==> text[at] == '.',
    ensures
        next_dot(text, from) == at,
    decreases at - from,
{
    if from < at {
        lemma_next_dot_is(text, from + 1, at);
    }
}

/// Finds the first dot of `text` at or after `from`.
pub fn find_dot(text: &str, from: usize) -> (at: usize)
    requires
        text.is_ascii(),
        from <= text@.len(),
    ensures
        at == next_dot(text@, from as int),
        from <= at <= text@.len(),
        at < text@.len() ==> text@[at as int] == '.',
{
    let bytes = text.as_bytes();
    let n = bytes.len();
    proof {
        is_ascii_spec_bytes(text);
    }
    let mut at = from;
    while at < n && bytes[at] != 46
        invariant
            is_ascii(text),
            n == text@.len(),
            bytes@ == text.spec_bytes(),
            bytes@ =~= Seq::new(text@.len(), |i: int| text@[i] as u8),
            from <= at <= n,
            forall|j: int| from <= j < at ==> text@[j] != '.',
        decreases n - at,
    {
        at = at + 1;
    }
    proof {
        if at < n {
            assert('\0' <= text@[at as int] <= '\u{7f}');
            assert(bytes@[at as int] == text@[at as int] as u8);
        }
        lemma_next_dot_is(text@, from as int, at as int);
    }
    at
}

/// The three segments of a token.
pub struct Segments {
    pub header: Seq<char>,
    pub payload: Seq<char>,
    pub signature: Seq<char>,
}

impl Segments {
    /// The text that the signature covers: header, dot, payload.
    pub open spec fn signed_text(self) -> Seq<char> {
        self.header.push('.') + self.payload
    }

    /// The token that the segments make up.
    pub open spec fn joined(self) -> Seq<char> {
        self.signed_text().push('.') + self.signature
    }
}

/// The segments of `text`, where it holds exactly two dots.
pub open spec fn segments(text: Seq<char>) -> Option<Segments> {
    let d1 = next_dot(text, 0);
    let d2 = next_dot(text, d1 + 1);
    let d3 = next_dot(text, d2 + 1);
    if d2 < text.len() && d3 == text.len() {
        Some(
            Segments {
                header: text.subrange(0, d1),
                payload: text.subrange(d1 + 1, d2),
                signature: text.subrange(d2 + 1, text.len() as int),
            },
        )
    } else {
        None
    }
}

/// Three texts without a dot, joined by dots, are the segments of the result.
pub proof fn lemma_segments_of_joined(parts: Segments)
    requires
        !parts.header.contains('.'),
        !parts.payload.contains('.'),
        !parts.signature.contains('.'),
    ensures
        segments(parts.joined()) == Some(parts),
{
    let text = parts.joined();
    let d1 = parts.header.len() as int;
    let d2 = d1 + 1 + parts.payload.len();
    assert forall|j: int| 0 <= j < d1 implies text[j] != '.' by {
        assert(text[j] == parts.header[j]);
    }
    lemma_next_dot_is(text, 0, d1);
    assert forall|j: int| d1 + 1 <= j < d2 implies text[j] != '.' by {
        assert(text[j] == parts.payload[j - d1 - 1]);
    }
    lemma_next_dot_is(text, d1 + 1, d2);
    assert forall|j: int| d2 + 1 <= j < text.len() implies text[j] != '.' by {
        assert(text[j] == parts.signature[j - d2 - 1]);
    }
    lemma_next_dot_is(text, d2 + 1, text.len() as int);
    assert(text.subrange(0, d1) =~= parts.header);
    assert(text.subrange(d1 + 1, d2) =~= parts.payload);
    assert(text.subrange(d2 + 1, text.len() as int) =~= parts.signature);
}

/// Text that has segments is those segments joined by dots, and no segment
/// holds a dot.
pub proof fn lemma_joined_of_segments(text: Seq<char>)
    requires
        segments(text) is Some,
    ensures
        segments(text)->0.joined() == text,
        !segments(text)->0.header.contains('.'),
        !segments(text)->0.payload.contains('.'),
        !segments(text)->0.signature.contains('.'),
{
    let d1 = next_dot(text, 0);
    lemma_next_dot(text, 0);
    let d2 = next_dot(text, d1 + 1);
    lemma_next_dot(text, d1 + 1);
    lemma_next_dot(text, d2 + 1);
    let parts = segments(text)->0;
    assert(parts.joined() =~= text);
}

/// The header of every token that this codec issues, as JSON.
pub const HEADER_JSON: &'static str = "{\"typ\":\"JWT\",\"alg\":\"HS256\"}";

/// The header of every token that this codec issues, as JSON.
pub open spec fn header_text() -> Seq<char> {
    HEADER_JSON@
}

/// The payload that states `claims`, as JSON: the members `sub`, `email`,
/// `role` and `exp`, in this order.
pub open spec fn payload_text(claims: ClaimsView) -> Seq<char> {
    "{\"sub\":"@ + json_quoted(claims.sub) + ",\"email\":"@ + json_quoted(claims.email)
        + ",\"role\":"@ + json_quoted(claims.role) + ",\"exp\":"@ + decimal_text(claims.exp)
        + "}"@
}

/// The segments of the token that states `claims` under `secret`.
pub open spec fn issued_segments(claims: ClaimsView, secret: Seq<char>) -> Segments {
    let header = encode_spec(encode_utf8(header_text()));
    let payload = encode_spec(encode_utf8(payload_text(claims)));
    Segments {
        header,
        payload,
        signature: hs256_tag(encode_utf8(header.push('.') + payload), encode_utf8(secret)),
    }
}

/// The token that states `claims` under `secret`.
pub open spec fn token_text(claims: ClaimsView, secret: Seq<char>) -> Seq<char> {
    issued_segments(claims, secret).joined()
}

/// Whether `header` is the encoding of a JSON object that names HS256 as
/// the algorithm.
pub open spec fn names_hs256(header: Seq<char>) -> bool {
    match decode_spec(header) {
        Some(json) => json_string_member(json, "alg"@) == Some("HS256"@),
        None => false,
    }
}

/// Whether a token can be issued that states `claims` under `secret`:
/// what is to be signed, and the secret, must not be longer than can be
/// signed.
pub open spec fn issuable(claims: ClaimsView, secret: Seq<char>) -> bool {
    signable(encode_utf8(issued_segments(claims, secret).signed_text()), encode_utf8(secret))
}

/// Whether the signature of `parts` is the one that `secret` gives. No
/// signature holds where the text or the secret is too long to be signed.
pub open spec fn signature_holds(parts: Segments, secret: Seq<char>) -> bool {
    &&& signable(encode_utf8(parts.signed_text()), encode_utf8(secret))
    &&& parts.signature == hs256_tag(encode_utf8(parts.signed_text()), encode_utf8(secret))
}

/// The claims that `payload` states: it must be the encoding of a JSON
/// object with the strings `sub`, `email` and `role` and the integer `exp`.
pub open spec fn claims_in(payload: Seq<char>) -> Option<ClaimsView> {
    match decode_spec(payload) {
        Some(json) => match (
            json_string_member(json, "sub"@),
            json_string_member(json, "email"@),
            json_string_member(json, "role"@),
            json_integer_member(json, "exp"@),
        ) {
            (Some(sub), Some(email), Some(role), Some(exp)) => if exp <= usize::MAX {
                Some(ClaimsView { sub, email, role, exp: exp as nat })
            } else {
                None
            },
            _ => None,
        },
        None => None,
    }
}

/// What verifying `token` under `secret` at the time `now` gives: the
/// claims, or the first reason to reject it. The structure is checked
/// first, then the signature, then the payload, then the expiry.
pub open spec fn verify_spec(token: Seq<char>, secret: Seq<char>, now: nat) -> Result<
    ClaimsView,
    AuthError,
> {
    if !is_ascii_chars(token) {
        Err(AuthError::MalformedToken)
    } else {
        match segments(token) {
            None => Err(AuthError::MalformedToken),
            Some(parts) => if !names_hs256(parts.header) {
                Err(AuthError::MalformedToken)
            } else if !signature_holds(parts, secret) {
                Err(AuthError::SignatureInvalid)
            } else {
                match claims_in(parts.payload) {
                    None => Err(AuthError::MalformedToken),
                    Some(claims) => if claims.exp <= now {
                        Err(AuthError::Expired)
                    } else {
                        Ok(claims)
                    },
                }
            },
        }
    }
}

/// The algorithm that `header` names: the member `alg` of the JSON object
/// that it encodes.
pub open spec fn algorithm_in(header: Seq<char>) -> Option<Seq<char>> {
    match decode_spec(header) {
        Some(json) => json_string_member(json, "alg"@),
        None => None,
    }
}

/// The string member `key` of the JSON object that `payload` encodes.
pub open spec fn member_in(payload: Seq<char>, key: Seq<char>) -> Option<Seq<char>> {
    match decode_spec(payload) {
        Some(json) => json_string_member(json, key),
        None => None,
    }
}

/// The member `exp` of the JSON object that `payload` encodes.
pub open spec fn expiry_in(payload: Seq<char>) -> Option<u64> {
    match decode_spec(payload) {
        Some(json) => json_integer_member(json, "exp"@),
        None => None,
    }
}

/// What is decided of a token of three segments once everything has been
/// read from it: the algorithm its header names, whether its signature
/// holds, and the four members of its payload. The header is judged first,
/// then the signature, then the payload, then the expiry.
pub open spec fn decide_spec(
    algorithm: Option<Seq<char>>,
    signed: bool,
    sub: Option<Seq<char>>,
    email: Option<Seq<char>>,
    role: Option<Seq<char>>,
    exp: Option<u64>,
    now: nat,
) -> Result<ClaimsView, AuthError> {
    if algorithm != Some("HS256"@) {
        Err(AuthError::MalformedToken)
    } else if !signed {
        Err(AuthError::SignatureInvalid)
    } else {
        match (sub, email, role, exp) {
            (Some(sub), Some(email), Some(role), Some(exp)) => if exp > usize::MAX {
                Err(AuthError::MalformedToken)
            } else if exp <= now {
                Err(AuthError::Expired)
            } else {
                Ok(ClaimsView { sub, email, role, exp: exp as nat })
            },
            _ => Err(AuthError::MalformedToken),
        }
    }
}

/// Verifying a token of three segments is deciding on what is read from
/// them.
pub proof fn lemma_verify_decides(token: Seq<char>, secret: Seq<char>, now: nat)
    requires
        is_ascii_chars(token),
        segments(token) is Some,
    ensures
        verify_spec(token, secret, now) == decide_spec(
            algorithm_in(segments(token)->0.header),
            signature_holds(segments(token)->0, secret),
            member_in(segments(token)->0.payload, "sub"@),
            member_in(segments(token)->0.payload, "email"@),
            member_in(segments(token)->0.payload, "role"@),
            expiry_in(segments(token)->0.payload),
            now,
        ),
{
}

/// What issuing a token that states `claims` under `secret` gives: the
/// token, or the reason for which there is none.
pub open spec fn issue_spec(claims: ClaimsView, secret: Seq<char>) -> Result<
    Seq<char>,
    IssueError,
> {
    if !reads_back(claims) {
        Err(IssueError::Unreadable)
    } else if !issuable(claims, secret) {
        Err(IssueError::TooLong)
    } else {
        Ok(token_text(claims, secret))
    }
}

/// Whether `token` is the token that states `claims` under `secret` and is
/// sound: it has the three segments it was made of, each written in base64
/// symbols; it verifies under `secret` to `claims` at every time before the
/// expiry; and it is rejected under every secret that gives another
/// signature.
pub open spec fn issued_soundly(token: Seq<char>, claims: ClaimsView, secret: Seq<char>) -> bool {
    let parts = issued_segments(claims, secret);
    &&& token == token_text(claims, secret)
    &&& segments(token) == Some(parts)
    &&& base64url::is_symbols(parts.header)
    &&& base64url::is_symbols(parts.payload)
    &&& base64url::is_symbols(parts.signature)
    &&& algorithm_in(parts.header) == Some("HS256"@)
    &&& signature_holds(parts, secret)
    &&& forall|now: nat|
        now < claims.exp ==> #[trigger] verify_spec(token, secret, now) == Ok::<
            ClaimsView,
            AuthError,
        >(claims)
    &&& forall|other: Seq<char>, now: nat|
        hs256_tag(encode_utf8(parts.signed_text()), encode_utf8(other)) != parts.signature ==> (
        #[trigger] verify_spec(token, other, now)) is Err
}

/// Whether the JSON reader gives back what this codec writes for `claims`:
/// the algorithm from the header, and each claim from the payload.
pub open spec fn reads_back(claims: ClaimsView) -> bool {
    let header = encode_utf8(header_text());
    let payload = encode_utf8(payload_text(claims));
    &&& json_string_member(header, "alg"@) == Some("HS256"@)
    &&& json_string_member(payload, "sub"@) == Some(claims.sub)
    &&& json_string_member(payload, "email"@) == Some(claims.email)
    &&& json_string_member(payload, "role"@) == Some(claims.role)
    &&& json_integer_member(payload, "exp"@) matches Some(exp)
    &&& exp == claims.exp
}

/// Text made of base64 symbols is ASCII and holds no dot.
pub proof fn lemma_symbols_shape(text: Seq<char>)
    requires
        base64url::is_symbols(text),
    ensures
        is_ascii_chars(text),
        !text.contains('.'),
{
    assert forall|i: int| 0 <= i < text.len() implies '\0' <= #[trigger] text[i] <= '\u{7f}'
        && text[i] != '.' by {
        assert(base64url::value(text[i]) is Some);
    }
}

/// Round trip: a token that states `claims` under `secret` verifies under
/// the same secret, at any time before the expiry, to the same claims.
///
/// Beside a token that can be signed at all, two things are asked that no
/// proof can see through: that the signature is written in base64 symbols,
/// which the signing call promises of every tag it returns, and that the
/// JSON reader gives back what was written, which `issue` tests before it
/// signs. So the round trip holds of every token that `issue` returns.
pub proof fn lemma_round_trip(claims: ClaimsView, secret: Seq<char>, now: nat)
    requires
        claims.exp <= usize::MAX,
        now < claims.exp,
        issuable(claims, secret),
        reads_back(claims),
        base64url::is_symbols(issued_segments(claims, secret).signature),
    ensures
        verify_spec(token_text(claims, secret), secret, now) == Ok::<ClaimsView, AuthError>(claims),
{
    let parts = issued_segments(claims, secret);
    let token = token_text(claims, secret);
    base64url::lemma_encoding_shape(encode_utf8(header_text()));
    base64url::lemma_encoding_shape(encode_utf8(payload_text(claims)));
    lemma_symbols_shape(parts.signature);
    assert(is_ascii_chars(token)) by {
        let d1 = parts.header.len() as int;
        let d2 = d1 + 1 + parts.payload.len();
        assert forall|i: int| 0 <= i < token.len() implies '\0' <= #[trigger] token[i]
            <= '\u{7f}' by {
            if i < d1 {
                assert(token[i] == parts.header[i]);
            } else if i == d1 {
            } else if i < d2 {
                assert(token[i] == parts.payload[i - d1 - 1]);
            } else if i == d2 {
            } else {
                assert(token[i] == parts.signature[i - d2 - 1]);
            }
        }
    }
    lemma_segments_of_joined(parts);
    base64url::lemma_decode_encode(encode_utf8(header_text()));
    base64url::lemma_decode_encode(encode_utf8(payload_text(claims)));
    assert(names_hs256(parts.header));
    assert(signature_holds(parts, secret));
    let read = json_integer_member(encode_utf8(payload_text(claims)), "exp"@)->0;
    assert(read as nat == claims.exp);
    assert(claims_in(parts.payload) == Some(claims));
}

/// Another key: a token whose signature is the tag under `secret` is
/// rejected under any `other` secret that gives a different tag, at every
/// time and whatever it states.
pub proof fn lemma_other_key_rejects(
    token: Seq<char>,
    secret: Seq<char>,
    other: Seq<char>,
    now: nat,
)
    requires
        segments(token) is Some,
        signature_holds(segments(token)->0, secret),
        hs256_tag(encode_utf8(segments(token)->0.signed_text()), encode_utf8(other)) != hs256_tag(
            encode_utf8(segments(token)->0.signed_text()),
            encode_utf8(secret),
        ),
    ensures
        verify_spec(token, other, now) is Err,
        verify_spec(token, secret, now) is Ok ==> verify_spec(token, other, now) == Err::<
            ClaimsView,
            AuthError,
        >(AuthError::SignatureInvalid),
{
}

/// Another key, for an issued token: the token that states `claims` under
/// `secret` is rejected under any `other` secret that gives a different
/// tag, at every time.
pub proof fn lemma_issued_rejected_under_other_key(
    claims: ClaimsView,
    secret: Seq<char>,
    other: Seq<char>,
    now: nat,
)
    requires
        base64url::is_symbols(issued_segments(claims, secret).signature),
        hs256_tag(
            encode_utf8(issued_segments(claims, secret).signed_text()),
            encode_utf8(other),
        ) != issued_segments(claims, secret).signature,
    ensures
        verify_spec(token_text(claims, secret), other, now) is Err,
{
    let parts = issued_segments(claims, secret);
    base64url::lemma_encoding_shape(encode_utf8(header_text()));
    base64url::lemma_encoding_shape(encode_utf8(payload_text(claims)));
    lemma_symbols_shape(parts.signature);
    lemma_segments_of_joined(parts);
}

/// A token that can be issued is sound, once its signature is known to be
/// written in base64 symbols, which the signing call promises of every tag
/// it returns.
pub proof fn lemma_issued_soundly(claims: ClaimsView, secret: Seq<char>)
    requires
        claims.exp <= usize::MAX,
        issuable(claims, secret),
        reads_back(claims),
        base64url::is_symbols(issued_segments(claims, secret).signature),
    ensures
        issued_soundly(token_text(claims, secret), claims, secret),
{
    let parts = issued_segments(claims, secret);
    let token = token_text(claims, secret);
    base64url::lemma_encoding_shape(encode_utf8(header_text()));
    base64url::lemma_encoding_shape(encode_utf8(payload_text(claims)));
    base64url::lemma_decode_encode(encode_utf8(header_text()));
    lemma_symbols_shape(parts.signature);
    lemma_segments_of_joined(parts);
    assert forall|now: nat| now < claims.exp implies #[trigger] verify_spec(token, secret, now)
        == Ok::<ClaimsView, AuthError>(claims) by {
        lemma_round_trip(claims, secret, now);
    }
    assert forall|other: Seq<char>, now: nat|
        hs256_tag(encode_utf8(parts.signed_text()), encode_utf8(other))
            != parts.signature implies (#[trigger] verify_spec(token, other, now)) is Err by {
        lemma_issued_rejected_under_other_key(claims, secret, other, now);
    }
}

/// Expiry: a token whose payload states an expiry that `now` has reached
/// is rejected, whether or not its signature holds.
pub proof fn lemma_expired_rejected(token: Seq<char>, secret: Seq<char>, now: nat)
    requires
        segments(token) is Some,
        claims_in(segments(token)->0.payload) is Some,
        claims_in(segments(token)->0.payload)->0.exp <= now,
    ensures
        verify_spec(token, secret, now) is Err,
{
}

/// What verifies has not expired.
pub proof fn lemma_verified_not_expired(token: Seq<char>, secret: Seq<char>, now: nat)
    requires
        verify_spec(token, secret, now) is Ok,
    ensures
        now < verify_spec(token, secret, now)->Ok_0.exp,
{
}

/// Issuing is a function of the claims and the secret alone: the same
/// claims under the same secret give the same token, character for
/// character.
pub proof fn lemma_issue_deterministic(first: Claims, second: Claims, secret: Seq<char>)
    requires
        first@ == second@,
    ensures
        token_text(first@, secret) == token_text(second@, secret),
{
}

/// Writes the payload that states `claims`.
pub fn payload_json(claims: &Claims) -> (text: String)
    ensures
        text@ == payload_text(claims@),
{
    let mut text = String::from_str("{\"sub\":");
    text.append(json::quote(claims.sub.as_str()).unwrap().as_str());
    text.append(",\"email\":");
    text.append(json::quote(claims.email.as_str()).unwrap().as_str());
    text.append(",\"role\":");
    text.append(json::quote(claims.role.as_str()).unwrap().as_str());
    text.append(",\"exp\":");
    push_decimal(&mut text, claims.exp);
    text.append("}");
    text
}

/// Whether the JSON reader gives back from `payload`, the payload written
/// for `claims`, each claim as it is, and the algorithm from the header.
fn read_back(claims: &Claims, payload: &str) -> (r: bool)
    requires
        payload@ == payload_text(claims@),
    ensures
        r == reads_back(claims@),
{
    let algorithm = json::string_member(HEADER_JSON.as_bytes(), "alg");
    let sub = json::string_member(payload.as_bytes(), "sub");
    let email = json::string_member(payload.as_bytes(), "email");
    let role = json::string_member(payload.as_bytes(), "role");
    let exp = json::integer_member(payload.as_bytes(), "exp");
    match (algorithm, sub, email, role, exp) {
        (Some(algorithm), Some(sub), Some(email), Some(role), Some(exp)) => {
            same(algorithm.as_str(), "HS256") && same(sub.as_str(), claims.sub.as_str()) && same(
                email.as_str(),
                claims.email.as_str(),
            ) && same(role.as_str(), claims.role.as_str()) && exp == claims.exp as u64
        },
        _ => false,
    }
}

/// Issues the token that states `claims`, signed with `secret`. What was
/// written is read back before it is signed, so that every token issued
/// verifies under `secret` to the same claims until its expiry; it verifies
/// under no secret that gives another signature.
pub fn issue(claims: &Claims, secret: &str) -> (r: Result<String, IssueError>)
    ensures
        match r {
            Ok(token) => issue_spec(claims@, secret@) == Ok::<Seq<char>, IssueError>(token@)
                && issued_soundly(token@, claims@, secret@),
            Err(e) => issue_spec(claims@, secret@) == Err::<Seq<char>, IssueError>(e),
        },
{
    let written = payload_json(claims);
    if !read_back(claims, written.as_str()) {
        return Err(IssueError::Unreadable);
    }
    let mut token = base64url::encode(HEADER_JSON.as_bytes());
    push_char(&mut token, '.');
    let payload = base64url::encode(written.as_str().as_bytes());
    token.append(payload.as_str());
    assert(token@ =~= issued_segments(claims@, secret@).signed_text());
    if token.as_str().as_bytes().len() as u64 > LONGEST_INPUT || secret.as_bytes().len() as u64
        > LONGEST_INPUT {
        return Err(IssueError::TooLong);
    }
    let tag = mac::sign(token.as_str().as_bytes(), secret.as_bytes()).unwrap();
    push_char(&mut token, '.');
    token.append(tag.as_str());
    proof {
        assert(token@ =~= token_text(claims@, secret@));
        lemma_issued_soundly(claims@, secret@);
    }
    Ok(token)
}

/// Verifies `token` under `secret` at the time `now`, in seconds since the
/// Unix epoch, and returns the claims it states. Everything is read from the
/// token before anything is decided, whatever the order of the reasons.
pub fn verify(token: &str, secret: &str, now: u64) -> (r: Result<Claims, AuthError>)
    ensures
        match r {
            Ok(claims) => verify_spec(token@, secret@, now as nat) == Ok::<ClaimsView, AuthError>(
                claims@,
            ),
            Err(e) => verify_spec(token@, secret@, now as nat) == Err::<ClaimsView, AuthError>(e),
        },
{
    if !token.is_ascii() {
        return Err(AuthError::MalformedToken);
    }
    proof {
        is_ascii_spec_bytes(token);
    }
    let n = token.as_bytes().len();
    assert(n == token@.len());
    let d1 = find_dot(token, 0);
    if d1 >= n {
        assert(next_dot(token@, d1 + 1) == n);
        assert(segments(token@) is None);
        return Err(AuthError::MalformedToken);
    }
    let d2 = find_dot(token, d1 + 1);
    if d2 >= n {
        assert(segments(token@) is None);
        return Err(AuthError::MalformedToken);
    }
    let d3 = find_dot(token, d2 + 1);
    if d3 < n {
        assert(segments(token@) is None);
        return Err(AuthError::MalformedToken);
    }
    assert(segments(token@) is Some);
    let header = token.substring_ascii(0, d1);
    let payload = token.substring_ascii(d1 + 1, d2);
    let signature = token.substring_ascii(d2 + 1, n);
    let signed = token.substring_ascii(0, d2);
    let ghost parts = segments(token@)->0;
    assert(parts.header == header@);
    assert(parts.payload == payload@);
    assert(parts.signature == signature@);
    assert(signed@ =~= parts.signed_text());

    let algorithm = match base64url::decode(header) {
        Some(json) => json::string_member(json.as_slice(), "alg"),
        None => None,
    };
    let signed = if signed.as_bytes().len() as u64 > LONGEST_INPUT || secret.as_bytes().len() as u64
        > LONGEST_INPUT {
        false
    } else {
        match mac::verify(signature, signed.as_bytes(), secret.as_bytes()) {
            Ok(holds) => holds,
            Err(_) => false,
        }
    };
    let (sub, email, role, exp) = match base64url::decode(payload) {
        Some(json) => (
            json::string_member(json.as_slice(), "sub"),
            json::string_member(json.as_slice(), "email"),
            json::string_member(json.as_slice(), "role"),
            json::integer_member(json.as_slice(), "exp"),
        ),
        None => (None, None, None, None),
    };
    proof {
        lemma_verify_decides(token@, secret@, now as nat);
    }
    decide(algorithm, signed, sub, email, role, exp, now)
}

/// The text of a string that may be absent.
pub open spec fn text_of(s: Option<String>) -> Option<Seq<char>> {
    match s {
        Some(s) => Some(s@),
        None => None,
    }
}

/// Decides on a token of three segments once everything has been read from
/// it: `algorithm` is what its header names, `signed` whether its signature
/// holds, and `sub`, `email`, `role` and `exp` the members of its payload.
/// A header that does not name HS256 makes it malformed; then a signature
/// that does not hold makes it invalid; then a member that is missing, or of
/// another type, or an expiry too large for the claims, makes it malformed;
/// then an expiry that `now` has reached makes it expired.
pub fn decide(
    algorithm: Option<String>,
    signed: bool,
    sub: Option<String>,
    email: Option<String>,
    role: Option<String>,
    exp: Option<u64>,
    now: u64,
) -> (r: Result<Claims, AuthError>)
    ensures
        match r {
            Ok(claims) => decide_spec(
                text_of(algorithm),
                signed,
                text_of(sub),
                text_of(email),
                text_of(role),
                exp,
                now as nat,
            ) == Ok::<ClaimsView, AuthError>(claims@),
            Err(e) => decide_spec(
                text_of(algorithm),
                signed,
                text_of(sub),
                text_of(email),
                text_of(role),
                exp,
                now as nat,
            ) == Err::<ClaimsView, AuthError>(e),
        },
{
    let named = match &algorithm {
        Some(algorithm) => same(algorithm.as_str(), "HS256"),
        None => false,
    };
    if !named {
        return Err(AuthError::MalformedToken);
    }
    if !signed {
        return Err(AuthError::SignatureInvalid);
    }
    match (sub, email, role, exp) {
        (Some(sub), Some(email), Some(role), Some(exp)) => {
            if exp > usize::MAX as u64 {
                Err(AuthError::MalformedToken)
            } else if exp <= now {
                Err(AuthError::Expired)
            } else {
                Ok(Claims { sub, email, role, exp: exp as usize })
            }
        },
        _ => Err(AuthError::MalformedToken),
    }
}

} // verus!
