use vstd::prelude::*;
use vstd::string::*;

verus! {

/// A token counts as expired this many milliseconds before its deadline.
pub const EXPIRY_DELTA_MILLIS: u64 = 10_000;

/// Milliseconds in one second.
pub const MILLIS_PER_SECOND: u64 = 1_000;

/// A character that may stand in an HTTP header value: visible ASCII, space,
/// tab, or any non-ASCII character (whose UTF-8 bytes are all at least 0x80).
pub open spec fn header_char_ok(c: char) -> bool {
    c == '\t' || (32 <= c as u32 && c as u32 != 127)
}

/// Text that an HTTP header value can carry.
pub open spec fn header_text_ok(s: Seq<char>) -> bool {
    forall|i: int| 0 <= i < s.len() ==> header_char_ok(#[trigger] s[i])
}

/// The `Authorization` value for a token: its type, one space, the token.
pub open spec fn rendered_header(token_type: Seq<char>, access_token: Seq<char>) -> Seq<char> {
    token_type + seq![' '] + access_token
}

/// The deadline of a token issued at `now` that lives `expires_in` seconds.
pub open spec fn deadline(now: u64, expires_in: u64) -> int {
    now + MILLIS_PER_SECOND * expires_in
}

/// A deadline is reached, for refresh purposes, once fewer than
/// `EXPIRY_DELTA_MILLIS` remain before it, or once it lies in the past.
pub open spec fn expired_at(expiration: u64, now: u64) -> bool {
    expiration < now + EXPIRY_DELTA_MILLIS
}

/// Relies on http's `HeaderValue::from_str`, which accepts a string exactly
/// when each of its bytes is a tab or at least 32 and not 127.
#[verifier::external_body]
fn header_text_valid(s: &str) -> (r: bool)
    ensures
        r == header_text_ok(s@),
{
    hyper::header::HeaderValue::from_str(s).is_ok()
}

/// A bearer credential: the rendered `Authorization` value and the instant,
/// in milliseconds, at which it stops being valid.
#[derive(Debug, Clone)]
pub struct Token {
    pub header_value: String,
    pub expiration: u64,
}

impl Token {
    /// Builds the credential that a token endpoint issued at `now`.
    /// Returns `None` when the rendered value cannot be sent as a header, or
    /// when the deadline lies beyond the last representable instant.
    pub fn new(token_type: &str, access_token: &str, expires_in: u64, now: u64) -> (r: Option<
        Token,
    >)
        ensures
            r.is_some() == (header_text_ok(rendered_header(token_type@, access_token@)) && deadline(
                now,
                expires_in,
            ) <= u64::MAX),
            r matches Some(t) ==> t.header_value@ == rendered_header(token_type@, access_token@)
                && t.expiration == deadline(now, expires_in),
    {
        let mut header = String::from_str(token_type);
        header.append(" ");
        header.append(access_token);
        proof {
            reveal_strlit(" ");
            assert(header@ =~= rendered_header(token_type@, access_token@));
        }
        if !header_text_valid(header.as_str()) {
            return None;
        }
        let room: u64 = (u64::MAX - now) / MILLIS_PER_SECOND;
        if expires_in > room {
            proof {
                assert(MILLIS_PER_SECOND * expires_in > u64::MAX - now) by (nonlinear_arith)
                    requires
                        expires_in > room,
                        room == (u64::MAX - now) / 1000,
                        MILLIS_PER_SECOND == 1000,
                ;
            }
            return None;
        }
        proof {
            assert(MILLIS_PER_SECOND * expires_in <= u64::MAX - now) by (nonlinear_arith)
                requires
                    expires_in <= room,
                    room == (u64::MAX - now) / 1000,
                    MILLIS_PER_SECOND == 1000,
            ;
        }
        Some(Token { header_value: header, expiration: now + MILLIS_PER_SECOND * expires_in })
    }

    /// Whether the credential must be refreshed at `now`.
    pub fn is_expired(&self, now: u64) -> (r: bool)
        ensures
            r == expired_at(self.expiration, now),
    {
        self.expiration < now || self.expiration - now < EXPIRY_DELTA_MILLIS
    }
}

/// Buffered expiry: a credential with fewer than ten seconds left is expired,
/// and one with more than ten seconds left is not.
pub proof fn lemma_buffered_expiry(t: Token, now: u64)
    ensures
        t.expiration < now + EXPIRY_DELTA_MILLIS ==> expired_at(t.expiration, now),
        t.expiration > now + EXPIRY_DELTA_MILLIS ==> !expired_at(t.expiration, now),
{
}

/// A token that lives less than the expiry buffer is already due for refresh
/// when it is issued.
pub proof fn lemma_short_lived_token_is_due(now: u64, expires_in: u64)
    requires
        MILLIS_PER_SECOND * expires_in < EXPIRY_DELTA_MILLIS,
        deadline(now, expires_in) <= u64::MAX,
    ensures
        expired_at(deadline(now, expires_in) as u64, now),
{
}

} // verus!
