//! The credential record itself and its constructors.

use vstd::prelude::*;

verus! {

/// One OAuth credential grant.
///
/// `expiry_timestamp` is derived at construction: `0` when the reported
/// lifetime is absent or not positive (meaning "non-expiring or unknown"),
/// and otherwise the clock reading at construction plus the lifetime.
#[derive(Debug, Clone)]
pub struct TokenData {
    /// Opaque bearer credential; required, carried verbatim.
    pub access_token: String,
    /// Present only when the authorization server issued one.
    pub refresh_token: Option<String>,
    /// Relative lifetime in seconds at issuance; `0` means absent or unknown.
    pub expires_in: i64,
    /// Absolute Unix-epoch-seconds instant after which the access token is
    /// considered expired; `0` means "no known expiry".
    pub expiry_timestamp: i64,
    /// Credential scheme label; always the literal `"Bearer"`.
    pub token_type: String,
    /// Optional human-readable account identifier.
    pub email: Option<String>,
    /// Optional external-system project identifier, carried opaquely.
    pub project_id: Option<String>,
    /// Optional opaque session identifier.
    pub session_id: Option<String>,
}

/// The mathematical model of a record: strings as character sequences and
/// counters as unbounded integers.
pub struct TokenModel {
    pub access_token: Seq<char>,
    pub refresh_token: Option<Seq<char>>,
    pub expires_in: int,
    pub expiry_timestamp: int,
    pub token_type: Seq<char>,
    pub email: Option<Seq<char>>,
    pub project_id: Option<Seq<char>>,
    pub session_id: Option<Seq<char>>,
}

/// The model of an optional string: the character sequence when present.
pub open spec fn opt_view(o: Option<String>) -> Option<Seq<char>> {
    match o {
        Some(s) => Some(s@),
        None => None,
    }
}

impl View for TokenData {
    type V = TokenModel;

    open spec fn view(&self) -> TokenModel {
        TokenModel {
            access_token: self.access_token@,
            refresh_token: opt_view(self.refresh_token),
            expires_in: self.expires_in as int,
            expiry_timestamp: self.expiry_timestamp as int,
            token_type: self.token_type@,
            email: opt_view(self.email),
            project_id: opt_view(self.project_id),
            session_id: opt_view(self.session_id),
        }
    }
}

/// The lifetime as the constructor reads it: absent counts as zero.
pub open spec fn normalized_lifetime(expires_in: Option<i64>) -> int {
    match expires_in {
        Some(e) => e as int,
        None => 0,
    }
}

/// The expiry rule: a positive lifetime expires that many seconds after
/// `now`; any other lifetime leaves the sentinel `0`.
pub open spec fn spec_expiry(lifetime: int, now: int) -> int {
    if lifetime > 0 {
        now + lifetime
    } else {
        0
    }
}

/// Relies on `chrono::Utc::now` followed by `DateTime::timestamp`: the
/// current system time as whole non-leap seconds since the Unix epoch.
/// `Utc::now` builds the instant from the duration since the epoch (it
/// panics when the system clock is set before the epoch), so a returned
/// reading is never negative; beyond that the result depends on the wall
/// clock and nothing more is promised of it.
#[verifier::external_body]
fn now_unix_seconds() -> (r: i64)
    ensures
        0 <= r,
{
    chrono::Utc::now().timestamp()
}

impl TokenData {
    /// Builds a record from grant data and an explicit clock reading `now`
    /// (seconds since the Unix epoch), so that the expiry derivation is a
    /// pure computation.
    pub fn new_at(
        access_token: String,
        refresh_token: Option<String>,
        expires_in: Option<i64>,
        email: Option<String>,
        project_id: Option<String>,
        session_id: Option<String>,
        now: i64,
    ) -> (r: TokenData)
        requires
            normalized_lifetime(expires_in) > 0 ==> now + normalized_lifetime(expires_in)
                <= i64::MAX,
        ensures
            r.access_token == access_token,
            r.refresh_token == refresh_token,
            r.expires_in as int == normalized_lifetime(expires_in),
            r.expiry_timestamp as int == spec_expiry(normalized_lifetime(expires_in), now as int),
            r.token_type@ == "Bearer"@,
            r.email == email,
            r.project_id == project_id,
            r.session_id == session_id,
            normalized_lifetime(expires_in) <= 0 ==> r.expiry_timestamp == 0,
            normalized_lifetime(expires_in) > 0 ==> r.expiry_timestamp as int
                - normalized_lifetime(expires_in) == now as int,
    {
        let lifetime: i64 = match expires_in {
            Some(e) => e,
            None => 0,
        };
        let expiry_timestamp: i64 = if lifetime > 0 {
            now + lifetime
        } else {
            0
        };
        TokenData {
            access_token,
            refresh_token,
            expires_in: lifetime,
            expiry_timestamp,
            token_type: "Bearer".to_owned(),
            email,
            project_id,
            session_id,
        }
    }

    /// Builds a record as the grant is received, reading the system clock
    /// once when the reported lifetime is positive. Should that reading
    /// plus the lifetime exceed the largest representable instant, the
    /// expiry saturates there.
    pub fn new(
        access_token: String,
        refresh_token: Option<String>,
        expires_in: Option<i64>,
        email: Option<String>,
        project_id: Option<String>,
        session_id: Option<String>,
    ) -> (r: TokenData)
        ensures
            r.access_token == access_token,
            r.refresh_token == refresh_token,
            r.expires_in as int == normalized_lifetime(expires_in),
            r.token_type@ == "Bearer"@,
            r.email == email,
            r.project_id == project_id,
            r.session_id == session_id,
            (r.expiry_timestamp == 0) <==> (normalized_lifetime(expires_in) <= 0),
            normalized_lifetime(expires_in) > 0 ==> r.expiry_timestamp
                >= normalized_lifetime(expires_in),
            normalized_lifetime(expires_in) > 0 ==> (exists|now: int|
                0 <= now && r.expiry_timestamp as int == #[trigger] spec_expiry(
                    normalized_lifetime(expires_in),
                    now,
                )),
    {
        let positive: bool = match expires_in {
            Some(e) => e > 0,
            None => false,
        };
        if positive {
            let lifetime: i64 = match expires_in {
                Some(e) => e,
                None => 0,
            };
            let t: i64 = now_unix_seconds();
            let clock: i64 = if t <= i64::MAX - lifetime {
                t
            } else {
                i64::MAX - lifetime
            };
            let r = TokenData::new_at(
                access_token,
                refresh_token,
                expires_in,
                email,
                project_id,
                session_id,
                clock,
            );
            proof {
                assert(r.expiry_timestamp as int == spec_expiry(
                    normalized_lifetime(expires_in),
                    clock as int,
                ));
            }
            r
        } else {
            TokenData::new_at(
                access_token,
                refresh_token,
                expires_in,
                email,
                project_id,
                session_id,
                0,
            )
        }
    }
}

} // verus!
