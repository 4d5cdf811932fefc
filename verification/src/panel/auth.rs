//! Logins, TOTP and session tokens.

use vstd::prelude::*;
use vstd::string::StringSliceAdditionalSpecFns;

verus! {

#[derive(Debug)]
pub struct LoginRequest {
    pub email:    String,
    pub password: String,
}

#[derive(Debug)]
pub struct TotpRequest {
    pub token: String,
    pub code:  String,
}

#[derive(Debug)]
pub struct BackupCodeRequest {
    pub token: String,
    pub code:  String,
}

#[derive(Debug)]
pub struct RefreshRequest {
    pub refresh_token: String,
}

#[derive(Debug)]
pub struct SetupTotpRequest {

}

#[derive(Debug)]
pub struct ConfirmTotpRequest {
    pub totp_code: String,
}

#[derive(Debug)]
pub struct SetupTotpResponse {
    pub secret:           String,
    pub provisioning_uri: String,
    pub backup_codes:     Vec<String>,
}


/// Failed logins after which an account is locked.
pub const MAX_FAILED_LOGINS: i32 = 10;

/// How long a lock lasts, in seconds (15 minutes).
pub const LOCK_SECONDS: i64 = 900;

/// Lifetime of the interim token of the password step, in seconds.
pub const INTERIM_TOKEN_SECONDS: i64 = 120;

/// Lifetime of a session token, in seconds (8 hours).
pub const SESSION_SECONDS: i64 = 28800;

/// What the login handler knows of the account named in a login request.
#[derive(Debug, Clone, Copy)]
pub struct LoginAccount {
    /// Consecutive failed logins so far.
    pub failed_login_count: i32,
    /// When the account's lock ends (Unix seconds), if it was locked.
    pub locked_until: Option<i64>,
    /// Whether TOTP is set up for the account.
    pub totp_enabled: bool,
}

/// The outcome of the password step of a login.
#[derive(Debug, Clone, Copy, PartialEq, Eq)]
pub enum LoginDecision {
    /// Unknown account: invalid credentials.
    UnknownAccount,
    /// The account is locked for this many more seconds.
    Locked(u64),
    /// Wrong password: store the new failure count and lock end, then
    /// answer invalid credentials.
    BadPassword { failed_login_count: i32, locked_until: Option<i64> },
    /// Right password: reset the counters and issue an interim token
    /// expiring at `interim_exp`; without TOTP also a session token expiring
    /// at `session_exp`.
    Success { totp_required: bool, interim_exp: i64, session_exp: Option<i64> },
}

/// The password step of a login for an account (if it exists), the
/// password check's result and the current time: a locked account is
/// refused before its password is looked at; the tenth consecutive failure
/// locks the account for 15 minutes.
pub open spec fn login_decision_of(account: Option<LoginAccount>, password_ok: bool, now: i64) -> LoginDecision {
    match account {
        None => LoginDecision::UnknownAccount,
        Some(a) => match a.locked_until {
            Some(t) if t > now => LoginDecision::Locked((t - now) as u64),
            _ => if !password_ok {
                let n = a.failed_login_count + 1;
                LoginDecision::BadPassword {
                    failed_login_count: n as i32,
                    locked_until: if n >= 10 { Some((now + 900) as i64) } else { None },
                }
            } else {
                LoginDecision::Success {
                    totp_required: a.totp_enabled,
                    interim_exp: (now + 120) as i64,
                    session_exp: if a.totp_enabled { None } else { Some((now + 28800) as i64) },
                }
            },
        },
    }
}

/// Decides the password step of a login.
pub fn login(account: Option<LoginAccount>, password_ok: bool, now: i64) -> (r: LoginDecision)
    requires
        now <= i64::MAX - 28800,
        account matches Some(a) ==> a.failed_login_count < i32::MAX,
        account matches Some(a) ==> (a.locked_until matches Some(t) ==> t - now <= i64::MAX),
    ensures
        r == login_decision_of(account, password_ok, now),
{
    match account {
        None => LoginDecision::UnknownAccount,
        Some(a) => {
            match a.locked_until {
                Some(t) => {
                    if t > now {
                        return LoginDecision::Locked((t - now) as u64);
                    }
                },
                None => {},
            }
            if !password_ok {
                let n = a.failed_login_count + 1;
                let lock = if n >= MAX_FAILED_LOGINS { Some(now + LOCK_SECONDS) } else { None };
                LoginDecision::BadPassword { failed_login_count: n, locked_until: lock }
            } else {
                let session = if a.totp_enabled { None } else { Some(now + SESSION_SECONDS) };
                LoginDecision::Success {
                    totp_required: a.totp_enabled,
                    interim_exp: now + INTERIM_TOKEN_SECONDS,
                    session_exp: session,
                }
            }
        },
    }
}

/// A locked account is refused whatever password was given.
pub proof fn lemma_locked_refused(a: LoginAccount, password_ok: bool, now: i64)
    requires
        a.locked_until matches Some(t) && t > now,
    ensures
        login_decision_of(Some(a), password_ok, now) is Locked,
{
}

/// The tenth consecutive failure locks the account, and fewer do not.
pub proof fn lemma_lock_after_ten_failures(a: LoginAccount, now: i64)
    requires
        !(a.locked_until matches Some(t) && t > now),
        a.failed_login_count < i32::MAX,
    ensures
        login_decision_of(Some(a), false, now) matches LoginDecision::BadPassword { locked_until, .. }
            && (locked_until is Some <==> a.failed_login_count + 1 >= 10) && (locked_until matches Some(t)
            ==> t == now + 900 || now > i64::MAX - 900),
{
}

/// The tenth consecutive failure at `now` stores ten failures and a lock
/// until `now + 900`; from then until the lock ends, every login is refused
/// as locked, whatever the password, and changes nothing stored.
pub proof fn lemma_lock_holds(a: LoginAccount, now: i64, later: i64, password_ok: bool)
    requires
        a.failed_login_count == 9,
        !(a.locked_until matches Some(t) && t > now),
        now <= i64::MAX - 28800,
        now <= later < now + 900,
    ensures
        login_decision_of(Some(a), false, now) == (LoginDecision::BadPassword {
            failed_login_count: 10,
            locked_until: Some((now + 900) as i64),
        }),
        login_decision_of(
            Some(LoginAccount { failed_login_count: 10, locked_until: Some((now + 900) as i64), ..a }),
            password_ok,
            later,
        ) == LoginDecision::Locked((now + 900 - later) as u64),
{
}

/// The claims of a token the panel signs; the signer adds its random id.
#[derive(Debug)]
pub struct TokenClaims {
    pub sub: String,
    pub email: String,
    pub role: String,
    pub iat: i64,
    pub exp: i64,
    pub wizard_complete: bool,
    pub totp_verified: bool,
    pub impersonated_by: Option<String>,
}

/// Who a token is for: the account's id, e-mail address, role and whether
/// it finished the setup wizard.
#[derive(Debug)]
pub struct AccountIdentity {
    pub user_id: String,
    pub email: String,
    pub role: String,
    pub wizard_complete: bool,
}

/// The claims of a token for an account, issued at `now` for `lifetime`
/// seconds.
pub open spec fn claims_for(
    c: TokenClaims,
    who: AccountIdentity,
    now: i64,
    lifetime: int,
    totp_verified: bool,
    impersonated_by: Option<Seq<char>>,
) -> bool {
    &&& c.sub@ == who.user_id@
    &&& c.email@ == who.email@
    &&& c.role@ == who.role@
    &&& c.iat == now
    &&& c.exp == now + lifetime
    &&& c.wizard_complete == who.wizard_complete
    &&& c.totp_verified == totp_verified
    &&& match (c.impersonated_by, impersonated_by) {
        (Some(x), Some(y)) => x@ == y,
        (None, None) => true,
        _ => false,
    }
}

/// Builds the claims of a token for an account.
pub fn token_claims(
    who: &AccountIdentity,
    now: i64,
    lifetime: i64,
    totp_verified: bool,
    impersonated_by: Option<&str>,
) -> (r: TokenClaims)
    requires
        0 <= lifetime,
        now <= i64::MAX - lifetime,
    ensures
        claims_for(
            r,
            *who,
            now,
            lifetime as int,
            totp_verified,
            match impersonated_by {
                Some(x) => Some(x@),
                None => None,
            },
        ),
{
    TokenClaims {
        sub: String::from_str(who.user_id.as_str()),
        email: String::from_str(who.email.as_str()),
        role: String::from_str(who.role.as_str()),
        iat: now,
        exp: now + lifetime,
        wizard_complete: who.wizard_complete,
        totp_verified,
        impersonated_by: match impersonated_by {
            Some(x) => Some(String::from_str(x)),
            None => None,
        },
    }
}

/// What a successful password step hands out: an interim token for the
/// TOTP step, and without TOTP also a session token with the account's
/// identity.
#[derive(Debug)]
pub struct LoginGrant {
    pub interim: TokenClaims,
    pub totp_required: bool,
    pub session: Option<TokenClaims>,
    pub expires_in: Option<i64>,
    pub user_id: Option<String>,
    pub email: Option<String>,
    pub role: Option<String>,
    pub wizard_complete: Option<bool>,
}

/// The tokens and answer of a successful password step at `now`: an interim
/// token that is not TOTP-verified and lasts two minutes; when the account
/// has no TOTP, also a TOTP-verified session token for eight hours, its
/// lifetime in seconds and the account's identity.
pub fn login_grant(who: &AccountIdentity, totp_required: bool, now: i64) -> (r: LoginGrant)
    requires
        now <= i64::MAX - 28800,
    ensures
        claims_for(r.interim, *who, now, 120, false, None),
        r.totp_required == totp_required,
        totp_required ==> r.session is None && r.expires_in is None && r.user_id is None && r.email is None
            && r.role is None && r.wizard_complete is None,
        !totp_required ==> (r.session matches Some(c) && claims_for(c, *who, now, 28800, true, None)),
        !totp_required ==> r.expires_in == Some(28800i64),
        !totp_required ==> (r.user_id matches Some(u) && u@ == who.user_id@),
        !totp_required ==> (r.email matches Some(e) && e@ == who.email@),
        !totp_required ==> (r.role matches Some(x) && x@ == who.role@),
        !totp_required ==> r.wizard_complete == Some(who.wizard_complete),
{
    let interim = token_claims(who, now, INTERIM_TOKEN_SECONDS, false, None);
    if totp_required {
        LoginGrant {
            interim,
            totp_required,
            session: None,
            expires_in: None,
            user_id: None,
            email: None,
            role: None,
            wizard_complete: None,
        }
    } else {
        let session = token_claims(who, now, SESSION_SECONDS, true, None);
        LoginGrant {
            interim,
            totp_required,
            session: Some(session),
            expires_in: Some(SESSION_SECONDS),
            user_id: Some(String::from_str(who.user_id.as_str())),
            email: Some(String::from_str(who.email.as_str())),
            role: Some(String::from_str(who.role.as_str())),
            wizard_complete: Some(who.wizard_complete),
        }
    }
}

/// How long a logged-out token stays on the blocklist: the seconds until it
/// expires, or none when it already has.
pub fn logout_ttl(exp: i64, now: i64) -> (r: u64)
    requires
        now >= 0,
        exp >= 0,
    ensures
        r == (if exp > now { (exp - now) as u64 } else { 0 }),
{
    if exp > now {
        (exp - now) as u64
    } else {
        0
    }
}

/// An interim token that was already TOTP-verified cannot be used for the
/// second step.
pub fn second_step_allowed(totp_verified: bool) -> (r: bool)
    ensures
        r == !totp_verified,
{
    !totp_verified
}

/// `b` is a byte URL encoding leaves as it is: an ASCII letter or digit,
/// `-`, `_`, `.` or `~`.
pub open spec fn url_unreserved(b: u8) -> bool {
    (48 <= b <= 57) || (65 <= b <= 90) || (97 <= b <= 122) || b == 45 || b == 95 || b == 46 || b == 126
}

/// Upper-case hexadecimal digit of a nibble.
pub open spec fn upper_hex_digit(n: u8) -> char {
    if n < 10 {
        ((n + 48) as u32) as char
    } else {
        ((n + 55) as u32) as char
    }
}

/// Percent-encoding of UTF-8 bytes: unreserved bytes as they are, any other
/// byte as `%` and two upper-case hex digits.
pub open spec fn url_encoded(bytes: Seq<u8>) -> Seq<char>
    decreases bytes.len(),
{
    if bytes.len() == 0 {
        Seq::empty()
    } else {
        let b = bytes.last();
        url_encoded(bytes.drop_last()) + if url_unreserved(b) {
            seq![(b as u32) as char]
        } else {
            seq!['%', upper_hex_digit(b / 16), upper_hex_digit(b % 16)]
        }
    }
}

fn upper_hex_char(n: u8) -> (c: char)
    requires
        n < 16,
    ensures
        c == upper_hex_digit(n),
{
    if n < 10 {
        (48u8 + n) as char
    } else {
        (55u8 + n) as char
    }
}

/// Percent-encodes text for a URL component (as `urlencoding::encode`).
pub fn url_encode(s: &str) -> (r: String)
    ensures
        r@ == url_encoded(s.spec_bytes()),
{
    let b = s.as_bytes();
    let mut out: Vec<char> = Vec::new();
    let mut i: usize = 0;
    while i < b.len()
        invariant
            i <= b@.len(),
            b@ == s.spec_bytes(),
            out@ == url_encoded(b@.take(i as int)),
        decreases b@.len() - i,
    {
        assert(b@.take(i + 1).drop_last() =~= b@.take(i as int));
        let x = b[i];
        let ghost before = out@;
        if (48 <= x && x <= 57) || (65 <= x && x <= 90) || (97 <= x && x <= 122) || x == 45 || x == 95
            || x == 46 || x == 126 {
            out.push(x as char);
        } else {
            out.push('%');
            out.push(upper_hex_char(x / 16));
            out.push(upper_hex_char(x % 16));
        }
        assert(out@ =~= url_encoded(b@.take(i + 1)));
        i = i + 1;
    }
    assert(b@.take(b@.len() as int) =~= b@);
    crate::text::string_from_chars(&out)
}

/// The `otpauth://` URI an authenticator app scans.
pub fn provisioning_uri(email: &str, secret_b32: &str) -> (r: String)
    ensures
        r@ == "otpauth://totp/JottiCP:"@ + url_encoded(email.spec_bytes()) + "?secret="@ + secret_b32@
            + "&issuer=JottiCP"@,
{
    let mut r = String::from_str("otpauth://totp/JottiCP:");
    let e = url_encode(email);
    r.append(e.as_str());
    r.append("?secret=");
    r.append(secret_b32);
    r.append("&issuer=JottiCP");
    r
}

/// How long a refresh token lives, in seconds (30 days).
pub const REFRESH_TOKEN_SECONDS: u64 = 2592000;

/// The cache key a refresh token is stored under.
pub fn refresh_key(token: &str) -> (r: String)
    ensures
        r@ == "refresh:"@ + token@,
{
    let mut r = String::from_str("refresh:");
    r.append(token);
    r
}

/// What Argon2 verification (`Argon2::default()` as `PasswordVerifier`)
/// says of a secret and a stored PHC hash string: whether the secret
/// matches, or the text of the error from parsing the hash string.
pub uninterp spec fn argon2_check_of(secret: Seq<u8>, hash: Seq<char>) -> Result<bool, Seq<char>>;

/// `PasswordHash::new` on the stored hash, then `verify_password` with
/// default Argon2: `Ok(true)` when the secret matches, `Ok(false)` when it
/// does not, the parse error's text when the hash string is malformed. The
/// result is named, not described.
#[verifier::external_body]
fn argon2_check(secret: &[u8], hash: &str) -> (r: Result<bool, String>)
    ensures
        match r {
            Ok(b) => argon2_check_of(secret@, hash@) == Ok::<bool, Seq<char>>(b),
            Err(e) => argon2_check_of(secret@, hash@) == Err::<bool, Seq<char>>(e@),
        },
{
    match argon2::password_hash::PasswordHash::new(hash) {
        Ok(parsed) => Ok(argon2::PasswordVerifier::verify_password(&argon2::Argon2::default(), secret, &parsed).is_ok()),
        Err(e) => Err(e.to_string()),
    }
}

/// `Argon2::default().hash_password` with a salt from `SaltString::generate`
/// over `OsRng`: the PHC string of the hash, or the error's text. The salt
/// is random, so the hash is not named; a hash it returns verifies the
/// secret it was made from. With the default parameters, the 16-byte
/// generated salt and the default 32-byte output, the only check that can
/// refuse is the password length (`MAX_PWD_LEN`, 0xFFFFFFFF bytes), so a
/// secret within it is always hashed.
#[verifier::external_body]
fn argon2_hash(secret: &[u8]) -> (r: Result<String, String>)
    ensures
        secret@.len() <= 0xFFFF_FFFF ==> r is Ok,
        match r {
            Ok(h) => argon2_check_of(secret@, h@) == Ok::<bool, Seq<char>>(true),
            Err(_) => true,
        },
{
    let salt = argon2::password_hash::SaltString::generate(&mut argon2::password_hash::rand_core::OsRng);
    match argon2::PasswordHasher::hash_password(&argon2::Argon2::default(), secret, &salt) {
        Ok(h) => Ok(h.to_string()),
        Err(e) => Err(e.to_string()),
    }
}

/// Hashes a password for storage with Argon2 and a random salt; the hash
/// verifies the password.
pub fn hash_password(password: &str) -> (r: Result<String, String>)
    ensures
        password.spec_bytes().len() <= 0xFFFF_FFFF ==> r is Ok,
        r matches Ok(h) ==> argon2_check_of(password.spec_bytes(), h@) == Ok::<bool, Seq<char>>(true),
        r matches Err(m) ==> exists|e: Seq<char>| m@ == "Argon2 error: "@ + e,
{
    match argon2_hash(password.as_bytes()) {
        Ok(h) => Ok(h),
        Err(e) => Err(crate::text::concat2("Argon2 error: ", e.as_str())),
    }
}

/// What checking a password against a stored hash answers: whether it
/// matches, or the refusal of a malformed hash.
pub open spec fn password_check_outcome(password: Seq<u8>, hash: Seq<char>) -> Result<bool, Seq<char>> {
    match argon2_check_of(password, hash) {
        Ok(b) => Ok(b),
        Err(e) => Err("Invalid password hash in DB: "@ + e),
    }
}

/// A hash made from a password checks out against that password. The
/// `requires` is what `hash_password` ensures of every hash it returns; the
/// `ensures` is what `verify_password` then answers for that password and
/// hash: `Ok(true)`.
pub proof fn lemma_hash_then_verify(password: Seq<u8>, hash: Seq<char>)
    requires
        argon2_check_of(password, hash) == Ok::<bool, Seq<char>>(true),
    ensures
        password_check_outcome(password, hash) == Ok::<bool, Seq<char>>(true),
{
}

/// Checks a password against its stored Argon2 hash; refused when the
/// stored hash is malformed.
pub fn verify_password(password: &str, hash: &str) -> (r: Result<bool, String>)
    ensures
        match argon2_check_of(password.spec_bytes(), hash@) {
            Ok(b) => r == Ok::<bool, String>(b),
            Err(e) => r matches Err(m) && m@ == "Invalid password hash in DB: "@ + e,
        },
        match r {
            Ok(b) => password_check_outcome(password.spec_bytes(), hash@) == Ok::<bool, Seq<char>>(b),
            Err(m) => password_check_outcome(password.spec_bytes(), hash@) == Err::<bool, Seq<char>>(m@),
        },
{
    match argon2_check(password.as_bytes(), hash) {
        Ok(b) => Ok(b),
        Err(e) => Err(crate::text::concat2("Invalid password hash in DB: ", e.as_str())),
    }
}

/// Hashes a backup code with Argon2 and a random salt; `None` when hashing
/// fails, which happens only for a code longer than 0xFFFFFFFF bytes.
pub fn hash_backup_code(code: &str) -> (r: Option<String>)
    ensures
        code.spec_bytes().len() <= 0xFFFF_FFFF ==> r is Some,
        r matches Some(h) ==> argon2_check_of(code.spec_bytes(), h@) == Ok::<bool, Seq<char>>(true),
{
    match argon2_hash(code.as_bytes()) {
        Ok(h) => Some(h),
        Err(_) => None,
    }
}

/// A backup code matches a stored hash: it verifies, and the hash is well
/// formed.
pub open spec fn backup_code_matches(code: Seq<u8>, hash: Seq<char>) -> bool {
    argon2_check_of(code, hash) == Ok::<bool, Seq<char>>(true)
}

/// Whether a backup code matches its stored Argon2 hash (a malformed hash
/// matches nothing).
pub fn verify_backup_code(code: &str, hash: &str) -> (r: bool)
    ensures
        r == backup_code_matches(code.spec_bytes(), hash@),
{
    match argon2_check(code.as_bytes(), hash) {
        Ok(b) => b,
        Err(_) => false,
    }
}

/// Spends a backup code: the first stored hash it matches is removed; `None`
/// when it matches none.
pub fn use_backup_code(hashes: Vec<String>, code: &str) -> (r: Option<Vec<String>>)
    ensures
        (forall|i: int| 0 <= i < hashes@.len() ==> !backup_code_matches(code.spec_bytes(), #[trigger] hashes@[i]@))
            <==> r is None,
        r matches Some(rest) ==> exists|k: int|
            0 <= k < hashes@.len() && backup_code_matches(code.spec_bytes(), hashes@[k]@) && (forall|j: int|
                0 <= j < k ==> !backup_code_matches(code.spec_bytes(), #[trigger] hashes@[j]@)) && rest@
                == hashes@.remove(k),
{
    let mut i: usize = 0;
    while i < hashes.len()
        invariant
            i <= hashes@.len(),
            forall|j: int| 0 <= j < i ==> !backup_code_matches(code.spec_bytes(), #[trigger] hashes@[j]@),
        decreases hashes@.len() - i,
    {
        if verify_backup_code(code, hashes[i].as_str()) {
            let mut rest = hashes;
            rest.remove(i);
            return Some(rest);
        }
        i = i + 1;
    }
    None
}


/// Digits in a TOTP code.
pub const TOTP_DIGITS: usize = 6;

/// Time steps before and after the current one whose codes are accepted too.
pub const TOTP_SKEW: u8 = 1;

/// Seconds one TOTP code stays current.
pub const TOTP_STEP: u64 = 30;

/// Bytes in a freshly generated TOTP secret (160 bits).
pub const TOTP_SECRET_BYTES: usize = 20;

/// Backup codes handed out when TOTP is switched on.
pub const BACKUP_CODE_COUNT: usize = 8;

/// Characters in one backup code.
pub const BACKUP_CODE_LEN: usize = 12;

/// What `base32::encode` with the RFC 4648 alphabet and no padding gives
/// for some bytes.
pub uninterp spec fn base32_text_of(bytes: Seq<u8>) -> Seq<char>;

/// What `base32::decode` with the RFC 4648 alphabet and no padding gives
/// for a text: the bytes, or none when the text is not base32.
pub uninterp spec fn base32_bytes_of(text: Seq<char>) -> Option<Seq<u8>>;

/// `base32::encode` with the RFC 4648 alphabet and no padding. The text is
/// named, not described; decoding it gives the same bytes back (the crate's
/// own round-trip test for this alphabet checks that).
#[verifier::external_body]
fn base32_encode(bytes: &[u8]) -> (r: String)
    ensures
        r@ == base32_text_of(bytes@),
        base32_bytes_of(r@) == Some::<Seq<u8>>(bytes@),
{
    base32::encode(base32::Alphabet::Rfc4648 { padding: false }, bytes)
}

/// `base32::decode` with the RFC 4648 alphabet and no padding: the bytes,
/// or `None` when the text is not base32. Named, not described.
#[verifier::external_body]
fn base32_decode(text: &str) -> (r: Option<Vec<u8>>)
    ensures
        match r {
            Some(b) => base32_bytes_of(text@) == Some::<Seq<u8>>(b@),
            None => base32_bytes_of(text@) is None,
        },
{
    base32::decode(base32::Alphabet::Rfc4648 { padding: false }, text)
}

/// A TOTP generator of the `totp-rs` crate.
#[verifier::external_type_specification]
#[verifier::external_body]
pub struct ExTotp(totp_rs::TOTP);

/// `totp_rs::TOTP::new` with SHA-1: it refuses, with the error's text,
/// exactly when the digits are not between 6 and 8 or the secret is
/// shorter than 16 bytes (128 bits). A step of zero, which `new` accepts,
/// would divide by zero when a code is checked, so it is left out here.
#[verifier::external_body]
fn totp_new(digits: usize, skew: u8, step: u64, secret: Vec<u8>) -> (r: Result<totp_rs::TOTP, String>)
    requires
        step > 0,
    ensures
        r is Ok <==> (6 <= digits <= 8 && secret@.len() >= 16),
{
    match totp_rs::TOTP::new(totp_rs::Algorithm::SHA1, digits, skew, step, secret) {
        Ok(t) => Ok(t),
        Err(e) => Err(e.to_string()),
    }
}

/// `TOTP::check_current`: whether the code is one of those the secret gives
/// for the current time step or its neighbours, or the error's text when
/// the system clock reads before 1970. Nothing is stated of the result: it
/// rests on the clock.
#[verifier::external_body]
fn totp_check_current(totp: &totp_rs::TOTP, code: &str) -> (r: Result<bool, String>)
{
    match totp.check_current(code) {
        Ok(b) => Ok(b),
        Err(e) => Err(e.to_string()),
    }
}

/// The outcome of checking a TOTP code against a stored base32 secret.
#[derive(Debug, Clone, PartialEq, Eq)]
pub enum TotpCheck {
    /// The code is current.
    Accepted,
    /// The code is not current.
    Rejected,
    /// The stored secret is not base32.
    BadSecret,
    /// The decoded secret was refused as a TOTP key (too short), with the
    /// error's text.
    Setup(String),
    /// The clock could not be read, with the error's text.
    Clock(String),
}

/// The outcome for what the clock-based check returned.
pub fn totp_check_answer(check: Result<bool, String>) -> (r: TotpCheck)
    ensures
        match check {
            Ok(true) => r == TotpCheck::Accepted,
            Ok(false) => r == TotpCheck::Rejected,
            Err(e) => r == TotpCheck::Clock(e),
        },
{
    match check {
        Ok(true) => TotpCheck::Accepted,
        Ok(false) => TotpCheck::Rejected,
        Err(e) => TotpCheck::Clock(e),
    }
}

/// Checks a TOTP code (SHA-1, six digits, 30-second steps, one step of
/// skew) against a stored base32 secret. A secret that is not base32, or
/// decodes to fewer than 16 bytes, is refused before the clock is read;
/// otherwise the code is accepted or rejected by the current time.
pub fn check_totp_code(secret_b32: &str, code: &str) -> (r: TotpCheck)
    ensures
        r is BadSecret <==> base32_bytes_of(secret_b32@) is None,
        r is Setup <==> (base32_bytes_of(secret_b32@) matches Some(b) && b.len() < 16),
        (base32_bytes_of(secret_b32@) matches Some(b) && b.len() >= 16) ==> (r is Accepted || r is Rejected
            || r is Clock),
{
    match base32_decode(secret_b32) {
        None => TotpCheck::BadSecret,
        Some(bytes) => match totp_new(TOTP_DIGITS, TOTP_SKEW, TOTP_STEP, bytes) {
            Err(e) => TotpCheck::Setup(e),
            Ok(totp) => totp_check_answer(totp_check_current(&totp, code)),
        },
    }
}

/// The cache key a pending TOTP secret is kept under during setup.
pub fn totp_setup_key(user_id: &str) -> (r: String)
    ensures
        r@ == "jottiecp:totp_setup:"@ + user_id@,
{
    let mut r = String::from_str("jottiecp:totp_setup:");
    r.append(user_id);
    r
}

/// A new TOTP secret and the URI that provisions it for an account.
#[derive(Debug)]
pub struct TotpSetup {
    /// The secret in base32 (RFC 4648, no padding).
    pub secret: String,
    /// The `otpauth://` URI for the account's e-mail address.
    pub provisioning_uri: String,
}

/// Starts TOTP setup: 20 fresh random bytes, in base32, and the URI for the
/// account's e-mail address. The secret decodes back to those 20 bytes, so
/// it is never refused as a TOTP key.
pub fn setup_totp(email: &str) -> (r: TotpSetup)
    ensures
        exists|b: Seq<u8>| b.len() == 20 && r.secret@ == base32_text_of(b) && base32_bytes_of(r.secret@)
            == Some::<Seq<u8>>(b),
        r.provisioning_uri@ == "otpauth://totp/JottiCP:"@ + url_encoded(email.spec_bytes()) + "?secret="@
            + r.secret@ + "&issuer=JottiCP"@,
{
    let bytes = crate::panel::apps::random_bytes(TOTP_SECRET_BYTES);
    let secret = base32_encode(bytes.as_slice());
    let uri = provisioning_uri(email, secret.as_str());
    TotpSetup { secret, provisioning_uri: uri }
}

/// `c` is an ASCII letter or digit.
pub open spec fn ascii_alnum(c: char) -> bool {
    ('0' <= c && c <= '9') || ('A' <= c && c <= 'Z') || ('a' <= c && c <= 'z')
}

/// `len` characters drawn from `rand`'s `Alphanumeric` distribution, which
/// samples ASCII letters and digits.
#[verifier::external_body]
fn random_alphanumeric(len: usize) -> (r: String)
    ensures
        r@.len() == len,
        forall|i: int| 0 <= i < len ==> ascii_alnum(#[trigger] r@[i]),
{
    rand::Rng::sample_iter(rand::thread_rng(), &rand::distributions::Alphanumeric).take(len).map(char::from).collect()
}

/// Eight fresh backup codes of twelve ASCII letters and digits each.
pub fn new_backup_codes() -> (r: Vec<String>)
    ensures
        r@.len() == 8,
        forall|k: int| 0 <= k < 8 ==> (#[trigger] r@[k])@.len() == 12,
        forall|k: int, i: int| 0 <= k < 8 && 0 <= i < 12 ==> ascii_alnum(#[trigger] r@[k]@[i]),
{
    let mut codes: Vec<String> = Vec::new();
    let mut n: usize = 0;
    while n < BACKUP_CODE_COUNT
        invariant
            n <= 8,
            codes@.len() == n,
            forall|k: int| 0 <= k < n ==> (#[trigger] codes@[k])@.len() == 12,
            forall|k: int, i: int| 0 <= k < n && 0 <= i < 12 ==> ascii_alnum(#[trigger] codes@[k]@[i]),
        decreases 8 - n,
    {
        let c = random_alphanumeric(BACKUP_CODE_LEN);
        codes.push(c);
        n = n + 1;
    }
    codes
}

/// Hashes each backup code for storage; refused as a whole when any one
/// fails to hash, which only a code longer than 0xFFFFFFFF bytes can. Each
/// hash verifies the code at its place.
pub fn hash_backup_codes(codes: &Vec<String>) -> (r: Result<Vec<String>, String>)
    ensures
        (forall|k: int| 0 <= k < codes@.len() ==> vstd::utf8::encode_utf8((#[trigger] codes@[k])@).len()
            <= 0xFFFF_FFFF) ==> r is Ok,
        r matches Ok(h) ==> h@.len() == codes@.len() && forall|k: int|
            0 <= k < codes@.len() ==> backup_code_matches(vstd::utf8::encode_utf8((#[trigger] codes@[k])@), h@[k]@),
        r matches Err(m) ==> m@ == "Argon2 backup code hashing failed"@,
{
    let mut hashes: Vec<String> = Vec::new();
    let mut k: usize = 0;
    while k < codes.len()
        invariant
            k <= codes@.len(),
            hashes@.len() == k,
            forall|j: int| 0 <= j < k ==> backup_code_matches(vstd::utf8::encode_utf8((#[trigger] codes@[j])@), hashes@[j]@),
        decreases codes@.len() - k,
    {
        match hash_backup_code(codes[k].as_str()) {
            Some(h) => hashes.push(h),
            None => {
                assert(vstd::utf8::encode_utf8(codes@[k as int]@).len() > 0xFFFF_FFFF);
                return Err(String::from_str("Argon2 backup code hashing failed"));
            },
        }
        k = k + 1;
    }
    Ok(hashes)
}

/// Backup codes in clear, to show once, and their hashes, to store.
#[derive(Debug)]
pub struct BackupCodeSet {
    pub codes: Vec<String>,
    pub hashes: Vec<String>,
}

/// Why switching TOTP on was refused.
#[derive(Debug, Clone, PartialEq, Eq)]
pub enum TotpConfirmError {
    /// The first code was not accepted (or could not be checked).
    Code(TotpCheck),
    /// A backup code could not be hashed, with the message.
    Hashing(String),
}

/// The eight backup codes and their hashes, with what each code must be.
pub open spec fn backup_code_set_ok(set: BackupCodeSet) -> bool {
    &&& set.codes@.len() == 8
    &&& set.hashes@.len() == 8
    &&& forall|k: int|
        0 <= k < 8 ==> (#[trigger] set.codes@[k])@.len() == 12 && backup_code_matches(
            vstd::utf8::encode_utf8(set.codes@[k]@),
            set.hashes@[k]@,
        )
    &&& forall|k: int, i: int| 0 <= k < 8 && 0 <= i < 12 ==> ascii_alnum(#[trigger] set.codes@[k]@[i])
}

/// Finishes TOTP setup once the first code was checked: refused with the
/// check's outcome unless it was accepted; otherwise eight new backup codes
/// and their hashes, or the hashing failure.
pub fn backup_codes_after_check(check: TotpCheck) -> (r: Result<BackupCodeSet, TotpConfirmError>)
    ensures
        !(check is Accepted) ==> r == Err::<BackupCodeSet, TotpConfirmError>(TotpConfirmError::Code(check)),
        check is Accepted ==> (r matches Ok(set) && backup_code_set_ok(set)),
{
    match check {
        TotpCheck::Accepted => {},
        _ => return Err(TotpConfirmError::Code(check)),
    }
    let codes = new_backup_codes();
    assert forall|m: int| 0 <= m < codes@.len() implies vstd::utf8::encode_utf8((#[trigger] codes@[m])@).len()
        <= 0xFFFF_FFFF by {
        let c = codes@[m]@;
        assert forall|i: int| 0 <= i < c.len() implies '\0' <= #[trigger] c[i] <= '\u{7f}' by {
            assert(ascii_alnum(codes@[m]@[i]));
        }
        vstd::utf8::is_ascii_chars_encode_utf8(c);
    }
    match hash_backup_codes(&codes) {
        Ok(hashes) => Ok(BackupCodeSet { codes, hashes }),
        Err(m) => Err(TotpConfirmError::Hashing(m)),
    }
}

/// Confirms TOTP setup with the first code from the authenticator app and,
/// when it is accepted, makes the eight backup codes and their hashes.
pub fn confirm_totp(secret_b32: &str, code: &str) -> (r: Result<BackupCodeSet, TotpConfirmError>)
    ensures
        r matches Err(TotpConfirmError::Code(c)) ==> !(c is Accepted),
        base32_bytes_of(secret_b32@) is None ==> r == Err::<BackupCodeSet, TotpConfirmError>(
            TotpConfirmError::Code(TotpCheck::BadSecret),
        ),
        (base32_bytes_of(secret_b32@) matches Some(b) && b.len() < 16) ==> r matches Err(
            TotpConfirmError::Code(TotpCheck::Setup(_)),
        ),
        !(r matches Err(TotpConfirmError::Hashing(_))),
        r matches Ok(set) ==> backup_code_set_ok(set),
{
    backup_codes_after_check(check_totp_code(secret_b32, code))
}

} // verus!
