//! Git deployments of a site.

use vstd::prelude::*;
use crate::mcp::{bearer_token, constant_time_eq, opt_str};
use crate::text::{all_hex, all_hex_chars, chars_of, has_prefix, starts_with_chars, string_from_chars, trim, trim_chars};

verus! {

#[derive(Debug)]
pub struct RecordDeployRequest {
    pub hash:        String,
    pub commit_msg:  Option<String>,
    pub deployed_at: Option<String>,
}


/// Why a deploy record is refused.
#[derive(Debug, Clone, PartialEq, Eq)]
pub enum DeployRecordError {
    /// No internal token is configured, or the request's does not match.
    Unauthorized,
    /// The commit hash is not 40 or 64 hex digits.
    Validation(String),
}

/// A commit hash: 40 (SHA-1) or 64 (SHA-256) hex digits, once trimmed.
pub open spec fn valid_commit_hash(hash: Seq<char>) -> bool {
    let h = trim(hash);
    (h.len() == 40 || h.len() == 64) && all_hex(h)
}

/// Checks a deploy record from the git hook: an internal token must be
/// configured and sent as the bearer token, and the commit hash must be
/// 40 or 64 hex digits; the trimmed hash is handed back.
pub fn check_deploy_record(expected_token: Option<&str>, auth_header: Option<&str>, hash: &str) -> (r: Result<String, DeployRecordError>)
    ensures
        ({
            let exp = match expected_token { Some(t) => t@, None => Seq::<char>::empty() };
            let got = bearer_token(opt_str(auth_header));
            &&& (exp.len() == 0 || got != exp) ==> r == Err::<String, DeployRecordError>(DeployRecordError::Unauthorized)
            &&& (exp.len() > 0 && got == exp && !valid_commit_hash(hash@)) ==> (r matches Err(DeployRecordError::Validation(m))
                && m@ == "commit hash must be a 40- or 64-character hex string"@)
            &&& r is Ok <==> exp.len() > 0 && got == exp && valid_commit_hash(hash@)
            &&& r matches Ok(h) ==> h@ == trim(hash@)
        }),
{
    let exp: &str = match expected_token {
        Some(t) => t,
        None => "",
    };
    proof {
        reveal_strlit("");
    }
    if exp.is_empty() {
        return Err(DeployRecordError::Unauthorized);
    }
    let provided: String = match auth_header {
        Some(h) => {
            let hc = chars_of(h);
            let pre = chars_of("Bearer ");
            proof {
                reveal_strlit("Bearer ");
            }
            if starts_with_chars(&hc, &pre) {
                let t = crate::text::slice_chars(&hc, 7, hc.len());
                assert(t@ =~= h@.skip(7));
                string_from_chars(&t)
            } else {
                String::new()
            }
        },
        None => String::new(),
    };
    let same = constant_time_eq(exp.as_bytes(), provided.as_str().as_bytes());
    proof {
        vstd::utf8::encode_utf8_decode_utf8(provided@);
        vstd::utf8::encode_utf8_decode_utf8(exp@);
    }
    if !same {
        return Err(DeployRecordError::Unauthorized);
    }
    let hv = chars_of(hash);
    let h = trim_chars(&hv);
    if !((h.len() == 40 || h.len() == 64) && all_hex_chars(&h)) {
        return Err(DeployRecordError::Validation(String::from_str("commit hash must be a 40- or 64-character hex string")));
    }
    Ok(string_from_chars(&h))
}

/// Only admins manage deployments.
pub fn require_admin(role: &str) -> (r: Result<(), String>)
    ensures
        r is Ok <==> role@ == "admin"@,
        r matches Err(m) ==> m@ == "admin role required"@,
{
    if crate::text::str_eq(role, "admin") {
        Ok(())
    } else {
        Err(String::from_str("admin role required"))
    }
}

} // verus!
