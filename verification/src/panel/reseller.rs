//! Resellers and their clients.

use vstd::prelude::*;
use crate::text::{chars_of, concat3, decimal, decimal_string, lower_case, str_eq, to_lowercase, trim, trim_chars, trim_str};

verus! {

#[derive(Debug)]
pub struct ListClientsQuery {
    pub search: Option<String>,
    pub limit:  Option<i64>,
    pub offset: Option<i64>,
}

#[derive(Debug)]
pub struct CreateClientRequest {
    pub email:     String,
    pub password:  String,
    pub full_name: Option<String>,
}

#[derive(Debug)]
pub struct LoginAsResponse {
    pub access_token:    String,
    pub user_id:         String,
    pub email:           String,
    pub role:            String,
    pub expires_in:      i64,
    pub wizard_complete: bool,
}

/// Who may manage clients and packages: admins (`Ok(true)`) and resellers
/// (`Ok(false)`).
pub fn reseller_role(role: &str) -> (r: Result<bool, String>)
    ensures
        role@ == "admin"@ ==> r == Ok::<bool, String>(true),
        role@ == "reseller"@ ==> r == Ok::<bool, String>(false),
        !(role@ == "admin"@ || role@ == "reseller"@) ==> (r matches Err(m) && m@ == "Admin or reseller role required"@),
{
    proof {
        reveal_strlit("admin");
        reveal_strlit("reseller");
        assert("admin"@.len() != "reseller"@.len());
    }
    if str_eq(role, "admin") {
        Ok(true)
    } else if str_eq(role, "reseller") {
        Ok(false)
    } else {
        Err(String::from_str("Admin or reseller role required"))
    }
}

/// The page of a client list: at most 500 rows (100 when not asked), from
/// the given offset (0 when not asked).
pub fn client_page(limit: Option<i64>, offset: Option<i64>) -> (r: (i64, i64))
    ensures
        r.0 == (match limit {
            Some(l) => if l < 500 { l } else { 500 },
            None => 100,
        }),
        r.1 == (match offset {
            Some(o) => o,
            None => 0,
        }),
{
    let l = match limit {
        Some(l) => if l < 500 { l } else { 500 },
        None => 100,
    };
    let o = match offset {
        Some(o) => o,
        None => 0,
    };
    (l, o)
}

/// A new client's password must be at least 12 bytes long.
pub fn check_client_password(password: &str) -> (r: Result<(), String>)
    ensures
        r is Ok <==> password.len() >= 12,
        r matches Err(m) ==> m@ == "Password must be at least 12 characters"@,
{
    if password.len() < 12 {
        Err(String::from_str("Password must be at least 12 characters"))
    } else {
        Ok(())
    }
}

/// A client's e-mail address as stored: lower-cased, then trimmed.
pub fn normalize_client_email(email: &str) -> (r: String)
    ensures
        r@ == trim(lower_case(email@)),
{
    let l = to_lowercase(email);
    trim_str(l.as_str())
}

/// The refusal of an address that already has an account.
pub fn already_registered(email: &str) -> (r: String)
    ensures
        r@ == "Email "@ + email@ + " is already registered"@,
{
    concat3("Email ", email, " is already registered")
}

/// Checks a new package: it needs a name (not blank) and at least one site.
pub fn check_new_package(name: &str, max_sites: i32) -> (r: Result<(), String>)
    ensures
        trim(name@).len() == 0 ==> (r matches Err(m) && m@ == "Package name is required"@),
        trim(name@).len() > 0 && max_sites < 1 ==> (r matches Err(m) && m@ == "max_sites must be at least 1"@),
        r is Ok <==> trim(name@).len() > 0 && max_sites >= 1,
{
    let v = chars_of(name);
    if trim_chars(&v).len() == 0 {
        return Err(String::from_str("Package name is required"));
    }
    if max_sites < 1 {
        return Err(String::from_str("max_sites must be at least 1"));
    }
    Ok(())
}

/// A package can be deleted only when no client is assigned to it.
pub fn check_package_unused(subscriber_count: i64) -> (r: Result<(), String>)
    ensures
        r is Ok <==> subscriber_count <= 0,
        r matches Err(m) ==> m@ == "Cannot delete package: "@ + decimal(subscriber_count as nat)
            + " active subscriber(s) are assigned to it"@,
{
    if subscriber_count > 0 {
        let n = decimal_string(subscriber_count as u64);
        Err(concat3("Cannot delete package: ", n.as_str(), " active subscriber(s) are assigned to it"))
    } else {
        Ok(())
    }
}

/// How long an impersonation token lasts, in seconds (one hour).
pub const IMPERSONATION_SECONDS: i64 = 3600;

/// Resellers and admins may log in as a client, never as an admin.
pub fn check_impersonation(target_role: &str) -> (r: Result<(), String>)
    ensures
        r is Ok <==> target_role@ != "admin"@,
        r matches Err(m) ==> m@ == "Cannot impersonate an admin account"@,
{
    if str_eq(target_role, "admin") {
        Err(String::from_str("Cannot impersonate an admin account"))
    } else {
        Ok(())
    }
}


/// A row of the audit log.
#[derive(Debug)]
pub struct AuditEntry {
    pub user_id: String,
    pub action: String,
    pub resource_type: String,
    pub resource_id: String,
    pub ip_address: String,
    pub success: bool,
}

/// What logging in as a client hands out: the token's claims, its lifetime
/// in seconds, and the audit row to write.
#[derive(Debug)]
pub struct Impersonation {
    pub claims: crate::panel::auth::TokenClaims,
    pub expires_in: i64,
    pub audit: AuditEntry,
}

/// Logs a reseller or admin (`caller_id`) in as a client at `now`: refused
/// for an admin account; otherwise a TOTP-verified token for the client,
/// marked as impersonated by the caller and lasting one hour, and an audit
/// row `login_as_client` on the client's user record.
pub fn impersonation_grant(
    target: &crate::panel::auth::AccountIdentity,
    caller_id: &str,
    now: i64,
) -> (r: Result<Impersonation, String>)
    requires
        now <= i64::MAX - 3600,
    ensures
        r is Err <==> target.role@ == "admin"@,
        r matches Err(m) ==> m@ == "Cannot impersonate an admin account"@,
        r matches Ok(g) ==> crate::panel::auth::claims_for(g.claims, *target, now, 3600, true, Some(caller_id@))
            && g.expires_in == 3600 && g.audit.user_id@ == caller_id@ && g.audit.action@ == "login_as_client"@
            && g.audit.resource_type@ == "user"@ && g.audit.resource_id@ == target.user_id@
            && g.audit.ip_address@ == "127.0.0.1"@ && g.audit.success,
{
    match check_impersonation(target.role.as_str()) {
        Err(m) => Err(m),
        Ok(()) => {
            let claims = crate::panel::auth::token_claims(target, now, IMPERSONATION_SECONDS, true, Some(caller_id));
            let audit = AuditEntry {
                user_id: String::from_str(caller_id),
                action: String::from_str("login_as_client"),
                resource_type: String::from_str("user"),
                resource_id: String::from_str(target.user_id.as_str()),
                ip_address: String::from_str("127.0.0.1"),
                success: true,
            };
            Ok(Impersonation { claims, expires_in: IMPERSONATION_SECONDS, audit })
        },
    }
}

} // verus!
