//! Customer databases: names and passwords.

use vstd::prelude::*;
use crate::text::{
    byte_cut_ok, byte_prefix, byte_prefix_str, chars_of, concat2, decimal, decimal_string,
    is_alphabetic_char, is_alphanumeric_char, str_eq, unicode_alphabetic, unicode_alphanumeric,
};

verus! {

#[derive(Debug)]
pub struct ChangePasswordRequest {
    pub password: String,
}


/// A database name: 1 to 64 bytes of (Unicode) letters, digits and
/// underscores, not starting with a digit.
pub open spec fn valid_db_name(name: Seq<char>, byte_len: usize) -> bool {
    name.len() > 0 && byte_len <= 64 && (forall|i: int|
        0 <= i < name.len() ==> unicode_alphanumeric(#[trigger] name[i]) || name[i] == '_') && (
    unicode_alphabetic(name[0]) || name[0] == '_')
}

/// Whether a database name is acceptable.
pub fn is_valid_db_name(name: &str) -> (r: bool)
    ensures
        r == valid_db_name(name@, name.len()),
{
    let v = chars_of(name);
    if v.len() == 0 || name.len() > 64 {
        return false;
    }
    let mut i: usize = 0;
    while i < v.len()
        invariant
            i <= v@.len(),
            v@ == name@,
            forall|k: int| 0 <= k < i ==> unicode_alphanumeric(#[trigger] v@[k]) || v@[k] == '_',
        decreases v@.len() - i,
    {
        if !(is_alphanumeric_char(v[i]) || v[i] == '_') {
            assert(!(unicode_alphanumeric(v@[i as int]) || v@[i as int] == '_'));
            return false;
        }
        i = i + 1;
    }
    is_alphabetic_char(v[0]) || v[0] == '_'
}

/// A strong password: at least one ASCII upper-case letter, lower-case
/// letter and digit, and one character that is not alphanumeric.
pub open spec fn strong_password(pw: Seq<char>) -> bool {
    (exists|i: int| 0 <= i < pw.len() && 'A' <= #[trigger] pw[i] <= 'Z') && (exists|i: int|
        0 <= i < pw.len() && 'a' <= #[trigger] pw[i] <= 'z') && (exists|i: int|
        0 <= i < pw.len() && '0' <= #[trigger] pw[i] <= '9') && (exists|i: int|
        0 <= i < pw.len() && !unicode_alphanumeric(#[trigger] pw[i]))
}

/// Whether a database password is strong enough.
pub fn is_strong_password(pw: &str) -> (r: bool)
    ensures
        r == strong_password(pw@),
{
    let v = chars_of(pw);
    let mut upper = false;
    let mut lower = false;
    let mut digit = false;
    let mut special = false;
    let mut i: usize = 0;
    while i < v.len()
        invariant
            i <= v@.len(),
            v@ == pw@,
            upper == exists|k: int| 0 <= k < i && 'A' <= #[trigger] v@[k] <= 'Z',
            lower == exists|k: int| 0 <= k < i && 'a' <= #[trigger] v@[k] <= 'z',
            digit == exists|k: int| 0 <= k < i && '0' <= #[trigger] v@[k] <= '9',
            special == exists|k: int| 0 <= k < i && !unicode_alphanumeric(#[trigger] v@[k]),
        decreases v@.len() - i,
    {
        let c = v[i];
        if 'A' <= c && c <= 'Z' {
            upper = true;
        }
        if 'a' <= c && c <= 'z' {
            lower = true;
        }
        if '0' <= c && c <= '9' {
            digit = true;
        }
        if !is_alphanumeric_char(c) {
            special = true;
        }
        i = i + 1;
    }
    upper && lower && digit && special
}

/// The database type a request names, with the `postgresql` alias read as
/// `postgres`.
pub open spec fn db_type_normalized(t: Seq<char>) -> Seq<char> {
    if t == "postgresql"@ {
        "postgres"@
    } else {
        t
    }
}

/// The types the database endpoint creates.
pub open spec fn creatable_db_type(t: Seq<char>) -> bool {
    t == "mysql"@ || t == "mariadb"@ || t == "postgres"@ || t == "ferretdb"@
}

/// Normalizes and checks the type of a new database.
pub fn check_db_type(db_type: &str) -> (r: Result<String, String>)
    ensures
        creatable_db_type(db_type_normalized(db_type@)) ==> (r matches Ok(t) && t@ == db_type_normalized(db_type@)),
        !creatable_db_type(db_type_normalized(db_type@)) ==> (r matches Err(m) && m@
            == "db_type must be one of: mysql, mariadb, postgres, ferretdb. Use /databases/valkey or /databases/surrealdb for those types."@),
{
    let t = if str_eq(db_type, "postgresql") { String::from_str("postgres") } else { String::from_str(db_type) };
    let ts = t.as_str();
    if str_eq(ts, "mysql") || str_eq(ts, "mariadb") || str_eq(ts, "postgres") || str_eq(ts, "ferretdb") {
        Ok(t)
    } else {
        Err(String::from_str(
            "db_type must be one of: mysql, mariadb, postgres, ferretdb. Use /databases/valkey or /databases/surrealdb for those types.",
        ))
    }
}

/// Checks the name of a new database.
pub fn check_db_name(name: &str) -> (r: Result<(), String>)
    ensures
        r is Ok <==> valid_db_name(name@, name.len()),
        r matches Err(m) ==> m@ == "db_name must be 1-64 chars, alphanumeric and underscores only"@,
{
    if is_valid_db_name(name) {
        Ok(())
    } else {
        Err(String::from_str("db_name must be 1-64 chars, alphanumeric and underscores only"))
    }
}

/// A site may hold up to `max` databases of the relational kinds.
pub fn check_db_limit(count: i64, max: u32) -> (r: Result<(), String>)
    ensures
        r is Ok <==> count < max,
        r matches Err(m) ==> m@ == "Site has reached the maximum of "@ + decimal(max as nat) + " databases"@,
{
    if count >= max as i64 {
        let n = decimal_string(max as u64);
        let mut m = String::from_str("Site has reached the maximum of ");
        m.append(n.as_str());
        m.append(" databases");
        Err(m)
    } else {
        Ok(())
    }
}

/// The login of a new database: `orbit_`, the first 16 bytes of the site
/// user, `_` and the first 8 bytes of the database name.
pub fn db_user_name(unix_user: &str, db_name: &str) -> (r: String)
    requires
        byte_cut_ok(unix_user@, 16),
        byte_cut_ok(db_name@, 8),
    ensures
        r@ == "orbit_"@ + byte_prefix(unix_user@, 16) + "_"@ + byte_prefix(db_name@, 8),
{
    let u = byte_prefix_str(unix_user, 16);
    let d = byte_prefix_str(db_name, 8);
    let mut r = String::from_str("orbit_");
    r.append(u.as_str());
    r.append("_");
    r.append(d.as_str());
    r
}

/// The name of a site's Valkey instance: `valkey_` and the first 16 bytes
/// of the site user.
pub fn valkey_db_name(unix_user: &str) -> (r: String)
    requires
        byte_cut_ok(unix_user@, 16),
    ensures
        r@ == "valkey_"@ + byte_prefix(unix_user@, 16),
{
    let u = byte_prefix_str(unix_user, 16);
    concat2("valkey_", u.as_str())
}

/// A site has at most one Valkey instance.
pub fn check_valkey_absent(existing: i64) -> (r: Result<(), String>)
    ensures
        r is Ok <==> existing <= 0,
        r matches Err(m) ==> m@ == "Site already has a Valkey instance"@,
{
    if existing > 0 {
        Err(String::from_str("Site already has a Valkey instance"))
    } else {
        Ok(())
    }
}

/// The one-click database manager serves MySQL and MariaDB databases only.
pub fn db_manager_supported(db_type: &str) -> (r: bool)
    ensures
        r == (db_type@ == "mysql"@ || db_type@ == "mariadb"@),
{
    str_eq(db_type, "mysql") || str_eq(db_type, "mariadb")
}

/// Checks a new database password: at least 12 bytes, and strong.
pub fn check_db_password(password: &str) -> (r: Result<(), String>)
    ensures
        password.len() < 12 ==> (r matches Err(m) && m@ == "Password must be at least 12 characters"@),
        password.len() >= 12 && !strong_password(password@) ==> (r matches Err(m) && m@
            == "Password must contain at least one uppercase letter, one lowercase letter, one digit, and one special character"@),
        r is Ok <==> password.len() >= 12 && strong_password(password@),
{
    if password.len() < 12 {
        return Err(String::from_str("Password must be at least 12 characters"));
    }
    if !is_strong_password(password) {
        return Err(String::from_str(
            "Password must contain at least one uppercase letter, one lowercase letter, one digit, and one special character",
        ));
    }
    Ok(())
}

} // verus!
