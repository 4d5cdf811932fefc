//! Panel log viewing.

use vstd::prelude::*;
use crate::text::str_eq;

verus! {

#[derive(Debug)]
pub struct LogsResponse {
    pub lines: Vec<String>,
}


/// The number of lines shown when none is asked for.
pub fn default_limit() -> (r: usize)
    ensures
        r == 500,
{
    500
}

/// The site a log request is scoped to, as far as the log paths need it.
pub struct SiteLogContext {
    pub unix_user: String,
    pub domain: String,
    pub php_version: String,
}

/// The files a site-scoped log request reads, in order.
pub open spec fn site_log_files(log_type: Seq<char>, unix_user: Seq<char>, domain: Seq<char>, php_version: Seq<char>) -> Seq<Seq<char>> {
    if log_type == "error"@ {
        seq!["/home/"@ + unix_user + "/logs/error.log"@, "/var/log/nginx/"@ + domain + "-error.log"@]
    } else if log_type == "php_error"@ || log_type == "php"@ {
        seq!["/home/"@ + unix_user + "/logs/php-error.log"@, "/var/log/php"@ + php_version + "-fpm.log"@]
    } else {
        seq!["/home/"@ + unix_user + "/logs/access.log"@, "/var/log/nginx/"@ + domain + "-access.log"@]
    }
}

/// The files a system-wide log request reads, in order.
pub open spec fn system_log_files(log_type: Seq<char>) -> Seq<Seq<char>> {
    if log_type == "mail"@ {
        seq!["/var/log/mail.log"@]
    } else if log_type == "auth"@ {
        seq!["/var/log/auth.log"@]
    } else if log_type == "firewall"@ {
        seq!["/var/log/ufw.log"@, "/var/log/fail2ban.log"@]
    } else if log_type == "error"@ {
        seq!["/var/log/nginx/error.log"@]
    } else {
        seq!["/var/log/nginx/access.log"@]
    }
}

/// The log files a request reads: a site's files when it names a site,
/// else the system's, which only admins may read.
pub fn log_files(log_type: &str, site: Option<&SiteLogContext>, is_admin: bool) -> (r: Result<Vec<String>, String>)
    ensures
        match site {
            Some(s) => r matches Ok(v) && v@.len() == site_log_files(log_type@, s.unix_user@, s.domain@, s.php_version@).len()
                && forall|i: int| 0 <= i < v@.len() ==> #[trigger] v@[i]@ == site_log_files(log_type@, s.unix_user@, s.domain@, s.php_version@)[i],
            None => if is_admin {
                r matches Ok(v) && v@.len() == system_log_files(log_type@).len()
                    && forall|i: int| 0 <= i < v@.len() ==> #[trigger] v@[i]@ == system_log_files(log_type@)[i]
            } else {
                r matches Err(m) && m@ == "System logs require admin role"@
            },
        },
{
    match site {
        Some(s) => {
            let u = s.unix_user.as_str();
            let d = s.domain.as_str();
            if str_eq(log_type, "error") {
                Ok(vec![crate::text::concat3("/home/", u, "/logs/error.log"), crate::text::concat3("/var/log/nginx/", d, "-error.log")])
            } else if str_eq(log_type, "php_error") || str_eq(log_type, "php") {
                Ok(vec![crate::text::concat3("/home/", u, "/logs/php-error.log"), crate::text::concat3("/var/log/php", s.php_version.as_str(), "-fpm.log")])
            } else {
                Ok(vec![crate::text::concat3("/home/", u, "/logs/access.log"), crate::text::concat3("/var/log/nginx/", d, "-access.log")])
            }
        },
        None => {
            if !is_admin {
                return Err(String::from_str("System logs require admin role"));
            }
            if str_eq(log_type, "mail") {
                Ok(vec![String::from_str("/var/log/mail.log")])
            } else if str_eq(log_type, "auth") {
                Ok(vec![String::from_str("/var/log/auth.log")])
            } else if str_eq(log_type, "firewall") {
                Ok(vec![String::from_str("/var/log/ufw.log"), String::from_str("/var/log/fail2ban.log")])
            } else if str_eq(log_type, "error") {
                Ok(vec![String::from_str("/var/log/nginx/error.log")])
            } else {
                Ok(vec![String::from_str("/var/log/nginx/access.log")])
            }
        },
    }
}

} // verus!
