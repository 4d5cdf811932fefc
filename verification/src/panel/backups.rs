//! Panel-side backup requests and schedules.

use vstd::prelude::*;
use vstd::string::StringSliceAdditionalSpecFns;
use crate::panel::branding::DOMAIN_PATTERN;
use crate::patterns::{regex_is_match, regex_matches};
use crate::text::{lower_case, str_eq, to_lowercase};

verus! {

#[derive(Debug)]
pub struct TriggerBackupRequest {
    pub backup_type: String,
}

#[derive(Debug)]
pub struct RestoreRequest {
    pub target:     String,
    pub new_domain: Option<String>,
}

#[derive(Debug)]
pub struct BackupSettingsRequest {
    pub daily_time:       Option<String>,
    pub retention_days:   Option<i32>,
    pub retention_weeks:  Option<i32>,
    pub destination:      Option<String>,
    pub s3_bucket:        Option<String>,
    pub s3_region:        Option<String>,
    pub s3_access_key:    Option<String>,
    pub s3_secret_key:    Option<String>,
    pub sftp_host:        Option<String>,
    pub sftp_user:        Option<String>,
    pub sftp_path:        Option<String>,
}


/// The backup types a site backup can be.
pub open spec fn valid_backup_type(t: Seq<char>) -> bool {
    t == "full"@ || t == "files"@ || t == "database"@
}

/// Checks a backup request's type.
pub fn check_backup_type(req: &TriggerBackupRequest) -> (r: Result<(), String>)
    ensures
        r is Ok <==> valid_backup_type(req.backup_type@),
        r matches Err(m) ==> m@ == "type must be one of: full, files, database"@,
{
    let t = req.backup_type.as_str();
    if str_eq(t, "full") || str_eq(t, "files") || str_eq(t, "database") {
        Ok(())
    } else {
        Err(String::from_str("type must be one of: full, files, database"))
    }
}

/// A restore target domain: its lower-cased form matches the domain
/// pattern and is at most 253 bytes.
pub open spec fn valid_restore_domain(domain: Seq<char>) -> bool {
    regex_is_match(DOMAIN_PATTERN@, lower_case(domain)) && vstd::utf8::encode_utf8(lower_case(domain)).len() <= 253
}

/// Why a restore request is refused, in the order the checks run: the
/// backup must be completed, the target `same` or `new_site`, a new site
/// needs a domain, and a given domain must be valid.
pub open spec fn restore_problem(status: Seq<char>, target: Seq<char>, new_domain: Option<Seq<char>>) -> Option<Seq<char>> {
    if status != "completed"@ {
        Some("Cannot restore backup with status '"@ + status + "'. Only completed backups can be restored."@)
    } else if !(target == "same"@ || target == "new_site"@) {
        Some("target must be one of: same, new_site"@)
    } else if target == "new_site"@ && new_domain is None {
        Some("new_domain is required when target is 'new_site'"@)
    } else if new_domain matches Some(d) && !valid_restore_domain(d) {
        Some("new_domain is not a valid domain name"@)
    } else {
        None
    }
}

/// Checks a restore request against the backup's status.
pub fn check_restore(status: &str, req: &RestoreRequest) -> (r: Result<(), String>)
    ensures
        match restore_problem(status@, req.target@, match &req.new_domain {
            Some(d) => Some(d@),
            None => None,
        }) {
            Some(m) => r matches Err(e) && e@ == m,
            None => r is Ok,
        },
{
    if !str_eq(status, "completed") {
        let mut m = String::from_str("Cannot restore backup with status '");
        m.append(status);
        m.append("'. Only completed backups can be restored.");
        return Err(m);
    }
    let t = req.target.as_str();
    if !(str_eq(t, "same") || str_eq(t, "new_site")) {
        return Err(String::from_str("target must be one of: same, new_site"));
    }
    if str_eq(t, "new_site") && req.new_domain.is_none() {
        return Err(String::from_str("new_domain is required when target is 'new_site'"));
    }
    match &req.new_domain {
        Some(d) => {
            let lower = to_lowercase(d.as_str());
            let ok = regex_matches(DOMAIN_PATTERN, lower.as_str()) && lower.as_str().as_bytes().len() <= 253;
            if !ok {
                return Err(String::from_str("new_domain is not a valid domain name"));
            }
        },
        None => {},
    }
    Ok(())
}

/// The pattern of a daily backup time, `HH:MM` on a 24-hour clock.
pub const TIME_PATTERN: &'static str = "^([01]\\d|2[0-3]):([0-5]\\d)$";

/// Why new backup settings are refused, in the order the checks run.
pub open spec fn settings_problem(
    destination: Option<Seq<char>>,
    has_s3_bucket: bool,
    has_sftp_host: bool,
    daily_time: Option<Seq<char>>,
    retention_days: Option<i32>,
    retention_weeks: Option<i32>,
) -> Option<Seq<char>> {
    if destination matches Some(d) && !(d == "local"@ || d == "s3"@ || d == "sftp"@) {
        Some("destination must be one of: local, s3, sftp"@)
    } else if destination == Some("s3"@) && !has_s3_bucket {
        Some("s3_bucket is required when destination is 's3'"@)
    } else if destination == Some("sftp"@) && !has_sftp_host {
        Some("sftp_host is required when destination is 'sftp'"@)
    } else if daily_time matches Some(t) && !regex_is_match(TIME_PATTERN@, t) {
        Some("daily_time must be in HH:MM format (24h)"@)
    } else if retention_days matches Some(d) && (d < 1 || d > 365) {
        Some("retention_days must be between 1 and 365"@)
    } else if retention_weeks matches Some(w) && (w < 1 || w > 52) {
        Some("retention_weeks must be between 1 and 52"@)
    } else {
        None
    }
}

/// The view of an optional owned string.
pub open spec fn opt_view(o: Option<String>) -> Option<Seq<char>> {
    match o {
        Some(s) => Some(s@),
        None => None,
    }
}

/// Checks new backup settings of a site.
pub fn check_backup_settings(req: &BackupSettingsRequest) -> (r: Result<(), String>)
    ensures
        match settings_problem(
            opt_view(req.destination),
            req.s3_bucket is Some,
            req.sftp_host is Some,
            opt_view(req.daily_time),
            req.retention_days,
            req.retention_weeks,
        ) {
            Some(m) => r matches Err(e) && e@ == m,
            None => r is Ok,
        },
{
    match &req.destination {
        Some(d) => {
            let ds = d.as_str();
            if !(str_eq(ds, "local") || str_eq(ds, "s3") || str_eq(ds, "sftp")) {
                return Err(String::from_str("destination must be one of: local, s3, sftp"));
            }
            if str_eq(ds, "s3") && req.s3_bucket.is_none() {
                return Err(String::from_str("s3_bucket is required when destination is 's3'"));
            }
            if str_eq(ds, "sftp") && req.sftp_host.is_none() {
                return Err(String::from_str("sftp_host is required when destination is 'sftp'"));
            }
        },
        None => {},
    }
    match &req.daily_time {
        Some(t) => {
            if !regex_matches(TIME_PATTERN, t.as_str()) {
                return Err(String::from_str("daily_time must be in HH:MM format (24h)"));
            }
        },
        None => {},
    }
    match req.retention_days {
        Some(d) => {
            if d < 1 || d > 365 {
                return Err(String::from_str("retention_days must be between 1 and 365"));
            }
        },
        None => {},
    }
    match req.retention_weeks {
        Some(w) => {
            if w < 1 || w > 52 {
                return Err(String::from_str("retention_weeks must be between 1 and 52"));
            }
        },
        None => {},
    }
    Ok(())
}

} // verus!
