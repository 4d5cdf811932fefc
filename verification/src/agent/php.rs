//! PHP-FPM pools: the pool configuration rendered for a site and where it
//! is written.

use vstd::prelude::*;
use crate::text::{decimal, decimal_string, replace_all, replace_str};

verus! {

/// The pool configuration template; `{domain}`, `{unix_user}`,
/// `{socket_path}`, `{max_children}` and `{memory_limit_mb}` are filled in.
pub const POOL_TEMPLATE: &'static str = "[{domain}]\nuser  = {unix_user}\ngroup = {unix_user}\n\nlisten = {socket_path}\nlisten.owner = www-data\nlisten.group = www-data\nlisten.mode  = 0660\n\npm                        = ondemand\npm.max_children           = {max_children}\npm.process_idle_timeout   = 30s\npm.max_requests           = 500\n\n; Security: restrict file access to site home + shared PHP dirs\nphp_admin_value[open_basedir]       = /home/{unix_user}:/tmp:/usr/share/php:/usr/lib/php\nphp_admin_value[disable_functions]  = exec,passthru,shell_exec,system,proc_open,popen,proc_nice,proc_terminate,proc_get_status,dl,show_source,eval,pcntl_exec\nphp_admin_flag[expose_php]          = off\nphp_admin_value[memory_limit]       = {memory_limit_mb}M\nphp_admin_value[error_log]          = /var/log/php-fpm/{unix_user}-error.log\nphp_admin_flag[log_errors]          = on\nphp_admin_value[upload_max_filesize] = 64M\nphp_admin_value[post_max_size]       = 64M\n\n; OPcache — enabled per site\nphp_admin_value[opcache.enable]              = 1\nphp_admin_value[opcache.memory_consumption]  = 64\nphp_admin_value[opcache.max_accelerated_files] = 4000\nphp_admin_value[opcache.revalidate_freq]     = 2\nphp_admin_value[opcache.jit_buffer_size]     = 32M\nphp_admin_value[opcache.jit]                 = 1255\n\n; Environment\nenv[PATH]     = /usr/local/bin:/usr/bin:/bin\nenv[TMPDIR]   = /tmp\n";

/// `max_children` with non-positive values replaced by the default of 10.
pub open spec fn effective_max_children(max_children: i32) -> int {
    if max_children <= 0 {
        10
    } else {
        max_children as int
    }
}

/// `memory_limit_mb` with non-positive values replaced by the default of 256.
pub open spec fn effective_memory_limit(memory_limit_mb: i64) -> int {
    if memory_limit_mb <= 0 {
        256
    } else {
        memory_limit_mb as int
    }
}

/// The pool configuration: the template with each placeholder replaced in
/// turn, in the order domain, user, socket, children, memory.
pub open spec fn pool_text(
    domain: Seq<char>,
    unix_user: Seq<char>,
    socket_path: Seq<char>,
    max_children: i32,
    memory_limit_mb: i64,
) -> Seq<char> {
    replace_all(
        replace_all(
            replace_all(
                replace_all(
                    replace_all(POOL_TEMPLATE@, "{domain}"@, domain),
                    "{unix_user}"@,
                    unix_user,
                ),
                "{socket_path}"@,
                socket_path,
            ),
            "{max_children}"@,
            decimal(effective_max_children(max_children) as nat),
        ),
        "{memory_limit_mb}"@,
        decimal(effective_memory_limit(memory_limit_mb) as nat),
    )
}

/// Renders the PHP-FPM pool configuration of a site; non-positive limits
/// fall back to 10 children and 256 MB.
pub fn render_pool(
    domain: &str,
    unix_user: &str,
    php_version: &str,
    socket_path: &str,
    max_children: i32,
    memory_limit_mb: i64,
) -> (r: String)
    ensures
        r@ == pool_text(domain@, unix_user@, socket_path@, max_children, memory_limit_mb),
{
    let mc: u64 = if max_children <= 0 { 10 } else { max_children as u64 };
    let mem: u64 = if memory_limit_mb <= 0 { 256 } else { memory_limit_mb as u64 };
    let mc_s = decimal_string(mc);
    let mem_s = decimal_string(mem);
    proof {
        reveal_strlit("{domain}");
        reveal_strlit("{unix_user}");
        reveal_strlit("{socket_path}");
        reveal_strlit("{max_children}");
        reveal_strlit("{memory_limit_mb}");
    }
    let a = replace_str(POOL_TEMPLATE, "{domain}", domain);
    let b = replace_str(a.as_str(), "{unix_user}", unix_user);
    let c = replace_str(b.as_str(), "{socket_path}", socket_path);
    let d = replace_str(c.as_str(), "{max_children}", mc_s.as_str());
    replace_str(d.as_str(), "{memory_limit_mb}", mem_s.as_str())
}

} // verus!
