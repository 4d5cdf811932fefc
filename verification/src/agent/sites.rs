//! Site lifecycle: slice names, the cgroup slice and the paths and
//! commands a site's creation, suspension and removal involve.

use vstd::prelude::*;
use crate::agent::AgentError;
use crate::text::{concat2, concat3, concat_all, concat_strs, decimal, decimal_string, str_eq, views_of};

verus! {

/// A domain as a systemd unit name component: dots and underscores become
/// hyphens.
pub open spec fn slice_name_of(domain: Seq<char>) -> Seq<char> {
    domain.map_values(|c: char| if c == '.' || c == '_' { '-' } else { c })
}

/// Converts a domain to a systemd slice name component
/// (`sub.example.com` → `sub-example-com`).
pub fn domain_to_slice_name(domain: &str) -> (r: String)
    ensures
        r@ == slice_name_of(domain@),
{
    let mut r = String::new();
    let ghost d = domain@;
    for c in it: domain.chars()
        invariant
            it.seq() == d,
            r@ == slice_name_of(d.take(it.index() as int)),
    {
        let m = if c == '.' || c == '_' { '-' } else { c };
        crate::text::push_char(&mut r, m);
        assert(slice_name_of(d.take(it.index() as int + 1)) =~= slice_name_of(
            d.take(it.index() as int),
        ).push(m));
    }
    assert(d.take(d.len() as int) =~= d);
    r
}

/// A slice name holds neither dots nor underscores, and has as many
/// characters as the domain.
pub proof fn lemma_slice_name_clean(domain: Seq<char>)
    ensures
        slice_name_of(domain).len() == domain.len(),
        forall|i: int|
            0 <= i < domain.len() ==> #[trigger] slice_name_of(domain)[i] != '.'
                && slice_name_of(domain)[i] != '_',
{
}

/// The systemd slice unit that holds a site's processes.
pub open spec fn slice_unit_text(domain: Seq<char>) -> Seq<char> {
    concat_all(
        seq![
            "[Unit]\nDescription=JottiCP site cgroup slice for "@,
            domain,
            "\n\n[Slice]\nMemoryMax=512M\nCPUQuota=100%\nTasksMax=64\nIOWeight=100\n\n[Install]\nWantedBy=slices.target\n"@,
        ],
    )
}

/// Renders the cgroup slice unit of a site (512M memory, one CPU, 64 tasks).
pub fn slice_unit(domain: &str) -> (r: String)
    ensures
        r@ == slice_unit_text(domain@),
{
    let parts: Vec<&str> = vec![
        "[Unit]\nDescription=JottiCP site cgroup slice for ",
        domain,
        "\n\n[Slice]\nMemoryMax=512M\nCPUQuota=100%\nTasksMax=64\nIOWeight=100\n\n[Install]\nWantedBy=slices.target\n",
    ];
    assert(views_of(parts@) =~= seq![
        "[Unit]\nDescription=JottiCP site cgroup slice for "@,
        domain@,
        "\n\n[Slice]\nMemoryMax=512M\nCPUQuota=100%\nTasksMax=64\nIOWeight=100\n\n[Install]\nWantedBy=slices.target\n"@,
    ]);
    concat_strs(&parts)
}

/// The PHP-FPM socket of a site's pool.
pub open spec fn php_socket_path_text(php_version: Seq<char>, unix_user: Seq<char>) -> Seq<char> {
    concat_all(
        seq![
            "/run/php/php"@,
            php_version,
            "-fpm-"@,
            unix_user,
            ".sock"@,
        ],
    )
}

/// The PHP-FPM socket path of a site's pool.
pub fn php_socket_path(php_version: &str, unix_user: &str) -> (r: String)
    ensures
        r@ == php_socket_path_text(php_version@, unix_user@),
{
    let parts: Vec<&str> = vec![
        "/run/php/php",
        php_version,
        "-fpm-",
        unix_user,
        ".sock",
    ];
    assert(views_of(parts@) =~= seq![
        "/run/php/php"@,
        php_version@,
        "-fpm-"@,
        unix_user@,
        ".sock"@,
    ]);
    concat_strs(&parts)
}

/// Where a site's PHP-FPM pool is written.
pub open spec fn pool_path_text(php_version: Seq<char>, unix_user: Seq<char>) -> Seq<char> {
    concat_all(
        seq![
            "/etc/php/"@,
            php_version,
            "/fpm/pool.d/"@,
            unix_user,
            ".conf"@,
        ],
    )
}

/// The path of a site's PHP-FPM pool configuration.
pub fn pool_path(php_version: &str, unix_user: &str) -> (r: String)
    ensures
        r@ == pool_path_text(php_version@, unix_user@),
{
    let parts: Vec<&str> = vec![
        "/etc/php/",
        php_version,
        "/fpm/pool.d/",
        unix_user,
        ".conf",
    ];
    assert(views_of(parts@) =~= seq![
        "/etc/php/"@,
        php_version@,
        "/fpm/pool.d/"@,
        unix_user@,
        ".conf"@,
    ]);
    concat_strs(&parts)
}

/// Where a site's nginx vhost is written.
pub open spec fn nginx_vhost_path_text(domain: Seq<char>) -> Seq<char> {
    concat_all(
        seq![
            "/etc/nginx/sites-available/"@,
            domain,
            ".conf"@,
        ],
    )
}

/// The path of a site's nginx vhost.
pub fn nginx_vhost_path(domain: &str) -> (r: String)
    ensures
        r@ == nginx_vhost_path_text(domain@),
{
    let parts: Vec<&str> = vec![
        "/etc/nginx/sites-available/",
        domain,
        ".conf",
    ];
    assert(views_of(parts@) =~= seq![
        "/etc/nginx/sites-available/"@,
        domain@,
        ".conf"@,
    ]);
    concat_strs(&parts)
}

/// Where a site's nginx vhost is kept while it is suspended.
pub open spec fn presuspend_backup_path_text(domain: Seq<char>) -> Seq<char> {
    concat_all(
        seq![
            "/etc/nginx/sites-available/"@,
            domain,
            ".conf.presuspend"@,
        ],
    )
}

/// The path that holds a suspended site's original nginx vhost.
pub fn presuspend_backup_path(domain: &str) -> (r: String)
    ensures
        r@ == presuspend_backup_path_text(domain@),
{
    let parts: Vec<&str> = vec![
        "/etc/nginx/sites-available/",
        domain,
        ".conf.presuspend",
    ];
    assert(views_of(parts@) =~= seq![
        "/etc/nginx/sites-available/"@,
        domain@,
        ".conf.presuspend"@,
    ]);
    concat_strs(&parts)
}

/// The systemd service of a PHP version's FPM.
pub open spec fn phpfpm_service_text(php_version: Seq<char>) -> Seq<char> {
    concat_all(
        seq![
            "php"@,
            php_version,
            "-fpm"@,
        ],
    )
}

/// The name of a PHP version's FPM service.
pub fn phpfpm_service(php_version: &str) -> (r: String)
    ensures
        r@ == phpfpm_service_text(php_version@),
{
    let parts: Vec<&str> = vec![
        "php",
        php_version,
        "-fpm",
    ];
    assert(views_of(parts@) =~= seq![
        "php"@,
        php_version@,
        "-fpm"@,
    ]);
    concat_strs(&parts)
}

/// The `systemctl` arguments that reload a PHP version's FPM.
pub open spec fn reload_phpfpm_args(php_version: Seq<char>) -> Seq<Seq<char>> {
    seq!["reload-or-restart"@, phpfpm_service_text(php_version)]
}

/// The `systemctl` arguments (run as `/bin/systemctl`) that reload or
/// restart the FPM service of a PHP version; a version that does not match
/// the PHP version pattern (`7.x` or `8.x`) is refused first.
pub fn reload_phpfpm(php_version: &str) -> (r: Result<Vec<String>, crate::agent::AgentError>)
    ensures
        !crate::patterns::regex_is_match(crate::panel::sites::PHP_VERSION_PATTERN@, php_version@) ==> (
        r matches Err(crate::agent::AgentError::InvalidArgument(m)) && m@ == "Invalid PHP version: "@
            + php_version@),
        crate::patterns::regex_is_match(crate::panel::sites::PHP_VERSION_PATTERN@, php_version@) ==> (
        r matches Ok(v) && v@.len() == 2 && v@[0]@ == reload_phpfpm_args(php_version@)[0] && v@[1]@
            == reload_phpfpm_args(php_version@)[1]),
{
    match crate::panel::sites::check_php_version(php_version) {
        Err(m) => Err(crate::agent::AgentError::InvalidArgument(m)),
        Ok(()) => {
            let mut r: Vec<String> = Vec::new();
            r.push(String::from_str("reload-or-restart"));
            r.push(phpfpm_service(php_version));
            Ok(r)
        },
    }
}

/// The text `{:?}` prints for a list of strings: each quoted, separated by
/// `, `, in square brackets.
pub open spec fn debug_list(items: Seq<Seq<char>>) -> Seq<char> {
    "["@ + debug_items(items) + "]"@
}

/// The quoted items separated by `, `.
pub open spec fn debug_items(items: Seq<Seq<char>>) -> Seq<char>
    decreases items.len(),
{
    if items.len() == 0 {
        Seq::empty()
    } else if items.len() == 1 {
        crate::text::debug_quoted(items[0])
    } else {
        debug_items(items.drop_last()) + ", "@ + crate::text::debug_quoted(items.last())
    }
}

/// How running a command ends: it could not be started, it exited with an
/// error (the exit code when there is one), or it succeeded.
pub fn run_outcome(binary: &str, args: &Vec<String>, spawned: Result<(bool, Option<i32>), String>) -> (r: Result<
    (),
    AgentError,
>)
    ensures
        match spawned {
            Err(e) => r matches Err(AgentError::Internal(m)) && m@ == "exec "@ + binary@ + " failed: "@ + e@,
            Ok((true, _)) => r is Ok,
            Ok((false, code)) => r matches Err(AgentError::Internal(m)) && m@ == binary@ + " "@
                + debug_list(crate::mail::lines::line_views(args@)) + " failed with exit code "@
                + debug_exit_code(code),
        },
{
    match spawned {
        Err(e) => {
            let head = concat3("exec ", binary, " failed: ");
            Err(AgentError::Internal(concat2(head.as_str(), e.as_str())))
        },
        Ok((true, _)) => Ok(()),
        Ok((false, code)) => {
            let ghost av = crate::mail::lines::line_views(args@);
            let mut list = String::from_str("[");
            let mut i: usize = 0;
            while i < args.len()
                invariant
                    i <= args@.len(),
                    av == crate::mail::lines::line_views(args@),
                    list@ == "["@ + debug_items(av.take(i as int)),
                decreases args@.len() - i,
            {
                assert(av.take(i + 1).drop_last() =~= av.take(i as int));
                assert(av[i as int] == args@[i as int]@);
                let q = crate::text::debug_str(args[i].as_str());
                if i > 0 {
                    list.append(", ");
                }
                list.append(q.as_str());
                proof {
                    if i == 0 {
                        assert(av.take(1) =~= seq![av[0]]);
                    }
                }
                i = i + 1;
            }
            assert(av.take(args@.len() as int) =~= av);
            list.append("]");
            let t = exit_code_text(code);
            let head = concat3(binary, " ", list.as_str());
            Err(AgentError::Internal(concat3(head.as_str(), " failed with exit code ", t.as_str())))
        },
    }
}

/// The PHP versions whose pools a site's suspension, resumption and removal
/// look for.
pub open spec fn managed_php_versions() -> Seq<Seq<char>> {
    seq!["8.1"@, "8.2"@, "8.3"@, "8.4"@]
}

/// The PHP versions whose pools a site's suspension, resumption and removal
/// look for.
pub fn managed_php_versions_list() -> (r: Vec<&'static str>)
    ensures
        r@.len() == 4,
        forall|i: int| 0 <= i < 4 ==> #[trigger] r@[i]@ == managed_php_versions()[i],
{
    let r = vec!["8.1", "8.2", "8.3", "8.4"];
    r
}

/// The systemd slice a site's processes run in.
pub fn site_slice_name(domain: &str) -> (r: String)
    ensures
        r@ == "website-"@ + slice_name_of(domain@) + ".slice"@,
{
    let s = domain_to_slice_name(domain);
    concat3("website-", s.as_str(), ".slice")
}

/// The `useradd` arguments that create a site's system user: a system
/// account without home directory or login shell.
pub fn useradd_args(domain: &str, unix_user: &str) -> (r: Vec<String>)
    ensures
        r@.len() == 7,
        r@[0]@ == "--system"@,
        r@[1]@ == "--no-create-home"@,
        r@[2]@ == "--shell"@,
        r@[3]@ == "/usr/sbin/nologin"@,
        r@[4]@ == "--comment"@,
        r@[5]@ == "JottiCP site "@ + domain@,
        r@[6]@ == unix_user@,
{
    vec![
        String::from_str("--system"),
        String::from_str("--no-create-home"),
        String::from_str("--shell"),
        String::from_str("/usr/sbin/nologin"),
        String::from_str("--comment"),
        concat2("JottiCP site ", domain),
        String::from_str(unix_user),
    ]
}

/// How `{:?}` prints an exit code: `Some(n)` or `None`.
pub open spec fn debug_exit_code(code: Option<i32>) -> Seq<char> {
    match code {
        Some(c) => "Some("@ + (if c < 0 { "-"@ + decimal((-c) as nat) } else { decimal(c as nat) }) + ")"@,
        None => "None"@,
    }
}

/// The text `{:?}` prints for an exit code.
fn exit_code_text(code: Option<i32>) -> (r: String)
    ensures
        r@ == debug_exit_code(code),
{
    match code {
        Some(c) => {
            let digits = if c < 0 {
                let m: u64 = if c == i32::MIN { 2147483648 } else { (-c) as u64 };
                concat2("-", decimal_string(m).as_str())
            } else {
                decimal_string(c as u64)
            };
            concat3("Some(", digits.as_str(), ")")
        },
        None => String::from_str("None"),
    }
}

/// What a site creation makes of `useradd`'s exit: success goes on, exit
/// code 9 (the user exists already) goes on too and is reported as
/// `Ok(true)`; any other failure stops the creation.
pub fn useradd_outcome(success: bool, code: Option<i32>) -> (r: Result<bool, AgentError>)
    ensures
        success ==> r == Ok::<bool, AgentError>(false),
        !success && code == Some(9i32) ==> r == Ok::<bool, AgentError>(true),
        !success && code != Some(9i32) ==> (r matches Err(AgentError::Internal(m)) && m@
            == "useradd failed with exit code "@ + debug_exit_code(code)),
{
    if success {
        return Ok(false);
    }
    match code {
        Some(9) => Ok(true),
        _ => {
            let t = exit_code_text(code);
            Err(AgentError::Internal(concat2("useradd failed with exit code ", t.as_str())))
        },
    }
}

/// The web servers a site's vhost is written for.
#[derive(Debug, Clone, Copy, PartialEq, Eq)]
pub enum VhostKind {
    Nginx,
    OpenLiteSpeed,
    Apache,
    /// An unknown server: no vhost is written.
    Skip,
}

/// The vhost a site gets for the web server a request names (nginx when it
/// names none; `lse` is served by the OpenLiteSpeed configuration).
pub open spec fn vhost_kind_of(web_server: Seq<char>) -> VhostKind {
    if web_server == "nginx"@ || web_server.len() == 0 {
        VhostKind::Nginx
    } else if web_server == "ols"@ || web_server == "lse"@ {
        VhostKind::OpenLiteSpeed
    } else if web_server == "apache"@ {
        VhostKind::Apache
    } else {
        VhostKind::Skip
    }
}

/// Which vhost a new site gets.
pub fn vhost_kind(web_server: &str) -> (r: VhostKind)
    ensures
        r == vhost_kind_of(web_server@),
{
    proof {
        reveal_strlit("");
    }
    assert(web_server@.len() == 0 ==> web_server@ =~= ""@);
    if str_eq(web_server, "nginx") || str_eq(web_server, "") {
        VhostKind::Nginx
    } else if str_eq(web_server, "ols") || str_eq(web_server, "lse") {
        VhostKind::OpenLiteSpeed
    } else if str_eq(web_server, "apache") {
        VhostKind::Apache
    } else {
        VhostKind::Skip
    }
}

} // verus!
