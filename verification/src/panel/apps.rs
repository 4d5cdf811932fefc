//! One-click application installs.

use vstd::prelude::*;
use vstd::string::StringSliceAdditionalSpecFns;
use crate::agent::backup::{hex_encode, hex_of};
use crate::text::{
    concat_all, concat_strs, contains_chars, contains_seq, chars_of, decimal, decimal_string,
    replace_all, replace_str, str_eq, views_of,
};

verus! {

#[derive(Debug)]
/// Runtime parameters resolved at install time.
pub struct InstallRuntime {
    /// Unix username owning the site (e.g. "u12345").
    pub unix_user: String,
    /// Allocated port for the site's app process.
    pub service_port: u16,
    /// App-specific `[download].command` value from the TOML manifest.
    pub command: String,
    /// Whether to run `git init && git add -A && git commit` after install.
    pub git_init: bool,
}

#[derive(Debug)]
pub struct AppManifest {
    pub id:          String,
    pub name:        String,
    pub description: String,
    pub version:     String,
    pub category:    String,
    pub icon_url:    Option<String>,
    pub requires_pro: bool,
}

#[derive(Debug)]
pub struct AdminCredentials {
    pub admin_user:     String,
    pub admin_email:    String,
    /// The plain-text password is only returned once, on the first retrieval
    /// after installation.  Subsequent requests should omit it.
    pub admin_password: String,
}

/// How an app's files are fetched, from its manifest's `[download]`.
#[derive(Debug, Clone, Copy, PartialEq, Eq)]
pub enum InstallMethod {
    /// An archive handled by the one-click installer.
    Archive,
    /// `composer create-project` in the web root.
    Composer,
    /// `npx` in the site's home.
    Npx,
    /// `pip install` in the site's virtualenv.
    Pip,
    /// `npm install` in the site's home.
    Npm,
}

/// The method a manifest's method name selects; unknown names mean an
/// archive.
pub open spec fn install_method_of(s: Seq<char>) -> InstallMethod {
    if s == "composer"@ {
        InstallMethod::Composer
    } else if s == "npx"@ {
        InstallMethod::Npx
    } else if s == "pip"@ {
        InstallMethod::Pip
    } else if s == "npm"@ {
        InstallMethod::Npm
    } else {
        InstallMethod::Archive
    }
}

impl InstallMethod {
    /// Reads a manifest's method name.
    pub fn from_str(s: &str) -> (r: InstallMethod)
        ensures
            r == install_method_of(s@),
    {
        if str_eq(s, "composer") {
            InstallMethod::Composer
        } else if str_eq(s, "npx") {
            InstallMethod::Npx
        } else if str_eq(s, "pip") {
            InstallMethod::Pip
        } else if str_eq(s, "npm") {
            InstallMethod::Npm
        } else {
            InstallMethod::Archive
        }
    }
}

/// A manifest built from a row of the built-in list.
pub open spec fn manifest_matches(m: AppManifest, row: (Seq<char>, Seq<char>, Seq<char>, Seq<char>)) -> bool {
    &&& m.id@ == row.0
    &&& m.name@ == row.1
    &&& m.description@ == row.2
    &&& m.version@ == "latest"@
    &&& m.category@ == row.3
    &&& m.icon_url is None
    &&& !m.requires_pro
}

/// The built-in apps: id, name, description and category.
pub open spec fn known_apps() -> Seq<(Seq<char>, Seq<char>, Seq<char>, Seq<char>)> {
    seq![
        ("wordpress"@, "WordPress"@, "The world's most popular CMS"@, "cms"@),
        ("joomla"@, "Joomla"@, "Open-source content management"@, "cms"@),
        ("drupal"@, "Drupal"@, "Enterprise open-source CMS"@, "cms"@),
        ("ghost"@, "Ghost"@, "Modern publishing platform for creators"@, "cms"@),
        ("laravel"@, "Laravel"@, "Elegant PHP web application framework"@, "framework"@),
        ("symfony"@, "Symfony"@, "Professional PHP framework for web applications"@, "framework"@),
        ("nextjs"@, "Next.js"@, "React framework for production-grade web apps"@, "framework"@),
        ("nuxt"@, "Nuxt 3"@, "Vue.js framework with SSR, SSG, and SPA support"@, "framework"@),
        ("django"@, "Django"@, "Python web framework — batteries included"@, "framework"@),
        ("fastapi"@, "FastAPI + Uvicorn"@, "Modern, fast Python API framework with async"@, "ai"@),
        ("ollama_proxy"@, "LangChain + Ollama"@, "AI inference proxy with LangChain integration"@, "ai"@),
        ("n8n_ai"@, "n8n AI Automation"@, "Workflow automation with 400+ integrations"@, "ai"@),
        ("nextcloud"@, "Nextcloud"@, "Self-hosted cloud storage and collaboration"@, "productivity"@),
        ("gitea"@, "Gitea"@, "Lightweight self-hosted Git service"@, "dev"@),
        ("roundcube"@, "Roundcube"@, "Browser-based IMAP email client"@, "email"@),
        ("matomo"@, "Matomo"@, "Privacy-first web analytics platform"@, "productivity"@),
        ("n8n"@, "n8n"@, "Workflow automation for everyone"@, "productivity"@),
    ]
}

/// The built-in app list (used when no manifest directory is readable or
/// it holds no manifest), every app at version `latest`, without icon and
/// free of charge.
pub fn builtin_app_manifests() -> (r: Vec<AppManifest>)
    ensures
        r@.len() == known_apps().len(),
        forall|i: int| 0 <= i < r@.len() ==> #[trigger] manifest_matches(r@[i], known_apps()[i]),
{
    let table: Vec<(&str, &str, &str, &str)> = vec![
        ("wordpress", "WordPress", "The world's most popular CMS", "cms"),
        ("joomla", "Joomla", "Open-source content management", "cms"),
        ("drupal", "Drupal", "Enterprise open-source CMS", "cms"),
        ("ghost", "Ghost", "Modern publishing platform for creators", "cms"),
        ("laravel", "Laravel", "Elegant PHP web application framework", "framework"),
        ("symfony", "Symfony", "Professional PHP framework for web applications", "framework"),
        ("nextjs", "Next.js", "React framework for production-grade web apps", "framework"),
        ("nuxt", "Nuxt 3", "Vue.js framework with SSR, SSG, and SPA support", "framework"),
        ("django", "Django", "Python web framework — batteries included", "framework"),
        ("fastapi", "FastAPI + Uvicorn", "Modern, fast Python API framework with async", "ai"),
        ("ollama_proxy", "LangChain + Ollama", "AI inference proxy with LangChain integration", "ai"),
        ("n8n_ai", "n8n AI Automation", "Workflow automation with 400+ integrations", "ai"),
        ("nextcloud", "Nextcloud", "Self-hosted cloud storage and collaboration", "productivity"),
        ("gitea", "Gitea", "Lightweight self-hosted Git service", "dev"),
        ("roundcube", "Roundcube", "Browser-based IMAP email client", "email"),
        ("matomo", "Matomo", "Privacy-first web analytics platform", "productivity"),
        ("n8n", "n8n", "Workflow automation for everyone", "productivity"),
    ];
    assert(table@.len() == known_apps().len());
    assert(forall|i: int| 0 <= i < table@.len() ==> #[trigger] table@[i].0@ == known_apps()[i].0 && table@[i].1@ == known_apps()[i].1 && table@[i].2@ == known_apps()[i].2 && table@[i].3@ == known_apps()[i].3);
    let mut out: Vec<AppManifest> = Vec::new();
    let mut i: usize = 0;
    while i < table.len()
        invariant
            i <= table@.len(),
            table@.len() == known_apps().len(),
            forall|k: int| 0 <= k < table@.len() ==> #[trigger] table@[k].0@ == known_apps()[k].0 && table@[k].1@ == known_apps()[k].1 && table@[k].2@ == known_apps()[k].2 && table@[k].3@ == known_apps()[k].3,
            out@.len() == i,
            forall|k: int| 0 <= k < i ==> #[trigger] manifest_matches(out@[k], known_apps()[k]),
        decreases table@.len() - i,
    {
        let (id, name, desc, category) = table[i];
        out.push(AppManifest {
            id: String::from_str(id),
            name: String::from_str(name),
            description: String::from_str(desc),
            version: String::from_str("latest"),
            category: String::from_str(category),
            icon_url: None,
            requires_pro: false,
        });
        i = i + 1;
    }
    out
}

/// The `[app]` section of a manifest file as its TOML reads: whether the
/// section is there, and each field that holds a value of its kind (a
/// string, or a boolean for `requires_pro`).
#[derive(Debug)]
pub struct AppManifestFields {
    pub has_app: bool,
    pub id: Option<String>,
    pub name: Option<String>,
    pub description: Option<String>,
    pub version: Option<String>,
    pub category: Option<String>,
    pub icon_url: Option<String>,
    pub requires_pro: Option<bool>,
}

/// The text of an optional string, or a default.
pub open spec fn text_or(s: Option<String>, default: Seq<char>) -> Seq<char> {
    match s {
        Some(t) => t@,
        None => default,
    }
}

/// The manifest a file describes: none without an `[app]` section or with
/// an empty or missing id; else its fields, with the name defaulting to the
/// id, the description to nothing, the version to `latest`, the category to
/// `other` and `requires_pro` to false.
pub open spec fn manifest_from_fields(f: AppManifestFields, m: Option<AppManifest>) -> bool {
    if !f.has_app || text_or(f.id, Seq::empty()).len() == 0 {
        m is None
    } else {
        m matches Some(a) && a.id@ == text_or(f.id, Seq::empty()) && a.name@ == text_or(
            f.name,
            text_or(f.id, Seq::empty()),
        ) && a.description@ == text_or(f.description, Seq::empty()) && a.version@ == text_or(
            f.version,
            "latest"@,
        ) && a.category@ == text_or(f.category, "other"@) && a.icon_url == f.icon_url && a.requires_pro
            == match f.requires_pro {
            Some(b) => b,
            None => false,
        }
    }
}

fn text_or_default(s: Option<String>, default: &str) -> (r: String)
    ensures
        r@ == text_or(s, default@),
{
    match s {
        Some(t) => t,
        None => String::from_str(default),
    }
}

/// Builds the manifest of an app from the fields its manifest file holds.
pub fn app_manifest_from(f: AppManifestFields) -> (r: Option<AppManifest>)
    ensures
        manifest_from_fields(f, r),
{
    proof {
        reveal_strlit("");
    }
    if !f.has_app {
        return None;
    }
    let id = text_or_default(f.id, "");
    if id.as_str().unicode_len() == 0 {
        return None;
    }
    let name = match f.name {
        Some(n) => n,
        None => String::from_str(id.as_str()),
    };
    let description = text_or_default(f.description, "");
    let version = text_or_default(f.version, "latest");
    let category = text_or_default(f.category, "other");
    let requires_pro = match f.requires_pro {
        Some(b) => b,
        None => false,
    };
    let m = AppManifest { id, name, description, version, category, icon_url: f.icon_url, requires_pro };
    assert(m.id@ == text_or(f.id, Seq::empty()));
    assert(m.name@ == text_or(f.name, text_or(f.id, Seq::empty())));
    assert(m.description@ == text_or(f.description, Seq::empty()));
    assert(m.requires_pro == match f.requires_pro {
        Some(b) => b,
        None => false,
    });
    assert(f.has_app && text_or(f.id, Seq::empty()).len() != 0);
    Some(m)
}

/// The manifests found on disk, or the built-in list when none was.
pub fn manifests_or_builtin(found: Vec<AppManifest>) -> (r: Vec<AppManifest>)
    ensures
        found@.len() > 0 ==> r@ == found@,
        found@.len() == 0 ==> r@.len() == known_apps().len() && forall|i: int|
            0 <= i < r@.len() ==> #[trigger] manifest_matches(r@[i], known_apps()[i]),
{
    if found.len() > 0 {
        found
    } else {
        builtin_app_manifests()
    }
}

/// `command` with every `PORT` replaced by the site's port number.
pub open spec fn port_filled(command: Seq<char>, port: u16) -> Seq<char> {
    replace_all(command, "PORT"@, decimal(port as nat))
}

/// Puts the site's port number in place of each `PORT` in a command.
pub fn fill_port(s: &str, port: u16) -> (r: String)
    ensures
        r@ == port_filled(s@, port),
{
    proof {
        reveal_strlit("PORT");
    }
    let p = decimal_string(port as u64);
    replace_str(s, "PORT", p.as_str())
}

/// `len` bytes from the thread-local random generator
/// (`rand::thread_rng().fill_bytes`); nothing is claimed of their values.
#[verifier::external_body]
pub(crate) fn random_bytes(len: usize) -> (r: Vec<u8>)
    ensures
        r@.len() == len,
{
    let mut bytes = vec![0u8; len];
    rand::RngCore::fill_bytes(&mut rand::thread_rng(), &mut bytes);
    bytes
}

/// `command` with each `RANDOM_32BYTES_HEX` replaced by the hex text of
/// the given bytes.
pub open spec fn random_filled(command: Seq<char>, bytes: Seq<u8>) -> Seq<char> {
    replace_all(command, "RANDOM_32BYTES_HEX"@, hex_of(bytes))
}

/// Puts one fresh random 32-byte value, in hex, in place of each
/// `RANDOM_32BYTES_HEX` in a command; commands without it are unchanged.
pub fn fill_random_hex(s: &str) -> (r: String)
    ensures
        !contains_seq(s@, "RANDOM_32BYTES_HEX"@) ==> r@ == s@,
        exists|b: Seq<u8>| b.len() == 32 && r@ == random_filled(s@, b),
{
    proof {
        reveal_strlit("RANDOM_32BYTES_HEX");
    }
    let sv = chars_of(s);
    let tok = chars_of("RANDOM_32BYTES_HEX");
    if !contains_chars(&sv, &tok) {
        proof {
            lemma_replace_absent(s@, "RANDOM_32BYTES_HEX"@, hex_of(Seq::new(32, |i: int| 0u8)));
        }
        return String::from_str(s);
    }
    let bytes = random_bytes(32);
    let h = hex_encode(bytes.as_slice());
    replace_str(s, "RANDOM_32BYTES_HEX", h.as_str())
}

proof fn lemma_replace_absent(s: Seq<char>, pat: Seq<char>, rep: Seq<char>)
    requires
        pat.len() > 0,
        !contains_seq(s, pat),
    ensures
        replace_all(s, pat, rep) == s,
    decreases s.len(),
{
    if s.len() >= pat.len() {
        assert(!crate::text::occurs_at(s, pat, 0));
        assert(s.take(pat.len() as int) =~= s.subrange(0, pat.len() as int));
        assert forall|i: int| !crate::text::occurs_at(s.skip(1), pat, i) by {
            if crate::text::occurs_at(s.skip(1), pat, i) {
                assert(s.skip(1).subrange(i, i + pat.len()) =~= s.subrange(i + 1, i + 1 + pat.len()));
                assert(crate::text::occurs_at(s, pat, i + 1));
            }
        }
        lemma_replace_absent(s.skip(1), pat, rep);
        assert(s =~= seq![s[0]] + s.skip(1));
    }
}

/// The composer install command of an app, in the site's web root.
pub open spec fn composer_install_text(unix_user: Seq<char>, command: Seq<char>) -> Seq<char> {
    concat_all(
        seq![
            "sudo -u "@,
            unix_user,
            " composer "@,
            command,
            " --working-dir=/home/"@,
            unix_user,
            "/public_html"@,
        ],
    )
}

/// Renders the composer install command.
pub fn composer_install(unix_user: &str, command: &str) -> (r: String)
    ensures
        r@ == composer_install_text(unix_user@, command@),
{
    let parts: Vec<&str> = vec![
        "sudo -u ",
        unix_user,
        " composer ",
        command,
        " --working-dir=/home/",
        unix_user,
        "/public_html",
    ];
    assert(views_of(parts@) =~= seq![
        "sudo -u "@,
        unix_user@,
        " composer "@,
        command@,
        " --working-dir=/home/"@,
        unix_user@,
        "/public_html"@,
    ]);
    concat_strs(&parts)
}

/// The npx install command of an app, with nvm loaded, in the site's home.
pub open spec fn npx_install_text(unix_user: Seq<char>, command: Seq<char>) -> Seq<char> {
    concat_all(
        seq![
            "sudo -u "@,
            unix_user,
            " bash -c \"source /home/"@,
            unix_user,
            "/.nvm/nvm.sh && cd /home/"@,
            unix_user,
            " && npx "@,
            command,
            "\""@,
        ],
    )
}

/// Renders the npx install command.
pub fn npx_install(unix_user: &str, command: &str) -> (r: String)
    ensures
        r@ == npx_install_text(unix_user@, command@),
{
    let parts: Vec<&str> = vec![
        "sudo -u ",
        unix_user,
        " bash -c \"source /home/",
        unix_user,
        "/.nvm/nvm.sh && cd /home/",
        unix_user,
        " && npx ",
        command,
        "\"",
    ];
    assert(views_of(parts@) =~= seq![
        "sudo -u "@,
        unix_user@,
        " bash -c \"source /home/"@,
        unix_user@,
        "/.nvm/nvm.sh && cd /home/"@,
        unix_user@,
        " && npx "@,
        command@,
        "\""@,
    ]);
    concat_strs(&parts)
}

/// The pip install command of an app, in the site's virtualenv.
pub open spec fn pip_install_text(unix_user: Seq<char>, command: Seq<char>) -> Seq<char> {
    concat_all(
        seq![
            "sudo -u "@,
            unix_user,
            " bash -c \"source /home/"@,
            unix_user,
            "/.venv/bin/activate && "@,
            command,
            "\""@,
        ],
    )
}

/// Renders the pip install command.
pub fn pip_install(unix_user: &str, command: &str) -> (r: String)
    ensures
        r@ == pip_install_text(unix_user@, command@),
{
    let parts: Vec<&str> = vec![
        "sudo -u ",
        unix_user,
        " bash -c \"source /home/",
        unix_user,
        "/.venv/bin/activate && ",
        command,
        "\"",
    ];
    assert(views_of(parts@) =~= seq![
        "sudo -u "@,
        unix_user@,
        " bash -c \"source /home/"@,
        unix_user@,
        "/.venv/bin/activate && "@,
        command@,
        "\""@,
    ]);
    concat_strs(&parts)
}

/// The npm install command of an app, with nvm loaded, in the site's home.
pub open spec fn npm_install_text(unix_user: Seq<char>, command: Seq<char>) -> Seq<char> {
    concat_all(
        seq![
            "sudo -u "@,
            unix_user,
            " bash -c \"source /home/"@,
            unix_user,
            "/.nvm/nvm.sh && cd /home/"@,
            unix_user,
            " && npm "@,
            command,
            "\""@,
        ],
    )
}

/// Renders the npm install command.
pub fn npm_install(unix_user: &str, command: &str) -> (r: String)
    ensures
        r@ == npm_install_text(unix_user@, command@),
{
    let parts: Vec<&str> = vec![
        "sudo -u ",
        unix_user,
        " bash -c \"source /home/",
        unix_user,
        "/.nvm/nvm.sh && cd /home/",
        unix_user,
        " && npm ",
        command,
        "\"",
    ];
    assert(views_of(parts@) =~= seq![
        "sudo -u "@,
        unix_user@,
        " bash -c \"source /home/"@,
        unix_user@,
        "/.nvm/nvm.sh && cd /home/"@,
        unix_user@,
        " && npm "@,
        command@,
        "\""@,
    ]);
    concat_strs(&parts)
}

/// The command that starts a git repository in an app's directory.
pub open spec fn git_init_cmd_text(unix_user: Seq<char>, git_dir: Seq<char>) -> Seq<char> {
    concat_all(
        seq![
            "sudo -u "@,
            unix_user,
            " git -C "@,
            git_dir,
            " init"@,
        ],
    )
}

/// Renders the `git init` command.
pub fn git_init_cmd(unix_user: &str, git_dir: &str) -> (r: String)
    ensures
        r@ == git_init_cmd_text(unix_user@, git_dir@),
{
    let parts: Vec<&str> = vec![
        "sudo -u ",
        unix_user,
        " git -C ",
        git_dir,
        " init",
    ];
    assert(views_of(parts@) =~= seq![
        "sudo -u "@,
        unix_user@,
        " git -C "@,
        git_dir@,
        " init"@,
    ]);
    concat_strs(&parts)
}

/// The command that stages an app's files.
pub open spec fn git_add_cmd_text(unix_user: Seq<char>, git_dir: Seq<char>) -> Seq<char> {
    concat_all(
        seq![
            "sudo -u "@,
            unix_user,
            " git -C "@,
            git_dir,
            " add -A"@,
        ],
    )
}

/// Renders the `git add` command.
pub fn git_add_cmd(unix_user: &str, git_dir: &str) -> (r: String)
    ensures
        r@ == git_add_cmd_text(unix_user@, git_dir@),
{
    let parts: Vec<&str> = vec![
        "sudo -u ",
        unix_user,
        " git -C ",
        git_dir,
        " add -A",
    ];
    assert(views_of(parts@) =~= seq![
        "sudo -u "@,
        unix_user@,
        " git -C "@,
        git_dir@,
        " add -A"@,
    ]);
    concat_strs(&parts)
}

/// The command that commits an app's first install.
pub open spec fn git_commit_cmd_text(unix_user: Seq<char>, git_dir: Seq<char>) -> Seq<char> {
    concat_all(
        seq![
            "sudo -u "@,
            unix_user,
            " git -C "@,
            git_dir,
            " commit -m \"Initial JottiCP install\""@,
        ],
    )
}

/// Renders the `git commit` command.
pub fn git_commit_cmd(unix_user: &str, git_dir: &str) -> (r: String)
    ensures
        r@ == git_commit_cmd_text(unix_user@, git_dir@),
{
    let parts: Vec<&str> = vec![
        "sudo -u ",
        unix_user,
        " git -C ",
        git_dir,
        " commit -m \"Initial JottiCP install\"",
    ];
    assert(views_of(parts@) =~= seq![
        "sudo -u "@,
        unix_user@,
        " git -C "@,
        git_dir@,
        " commit -m \"Initial JottiCP install\""@,
    ]);
    concat_strs(&parts)
}

/// The shell command that installs an app by `method`; archives are not
/// installed this way and are refused.
pub open spec fn install_command_of(method: InstallMethod, unix_user: Seq<char>, command: Seq<char>) -> Result<Seq<char>, Seq<char>> {
    match method {
        InstallMethod::Composer => Ok(composer_install_text(unix_user, command)),
        InstallMethod::Npx => Ok(npx_install_text(unix_user, command)),
        InstallMethod::Pip => Ok(pip_install_text(unix_user, command)),
        InstallMethod::Npm => Ok(npm_install_text(unix_user, command)),
        InstallMethod::Archive => Err("Archive method should be handled by the existing installer engine, not dispatch_app_install_by_method()"@),
    }
}

/// The prefix shared by the npx and npm install lines: the site user's
/// shell with nvm loaded, in the site's home.
pub open spec fn nvm_prefix(unix_user: Seq<char>) -> Seq<char> {
    concat_all(
        seq![
            "sudo -u "@,
            unix_user,
            " bash -c \"source /home/"@,
            unix_user,
            "/.nvm/nvm.sh && cd /home/"@,
            unix_user,
        ],
    )
}

/// Unfolds a nine-part line into its first six parts and the last three.
proof fn lemma_concat_last_three(parts: Seq<Seq<char>>)
    requires
        parts.len() == 9,
    ensures
        concat_all(parts) == concat_all(parts.take(6)) + parts[6] + parts[7] + parts[8],
{
    assert(parts.drop_last() =~= parts.take(8));
    assert(parts.take(8).drop_last() =~= parts.take(7));
    assert(parts.take(7).drop_last() =~= parts.take(6));
    assert(concat_all(parts) == concat_all(parts.take(8)) + parts[8]);
    assert(concat_all(parts.take(8)) == concat_all(parts.take(7)) + parts[7]);
    assert(concat_all(parts.take(7)) == concat_all(parts.take(6)) + parts[6]);
    assert(concat_all(parts.take(6)) + parts[6] + parts[7] + parts[8] =~= ((concat_all(parts.take(6)) + parts[6])
        + parts[7]) + parts[8]);
}

/// The npx method runs `npx` on the manifest command and the npm method
/// runs `npm` on it: each line ends in ` && npx <command>"` or
/// ` && npm <command>"` after the same nvm setup, so the two methods never
/// give the same line.
pub proof fn lemma_npx_and_npm_lines(unix_user: Seq<char>, command: Seq<char>)
    ensures
        install_command_of(InstallMethod::Npx, unix_user, command) == Ok::<Seq<char>, Seq<char>>(
            nvm_prefix(unix_user) + " && npx "@ + command + "\""@,
        ),
        install_command_of(InstallMethod::Npm, unix_user, command) == Ok::<Seq<char>, Seq<char>>(
            nvm_prefix(unix_user) + " && npm "@ + command + "\""@,
        ),
        install_command_of(InstallMethod::Npx, unix_user, command) != install_command_of(
            InstallMethod::Npm,
            unix_user,
            command,
        ),
{
    let x = seq![
        "sudo -u "@,
        unix_user,
        " bash -c \"source /home/"@,
        unix_user,
        "/.nvm/nvm.sh && cd /home/"@,
        unix_user,
        " && npx "@,
        command,
        "\""@,
    ];
    let m = seq![
        "sudo -u "@,
        unix_user,
        " bash -c \"source /home/"@,
        unix_user,
        "/.nvm/nvm.sh && cd /home/"@,
        unix_user,
        " && npm "@,
        command,
        "\""@,
    ];
    lemma_concat_last_three(x);
    lemma_concat_last_three(m);
    let six = seq![
        "sudo -u "@,
        unix_user,
        " bash -c \"source /home/"@,
        unix_user,
        "/.nvm/nvm.sh && cd /home/"@,
        unix_user,
    ];
    assert(x.take(6) =~= six);
    assert(m.take(6) =~= six);
    let p = nvm_prefix(unix_user);
    let a = p + " && npx "@ + command + "\""@;
    let b = p + " && npm "@ + command + "\""@;
    reveal_strlit(" && npx ");
    reveal_strlit(" && npm ");
    let qa = p + " && npx "@;
    let qb = p + " && npm "@;
    assert(qa[p.len() + 6int] == " && npx "@[6]);
    assert(qb[p.len() + 6int] == " && npm "@[6]);
    assert(a[p.len() + 6int] == qa[p.len() + 6int]);
    assert(b[p.len() + 6int] == qb[p.len() + 6int]);
    assert(" && npx "@[6] == 'x' && " && npm "@[6] == 'm');
    assert(a[p.len() + 6int] != b[p.len() + 6int]);
}

/// A line of parts is the parts one after the other.
proof fn lemma_concat_seven(parts: Seq<Seq<char>>)
    requires
        parts.len() == 7,
    ensures
        concat_all(parts) == parts[0] + parts[1] + parts[2] + parts[3] + parts[4] + parts[5] + parts[6],
{
    assert(parts.drop_last() =~= parts.take(6));
    assert(parts.take(6).drop_last() =~= parts.take(5));
    assert(parts.take(5).drop_last() =~= parts.take(4));
    assert(parts.take(4).drop_last() =~= parts.take(3));
    assert(parts.take(3).drop_last() =~= parts.take(2));
    assert(parts.take(2).drop_last() =~= parts.take(1));
    assert(parts.take(1).drop_last() =~= parts.take(0));
    assert(concat_all(parts.take(0)) =~= Seq::<char>::empty());
    assert(concat_all(parts.take(1)) =~= parts[0]);
    assert(concat_all(parts.take(2)) == concat_all(parts.take(1)) + parts[1]);
    assert(concat_all(parts.take(3)) == concat_all(parts.take(2)) + parts[2]);
    assert(concat_all(parts.take(4)) == concat_all(parts.take(3)) + parts[3]);
    assert(concat_all(parts.take(5)) == concat_all(parts.take(4)) + parts[4]);
    assert(concat_all(parts.take(6)) == concat_all(parts.take(5)) + parts[5]);
    assert(concat_all(parts) == concat_all(parts.take(6)) + parts[6]);
}

/// The composer method runs `composer <command>` as the site's user with
/// the site's web root as working directory; the pip method runs the
/// command in the site's virtualenv; archives are not installed by a
/// command and are refused.
pub proof fn lemma_composer_pip_archive_lines(unix_user: Seq<char>, command: Seq<char>)
    ensures
        install_command_of(InstallMethod::Composer, unix_user, command) == Ok::<Seq<char>, Seq<char>>(
            "sudo -u "@ + unix_user + " composer "@ + command + " --working-dir=/home/"@ + unix_user + "/public_html"@,
        ),
        install_command_of(InstallMethod::Pip, unix_user, command) == Ok::<Seq<char>, Seq<char>>(
            "sudo -u "@ + unix_user + " bash -c \"source /home/"@ + unix_user + "/.venv/bin/activate && "@ + command
                + "\""@,
        ),
        install_command_of(InstallMethod::Archive, unix_user, command) is Err,
{
    lemma_concat_seven(
        seq![
            "sudo -u "@,
            unix_user,
            " composer "@,
            command,
            " --working-dir=/home/"@,
            unix_user,
            "/public_html"@,
        ],
    );
    lemma_concat_seven(
        seq![
            "sudo -u "@,
            unix_user,
            " bash -c \"source /home/"@,
            unix_user,
            "/.venv/bin/activate && "@,
            command,
            "\""@,
        ],
    );
}

/// Builds the shell command that installs an app by `method`, from its
/// already filled-in manifest command.
pub fn install_shell_command(method: InstallMethod, unix_user: &str, command: &str) -> (r: Result<String, String>)
    ensures
        match install_command_of(method, unix_user@, command@) {
            Ok(c) => r matches Ok(s) && s@ == c,
            Err(m) => r matches Err(e) && e@ == m,
        },
{
    match method {
        InstallMethod::Composer => Ok(composer_install(unix_user, command)),
        InstallMethod::Npx => Ok(npx_install(unix_user, command)),
        InstallMethod::Pip => Ok(pip_install(unix_user, command)),
        InstallMethod::Npm => Ok(npm_install(unix_user, command)),
        InstallMethod::Archive => Err(String::from_str("Archive method should be handled by the existing installer engine, not dispatch_app_install_by_method()")),
    }
}

/// The last line of some text (`str::lines`), or `(no output)` when it has
/// none.
pub open spec fn last_line_or_none(text: Seq<char>) -> Seq<char> {
    let ls = crate::text::lines_of(text);
    if ls.len() == 0 {
        "(no output)"@
    } else {
        ls.last()
    }
}

/// What an install command's run answers: its standard output and error
/// joined by a line break when it succeeded; otherwise its exit status and
/// the last line of its standard error.
pub fn install_outcome(success: bool, status_text: &str, stdout: &str, stderr: &str) -> (r: Result<String, String>)
    ensures
        success ==> (r matches Ok(o) && o@ == stdout@ + "\n"@ + stderr@),
        !success ==> (r matches Err(m) && m@ == "Install command exited with "@ + status_text@ + ": "@
            + last_line_or_none(stderr@)),
{
    if success {
        return Ok(crate::text::concat3(stdout, "\n", stderr));
    }
    let ev = chars_of(stderr);
    let ls = crate::text::lines_chars(&ev);
    let last = if ls.len() == 0 {
        String::from_str("(no output)")
    } else {
        crate::text::string_from_chars(&ls[ls.len() - 1])
    };
    proof {
        reveal_strlit("(no output)");
    }
    let mut m = String::from_str("Install command exited with ");
    m.append(status_text);
    m.append(": ");
    m.append(last.as_str());
    Err(m)
}

/// Where an installed app's repository goes: the web root for composer
/// apps, the home directory otherwise.
pub open spec fn git_dir_of(method: InstallMethod, unix_user: Seq<char>) -> Seq<char> {
    match method {
        InstallMethod::Composer => "/home/"@ + unix_user + "/public_html"@,
        _ => "/home/"@ + unix_user,
    }
}

/// The three commands that put a freshly installed app under git.
pub fn git_init_commands(method: InstallMethod, unix_user: &str) -> (r: Vec<String>)
    ensures
        r@.len() == 3,
        r@[0]@ == git_init_cmd_text(unix_user@, git_dir_of(method, unix_user@)),
        r@[1]@ == git_add_cmd_text(unix_user@, git_dir_of(method, unix_user@)),
        r@[2]@ == git_commit_cmd_text(unix_user@, git_dir_of(method, unix_user@)),
{
    let mut dir = String::from_str("/home/");
    dir.append(unix_user);
    match method {
        InstallMethod::Composer => {
            dir.append("/public_html");
        },
        _ => {},
    }
    let mut r: Vec<String> = Vec::new();
    r.push(git_init_cmd(unix_user, dir.as_str()));
    r.push(git_add_cmd(unix_user, dir.as_str()));
    r.push(git_commit_cmd(unix_user, dir.as_str()));
    r
}

/// What `hex::decode` gives for a byte string: `None` for an odd length or
/// a byte that is not a hex digit, else two digits per byte.
pub open spec fn hex_decode_of(h: Seq<u8>) -> Option<Seq<u8>> {
    if h.len() % 2 == 0 && forall|i: int| 0 <= i < h.len() ==> is_hex_byte(#[trigger] h[i]) {
        Some(Seq::new((h.len() / 2) as nat, |i: int| (hex_byte_value(h[2 * i]) * 16 + hex_byte_value(h[2 * i + 1])) as u8))
    } else {
        None
    }
}

/// `b` is an ASCII hex digit (either case).
pub open spec fn is_hex_byte(b: u8) -> bool {
    (48 <= b <= 57) || (65 <= b <= 70) || (97 <= b <= 102)
}

/// The value of an ASCII hex digit.
pub open spec fn hex_byte_value(b: u8) -> nat {
    if 48 <= b <= 57 {
        (b - 48) as nat
    } else if 65 <= b <= 70 {
        (b - 55) as nat
    } else {
        (b - 87) as nat
    }
}

/// `hex::decode`: the bytes a hex string stands for; its error's text is
/// not described.
#[verifier::external_body]
fn hex_decode(s: &str) -> (r: Result<Vec<u8>, String>)
    ensures
        match hex_decode_of(s.spec_bytes()) {
            Some(b) => r matches Ok(v) && v@ == b,
            None => r is Err,
        },
{
    hex::decode(s).map_err(|e| e.to_string())
}

/// An Ed25519 verifying key.
#[verifier::external_type_specification]
#[verifier::external_body]
pub struct ExVerifyingKey(ed25519_dalek::VerifyingKey);

/// Whether 32 bytes are the compressed form of a valid Ed25519 public key.
pub uninterp spec fn ed25519_key_ok(bytes: Seq<u8>) -> bool;

/// `VerifyingKey::from_bytes`: the key when the 32 bytes decode to a curve
/// point; the error's text is not described.
#[verifier::external_body]
fn verifying_key_from(bytes: &Vec<u8>) -> (r: Result<ed25519_dalek::VerifyingKey, String>)
    requires
        bytes@.len() == 32,
    ensures
        r is Ok <==> ed25519_key_ok(bytes@),
{
    let mut arr = [0u8; 32];
    arr.copy_from_slice(bytes.as_slice());
    ed25519_dalek::VerifyingKey::from_bytes(&arr).map_err(|e| e.to_string())
}

/// Whether `Verifier::verify` of ed25519-dalek accepts a 64-byte signature
/// over a message for a valid 32-byte public key.
pub uninterp spec fn ed25519_verifies(key: Seq<u8>, message: Seq<u8>, sig: Seq<u8>) -> bool;

/// `VerifyingKey::from_bytes` on a key already known to be valid, then
/// `Verifier::verify` of the 64-byte signature over the message: `Ok`
/// exactly when the signature verifies, else the error's text. The answer
/// is named, not described.
#[verifier::external_body]
fn verify_ed25519(key: &Vec<u8>, message: &[u8], sig: &Vec<u8>) -> (r: Result<(), String>)
    requires
        key@.len() == 32,
        ed25519_key_ok(key@),
        sig@.len() == 64,
    ensures
        r is Ok <==> ed25519_verifies(key@, message@, sig@),
{
    let (mut k, mut a) = ([0u8; 32], [0u8; 64]);
    k.copy_from_slice(key.as_slice());
    a.copy_from_slice(sig.as_slice());
    let vk = match ed25519_dalek::VerifyingKey::from_bytes(&k) {
        Ok(v) => v,
        Err(e) => return Err(e.to_string()),
    };
    ed25519_dalek::Verifier::verify(&vk, message, &ed25519_dalek::Signature::from_bytes(&a)).map_err(|e| e.to_string())
}

/// Checks an Ed25519 signature over a downloaded archive: the key must be
/// 32 bytes of hex and a valid point, the signature 64 bytes of hex; then
/// the signature is verified.
pub fn verify_archive_signature(archive_bytes: &[u8], pubkey_hex: &str, sig_hex: &str) -> (r: Result<(), String>)
    ensures
        hex_decode_of(pubkey_hex.spec_bytes()) is None ==> r is Err,
        (hex_decode_of(pubkey_hex.spec_bytes()) matches Some(k) && k.len() != 32) ==> (r matches Err(m) && m@ == "pubkey must be exactly 32 bytes"@),
        (hex_decode_of(pubkey_hex.spec_bytes()) matches Some(k) && k.len() == 32 && !ed25519_key_ok(k)) ==> r is Err,
        (hex_decode_of(pubkey_hex.spec_bytes()) matches Some(k) && k.len() == 32 && ed25519_key_ok(k)) ==> (
            hex_decode_of(sig_hex.spec_bytes()) is None ==> r is Err),
        (hex_decode_of(pubkey_hex.spec_bytes()) matches Some(k) && k.len() == 32 && ed25519_key_ok(k)) ==> (
            (hex_decode_of(sig_hex.spec_bytes()) matches Some(sg) && sg.len() != 64) ==> (r matches Err(m) && m@ == "signature must be exactly 64 bytes"@)),
        r is Ok ==> (hex_decode_of(pubkey_hex.spec_bytes()) matches Some(k) && k.len() == 32 && ed25519_key_ok(k)),
        r is Ok ==> (hex_decode_of(sig_hex.spec_bytes()) matches Some(sg) && sg.len() == 64),
        match (hex_decode_of(pubkey_hex.spec_bytes()), hex_decode_of(sig_hex.spec_bytes())) {
            (Some(k), Some(sg)) => (k.len() == 32 && ed25519_key_ok(k) && sg.len() == 64) ==> (r is Ok
                <==> ed25519_verifies(k, archive_bytes@, sg)),
            _ => true,
        },
{
    let key_bytes = match hex_decode(pubkey_hex) {
        Ok(b) => b,
        Err(e) => {
            let mut m = String::from_str("invalid pubkey hex: ");
            m.append(e.as_str());
            return Err(m);
        },
    };
    if key_bytes.len() != 32 {
        return Err(String::from_str("pubkey must be exactly 32 bytes"));
    }
    match verifying_key_from(&key_bytes) {
        Ok(_) => {},
        Err(e) => {
            let mut m = String::from_str("invalid Ed25519 verifying key: ");
            m.append(e.as_str());
            return Err(m);
        },
    }
    let sig = match hex_decode(sig_hex) {
        Ok(b) => b,
        Err(e) => {
            let mut m = String::from_str("invalid signature hex: ");
            m.append(e.as_str());
            return Err(m);
        },
    };
    if sig.len() != 64 {
        return Err(String::from_str("signature must be exactly 64 bytes"));
    }
    match verify_ed25519(&key_bytes, archive_bytes, &sig) {
        Ok(()) => Ok(()),
        Err(e) => {
            let mut m = String::from_str("Ed25519 signature verification failed: ");
            m.append(e.as_str());
            Err(m)
        },
    }
}

/// An install request must name an app of the manifest list.
pub fn check_app_id(manifest_ids: &Vec<String>, app_id: &str) -> (r: Result<(), String>)
    ensures
        r is Ok <==> exists|i: int| 0 <= i < manifest_ids@.len() && #[trigger] manifest_ids@[i]@ == app_id@,
        r matches Err(m) ==> m@ == "Unknown app_id: "@ + app_id@,
{
    let mut i: usize = 0;
    while i < manifest_ids.len()
        invariant
            i <= manifest_ids@.len(),
            forall|k: int| 0 <= k < i ==> #[trigger] manifest_ids@[k]@ != app_id@,
        decreases manifest_ids@.len() - i,
    {
        if crate::text::str_eq(manifest_ids[i].as_str(), app_id) {
            return Ok(());
        }
        i = i + 1;
    }
    Err(crate::text::concat2("Unknown app_id: ", app_id))
}

/// How `{:?}` prints an optional status.
pub open spec fn debug_status(status: Option<Seq<char>>) -> Seq<char> {
    match status {
        Some(s) => "Some("@ + crate::text::debug_quoted(s) + ")"@,
        None => "None"@,
    }
}

/// Apps are installed only on active sites.
pub fn check_site_active(domain: &str, status: Option<&str>) -> (r: Result<(), String>)
    ensures
        r is Ok <==> (status matches Some(s) && s@ == "active"@),
        r matches Err(m) ==> m@ == "Site '"@ + domain@ + "' is not active (status: "@ + debug_status(
            match status {
                Some(s) => Some(s@),
                None => None,
            },
        ) + ")"@,
{
    let shown = match status {
        Some(s) => {
            if crate::text::str_eq(s, "active") {
                return Ok(());
            }
            let q = crate::text::debug_str(s);
            crate::text::concat3("Some(", q.as_str(), ")")
        },
        None => String::from_str("None"),
    };
    let head = crate::text::concat3("Site '", domain, "' is not active (status: ");
    Err(crate::text::concat3(head.as_str(), shown.as_str(), ")"))
}

/// The refusal of an app that is already on the site.
pub fn already_installed(app_id: &str) -> (r: String)
    ensures
        r@ == app_id@ + " is already installed on this site"@,
{
    crate::text::concat2(app_id, " is already installed on this site")
}


/// A row of an app's installations on a site: its status, and whether it
/// was deleted.
#[derive(Debug)]
pub struct InstallRow {
    pub status: String,
    pub deleted: bool,
}

/// An installation that still counts: not deleted and not failed.
pub open spec fn install_counts(row: InstallRow) -> bool {
    !row.deleted && row.status@ != "failed"@
}

/// A second install of an app on a site is refused while one of its
/// installations there still counts; failed or deleted ones do not.
pub fn check_not_installed(app_id: &str, rows: &Vec<InstallRow>) -> (r: Result<(), String>)
    ensures
        r is Err <==> exists|k: int| 0 <= k < rows@.len() && install_counts(#[trigger] rows@[k]),
        r matches Err(m) ==> m@ == app_id@ + " is already installed on this site"@,
{
    let mut k: usize = 0;
    while k < rows.len()
        invariant
            k <= rows@.len(),
            forall|j: int| 0 <= j < k ==> !install_counts(#[trigger] rows@[j]),
        decreases rows@.len() - k,
    {
        if !rows[k].deleted && !crate::text::str_eq(rows[k].status.as_str(), "failed") {
            return Err(already_installed(app_id));
        }
        k = k + 1;
    }
    Ok(())
}

} // verus!
