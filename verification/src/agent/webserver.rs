//! Web server virtual hosts: the nginx, OpenLiteSpeed and Apache
//! configurations written for a site.

use vstd::prelude::*;
use crate::text::{concat_all, concat_strs, views_of};

verus! {

/// The nginx server block of a PHP site.
pub open spec fn nginx_vhost_template_text(domain: Seq<char>, unix_user: Seq<char>, php_version: Seq<char>) -> Seq<char> {
    concat_all(
        seq![
            "server {\n    listen 80;\n    listen [::]:80;\n    server_name "@,
            domain,
            " www."@,
            domain,
            ";\n    root /home/"@,
            unix_user,
            "/public_html;\n    index index.php index.html index.htm;\n\n    # Security headers\n    add_header X-Content-Type-Options nosniff always;\n    add_header X-Frame-Options SAMEORIGIN always;\n    add_header Referrer-Policy strict-origin always;\n\n    location / {\n        try_files $uri $uri/ /index.php?$query_string;\n    }\n\n    location ~ \\.php$ {\n        try_files $uri =404;\n        include fastcgi_params;\n        fastcgi_pass unix:/run/php/php"@,
            php_version,
            "-fpm-"@,
            unix_user,
            ".sock;\n        fastcgi_param SCRIPT_FILENAME $document_root$fastcgi_script_name;\n        fastcgi_param PHP_VALUE \"error_log=/var/log/nginx/"@,
            domain,
            "-php.log\\n\";\n        fastcgi_read_timeout 300;\n        fastcgi_buffer_size 16k;\n        fastcgi_buffers 4 16k;\n    }\n\n    location ~ /\\.ht {\n        deny all;\n    }\n\n    location ~ /\\.git {\n        deny all;\n    }\n\n    # Static asset caching\n    location ~* \\.(css|js|png|jpg|jpeg|gif|ico|svg|woff|woff2|ttf|eot)$ {\n        expires 1y;\n        add_header Cache-Control \"public, immutable\";\n        access_log off;\n    }\n\n    access_log /var/log/nginx/"@,
            domain,
            ".access.log combined;\n    error_log  /var/log/nginx/"@,
            domain,
            ".error.log warn;\n}\n"@,
        ],
    )
}

/// Renders the nginx server block of a PHP site.
pub fn nginx_vhost_template(domain: &str, unix_user: &str, php_version: &str, _socket_path: &str) -> (r: String)
    ensures
        r@ == nginx_vhost_template_text(domain@, unix_user@, php_version@),
{
    let parts: Vec<&str> = vec![
        "server {\n    listen 80;\n    listen [::]:80;\n    server_name ",
        domain,
        " www.",
        domain,
        ";\n    root /home/",
        unix_user,
        "/public_html;\n    index index.php index.html index.htm;\n\n    # Security headers\n    add_header X-Content-Type-Options nosniff always;\n    add_header X-Frame-Options SAMEORIGIN always;\n    add_header Referrer-Policy strict-origin always;\n\n    location / {\n        try_files $uri $uri/ /index.php?$query_string;\n    }\n\n    location ~ \\.php$ {\n        try_files $uri =404;\n        include fastcgi_params;\n        fastcgi_pass unix:/run/php/php",
        php_version,
        "-fpm-",
        unix_user,
        ".sock;\n        fastcgi_param SCRIPT_FILENAME $document_root$fastcgi_script_name;\n        fastcgi_param PHP_VALUE \"error_log=/var/log/nginx/",
        domain,
        "-php.log\\n\";\n        fastcgi_read_timeout 300;\n        fastcgi_buffer_size 16k;\n        fastcgi_buffers 4 16k;\n    }\n\n    location ~ /\\.ht {\n        deny all;\n    }\n\n    location ~ /\\.git {\n        deny all;\n    }\n\n    # Static asset caching\n    location ~* \\.(css|js|png|jpg|jpeg|gif|ico|svg|woff|woff2|ttf|eot)$ {\n        expires 1y;\n        add_header Cache-Control \"public, immutable\";\n        access_log off;\n    }\n\n    access_log /var/log/nginx/",
        domain,
        ".access.log combined;\n    error_log  /var/log/nginx/",
        domain,
        ".error.log warn;\n}\n",
    ];
    assert(views_of(parts@) =~= seq![
        "server {\n    listen 80;\n    listen [::]:80;\n    server_name "@,
        domain@,
        " www."@,
        domain@,
        ";\n    root /home/"@,
        unix_user@,
        "/public_html;\n    index index.php index.html index.htm;\n\n    # Security headers\n    add_header X-Content-Type-Options nosniff always;\n    add_header X-Frame-Options SAMEORIGIN always;\n    add_header Referrer-Policy strict-origin always;\n\n    location / {\n        try_files $uri $uri/ /index.php?$query_string;\n    }\n\n    location ~ \\.php$ {\n        try_files $uri =404;\n        include fastcgi_params;\n        fastcgi_pass unix:/run/php/php"@,
        php_version@,
        "-fpm-"@,
        unix_user@,
        ".sock;\n        fastcgi_param SCRIPT_FILENAME $document_root$fastcgi_script_name;\n        fastcgi_param PHP_VALUE \"error_log=/var/log/nginx/"@,
        domain@,
        "-php.log\\n\";\n        fastcgi_read_timeout 300;\n        fastcgi_buffer_size 16k;\n        fastcgi_buffers 4 16k;\n    }\n\n    location ~ /\\.ht {\n        deny all;\n    }\n\n    location ~ /\\.git {\n        deny all;\n    }\n\n    # Static asset caching\n    location ~* \\.(css|js|png|jpg|jpeg|gif|ico|svg|woff|woff2|ttf|eot)$ {\n        expires 1y;\n        add_header Cache-Control \"public, immutable\";\n        access_log off;\n    }\n\n    access_log /var/log/nginx/"@,
        domain@,
        ".access.log combined;\n    error_log  /var/log/nginx/"@,
        domain@,
        ".error.log warn;\n}\n"@,
    ]);
    concat_strs(&parts)
}

/// The OpenLiteSpeed virtual host of a site, for a given admin e-mail.
pub open spec fn ols_vhost_conf_text(domain: Seq<char>, unix_user: Seq<char>, admin_email: Seq<char>) -> Seq<char> {
    concat_all(
        seq![
            "docRoot                   /home/"@,
            unix_user,
            "/public_html\nvhDomain                  "@,
            domain,
            "\nvhAliases                 www."@,
            domain,
            "\nadminEmails               "@,
            admin_email,
            "\nenableGzip                1\nenableBr                  1\nmaxKeepAliveReq           100\nkeepAliveTimeout          5\nenableIpGeo               0\n\ncontext / {\n  location              /home/"@,
            unix_user,
            "/public_html\n  allowBrowse           0\n  indexFiles            index.php, index.html\n  rewrite {\n    enable              1\n    autoLoadHtaccess    1\n  }\n  addDefaultCharset     off\n}\n\nrewrite {\n  enable                1\n  autoLoadHtaccess      1\n}\n\nphpIniOverride {\n  php_admin_value[open_basedir] /home/"@,
            unix_user,
            ":/tmp:/usr/share/php\n  php_admin_value[upload_max_filesize] 64M\n  php_admin_value[post_max_size] 64M\n}\n\nerrorlog {\n  useServer             0\n  fileName              /var/log/lsws/"@,
            domain,
            ".error.log\n  logLevel              WARN\n}\n\naccesslog {\n  useServer             0\n  fileName              /var/log/lsws/"@,
            domain,
            ".access.log\n  rotateSize            10M\n  keepDays              7\n  compress              1\n}\n"@,
        ],
    )
}

/// Renders the OpenLiteSpeed virtual host of a site for the given admin e-mail.
pub fn ols_vhost_conf(domain: &str, unix_user: &str, admin_email: &str) -> (r: String)
    ensures
        r@ == ols_vhost_conf_text(domain@, unix_user@, admin_email@),
{
    let parts: Vec<&str> = vec![
        "docRoot                   /home/",
        unix_user,
        "/public_html\nvhDomain                  ",
        domain,
        "\nvhAliases                 www.",
        domain,
        "\nadminEmails               ",
        admin_email,
        "\nenableGzip                1\nenableBr                  1\nmaxKeepAliveReq           100\nkeepAliveTimeout          5\nenableIpGeo               0\n\ncontext / {\n  location              /home/",
        unix_user,
        "/public_html\n  allowBrowse           0\n  indexFiles            index.php, index.html\n  rewrite {\n    enable              1\n    autoLoadHtaccess    1\n  }\n  addDefaultCharset     off\n}\n\nrewrite {\n  enable                1\n  autoLoadHtaccess      1\n}\n\nphpIniOverride {\n  php_admin_value[open_basedir] /home/",
        unix_user,
        ":/tmp:/usr/share/php\n  php_admin_value[upload_max_filesize] 64M\n  php_admin_value[post_max_size] 64M\n}\n\nerrorlog {\n  useServer             0\n  fileName              /var/log/lsws/",
        domain,
        ".error.log\n  logLevel              WARN\n}\n\naccesslog {\n  useServer             0\n  fileName              /var/log/lsws/",
        domain,
        ".access.log\n  rotateSize            10M\n  keepDays              7\n  compress              1\n}\n",
    ];
    assert(views_of(parts@) =~= seq![
        "docRoot                   /home/"@,
        unix_user@,
        "/public_html\nvhDomain                  "@,
        domain@,
        "\nvhAliases                 www."@,
        domain@,
        "\nadminEmails               "@,
        admin_email@,
        "\nenableGzip                1\nenableBr                  1\nmaxKeepAliveReq           100\nkeepAliveTimeout          5\nenableIpGeo               0\n\ncontext / {\n  location              /home/"@,
        unix_user@,
        "/public_html\n  allowBrowse           0\n  indexFiles            index.php, index.html\n  rewrite {\n    enable              1\n    autoLoadHtaccess    1\n  }\n  addDefaultCharset     off\n}\n\nrewrite {\n  enable                1\n  autoLoadHtaccess      1\n}\n\nphpIniOverride {\n  php_admin_value[open_basedir] /home/"@,
        unix_user@,
        ":/tmp:/usr/share/php\n  php_admin_value[upload_max_filesize] 64M\n  php_admin_value[post_max_size] 64M\n}\n\nerrorlog {\n  useServer             0\n  fileName              /var/log/lsws/"@,
        domain@,
        ".error.log\n  logLevel              WARN\n}\n\naccesslog {\n  useServer             0\n  fileName              /var/log/lsws/"@,
        domain@,
        ".access.log\n  rotateSize            10M\n  keepDays              7\n  compress              1\n}\n"@,
    ]);
    concat_strs(&parts)
}

/// The Apache virtual host of a PHP site.
pub open spec fn apache_vhost_template_text(domain: Seq<char>, unix_user: Seq<char>, php_version: Seq<char>, socket_path: Seq<char>) -> Seq<char> {
    concat_all(
        seq![
            "<VirtualHost *:80>\n    ServerName "@,
            domain,
            "\n    ServerAlias www."@,
            domain,
            "\n    DocumentRoot /home/"@,
            unix_user,
            "/public_html\n\n    <Directory /home/"@,
            unix_user,
            "/public_html>\n        Options -Indexes +FollowSymLinks\n        AllowOverride All\n        Require all granted\n        php_admin_value open_basedir \"/home/"@,
            unix_user,
            ":/tmp:/usr/share/php\"\n    </Directory>\n\n    # PHP "@,
            php_version,
            " via FPM socket\n    <FilesMatch \\.php$>\n        SetHandler \"proxy:unix:"@,
            socket_path,
            "|fcgi://localhost\"\n    </FilesMatch>\n\n    ErrorLog  /var/log/apache2/"@,
            domain,
            ".error.log\n    CustomLog /var/log/apache2/"@,
            domain,
            ".access.log combined\n</VirtualHost>\n"@,
        ],
    )
}

/// Renders the Apache virtual host of a PHP site.
pub fn apache_vhost_template(domain: &str, unix_user: &str, php_version: &str, socket_path: &str) -> (r: String)
    ensures
        r@ == apache_vhost_template_text(domain@, unix_user@, php_version@, socket_path@),
{
    let parts: Vec<&str> = vec![
        "<VirtualHost *:80>\n    ServerName ",
        domain,
        "\n    ServerAlias www.",
        domain,
        "\n    DocumentRoot /home/",
        unix_user,
        "/public_html\n\n    <Directory /home/",
        unix_user,
        "/public_html>\n        Options -Indexes +FollowSymLinks\n        AllowOverride All\n        Require all granted\n        php_admin_value open_basedir \"/home/",
        unix_user,
        ":/tmp:/usr/share/php\"\n    </Directory>\n\n    # PHP ",
        php_version,
        " via FPM socket\n    <FilesMatch \\.php$>\n        SetHandler \"proxy:unix:",
        socket_path,
        "|fcgi://localhost\"\n    </FilesMatch>\n\n    ErrorLog  /var/log/apache2/",
        domain,
        ".error.log\n    CustomLog /var/log/apache2/",
        domain,
        ".access.log combined\n</VirtualHost>\n",
    ];
    assert(views_of(parts@) =~= seq![
        "<VirtualHost *:80>\n    ServerName "@,
        domain@,
        "\n    ServerAlias www."@,
        domain@,
        "\n    DocumentRoot /home/"@,
        unix_user@,
        "/public_html\n\n    <Directory /home/"@,
        unix_user@,
        "/public_html>\n        Options -Indexes +FollowSymLinks\n        AllowOverride All\n        Require all granted\n        php_admin_value open_basedir \"/home/"@,
        unix_user@,
        ":/tmp:/usr/share/php\"\n    </Directory>\n\n    # PHP "@,
        php_version@,
        " via FPM socket\n    <FilesMatch \\.php$>\n        SetHandler \"proxy:unix:"@,
        socket_path@,
        "|fcgi://localhost\"\n    </FilesMatch>\n\n    ErrorLog  /var/log/apache2/"@,
        domain@,
        ".error.log\n    CustomLog /var/log/apache2/"@,
        domain@,
        ".access.log combined\n</VirtualHost>\n"@,
    ]);
    concat_strs(&parts)
}

/// The nginx server block that answers 503 for a suspended site.
pub open spec fn nginx_suspended_vhost_text(domain: Seq<char>) -> Seq<char> {
    concat_all(
        seq![
            "server {\n    listen 80;\n    listen [::]:80;\n    server_name "@,
            domain,
            " www."@,
            domain,
            ";\n\n    location / {\n        return 503;\n    }\n\n    error_page 503 /503.html;\n    location = /503.html {\n        root /var/www/jotticp-suspended;\n        internal;\n    }\n}\n"@,
        ],
    )
}

/// Renders the nginx server block of a suspended site.
pub fn nginx_suspended_vhost(domain: &str) -> (r: String)
    ensures
        r@ == nginx_suspended_vhost_text(domain@),
{
    let parts: Vec<&str> = vec![
        "server {\n    listen 80;\n    listen [::]:80;\n    server_name ",
        domain,
        " www.",
        domain,
        ";\n\n    location / {\n        return 503;\n    }\n\n    error_page 503 /503.html;\n    location = /503.html {\n        root /var/www/jotticp-suspended;\n        internal;\n    }\n}\n",
    ];
    assert(views_of(parts@) =~= seq![
        "server {\n    listen 80;\n    listen [::]:80;\n    server_name "@,
        domain@,
        " www."@,
        domain@,
        ";\n\n    location / {\n        return 503;\n    }\n\n    error_page 503 /503.html;\n    location = /503.html {\n        root /var/www/jotticp-suspended;\n        internal;\n    }\n}\n"@,
    ]);
    concat_strs(&parts)
}

/// The admin e-mail of an OpenLiteSpeed vhost: the given one, or
/// `admin@<domain>` when none is given.
pub open spec fn ols_admin_email(domain: Seq<char>, admin_email: Seq<char>) -> Seq<char> {
    if admin_email.len() == 0 {
        "admin@"@ + domain
    } else {
        admin_email
    }
}

/// Renders the OpenLiteSpeed virtual host of a site; without an admin
/// e-mail, `admin@<domain>` is used.
pub fn ols_vhost_template(domain: &str, unix_user: &str, admin_email: &str) -> (r: String)
    ensures
        r@ == ols_vhost_conf_text(domain@, unix_user@, ols_admin_email(domain@, admin_email@)),
{
    if admin_email.is_empty() {
        let mut email = String::from_str("admin@");
        email.append(domain);
        ols_vhost_conf(domain, unix_user, email.as_str())
    } else {
        ols_vhost_conf(domain, unix_user, admin_email)
    }
}

} // verus!
