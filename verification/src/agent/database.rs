//! Databases: the statements the agent runs to create and drop a database
//! and its user, and the connection string handed back.

use vstd::prelude::*;
use crate::agent::AgentError;
use crate::text::{concat_all, concat_strs, decimal, decimal_string, str_eq, views_of};

verus! {

/// The MySQL statements that create a database and its user.
pub open spec fn mysql_create_sql_text(db_name: Seq<char>, db_user: Seq<char>, db_password: Seq<char>) -> Seq<char> {
    concat_all(
        seq![
            "CREATE DATABASE IF NOT EXISTS `"@,
            db_name,
            "` CHARACTER SET utf8mb4 COLLATE utf8mb4_unicode_ci;CREATE USER IF NOT EXISTS '"@,
            db_user,
            "'@'localhost' IDENTIFIED BY '"@,
            db_password,
            "';GRANT ALL PRIVILEGES ON `"@,
            db_name,
            "`.* TO '"@,
            db_user,
            "'@'localhost';FLUSH PRIVILEGES;"@,
        ],
    )
}

/// Renders the MySQL statements that create a database and grant its user all rights on it.
pub fn mysql_create_sql(db_name: &str, db_user: &str, db_password: &str) -> (r: String)
    ensures
        r@ == mysql_create_sql_text(db_name@, db_user@, db_password@),
{
    let parts: Vec<&str> = vec![
        "CREATE DATABASE IF NOT EXISTS `",
        db_name,
        "` CHARACTER SET utf8mb4 COLLATE utf8mb4_unicode_ci;CREATE USER IF NOT EXISTS '",
        db_user,
        "'@'localhost' IDENTIFIED BY '",
        db_password,
        "';GRANT ALL PRIVILEGES ON `",
        db_name,
        "`.* TO '",
        db_user,
        "'@'localhost';FLUSH PRIVILEGES;",
    ];
    assert(views_of(parts@) =~= seq![
        "CREATE DATABASE IF NOT EXISTS `"@,
        db_name@,
        "` CHARACTER SET utf8mb4 COLLATE utf8mb4_unicode_ci;CREATE USER IF NOT EXISTS '"@,
        db_user@,
        "'@'localhost' IDENTIFIED BY '"@,
        db_password@,
        "';GRANT ALL PRIVILEGES ON `"@,
        db_name@,
        "`.* TO '"@,
        db_user@,
        "'@'localhost';FLUSH PRIVILEGES;"@,
    ]);
    concat_strs(&parts)
}

/// The PostgreSQL statement that creates a login role when missing.
pub open spec fn pg_role_sql_text(db_user: Seq<char>, db_password: Seq<char>) -> Seq<char> {
    concat_all(
        seq![
            "DO $$ BEGIN IF NOT EXISTS (SELECT FROM pg_catalog.pg_roles WHERE rolname = '"@,
            db_user,
            "') THEN CREATE ROLE \""@,
            db_user,
            "\" LOGIN PASSWORD '"@,
            db_password,
            "'; END IF; END $$;"@,
        ],
    )
}

/// Renders the PostgreSQL statement that creates the database's login role when it does not exist.
pub fn pg_role_sql(db_user: &str, db_password: &str) -> (r: String)
    ensures
        r@ == pg_role_sql_text(db_user@, db_password@),
{
    let parts: Vec<&str> = vec![
        "DO $$ BEGIN IF NOT EXISTS (SELECT FROM pg_catalog.pg_roles WHERE rolname = '",
        db_user,
        "') THEN CREATE ROLE \"",
        db_user,
        "\" LOGIN PASSWORD '",
        db_password,
        "'; END IF; END $$;",
    ];
    assert(views_of(parts@) =~= seq![
        "DO $$ BEGIN IF NOT EXISTS (SELECT FROM pg_catalog.pg_roles WHERE rolname = '"@,
        db_user@,
        "') THEN CREATE ROLE \""@,
        db_user@,
        "\" LOGIN PASSWORD '"@,
        db_password@,
        "'; END IF; END $$;"@,
    ]);
    concat_strs(&parts)
}

/// The psql command that creates a database owned by a role when missing.
pub open spec fn pg_database_sql_text(db_name: Seq<char>, db_user: Seq<char>) -> Seq<char> {
    concat_all(
        seq![
            "SELECT 'CREATE DATABASE \""@,
            db_name,
            "\" OWNER \""@,
            db_user,
            "\"' WHERE NOT EXISTS (SELECT FROM pg_database WHERE datname = '"@,
            db_name,
            "')\\gexec"@,
        ],
    )
}

/// Renders the psql command that creates the database, owned by its role, when it does not exist.
pub fn pg_database_sql(db_name: &str, db_user: &str) -> (r: String)
    ensures
        r@ == pg_database_sql_text(db_name@, db_user@),
{
    let parts: Vec<&str> = vec![
        "SELECT 'CREATE DATABASE \"",
        db_name,
        "\" OWNER \"",
        db_user,
        "\"' WHERE NOT EXISTS (SELECT FROM pg_database WHERE datname = '",
        db_name,
        "')\\gexec",
    ];
    assert(views_of(parts@) =~= seq![
        "SELECT 'CREATE DATABASE \""@,
        db_name@,
        "\" OWNER \""@,
        db_user@,
        "\"' WHERE NOT EXISTS (SELECT FROM pg_database WHERE datname = '"@,
        db_name@,
        "')\\gexec"@,
    ]);
    concat_strs(&parts)
}

/// The PostgreSQL statements that keep a database to its owner role.
pub open spec fn pg_grant_sql_text(db_name: Seq<char>, db_user: Seq<char>) -> Seq<char> {
    concat_all(
        seq![
            "REVOKE ALL ON DATABASE \""@,
            db_name,
            "\" FROM PUBLIC;GRANT ALL ON DATABASE \""@,
            db_name,
            "\" TO \""@,
            db_user,
            "\";"@,
        ],
    )
}

/// Renders the PostgreSQL statements that revoke public access to the database and grant it to its role.
pub fn pg_grant_sql(db_name: &str, db_user: &str) -> (r: String)
    ensures
        r@ == pg_grant_sql_text(db_name@, db_user@),
{
    let parts: Vec<&str> = vec![
        "REVOKE ALL ON DATABASE \"",
        db_name,
        "\" FROM PUBLIC;GRANT ALL ON DATABASE \"",
        db_name,
        "\" TO \"",
        db_user,
        "\";",
    ];
    assert(views_of(parts@) =~= seq![
        "REVOKE ALL ON DATABASE \""@,
        db_name@,
        "\" FROM PUBLIC;GRANT ALL ON DATABASE \""@,
        db_name@,
        "\" TO \""@,
        db_user@,
        "\";"@,
    ]);
    concat_strs(&parts)
}

/// The MySQL statements that drop a database and its user.
pub open spec fn mysql_drop_sql_text(db_name: Seq<char>, db_user: Seq<char>) -> Seq<char> {
    concat_all(
        seq![
            "DROP DATABASE IF EXISTS `"@,
            db_name,
            "`;DROP USER IF EXISTS '"@,
            db_user,
            "'@'localhost';FLUSH PRIVILEGES;"@,
        ],
    )
}

/// Renders the MySQL statements that drop a database and its user.
pub fn mysql_drop_sql(db_name: &str, db_user: &str) -> (r: String)
    ensures
        r@ == mysql_drop_sql_text(db_name@, db_user@),
{
    let parts: Vec<&str> = vec![
        "DROP DATABASE IF EXISTS `",
        db_name,
        "`;DROP USER IF EXISTS '",
        db_user,
        "'@'localhost';FLUSH PRIVILEGES;",
    ];
    assert(views_of(parts@) =~= seq![
        "DROP DATABASE IF EXISTS `"@,
        db_name@,
        "`;DROP USER IF EXISTS '"@,
        db_user@,
        "'@'localhost';FLUSH PRIVILEGES;"@,
    ]);
    concat_strs(&parts)
}

/// The PostgreSQL statement that ends every session on a database.
pub open spec fn pg_terminate_sql_text(db_name: Seq<char>) -> Seq<char> {
    concat_all(
        seq![
            "SELECT pg_terminate_backend(pid) FROM pg_stat_activity WHERE datname = '"@,
            db_name,
            "';"@,
        ],
    )
}

/// Renders the PostgreSQL statement that terminates the sessions on a database.
pub fn pg_terminate_sql(db_name: &str) -> (r: String)
    ensures
        r@ == pg_terminate_sql_text(db_name@),
{
    let parts: Vec<&str> = vec![
        "SELECT pg_terminate_backend(pid) FROM pg_stat_activity WHERE datname = '",
        db_name,
        "';",
    ];
    assert(views_of(parts@) =~= seq![
        "SELECT pg_terminate_backend(pid) FROM pg_stat_activity WHERE datname = '"@,
        db_name@,
        "';"@,
    ]);
    concat_strs(&parts)
}

/// The PostgreSQL statement that drops a database.
pub open spec fn pg_drop_database_sql_text(db_name: Seq<char>) -> Seq<char> {
    concat_all(
        seq![
            "DROP DATABASE IF EXISTS \""@,
            db_name,
            "\";"@,
        ],
    )
}

/// Renders the PostgreSQL statement that drops a database.
pub fn pg_drop_database_sql(db_name: &str) -> (r: String)
    ensures
        r@ == pg_drop_database_sql_text(db_name@),
{
    let parts: Vec<&str> = vec![
        "DROP DATABASE IF EXISTS \"",
        db_name,
        "\";",
    ];
    assert(views_of(parts@) =~= seq![
        "DROP DATABASE IF EXISTS \""@,
        db_name@,
        "\";"@,
    ]);
    concat_strs(&parts)
}

/// The PostgreSQL statement that drops a role.
pub open spec fn pg_drop_role_sql_text(db_user: Seq<char>) -> Seq<char> {
    concat_all(
        seq![
            "DROP ROLE IF EXISTS \""@,
            db_user,
            "\";"@,
        ],
    )
}

/// Renders the PostgreSQL statement that drops a role.
pub fn pg_drop_role_sql(db_user: &str) -> (r: String)
    ensures
        r@ == pg_drop_role_sql_text(db_user@),
{
    let parts: Vec<&str> = vec![
        "DROP ROLE IF EXISTS \"",
        db_user,
        "\";",
    ];
    assert(views_of(parts@) =~= seq![
        "DROP ROLE IF EXISTS \""@,
        db_user@,
        "\";"@,
    ]);
    concat_strs(&parts)
}

/// The connection string of a MySQL or MariaDB database.
pub open spec fn mysql_url_text(db_user: Seq<char>, db_password: Seq<char>, db_name: Seq<char>) -> Seq<char> {
    concat_all(
        seq![
            "mysql://"@,
            db_user,
            ":"@,
            db_password,
            "@127.0.0.1:3306/"@,
            db_name,
        ],
    )
}

/// The connection string of a MySQL or MariaDB database.
pub fn mysql_url(db_user: &str, db_password: &str, db_name: &str) -> (r: String)
    ensures
        r@ == mysql_url_text(db_user@, db_password@, db_name@),
{
    let parts: Vec<&str> = vec![
        "mysql://",
        db_user,
        ":",
        db_password,
        "@127.0.0.1:3306/",
        db_name,
    ];
    assert(views_of(parts@) =~= seq![
        "mysql://"@,
        db_user@,
        ":"@,
        db_password@,
        "@127.0.0.1:3306/"@,
        db_name@,
    ]);
    concat_strs(&parts)
}

/// The connection string of a PostgreSQL database.
pub open spec fn postgresql_url_text(db_user: Seq<char>, db_password: Seq<char>, db_name: Seq<char>) -> Seq<char> {
    concat_all(
        seq![
            "postgresql://"@,
            db_user,
            ":"@,
            db_password,
            "@127.0.0.1:5432/"@,
            db_name,
        ],
    )
}

/// The connection string of a PostgreSQL database.
pub fn postgresql_url(db_user: &str, db_password: &str, db_name: &str) -> (r: String)
    ensures
        r@ == postgresql_url_text(db_user@, db_password@, db_name@),
{
    let parts: Vec<&str> = vec![
        "postgresql://",
        db_user,
        ":",
        db_password,
        "@127.0.0.1:5432/",
        db_name,
    ];
    assert(views_of(parts@) =~= seq![
        "postgresql://"@,
        db_user@,
        ":"@,
        db_password@,
        "@127.0.0.1:5432/"@,
        db_name@,
    ]);
    concat_strs(&parts)
}

/// The connection string of a FerretDB database.
pub open spec fn ferretdb_url_text(db_user: Seq<char>, db_password: Seq<char>, db_name: Seq<char>) -> Seq<char> {
    concat_all(
        seq![
            "mongodb://"@,
            db_user,
            ":"@,
            db_password,
            "@127.0.0.1:27017/"@,
            db_name,
        ],
    )
}

/// The connection string of a FerretDB database.
pub fn ferretdb_url(db_user: &str, db_password: &str, db_name: &str) -> (r: String)
    ensures
        r@ == ferretdb_url_text(db_user@, db_password@, db_name@),
{
    let parts: Vec<&str> = vec![
        "mongodb://",
        db_user,
        ":",
        db_password,
        "@127.0.0.1:27017/",
        db_name,
    ];
    assert(views_of(parts@) =~= seq![
        "mongodb://"@,
        db_user@,
        ":"@,
        db_password@,
        "@127.0.0.1:27017/"@,
        db_name@,
    ]);
    concat_strs(&parts)
}

/// The connection string of a SurrealDB database.
pub open spec fn surrealdb_url_text(port: Seq<char>, db_name: Seq<char>) -> Seq<char> {
    concat_all(
        seq![
            "ws://127.0.0.1:"@,
            port,
            "/"@,
            db_name,
        ],
    )
}

/// The connection string of a SurrealDB database.
pub fn surrealdb_url(port: u16, db_name: &str) -> (r: String)
    ensures
        r@ == surrealdb_url_text(decimal(port as nat), db_name@),
{
    let port_s = decimal_string(port as u64);
    let parts: Vec<&str> = vec![
        "ws://127.0.0.1:",
        port_s.as_str(),
        "/",
        db_name,
    ];
    assert(views_of(parts@) =~= seq![
        "ws://127.0.0.1:"@,
        port_s@,
        "/"@,
        db_name@,
    ]);
    concat_strs(&parts)
}

/// The database engines the agent manages.
#[derive(Debug, Clone, Copy, PartialEq, Eq)]
pub enum DbEngine {
    /// MySQL or MariaDB.
    MySql,
    /// PostgreSQL.
    PostgreSql,
    /// FerretDB, on a PostgreSQL database.
    FerretDb,
    /// SurrealDB.
    SurrealDb,
}

/// The engine named by a request's `db_type`.
pub open spec fn engine_of(db_type: Seq<char>) -> Option<DbEngine> {
    if db_type == "mysql"@ || db_type == "mariadb"@ {
        Some(DbEngine::MySql)
    } else if db_type == "postgresql"@ {
        Some(DbEngine::PostgreSql)
    } else if db_type == "ferretdb"@ {
        Some(DbEngine::FerretDb)
    } else if db_type == "surrealdb"@ {
        Some(DbEngine::SurrealDb)
    } else {
        None
    }
}

/// The engine named by `db_type`, if the agent knows it.
pub fn db_engine(db_type: &str) -> (r: Option<DbEngine>)
    ensures
        r == engine_of(db_type@),
{
    if str_eq(db_type, "mysql") || str_eq(db_type, "mariadb") {
        Some(DbEngine::MySql)
    } else if str_eq(db_type, "postgresql") {
        Some(DbEngine::PostgreSql)
    } else if str_eq(db_type, "ferretdb") {
        Some(DbEngine::FerretDb)
    } else if str_eq(db_type, "surrealdb") {
        Some(DbEngine::SurrealDb)
    } else {
        None
    }
}

/// The three statements that create a PostgreSQL role, its database and
/// its grants.
pub open spec fn pg_create_statements(v: Seq<String>, db_name: Seq<char>, db_user: Seq<char>, db_password: Seq<char>) -> bool {
    &&& v.len() == 3
    &&& v[0]@ == pg_role_sql_text(db_user, db_password)
    &&& v[1]@ == pg_database_sql_text(db_name, db_user)
    &&& v[2]@ == pg_grant_sql_text(db_name, db_user)
}

/// The statements, run one by one with `psql -U postgres -c`, that create a
/// PostgreSQL database with its own login role.
pub fn create_postgresql_database(db_name: &str, db_user: &str, db_password: &str) -> (r: Vec<
    String,
>)
    ensures
        r@.len() == 3,
        r@[0]@ == pg_role_sql_text(db_user@, db_password@),
        r@[1]@ == pg_database_sql_text(db_name@, db_user@),
        r@[2]@ == pg_grant_sql_text(db_name@, db_user@),
{
    let mut r: Vec<String> = Vec::new();
    r.push(pg_role_sql(db_user, db_password));
    r.push(pg_database_sql(db_name, db_user));
    r.push(pg_grant_sql(db_name, db_user));
    r
}

/// The statements, run one by one with `psql -U postgres -c`, that drop a
/// PostgreSQL database and its role; the first one ends open sessions and
/// may fail without stopping the others.
pub fn drop_postgresql_database(db_name: &str, db_user: &str) -> (r: Vec<String>)
    ensures
        r@.len() == 3,
        r@[0]@ == pg_terminate_sql_text(db_name@),
        r@[1]@ == pg_drop_database_sql_text(db_name@),
        r@[2]@ == pg_drop_role_sql_text(db_user@),
{
    let mut r: Vec<String> = Vec::new();
    r.push(pg_terminate_sql(db_name));
    r.push(pg_drop_database_sql(db_name));
    r.push(pg_drop_role_sql(db_user));
    r
}

/// The hash `std::hash::DefaultHasher` (as built by `DefaultHasher::new`,
/// whose keys are fixed) gives a string.
pub uninterp spec fn default_hash_of(s: Seq<char>) -> u64;

/// Hashes a string with a fresh `DefaultHasher`; the value is named, not
/// described.
#[verifier::external_body]
fn default_hash_str(s: &str) -> (r: u64)
    ensures
        r == default_hash_of(s@),
{
    let mut hasher = std::collections::hash_map::DefaultHasher::new();
    std::hash::Hash::hash(s, &mut hasher);
    std::hash::Hasher::finish(&hasher)
}

/// The SurrealDB port for a database name hash: 40100 plus the hash modulo
/// 9900.
pub fn surrealdb_port_from_hash(h: u64) -> (p: u16)
    ensures
        p == 40100 + h % 9900,
        40100 <= p < 50000,
{
    40100u16 + (h % 9900) as u16
}

/// The port a SurrealDB database listens on, derived from a hash of its
/// name; always in 40100..50000.
pub fn surrealdb_allocate_port(db_name: &str) -> (r: Result<u16, AgentError>)
    ensures
        r matches Ok(p) && p == 40100 + default_hash_of(db_name@) % 9900 && 40100 <= p < 50000,
{
    let h = default_hash_str(db_name);
    Ok(surrealdb_port_from_hash(h))
}

/// The commands a `CreateDatabase` request runs.
pub enum DbCommands {
    /// One `mysql --execute` call with these statements.
    MySql(String),
    /// `psql -c` calls with these statements, in order.
    Psql(Vec<String>),
    /// Nothing to run.
    Nothing,
}

/// What the agent does for a `CreateDatabase` request.
pub struct DatabasePlan {
    /// The engine.
    pub engine: DbEngine,
    /// The commands to run.
    pub commands: DbCommands,
    /// The connection string handed back.
    pub connection_string: String,
}

/// A database or user name the agent puts into SQL: 1 to 64 bytes of
/// letters, digits and underscores, not starting with a digit.
pub open spec fn valid_db_ident(s: &str) -> bool {
    crate::panel::databases::valid_db_name(s@, s.len())
}

/// The refusal of a database identifier.
pub open spec fn bad_ident_text(s: Seq<char>) -> Seq<char> {
    "invalid database identifier: "@ + s
}

/// Checks a database or user name before it is put into SQL.
pub fn check_db_ident(s: &str) -> (r: Result<(), AgentError>)
    ensures
        r is Ok <==> valid_db_ident(s),
        r matches Err(e) ==> (e matches AgentError::InvalidArgument(m) && m@ == bad_ident_text(s@)),
{
    if crate::panel::databases::is_valid_db_name(s) {
        Ok(())
    } else {
        let mut m = String::from_str("invalid database identifier: ");
        m.append(s);
        Err(AgentError::InvalidArgument(m))
    }
}

/// Checks a `CreateDatabase` request and works out the commands and the
/// connection string: unknown engines, database or user names that are not
/// plain identifiers, and passwords shorter than 16 bytes are refused, in
/// that order; SurrealDB databases get a port derived from their name.
pub fn create_database_plan(db_type: &str, db_name: &str, db_user: &str, db_password: &str) -> (r:
    Result<DatabasePlan, AgentError>)
    ensures
        engine_of(db_type@) is None ==> (r matches Err(AgentError::InvalidArgument(m)) && m@
            == "unsupported db_type: "@ + db_type@),
        engine_of(db_type@) is Some && !valid_db_ident(db_name) ==> (r matches Err(
            AgentError::InvalidArgument(m),
        ) && m@ == bad_ident_text(db_name@)),
        engine_of(db_type@) is Some && valid_db_ident(db_name) && !valid_db_ident(db_user) ==> (r matches Err(
            AgentError::InvalidArgument(m),
        ) && m@ == bad_ident_text(db_user@)),
        engine_of(db_type@) is Some && valid_db_ident(db_name) && valid_db_ident(db_user) && db_password.len()
            < 16 ==> (r matches Err(AgentError::InvalidArgument(m)) && m@
            == "db_password must be at least 16 characters"@),
        r is Ok <==> engine_of(db_type@) is Some && valid_db_ident(db_name) && valid_db_ident(db_user)
            && db_password.len() >= 16,
        r matches Ok(p) ==> (Some(p.engine) == engine_of(db_type@) && match p.engine {
            DbEngine::MySql => p.commands matches DbCommands::MySql(sql) && sql@
                == mysql_create_sql_text(db_name@, db_user@, db_password@)
                && p.connection_string@ == mysql_url_text(db_user@, db_password@, db_name@),
            DbEngine::PostgreSql => p.commands matches DbCommands::Psql(v) && pg_create_statements(
                v@,
                db_name@,
                db_user@,
                db_password@,
            ) && p.connection_string@ == postgresql_url_text(db_user@, db_password@, db_name@),
            DbEngine::FerretDb => p.commands matches DbCommands::Psql(v) && pg_create_statements(
                v@,
                db_name@,
                db_user@,
                db_password@,
            ) && p.connection_string@ == ferretdb_url_text(db_user@, db_password@, db_name@),
            DbEngine::SurrealDb => p.commands is Nothing && p.connection_string@ == surrealdb_url_text(
                decimal((40100 + default_hash_of(db_name@) % 9900) as nat),
                db_name@,
            ),
        }),
{
    let engine = match db_engine(db_type) {
        Some(e) => e,
        None => {
            let mut m = String::from_str("unsupported db_type: ");
            m.append(db_type);
            return Err(AgentError::InvalidArgument(m));
        },
    };
    match check_db_ident(db_name) {
        Err(e) => return Err(e),
        Ok(()) => {},
    }
    match check_db_ident(db_user) {
        Err(e) => return Err(e),
        Ok(()) => {},
    }
    if db_password.len() < 16 {
        return Err(
            AgentError::InvalidArgument(
                String::from_str("db_password must be at least 16 characters"),
            ),
        );
    }
    match engine {
        DbEngine::MySql => Ok(
            DatabasePlan {
                engine,
                commands: DbCommands::MySql(mysql_create_sql(db_name, db_user, db_password)),
                connection_string: mysql_url(db_user, db_password, db_name),
            },
        ),
        DbEngine::PostgreSql => Ok(
            DatabasePlan {
                engine,
                commands: DbCommands::Psql(
                    create_postgresql_database(db_name, db_user, db_password),
                ),
                connection_string: postgresql_url(db_user, db_password, db_name),
            },
        ),
        DbEngine::FerretDb => Ok(
            DatabasePlan {
                engine,
                commands: DbCommands::Psql(
                    create_postgresql_database(db_name, db_user, db_password),
                ),
                connection_string: ferretdb_url(db_user, db_password, db_name),
            },
        ),
        DbEngine::SurrealDb => {
            let port = match surrealdb_allocate_port(db_name) {
                Ok(p) => p,
                Err(e) => {
                    return Err(e);
                },
            };
            Ok(
                DatabasePlan {
                    engine,
                    commands: DbCommands::Nothing,
                    connection_string: surrealdb_url(port, db_name),
                },
            )
        },
    }
}

/// The commands a `DeleteDatabase` request runs: MySQL statements, psql
/// statements, or none for SurrealDB; unknown engines, then database or
/// user names that are not plain identifiers, are refused.
pub fn delete_database_commands(db_type: &str, db_name: &str, db_user: &str) -> (r: Result<
    DbCommands,
    AgentError,
>)
    ensures
        r is Ok <==> engine_of(db_type@) is Some && valid_db_ident(db_name) && valid_db_ident(db_user),
        engine_of(db_type@) is Some && !valid_db_ident(db_name) ==> (r matches Err(
            AgentError::InvalidArgument(m),
        ) && m@ == bad_ident_text(db_name@)),
        engine_of(db_type@) is Some && valid_db_ident(db_name) && !valid_db_ident(db_user) ==> (r matches Err(
            AgentError::InvalidArgument(m),
        ) && m@ == bad_ident_text(db_user@)),
        r matches Ok(c) ==> (match engine_of(db_type@) {
            Some(DbEngine::MySql) => c matches DbCommands::MySql(sql) && sql@ == mysql_drop_sql_text(
                db_name@,
                db_user@,
            ),
            Some(DbEngine::SurrealDb) => c is Nothing,
            _ => c matches DbCommands::Psql(v) && v@.len() == 3 && v@[0]@ == pg_terminate_sql_text(db_name@)
                && v@[1]@ == pg_drop_database_sql_text(db_name@) && v@[2]@ == pg_drop_role_sql_text(
                db_user@,
            ),
        }),
        engine_of(db_type@) is None ==> (r matches Err(e) && e matches AgentError::InvalidArgument(m) && m@
            == "unsupported db_type: "@ + db_type@),
{
    let engine = db_engine(db_type);
    if engine.is_some() {
        match check_db_ident(db_name) {
            Err(e) => return Err(e),
            Ok(()) => {},
        }
        match check_db_ident(db_user) {
            Err(e) => return Err(e),
            Ok(()) => {},
        }
    }
    match engine {
        Some(DbEngine::MySql) => Ok(DbCommands::MySql(mysql_drop_sql(db_name, db_user))),
        Some(DbEngine::PostgreSql) => Ok(DbCommands::Psql(drop_postgresql_database(db_name, db_user))),
        Some(DbEngine::FerretDb) => Ok(DbCommands::Psql(drop_postgresql_database(db_name, db_user))),
        Some(DbEngine::SurrealDb) => Ok(DbCommands::Nothing),
        None => {
            let mut m = String::from_str("unsupported db_type: ");
            m.append(db_type);
            Err(AgentError::InvalidArgument(m))
        },
    }
}

} // verus!
