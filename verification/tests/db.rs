use guru::db::{connection_url_without_db, database_name, slug_versions_sql, DEFAULT_DATABASE_URL};

#[test]
fn server_url_drops_the_database() {
    assert_eq!(
        connection_url_without_db(DEFAULT_DATABASE_URL),
        "postgresql://unuslumen@localhost:5432"
    );
    assert_eq!(connection_url_without_db("no-slash"), "no-slash");
}

#[test]
fn database_name_is_the_last_segment() {
    assert_eq!(database_name(DEFAULT_DATABASE_URL).unwrap(), "guru_server");
    assert_eq!(database_name("postgresql://h/db??").unwrap(), "db");
    assert_eq!(database_name("plain").unwrap(), "plain");
    assert_eq!(
        database_name("postgresql://h/").unwrap_err(),
        "cannot parse database name from postgresql://h/"
    );
    assert!(database_name("").is_err());
}

#[test]
fn slug_version_queries() {
    assert_eq!(
        slug_versions_sql("agents"),
        "SELECT slug, 1 AS version FROM agents WHERE is_active ORDER BY slug"
    );
    assert_eq!(
        slug_versions_sql("skills"),
        "SELECT slug, version FROM skills WHERE is_active ORDER BY slug"
    );
}
