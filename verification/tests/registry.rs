use shelves::database::{database_url, get_migrations, MigrationKind};

#[test]
fn registry_has_three_migrations() {
    let ms = get_migrations();
    assert_eq!(ms.len(), 3);
}

#[test]
fn registry_versions_unique_and_increasing() {
    let ms = get_migrations();
    let versions: Vec<i64> = ms.iter().map(|m| m.version).collect();
    assert_eq!(versions, vec![1, 2, 3]);
    for i in 0..versions.len() {
        for j in (i + 1)..versions.len() {
            assert!(versions[i] < versions[j]);
            assert_ne!(versions[i], versions[j]);
        }
    }
}

#[test]
fn registry_descriptions_and_kinds() {
    let ms = get_migrations();
    assert_eq!(ms[0].description, "create todos table");
    assert_eq!(ms[1].description, "create notes table");
    assert_eq!(ms[2].description, "create memos table");
    for m in &ms {
        assert!(matches!(m.kind, MigrationKind::Up));
    }
}

#[test]
fn registry_exact_statements() {
    let ms = get_migrations();
    assert_eq!(
        ms[0].sql,
        "CREATE TABLE IF NOT EXISTS todos (id INTEGER PRIMARY KEY AUTOINCREMENT, content TEXT NOT NULL, completed INTEGER NOT NULL DEFAULT 0, sortOrder INTEGER NOT NULL DEFAULT 0, createdAt TEXT NOT NULL, updatedAt TEXT)"
    );
    assert_eq!(
        ms[1].sql,
        "CREATE TABLE IF NOT EXISTS notes (id INTEGER PRIMARY KEY AUTOINCREMENT, title TEXT NOT NULL, isLocked INTEGER NOT NULL DEFAULT 0, password TEXT, sortOrder INTEGER NOT NULL DEFAULT 0, createdAt TEXT NOT NULL, updatedAt TEXT)"
    );
    assert_eq!(
        ms[2].sql,
        "CREATE TABLE IF NOT EXISTS memos (id INTEGER PRIMARY KEY AUTOINCREMENT, noteId INTEGER NOT NULL, content TEXT NOT NULL, sortOrder INTEGER NOT NULL DEFAULT 0, createdAt TEXT NOT NULL, updatedAt TEXT, FOREIGN KEY (noteId) REFERENCES notes (id) ON DELETE CASCADE)"
    );
}

#[test]
fn statements_carry_existence_guard() {
    let ms = get_migrations();
    for m in &ms {
        assert!(m.sql.starts_with("CREATE TABLE IF NOT EXISTS "));
    }
}

#[test]
fn memos_statement_declares_cascade() {
    let ms = get_migrations();
    assert!(ms[2]
        .sql
        .contains("FOREIGN KEY (noteId) REFERENCES notes (id) ON DELETE CASCADE"));
}

#[test]
fn registry_is_deterministic() {
    let a = get_migrations();
    let b = get_migrations();
    assert_eq!(a.len(), b.len());
    for (x, y) in a.iter().zip(b.iter()) {
        assert_eq!(x.version, y.version);
        assert_eq!(x.description, y.description);
        assert_eq!(x.sql, y.sql);
        assert!(matches!(
            (x.kind, y.kind),
            (MigrationKind::Up, MigrationKind::Up) | (MigrationKind::Down, MigrationKind::Down)
        ));
    }
}

#[test]
fn database_url_is_fixed() {
    assert_eq!(database_url(), "sqlite:shelves.db");
}
