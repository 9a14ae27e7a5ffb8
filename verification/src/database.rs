//! The migration registry: the complete, ordered list of schema-change
//! descriptors for the application's SQLite database. The registry is pure
//! data; an external migration runner applies the pending statements in
//! ascending version order. The contracts here pin the registry's exact
//! contents and the ordering invariant the runner relies on.

use vstd::prelude::*;

verus! {

/// Direction of a schema change: forward application or rollback.
/// Only forward migrations appear in this registry.
#[derive(Clone, Copy, Debug, PartialEq, Eq, Structural)]
pub enum MigrationKind {
    Up,
    Down,
}

/// One versioned schema-change descriptor. `version` is a positive integer,
/// never reused; `description` is a diagnostic label; `sql` is a
/// schema-definition statement written to be safely re-runnable (it carries
/// an existence guard); `kind` tags the direction.
#[derive(Clone, Copy, Debug)]
pub struct Migration {
    pub version: i64,
    pub description: &'static str,
    pub sql: &'static str,
    pub kind: MigrationKind,
}

/// The statement that creates the `todos` table.
pub open spec fn todos_table_sql() -> Seq<char> {
    "CREATE TABLE IF NOT EXISTS todos (id INTEGER PRIMARY KEY AUTOINCREMENT, content TEXT NOT NULL, completed INTEGER NOT NULL DEFAULT 0, sortOrder INTEGER NOT NULL DEFAULT 0, createdAt TEXT NOT NULL, updatedAt TEXT)"@
}

/// The statement that creates the `notes` table.
pub open spec fn notes_table_sql() -> Seq<char> {
    "CREATE TABLE IF NOT EXISTS notes (id INTEGER PRIMARY KEY AUTOINCREMENT, title TEXT NOT NULL, isLocked INTEGER NOT NULL DEFAULT 0, password TEXT, sortOrder INTEGER NOT NULL DEFAULT 0, createdAt TEXT NOT NULL, updatedAt TEXT)"@
}

/// The statement that creates the `memos` table, whose `noteId` column
/// references `notes.id` with cascade delete.
pub open spec fn memos_table_sql() -> Seq<char> {
    "CREATE TABLE IF NOT EXISTS memos (id INTEGER PRIMARY KEY AUTOINCREMENT, noteId INTEGER NOT NULL, content TEXT NOT NULL, sortOrder INTEGER NOT NULL DEFAULT 0, createdAt TEXT NOT NULL, updatedAt TEXT, FOREIGN KEY (noteId) REFERENCES notes (id) ON DELETE CASCADE)"@
}

/// The registry's full ordered contents: three additive migrations, one
/// table each, with strictly increasing versions.
pub open spec fn registry() -> Seq<Migration> {
    seq![
        Migration {
            version: 1,
            description: "create todos table",
            sql: "CREATE TABLE IF NOT EXISTS todos (id INTEGER PRIMARY KEY AUTOINCREMENT, content TEXT NOT NULL, completed INTEGER NOT NULL DEFAULT 0, sortOrder INTEGER NOT NULL DEFAULT 0, createdAt TEXT NOT NULL, updatedAt TEXT)",
            kind: MigrationKind::Up,
        },
        Migration {
            version: 2,
            description: "create notes table",
            sql: "CREATE TABLE IF NOT EXISTS notes (id INTEGER PRIMARY KEY AUTOINCREMENT, title TEXT NOT NULL, isLocked INTEGER NOT NULL DEFAULT 0, password TEXT, sortOrder INTEGER NOT NULL DEFAULT 0, createdAt TEXT NOT NULL, updatedAt TEXT)",
            kind: MigrationKind::Up,
        },
        Migration {
            version: 3,
            description: "create memos table",
            sql: "CREATE TABLE IF NOT EXISTS memos (id INTEGER PRIMARY KEY AUTOINCREMENT, noteId INTEGER NOT NULL, content TEXT NOT NULL, sortOrder INTEGER NOT NULL DEFAULT 0, createdAt TEXT NOT NULL, updatedAt TEXT, FOREIGN KEY (noteId) REFERENCES notes (id) ON DELETE CASCADE)",
            kind: MigrationKind::Up,
        },
    ]
}

/// The existence guard every registry statement opens with. It is what makes
/// a statement safe to re-run against an already-migrated database: the
/// creation is skipped when the table exists.
pub open spec fn create_guard() -> Seq<char> {
    "CREATE TABLE IF NOT EXISTS "@
}

/// The foreign-key clause of the `memos` statement: `memos.noteId` references
/// `notes.id`, and deleting a referenced `notes` row cascades to the
/// dependent `memos` rows.
pub open spec fn memos_cascade_clause() -> Seq<char> {
    "FOREIGN KEY (noteId) REFERENCES notes (id) ON DELETE CASCADE"@
}

/// `clause` occurs verbatim somewhere inside `s`.
pub open spec fn contains_clause(s: Seq<char>, clause: Seq<char>) -> bool {
    exists|k: int|
        0 <= k && k + clause.len() <= s.len() && #[trigger] s.subrange(k, k + clause.len() as int)
            == clause
}

/// Every statement in the registry opens with the existence guard, so each
/// table creation is skipped, not errored, when re-run.
pub proof fn lemma_registry_statements_guarded()
    ensures
        forall|k: int|
            0 <= k < registry().len() ==> create_guard().is_prefix_of(#[trigger] registry()[k].sql@),
{
    reveal_strlit("CREATE TABLE IF NOT EXISTS ");
    reveal_strlit("CREATE TABLE IF NOT EXISTS todos (id INTEGER PRIMARY KEY AUTOINCREMENT, content TEXT NOT NULL, completed INTEGER NOT NULL DEFAULT 0, sortOrder INTEGER NOT NULL DEFAULT 0, createdAt TEXT NOT NULL, updatedAt TEXT)");
    reveal_strlit("CREATE TABLE IF NOT EXISTS notes (id INTEGER PRIMARY KEY AUTOINCREMENT, title TEXT NOT NULL, isLocked INTEGER NOT NULL DEFAULT 0, password TEXT, sortOrder INTEGER NOT NULL DEFAULT 0, createdAt TEXT NOT NULL, updatedAt TEXT)");
    reveal_strlit("CREATE TABLE IF NOT EXISTS memos (id INTEGER PRIMARY KEY AUTOINCREMENT, noteId INTEGER NOT NULL, content TEXT NOT NULL, sortOrder INTEGER NOT NULL DEFAULT 0, createdAt TEXT NOT NULL, updatedAt TEXT, FOREIGN KEY (noteId) REFERENCES notes (id) ON DELETE CASCADE)");
    assert(create_guard() =~= todos_table_sql().subrange(0, 27));
    assert(create_guard() =~= notes_table_sql().subrange(0, 27));
    assert(create_guard() =~= memos_table_sql().subrange(0, 27));
    assert forall|k: int|
        0 <= k < registry().len()
            implies create_guard().is_prefix_of(#[trigger] registry()[k].sql@) by {
        assert(registry()[0].sql@ == todos_table_sql());
        assert(registry()[1].sql@ == notes_table_sql());
        assert(registry()[2].sql@ == memos_table_sql());
    }
}

/// The `memos` statement declares the cascading foreign key verbatim: the
/// schema ties `memos.noteId` to `notes.id` with `ON DELETE CASCADE`.
pub proof fn lemma_memos_declares_cascade()
    ensures
        contains_clause(memos_table_sql(), memos_cascade_clause()),
{
    reveal_strlit("FOREIGN KEY (noteId) REFERENCES notes (id) ON DELETE CASCADE");
    reveal_strlit("CREATE TABLE IF NOT EXISTS memos (id INTEGER PRIMARY KEY AUTOINCREMENT, noteId INTEGER NOT NULL, content TEXT NOT NULL, sortOrder INTEGER NOT NULL DEFAULT 0, createdAt TEXT NOT NULL, updatedAt TEXT, FOREIGN KEY (noteId) REFERENCES notes (id) ON DELETE CASCADE)");
    assert(memos_table_sql().subrange(199, 259) =~= memos_cascade_clause());
    assert(contains_clause(memos_table_sql(), memos_cascade_clause())) by {
        assert(0 <= 199int && 199 + memos_cascade_clause().len() <= memos_table_sql().len()
            && memos_table_sql().subrange(199int, 199 + memos_cascade_clause().len() as int) == memos_cascade_clause());
    }
}

/// Version numbers strictly increase in declaration order.
pub open spec fn versions_strictly_increasing(ms: Seq<Migration>) -> bool {
    forall|i: int, j: int|
        0 <= i < j < ms.len() ==> #[trigger] ms[i].version < #[trigger] ms[j].version
}

/// No version number appears twice.
pub open spec fn versions_unique(ms: Seq<Migration>) -> bool {
    forall|i: int, j: int|
        0 <= i < ms.len() && 0 <= j < ms.len() && i != j
            ==> #[trigger] ms[i].version != #[trigger] ms[j].version
}

/// A strictly increasing version sequence cannot repeat a version.
pub proof fn lemma_strictly_increasing_implies_unique(ms: Seq<Migration>)
    requires
        versions_strictly_increasing(ms),
    ensures
        versions_unique(ms),
{
    assert forall|i: int, j: int|
        0 <= i < ms.len() && 0 <= j < ms.len() && i != j
            implies #[trigger] ms[i].version != #[trigger] ms[j].version by {
        if i < j {
            assert(ms[i].version < ms[j].version);
        } else {
            assert(ms[j].version < ms[i].version);
        }
    }
}

/// The registry's versions are unique and strictly increasing in list order.
pub proof fn lemma_registry_versions_ordered()
    ensures
        versions_strictly_increasing(registry()),
        versions_unique(registry()),
{
    assert forall|i: int, j: int|
        0 <= i < j < registry().len()
            implies #[trigger] registry()[i].version < #[trigger] registry()[j].version by {
        assert(registry()[0].version == 1);
        assert(registry()[1].version == 2);
        assert(registry()[2].version == 3);
    }
    lemma_strictly_increasing_implies_unique(registry());
}

/// Produce the complete, ordered list of schema descriptors. Pure and
/// deterministic: every call returns the registry exactly.
pub fn get_migrations() -> (r: Vec<Migration>)
    ensures
        r@ == registry(),
        versions_strictly_increasing(r@),
        versions_unique(r@),
{
    let mut r: Vec<Migration> = Vec::new();
    r.push(Migration {
        version: 1,
        description: "create todos table",
        sql: "CREATE TABLE IF NOT EXISTS todos (id INTEGER PRIMARY KEY AUTOINCREMENT, content TEXT NOT NULL, completed INTEGER NOT NULL DEFAULT 0, sortOrder INTEGER NOT NULL DEFAULT 0, createdAt TEXT NOT NULL, updatedAt TEXT)",
        kind: MigrationKind::Up,
    });
    r.push(Migration {
        version: 2,
        description: "create notes table",
        sql: "CREATE TABLE IF NOT EXISTS notes (id INTEGER PRIMARY KEY AUTOINCREMENT, title TEXT NOT NULL, isLocked INTEGER NOT NULL DEFAULT 0, password TEXT, sortOrder INTEGER NOT NULL DEFAULT 0, createdAt TEXT NOT NULL, updatedAt TEXT)",
        kind: MigrationKind::Up,
    });
    r.push(Migration {
        version: 3,
        description: "create memos table",
        sql: "CREATE TABLE IF NOT EXISTS memos (id INTEGER PRIMARY KEY AUTOINCREMENT, noteId INTEGER NOT NULL, content TEXT NOT NULL, sortOrder INTEGER NOT NULL DEFAULT 0, createdAt TEXT NOT NULL, updatedAt TEXT, FOREIGN KEY (noteId) REFERENCES notes (id) ON DELETE CASCADE)",
        kind: MigrationKind::Up,
    });
    proof {
        assert(r@ =~= registry());
        lemma_registry_versions_ordered();
    }
    r
}

/// The fixed, application-local identifier of the SQLite database file that
/// the migration runner is configured with.
pub fn database_url() -> (r: &'static str)
    ensures
        r@ == "sqlite:shelves.db"@,
{
    "sqlite:shelves.db"
}

} // verus!
