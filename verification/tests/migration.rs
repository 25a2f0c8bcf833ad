use crud_with_sea_orm::migration::{ColumnDef, ColumnKind, Migration, Migrator, Statement, Value};

#[test]
fn migrations_are_registered_in_order() {
    assert_eq!(
        Migrator::migrations(),
        vec![Migration::Post, Migration::Users, Migration::SeedPosts]
    );
}

#[test]
fn migrations_have_their_names() {
    assert_eq!(Migration::Post.name(), "m20220101_000001_post");
    assert_eq!(Migration::Users.name(), "m20260121_020308_users");
    assert_eq!(Migration::SeedPosts.name(), "m20220120_000002_seed_posts");
}

#[test]
fn post_migration_creates_the_posts_table() {
    assert_eq!(
        Migration::Post.up(),
        Statement::CreateTable {
            table: "posts",
            if_not_exists: true,
            columns: vec![
                ColumnDef { name: "id", kind: ColumnKind::PkAuto },
                ColumnDef { name: "title", kind: ColumnKind::String },
                ColumnDef { name: "text", kind: ColumnKind::Text },
                ColumnDef { name: "created_at", kind: ColumnKind::TimestampWithTimeZone },
                ColumnDef { name: "updated_at", kind: ColumnKind::TimestampWithTimeZone },
            ],
        }
    );
}

#[test]
fn post_migration_is_reverted_by_dropping_the_table() {
    assert_eq!(Migration::Post.down(), Statement::DropTable { table: "posts" });
}

#[test]
fn users_migration_creates_the_users_table() {
    assert_eq!(
        Migration::Users.up(),
        Statement::CreateTable {
            table: "users",
            if_not_exists: true,
            columns: vec![
                ColumnDef { name: "id", kind: ColumnKind::PkAuto },
                ColumnDef { name: "name", kind: ColumnKind::String },
                ColumnDef { name: "email", kind: ColumnKind::String },
                ColumnDef { name: "created_at", kind: ColumnKind::TimestampWithTimeZoneNull },
            ],
        }
    );
}

#[test]
fn users_migration_is_reverted_by_dropping_the_table() {
    assert_eq!(Migration::Users.down(), Statement::DropTable { table: "users" });
}

#[test]
fn seed_migration_inserts_two_posts() {
    assert_eq!(
        Migration::SeedPosts.up(),
        Statement::Insert {
            table: "posts",
            columns: vec!["title", "text", "created_at", "updated_at"],
            rows: vec![
                vec![
                    Value::Text("First post"),
                    Value::Text("This is the first post."),
                    Value::CurrentTimestamp,
                    Value::CurrentTimestamp,
                ],
                vec![
                    Value::Text("Second post"),
                    Value::Text("This is the second post."),
                    Value::CurrentTimestamp,
                    Value::CurrentTimestamp,
                ],
            ],
        }
    );
}

#[test]
fn seed_migration_is_reverted_by_removing_the_seeded_posts() {
    let Statement::Insert { rows, .. } = Migration::SeedPosts.up() else {
        panic!("the seed migration does not insert");
    };
    let titles: Vec<&'static str> = rows
        .iter()
        .map(|row| match row[0] {
            Value::Text(title) => title,
            Value::CurrentTimestamp => panic!("a seeded post has no title"),
        })
        .collect();
    assert_eq!(
        Migration::SeedPosts.down(),
        Statement::Delete { table: "posts", column: "title", values: titles }
    );
}

#[test]
fn every_row_of_the_seed_fills_every_column() {
    let Statement::Insert { columns, rows, .. } = Migration::SeedPosts.up() else {
        panic!("the seed migration does not insert");
    };
    for row in rows {
        assert_eq!(row.len(), columns.len());
    }
}

#[test]
fn every_migration_is_applied_once() {
    let migrations = Migrator::migrations();
    for (i, one) in migrations.iter().enumerate() {
        for other in &migrations[i + 1..] {
            assert_ne!(one.name(), other.name());
        }
    }
}
