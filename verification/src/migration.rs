//! The history of the schema: the migrations in the order in which they are
//! registered, and what each of them asks of the database when it is
//! applied and when it is reverted.

use vstd::prelude::*;

verus! {

/// What a column holds. Every kind but the last refuses null.
#[derive(Clone, Copy, Debug, PartialEq, Eq, Structural)]
pub enum ColumnKind {
    /// An integer that the database counts up by itself: the primary key.
    PkAuto,
    /// A short text.
    String,
    /// A long text.
    Text,
    /// A point in time with its time zone.
    TimestampWithTimeZone,
    /// A point in time with its time zone, or null.
    TimestampWithTimeZoneNull,
}

/// One column of a table.
#[derive(Clone, Copy, Debug, PartialEq, Eq)]
pub struct ColumnDef {
    pub name: &'static str,
    pub kind: ColumnKind,
}

/// A value that is written into a column.
#[derive(Clone, Copy, Debug, PartialEq, Eq)]
pub enum Value {
    /// This text.
    Text(&'static str),
    /// The time at which the statement runs.
    CurrentTimestamp,
}

impl DeepView for Value {
    type V = Value;

    open spec fn deep_view(&self) -> Value {
        *self
    }
}

/// What a migration asks of the database.
#[derive(Clone, Debug, PartialEq, Eq)]
pub enum Statement {
    /// Create a table with these columns, in this order. With
    /// `if_not_exists` a table that is already there is left alone.
    CreateTable { table: &'static str, if_not_exists: bool, columns: Vec<ColumnDef> },
    /// Drop a table.
    DropTable { table: &'static str },
    /// Add rows to a table: each row gives one value for each of the
    /// columns, in their order.
    Insert { table: &'static str, columns: Vec<&'static str>, rows: Vec<Vec<Value>> },
    /// Remove from a table the rows that hold one of these texts in this
    /// column.
    Delete { table: &'static str, column: &'static str, values: Vec<&'static str> },
}

/// A statement with its lists as sequences.
pub enum StatementView {
    CreateTable { table: &'static str, if_not_exists: bool, columns: Seq<ColumnDef> },
    DropTable { table: &'static str },
    Insert { table: &'static str, columns: Seq<&'static str>, rows: Seq<Seq<Value>> },
    Delete { table: &'static str, column: &'static str, values: Seq<&'static str> },
}

impl View for Statement {
    type V = StatementView;

    open spec fn view(&self) -> StatementView {
        match *self {
            Statement::CreateTable { table, if_not_exists, columns } => StatementView::CreateTable {
                table,
                if_not_exists,
                columns: columns@,
            },
            Statement::DropTable { table } => StatementView::DropTable { table },
            Statement::Insert { table, columns, rows } => StatementView::Insert {
                table,
                columns: columns@,
                rows: rows.deep_view(),
            },
            Statement::Delete { table, column, values } => StatementView::Delete {
                table,
                column,
                values: values@,
            },
        }
    }
}

/// The columns of the `posts` table.
pub open spec fn posts_columns() -> Seq<ColumnDef> {
    seq![
        ColumnDef { name: "id", kind: ColumnKind::PkAuto },
        ColumnDef { name: "title", kind: ColumnKind::String },
        ColumnDef { name: "text", kind: ColumnKind::Text },
        ColumnDef { name: "created_at", kind: ColumnKind::TimestampWithTimeZone },
        ColumnDef { name: "updated_at", kind: ColumnKind::TimestampWithTimeZone },
    ]
}

/// The columns of the `users` table.
pub open spec fn users_columns() -> Seq<ColumnDef> {
    seq![
        ColumnDef { name: "id", kind: ColumnKind::PkAuto },
        ColumnDef { name: "name", kind: ColumnKind::String },
        ColumnDef { name: "email", kind: ColumnKind::String },
        ColumnDef { name: "created_at", kind: ColumnKind::TimestampWithTimeZoneNull },
    ]
}

/// The titles of the posts that the table starts with.
pub open spec fn seeded_titles() -> Seq<&'static str> {
    seq!["First post", "Second post"]
}

/// The columns that the seeding fills.
pub open spec fn seeded_columns() -> Seq<&'static str> {
    seq!["title", "text", "created_at", "updated_at"]
}

/// The posts that the table starts with, each created and updated at the
/// time of the seeding.
pub open spec fn seeded_rows() -> Seq<Seq<Value>> {
    seq![
        seq![
            Value::Text("First post"),
            Value::Text("This is the first post."),
            Value::CurrentTimestamp,
            Value::CurrentTimestamp,
        ],
        seq![
            Value::Text("Second post"),
            Value::Text("This is the second post."),
            Value::CurrentTimestamp,
            Value::CurrentTimestamp,
        ],
    ]
}

/// One step in the history of the schema.
#[derive(Clone, Copy, Debug, PartialEq, Eq, Structural)]
pub enum Migration {
    /// Creates the `posts` table.
    Post,
    /// Creates the `users` table.
    Users,
    /// Fills the `posts` table with the posts it starts with.
    SeedPosts,
}

impl Migration {
    /// The name under which the database remembers that the migration was
    /// applied.
    pub open spec fn name_spec(self) -> &'static str {
        match self {
            Migration::Post => "m20220101_000001_post",
            Migration::Users => "m20260121_020308_users",
            Migration::SeedPosts => "m20220120_000002_seed_posts",
        }
    }

    /// What applying the migration asks of the database.
    pub open spec fn up_spec(self) -> StatementView {
        match self {
            Migration::Post => StatementView::CreateTable {
                table: "posts",
                if_not_exists: true,
                columns: posts_columns(),
            },
            Migration::Users => StatementView::CreateTable {
                table: "users",
                if_not_exists: true,
                columns: users_columns(),
            },
            Migration::SeedPosts => StatementView::Insert {
                table: "posts",
                columns: seeded_columns(),
                rows: seeded_rows(),
            },
        }
    }

    /// What reverting the migration asks of the database: a created table
    /// is dropped, the seeded posts are removed.
    pub open spec fn down_spec(self) -> StatementView {
        match self {
            Migration::Post => StatementView::DropTable { table: "posts" },
            Migration::Users => StatementView::DropTable { table: "users" },
            Migration::SeedPosts => StatementView::Delete {
                table: "posts",
                column: "title",
                values: seeded_titles(),
            },
        }
    }

    /// The name under which the database remembers that the migration was
    /// applied.
    pub fn name(&self) -> (name: &'static str)
        ensures
            name == self.name_spec(),
    {
        match self {
            Migration::Post => "m20220101_000001_post",
            Migration::Users => "m20260121_020308_users",
            Migration::SeedPosts => "m20220120_000002_seed_posts",
        }
    }

    /// What applying the migration asks of the database.
    pub fn up(&self) -> (statement: Statement)
        ensures
            statement@ == self.up_spec(),
    {
        match self {
            Migration::Post => {
                let mut columns: Vec<ColumnDef> = Vec::new();
                columns.push(ColumnDef { name: "id", kind: ColumnKind::PkAuto });
                columns.push(ColumnDef { name: "title", kind: ColumnKind::String });
                columns.push(ColumnDef { name: "text", kind: ColumnKind::Text });
                columns.push(
                    ColumnDef { name: "created_at", kind: ColumnKind::TimestampWithTimeZone },
                );
                columns.push(
                    ColumnDef { name: "updated_at", kind: ColumnKind::TimestampWithTimeZone },
                );
                assert(columns@ =~= posts_columns());
                Statement::CreateTable { table: "posts", if_not_exists: true, columns }
            },
            Migration::Users => {
                let mut columns: Vec<ColumnDef> = Vec::new();
                columns.push(ColumnDef { name: "id", kind: ColumnKind::PkAuto });
                columns.push(ColumnDef { name: "name", kind: ColumnKind::String });
                columns.push(ColumnDef { name: "email", kind: ColumnKind::String });
                columns.push(
                    ColumnDef { name: "created_at", kind: ColumnKind::TimestampWithTimeZoneNull },
                );
                assert(columns@ =~= users_columns());
                Statement::CreateTable { table: "users", if_not_exists: true, columns }
            },
            Migration::SeedPosts => {
                let mut columns: Vec<&'static str> = Vec::new();
                columns.push("title");
                columns.push("text");
                columns.push("created_at");
                columns.push("updated_at");
                assert(columns@ =~= seeded_columns());
                let mut rows: Vec<Vec<Value>> = Vec::new();
                rows.push(seed("First post", "This is the first post."));
                rows.push(seed("Second post", "This is the second post."));
                assert(rows.deep_view() =~= seeded_rows());
                Statement::Insert { table: "posts", columns, rows }
            },
        }
    }

    /// What reverting the migration asks of the database.
    pub fn down(&self) -> (statement: Statement)
        ensures
            statement@ == self.down_spec(),
    {
        match self {
            Migration::Post => Statement::DropTable { table: "posts" },
            Migration::Users => Statement::DropTable { table: "users" },
            Migration::SeedPosts => {
                let mut values: Vec<&'static str> = Vec::new();
                values.push("First post");
                values.push("Second post");
                assert(values@ =~= seeded_titles());
                Statement::Delete { table: "posts", column: "title", values }
            },
        }
    }
}

/// One post to seed, created and updated at the time of the seeding.
fn seed(title: &'static str, text: &'static str) -> (row: Vec<Value>)
    ensures
        row.deep_view() == seq![
            Value::Text(title),
            Value::Text(text),
            Value::CurrentTimestamp,
            Value::CurrentTimestamp,
        ],
{
    let mut row: Vec<Value> = Vec::new();
    row.push(Value::Text(title));
    row.push(Value::Text(text));
    row.push(Value::CurrentTimestamp);
    row.push(Value::CurrentTimestamp);
    assert(row.deep_view() =~= seq![
        Value::Text(title),
        Value::Text(text),
        Value::CurrentTimestamp,
        Value::CurrentTimestamp,
    ]);
    row
}

/// The schema's history as a whole.
pub struct Migrator;

impl Migrator {
    /// The migrations in the order in which they are registered. They are
    /// applied in this order and reverted in the opposite one.
    pub open spec fn migrations_spec() -> Seq<Migration> {
        seq![Migration::Post, Migration::Users, Migration::SeedPosts]
    }

    /// The migrations in the order in which they are registered.
    pub fn migrations() -> (migrations: Vec<Migration>)
        ensures
            migrations@ == Self::migrations_spec(),
    {
        let mut migrations: Vec<Migration> = Vec::new();
        migrations.push(Migration::Post);
        migrations.push(Migration::Users);
        migrations.push(Migration::SeedPosts);
        migrations
    }
}

} // verus!
