//! The `users` table: a row as it is read, and a row as it is written.

use vstd::prelude::*;

verus! {

/// A point in time as the store records it: the seconds and nanoseconds
/// since the start of 1970 in UTC, and the offset from UTC, in seconds, of
/// the zone in which the time was written down.
#[derive(Clone, Copy, Debug, PartialEq, Eq, Structural)]
pub struct Timestamp {
    pub seconds: i64,
    pub nanoseconds: u32,
    pub offset_seconds: i32,
}

/// One row of the `users` table.
#[derive(Clone, Debug, PartialEq)]
pub struct Model {
    pub id: i32,
    pub name: String,
    pub email: String,
    /// When the row was created, where the table recorded it.
    pub created_at: Option<Timestamp>,
}

/// A row with its texts as sequences of characters.
pub struct ModelView {
    pub id: i32,
    pub name: Seq<char>,
    pub email: Seq<char>,
    pub created_at: Option<Timestamp>,
}

impl View for Model {
    type V = ModelView;

    open spec fn view(&self) -> ModelView {
        ModelView { id: self.id, name: self.name@, email: self.email@, created_at: self.created_at }
    }
}

impl DeepView for Model {
    type V = ModelView;

    open spec fn deep_view(&self) -> ModelView {
        self@
    }
}

/// What is to become of one column when a row is written.
#[derive(Clone, Debug, PartialEq)]
pub enum ActiveValue<V> {
    /// The column is written with this value.
    Changed(V),
    /// The column holds this value and keeps it.
    Unchanged(V),
    /// Nothing is said of the column.
    NotSet,
}

/// A row of the `users` table as it is handed to the store for writing.
#[derive(Clone, Debug, PartialEq)]
pub struct ActiveModel {
    pub id: ActiveValue<i32>,
    pub name: ActiveValue<String>,
    pub email: ActiveValue<String>,
    pub created_at: ActiveValue<Option<Timestamp>>,
}

/// A row to write, with its texts as sequences of characters.
pub struct ActiveModelView {
    pub id: ActiveValue<i32>,
    pub name: ActiveValue<Seq<char>>,
    pub email: ActiveValue<Seq<char>>,
    pub created_at: ActiveValue<Option<Timestamp>>,
}

/// A text column to write, as a sequence of characters.
pub open spec fn text_value_view(value: ActiveValue<String>) -> ActiveValue<Seq<char>> {
    match value {
        ActiveValue::Changed(text) => ActiveValue::Changed(text@),
        ActiveValue::Unchanged(text) => ActiveValue::Unchanged(text@),
        ActiveValue::NotSet => ActiveValue::NotSet,
    }
}

impl View for ActiveModel {
    type V = ActiveModelView;

    open spec fn view(&self) -> ActiveModelView {
        ActiveModelView {
            id: self.id,
            name: text_value_view(self.name),
            email: text_value_view(self.email),
            created_at: self.created_at,
        }
    }
}

/// The row as the store holds it, every column kept as it is.
pub open spec fn unchanged(row: ModelView) -> ActiveModelView {
    ActiveModelView {
        id: ActiveValue::Unchanged(row.id),
        name: ActiveValue::Unchanged(row.name),
        email: ActiveValue::Unchanged(row.email),
        created_at: ActiveValue::Unchanged(row.created_at),
    }
}

impl From<Model> for ActiveModel {
    /// Every column of the row, marked as unchanged.
    fn from(model: Model) -> (active: ActiveModel)
        ensures
            active@ == unchanged(model@),
    {
        ActiveModel {
            id: ActiveValue::Unchanged(model.id),
            name: ActiveValue::Unchanged(model.name),
            email: ActiveValue::Unchanged(model.email),
            created_at: ActiveValue::Unchanged(model.created_at),
        }
    }
}

impl vstd::std_specs::convert::FromSpecImpl<Model> for ActiveModel {
    open spec fn obeys_from_spec() -> bool {
        true
    }

    open spec fn from_spec(model: Model) -> ActiveModel {
        ActiveModel {
            id: ActiveValue::Unchanged(model.id),
            name: ActiveValue::Unchanged(model.name),
            email: ActiveValue::Unchanged(model.email),
            created_at: ActiveValue::Unchanged(model.created_at),
        }
    }
}

/// The relations of the `users` table to other tables. There are none: the
/// type has no value, so nothing can ever ask for a relation's definition.
#[derive(Clone, Copy, Debug)]
pub enum Relation {
    Never(core::convert::Infallible),
}

impl Relation {
    /// All relations of the table: none.
    pub fn all() -> (relations: Vec<Relation>)
        ensures
            relations@ == Seq::<Relation>::empty(),
    {
        Vec::new()
    }
}

} // verus!
