use vstd::prelude::*;
use crate::error::{is_not_found, AppError};
use crate::queries::{by_id_sql, delete_by_id, exists_by_id, select_by_id};
use crate::sql::{SqlValue, Statement};

verus! {

/// What a repository operation does to a table.
#[derive(Clone, Copy, Debug, PartialEq, Eq, Structural)]
pub enum Kind {
    Get,
    Create,
    Update,
    Delete,
}

/// Where an operation stands.
#[derive(Clone, Copy, Debug, PartialEq, Eq, Structural)]
pub enum Phase {
    /// Waiting to learn whether the row exists.
    Check,
    /// Waiting for its write to be carried out.
    Apply,
    /// Waiting for the row to be read back.
    Load,
    Finished,
}

/// What the store reports back for the last action.
#[derive(Clone, Copy, Debug, PartialEq, Eq, Structural)]
pub enum Event {
    /// A read found its row.
    Found,
    /// A read found no row.
    Missing,
    /// A write was carried out: how many rows it changed, and the id of the
    /// row it inserted, if any.
    Written { rows: u64, last_id: i64 },
}

/// What the store is asked to do next, or how the operation ended: with the
/// id of the row that the last read loaded, or with an error.
#[derive(Debug)]
pub enum Action {
    /// Read whether a row exists.
    Check(Statement),
    /// Carry out a write.
    Write(Statement),
    /// Read a whole row.
    Load(Statement),
    Done(Result<i64, AppError>),
}

/// An action as the decisions see it.
#[derive(Clone, Copy, Debug, PartialEq, Eq, Structural)]
pub enum Step {
    Check(i64),
    Write,
    Load(i64),
    Succeeded(i64),
    NotFound(i64),
    Unexpected,
}

/// The phase that an operation of `kind` starts in.
pub open spec fn start(kind: Kind) -> Phase {
    match kind {
        Kind::Get => Phase::Load,
        Kind::Update => Phase::Check,
        _ => Phase::Apply,
    }
}

/// The first action of an operation of `kind` on the row `id`.
pub open spec fn first_step(kind: Kind, id: i64) -> Step {
    match kind {
        Kind::Get => Step::Load(id),
        Kind::Update => Step::Check(id),
        _ => Step::Write,
    }
}

/// The decisions of the operations: from the phase, the row's id and what the
/// store reported, the next phase, the id of the row, and the next action.
///
/// An update first checks that the row exists, then writes, then reads the
/// row back; a write that changes no row means that the row is gone. A delete
/// writes; a create writes, then reads back the row it inserted; a get reads.
/// A read that finds nothing ends in the not-found error.
pub open spec fn transition(kind: Kind, phase: Phase, id: i64, e: Event) -> (Phase, i64, Step) {
    match phase {
        Phase::Check => match e {
            Event::Found => (Phase::Apply, id, Step::Write),
            Event::Missing => (Phase::Finished, id, Step::NotFound(id)),
            _ => (Phase::Finished, id, Step::Unexpected),
        },
        Phase::Apply => match e {
            Event::Written { rows, last_id } => match kind {
                Kind::Create => (Phase::Load, last_id, Step::Load(last_id)),
                Kind::Delete => if rows == 0 {
                    (Phase::Finished, id, Step::NotFound(id))
                } else {
                    (Phase::Finished, id, Step::Succeeded(id))
                },
                _ => if rows == 0 {
                    (Phase::Finished, id, Step::NotFound(id))
                } else {
                    (Phase::Load, id, Step::Load(id))
                },
            },
            _ => (Phase::Finished, id, Step::Unexpected),
        },
        Phase::Load => match e {
            Event::Found => (Phase::Finished, id, Step::Succeeded(id)),
            Event::Missing => (Phase::Finished, id, Step::NotFound(id)),
            _ => (Phase::Finished, id, Step::Unexpected),
        },
        Phase::Finished => (Phase::Finished, id, Step::Unexpected),
    }
}

/// One repository operation on one table, driven by what the store reports.
#[derive(Debug)]
pub struct Operation {
    pub kind: Kind,
    pub phase: Phase,
    /// The row operated on; for a create, 0 until the insert has assigned it.
    pub id: i64,
    pub table: &'static str,
    /// The name of the entity in a not-found message.
    pub entity: &'static str,
    /// The write of a create, an update or a delete.
    pub write: Statement,
}

impl Operation {
    /// `a` carries out `s` for this operation.
    pub open spec fn acts(&self, a: Action, s: Step) -> bool {
        match s {
            Step::Check(id) => match a {
                Action::Check(st) => st.sql@ == by_id_sql("SELECT id FROM "@, self.table@)
                    && st.params@ == seq![SqlValue::Integer(id)],
                _ => false,
            },
            Step::Write => match a {
                Action::Write(st) => st.sql == self.write.sql && st.params@ == self.write.params@,
                _ => false,
            },
            Step::Load(id) => match a {
                Action::Load(st) => st.sql@ == by_id_sql("SELECT * FROM "@, self.table@)
                    && st.params@ == seq![SqlValue::Integer(id)],
                _ => false,
            },
            Step::Succeeded(id) => a == Action::Done(Ok(id)),
            Step::NotFound(id) => match a {
                Action::Done(Err(e)) => is_not_found(e, self.entity@, id as int),
                _ => false,
            },
            Step::Unexpected => match a {
                Action::Done(Err(e)) => e is Internal,
                _ => false,
            },
        }
    }

    /// The operation's table, entity and write are those of `o`.
    pub open spec fn same_target(&self, o: Operation) -> bool {
        &&& self.kind == o.kind
        &&& self.table == o.table
        &&& self.entity == o.entity
        &&& self.write == o.write
    }

    fn act(&self, s: Step) -> (a: Action)
        ensures
            self.acts(a, s),
    {
        match s {
            Step::Check(id) => Action::Check(exists_by_id(self.table, id)),
            Step::Write => Action::Write(self.write.duplicate()),
            Step::Load(id) => Action::Load(select_by_id(self.table, id)),
            Step::Succeeded(id) => Action::Done(Ok(id)),
            Step::NotFound(id) => Action::Done(Err(AppError::not_found(self.entity, id))),
            Step::Unexpected => Action::Done(
                Err(AppError::Internal(String::from_str("unexpected outcome from the store"))),
            ),
        }
    }

    fn begin(kind: Kind, table: &'static str, entity: &'static str, id: i64, write: Statement) -> (r: (Operation, Action))
        ensures
            r.0.kind == kind,
            r.0.phase == start(kind),
            r.0.id == id,
            r.0.table == table,
            r.0.entity == entity,
            r.0.write == write,
            r.0.acts(r.1, first_step(kind, id)),
    {
        let op = Operation { kind, phase: Phase::Apply, id, table, entity, write };
        let (phase, first) = match kind {
            Kind::Get => (Phase::Load, Step::Load(id)),
            Kind::Update => (Phase::Check, Step::Check(id)),
            _ => (Phase::Apply, Step::Write),
        };
        let op = Operation { phase, ..op };
        let a = op.act(first);
        (op, a)
    }

    /// Reads the row `id` of `table`.
    pub fn get(table: &'static str, entity: &'static str, id: i64) -> (r: (Operation, Action))
        ensures
            r.0.kind == Kind::Get,
            r.0.phase == start(Kind::Get),
            r.0.id == id,
            r.0.table == table,
            r.0.entity == entity,
            r.0.acts(r.1, first_step(Kind::Get, id)),
    {
        Operation::begin(Kind::Get, table, entity, id, Statement { sql: String::new(), params: Vec::new() })
    }

    /// Stores a row with `insert` and reads it back.
    pub fn create(table: &'static str, entity: &'static str, insert: Statement) -> (r: (Operation, Action))
        ensures
            r.0.kind == Kind::Create,
            r.0.phase == start(Kind::Create),
            r.0.table == table,
            r.0.entity == entity,
            r.0.write == insert,
            r.0.acts(r.1, first_step(Kind::Create, 0)),
    {
        Operation::begin(Kind::Create, table, entity, 0, insert)
    }

    /// Applies `update` to the row `id` of `table`, after checking that the
    /// row exists, and reads the row back.
    pub fn update(table: &'static str, entity: &'static str, id: i64, update: Statement) -> (r: (Operation, Action))
        ensures
            r.0.kind == Kind::Update,
            r.0.phase == start(Kind::Update),
            r.0.id == id,
            r.0.table == table,
            r.0.entity == entity,
            r.0.write == update,
            r.0.acts(r.1, first_step(Kind::Update, id)),
    {
        Operation::begin(Kind::Update, table, entity, id, update)
    }

    /// Deletes the row `id` of `table`.
    pub fn delete(table: &'static str, entity: &'static str, id: i64) -> (r: (Operation, Action))
        ensures
            r.0.kind == Kind::Delete,
            r.0.phase == start(Kind::Delete),
            r.0.id == id,
            r.0.table == table,
            r.0.entity == entity,
            r.0.write.sql@ == by_id_sql("DELETE FROM "@, table@),
            r.0.write.params@ == seq![SqlValue::Integer(id)],
            r.0.acts(r.1, first_step(Kind::Delete, id)),
    {
        Operation::begin(Kind::Delete, table, entity, id, delete_by_id(table, id))
    }

    /// Takes in what the store reported for the last action and returns the
    /// next one.
    pub fn step(&mut self, e: Event) -> (a: Action)
        ensures
            final(self).same_target(*old(self)),
            ({
                let (phase, id, s) = transition(old(self).kind, old(self).phase, old(self).id, e);
                &&& final(self).phase == phase
                &&& final(self).id == id
                &&& final(self).acts(a, s)
            }),
    {
        let (phase, id, s) = match self.phase {
            Phase::Check => match e {
                Event::Found => (Phase::Apply, self.id, Step::Write),
                Event::Missing => (Phase::Finished, self.id, Step::NotFound(self.id)),
                _ => (Phase::Finished, self.id, Step::Unexpected),
            },
            Phase::Apply => match e {
                Event::Written { rows, last_id } => match self.kind {
                    Kind::Create => (Phase::Load, last_id, Step::Load(last_id)),
                    Kind::Delete => if rows == 0 {
                        (Phase::Finished, self.id, Step::NotFound(self.id))
                    } else {
                        (Phase::Finished, self.id, Step::Succeeded(self.id))
                    },
                    _ => if rows == 0 {
                        (Phase::Finished, self.id, Step::NotFound(self.id))
                    } else {
                        (Phase::Load, self.id, Step::Load(self.id))
                    },
                },
                _ => (Phase::Finished, self.id, Step::Unexpected),
            },
            Phase::Load => match e {
                Event::Found => (Phase::Finished, self.id, Step::Succeeded(self.id)),
                Event::Missing => (Phase::Finished, self.id, Step::NotFound(self.id)),
                _ => (Phase::Finished, self.id, Step::Unexpected),
            },
            Phase::Finished => (Phase::Finished, self.id, Step::Unexpected),
        };
        self.phase = phase;
        self.id = id;
        self.act(s)
    }
}

/// The report of a store on which the row `id` does not exist: a read finds
/// nothing, a write changes nothing.
pub open spec fn absent(phase: Phase, last_id: i64) -> Event {
    match phase {
        Phase::Apply => Event::Written { rows: 0, last_id },
        _ => Event::Missing,
    }
}

/// A get, an update or a delete of an id that no row has ends at its first
/// action in the not-found error for that id, never in another error. So does
/// an update whose row is deleted between the check and the write, and one
/// whose row is gone when it is read back.
pub proof fn lemma_missing_row_not_found(kind: Kind, id: i64, last_id: i64)
    requires
        kind != Kind::Create,
    ensures
        transition(kind, start(kind), id, absent(start(kind), last_id)) == (
            Phase::Finished,
            id,
            Step::NotFound(id),
        ),
        transition(Kind::Update, Phase::Apply, id, Event::Written { rows: 0, last_id }) == (
            Phase::Finished,
            id,
            Step::NotFound(id),
        ),
        transition(Kind::Update, Phase::Load, id, Event::Missing) == (Phase::Finished, id, Step::NotFound(id)),
{
}

} // verus!
