//! Replacing the items of a collection by the rows of a manifest, as one
//! transaction.
//!
//! The statements are executed elsewhere. This module says which statement
//! comes next, given how the ones before have ended, and proves what that
//! order means for a store that keeps its transactions.

use vstd::prelude::*;

verus! {

/// The rows of one insert statement: those at the positions from `start` up
/// to, not including, `end`.
#[derive(Clone, Copy, Debug, PartialEq, Eq, Structural)]
pub struct Batch {
    pub start: usize,
    pub end: usize,
}

/// A statement against the relation of a collection.
#[derive(Clone, Copy, Debug, PartialEq, Eq, Structural)]
pub enum Statement {
    /// Begin a transaction.
    Begin,
    /// Delete every row of the relation.
    Clear,
    /// Insert the rows of a batch, in their order.
    Insert(Batch),
    /// Commit the transaction.
    Commit,
    /// Roll the transaction back.
    Rollback,
}

/// Where a reload stands: the statement that is executed next, or how the
/// reload has ended.
#[derive(Clone, Copy, Debug, PartialEq, Eq, Structural)]
pub enum Phase {
    /// The transaction is begun next.
    Begin,
    /// The relation is cleared next.
    Clear,
    /// The batch that starts at this row is inserted next.
    Insert(usize),
    /// The transaction is committed next.
    Commit,
    /// The transaction is rolled back next.
    Rollback,
    /// The reload has ended: with the new rows committed, or without.
    Done(bool),
}

/// The reload of one collection.
#[derive(Clone, Copy, Debug, PartialEq, Eq, Structural)]
pub struct Reload {
    /// Number of rows to load.
    pub total: usize,
    /// Number of rows in a full batch.
    pub size: usize,
    /// Where the reload stands.
    pub phase: Phase,
}

/// A relation of a store that keeps its transactions: the rows that are
/// committed, and the rows as the open transaction sees them.
pub struct Relation<R> {
    pub committed: Seq<R>,
    pub pending: Option<Seq<R>>,
}

/// Where the batch that starts at `start` ends.
pub open spec fn batch_end(start: int, size: int, total: int) -> int {
    if start >= total || size >= total - start {
        total
    } else {
        start + size
    }
}

/// The statement that is executed next.
pub open spec fn statement_of(reload: Reload) -> Option<Statement> {
    match reload.phase {
        Phase::Begin => Some(Statement::Begin),
        Phase::Clear => Some(Statement::Clear),
        Phase::Insert(start) => Some(
            Statement::Insert(
                Batch {
                    start,
                    end: batch_end(start as int, reload.size as int, reload.total as int) as usize,
                },
            ),
        ),
        Phase::Commit => Some(Statement::Commit),
        Phase::Rollback => Some(Statement::Rollback),
        Phase::Done(_) => None,
    }
}

/// Where the reload stands after the statement that was due has succeeded
/// or failed.
pub open spec fn phase_after(reload: Reload, succeeded: bool) -> Phase {
    match reload.phase {
        Phase::Begin => if succeeded {
            Phase::Clear
        } else {
            Phase::Done(false)
        },
        Phase::Clear => if !succeeded {
            Phase::Rollback
        } else if reload.total == 0 {
            Phase::Commit
        } else {
            Phase::Insert(0)
        },
        Phase::Insert(start) => {
            let end = batch_end(start as int, reload.size as int, reload.total as int);
            if !succeeded {
                Phase::Rollback
            } else if end >= reload.total {
                Phase::Commit
            } else {
                Phase::Insert(end as usize)
            }
        },
        Phase::Commit => Phase::Done(succeeded),
        Phase::Rollback => Phase::Done(false),
        Phase::Done(committed) => Phase::Done(committed),
    }
}

/// The reload after the statement that was due has succeeded or failed.
pub open spec fn after(reload: Reload, succeeded: bool) -> Reload {
    Reload { phase: phase_after(reload, succeeded), ..reload }
}

/// What a statement does to a relation. A statement that fails changes no
/// row; a commit that fails, and any rollback, ends the transaction without
/// it.
pub open spec fn effect<R>(
    relation: Relation<R>,
    statement: Statement,
    rows: Seq<R>,
    succeeded: bool,
) -> Relation<R> {
    match statement {
        Statement::Begin => if succeeded {
            Relation { pending: Some(relation.committed), ..relation }
        } else {
            relation
        },
        Statement::Clear => if succeeded && relation.pending is Some {
            Relation { pending: Some(Seq::empty()), ..relation }
        } else {
            relation
        },
        Statement::Insert(batch) => match relation.pending {
            Some(seen) => if succeeded {
                Relation {
                    pending: Some(seen + rows.subrange(batch.start as int, batch.end as int)),
                    ..relation
                }
            } else {
                relation
            },
            None => relation,
        },
        Statement::Commit => match relation.pending {
            Some(seen) => if succeeded {
                Relation { committed: seen, pending: None }
            } else {
                Relation { pending: None, ..relation }
            },
            None => relation,
        },
        Statement::Rollback => Relation { pending: None, ..relation },
    }
}

/// The reload and the relation after the statements have ended as
/// `outcomes` says, one outcome for each statement, until the reload has
/// ended or the outcomes run out.
pub open spec fn play<R>(
    reload: Reload,
    relation: Relation<R>,
    rows: Seq<R>,
    outcomes: Seq<bool>,
) -> (Reload, Relation<R>)
    decreases outcomes.len(),
{
    if outcomes.len() == 0 {
        (reload, relation)
    } else {
        match statement_of(reload) {
            None => (reload, relation),
            Some(statement) => play(
                after(reload, outcomes[0]),
                effect(relation, statement, rows, outcomes[0]),
                rows,
                outcomes.drop_first(),
            ),
        }
    }
}

/// What holds between a reload and the relation while the reload goes on:
/// the committed rows are the prior ones until the commit has succeeded, and
/// the transaction sees the new rows as far as they have been inserted.
pub open spec fn consistent<R>(
    reload: Reload,
    relation: Relation<R>,
    prior: Seq<R>,
    rows: Seq<R>,
) -> bool {
    &&& reload.size > 0
    &&& rows.len() == reload.total
    &&& match reload.phase {
        Phase::Begin => relation.committed == prior && relation.pending is None,
        Phase::Clear => relation.committed == prior && relation.pending is Some,
        Phase::Insert(start) => relation.committed == prior && start < reload.total
            && relation.pending == Some(rows.subrange(0, start as int)),
        Phase::Commit => relation.committed == prior && relation.pending == Some(rows),
        Phase::Rollback => relation.committed == prior,
        Phase::Done(true) => relation.committed == rows && relation.pending is None,
        Phase::Done(false) => relation.committed == prior && relation.pending is None,
    }
}

/// How many statements a reload still has before it, at most.
pub open spec fn statements_left(reload: Reload) -> int {
    match reload.phase {
        Phase::Begin => reload.total + 3,
        Phase::Clear => reload.total + 2,
        Phase::Insert(start) => reload.total - start + 1,
        Phase::Commit => 1,
        Phase::Rollback => 1,
        Phase::Done(_) => 0,
    }
}

/// One statement keeps reload and relation consistent, and brings the end
/// nearer.
pub proof fn lemma_step<R>(
    reload: Reload,
    relation: Relation<R>,
    prior: Seq<R>,
    rows: Seq<R>,
    succeeded: bool,
)
    requires
        consistent(reload, relation, prior, rows),
        statement_of(reload) is Some,
    ensures
        consistent(
            after(reload, succeeded),
            effect(relation, statement_of(reload)->0, rows, succeeded),
            prior,
            rows,
        ),
        0 <= statements_left(after(reload, succeeded)) < statements_left(reload),
{
    let next = effect(relation, statement_of(reload)->0, rows, succeeded);
    match reload.phase {
        Phase::Clear => {
            if succeeded && reload.total == 0 {
                assert(next.pending->0 =~= rows);
            }
            if succeeded && reload.total > 0 {
                assert(next.pending->0 =~= rows.subrange(0, 0));
            }
        },
        Phase::Insert(start) => {
            let end = batch_end(start as int, reload.size as int, reload.total as int);
            if succeeded {
                assert(next.pending->0 =~= rows.subrange(0, end));
                if end >= reload.total {
                    assert(rows.subrange(0, end) =~= rows);
                }
            }
        },
        _ => {},
    }
}

/// Consistency lasts through any number of statements.
pub proof fn lemma_play<R>(
    reload: Reload,
    relation: Relation<R>,
    prior: Seq<R>,
    rows: Seq<R>,
    outcomes: Seq<bool>,
)
    requires
        consistent(reload, relation, prior, rows),
    ensures
        consistent(
            play(reload, relation, rows, outcomes).0,
            play(reload, relation, rows, outcomes).1,
            prior,
            rows,
        ),
        outcomes.len() >= statements_left(reload) ==> play(
            reload,
            relation,
            rows,
            outcomes,
        ).0.phase is Done,
    decreases outcomes.len(),
{
    if outcomes.len() > 0 && statement_of(reload) is Some {
        lemma_step(reload, relation, prior, rows, outcomes[0]);
        lemma_play(
            after(reload, outcomes[0]),
            effect(relation, statement_of(reload)->0, rows, outcomes[0]),
            prior,
            rows,
            outcomes.drop_first(),
        );
    }
}

/// A reload is all or nothing. However its statements end, the committed
/// rows are the prior ones until the reload has ended with a commit, and
/// from then on they are the new rows, in their order. A reload that has
/// ended leaves no transaction open, and it ends after as many statements
/// as there are rows, and three more, at the latest.
pub proof fn lemma_reload_atomic<R>(
    total: usize,
    size: usize,
    prior: Seq<R>,
    rows: Seq<R>,
    outcomes: Seq<bool>,
)
    requires
        size > 0,
        rows.len() == total,
    ensures
        ({
            let begun = Reload { total, size, phase: Phase::Begin };
            let stored = Relation { committed: prior, pending: None };
            let (ended, relation) = play(begun, stored, rows, outcomes);
            &&& ended.phase == Phase::Done(true) ==> relation.committed == rows
            &&& ended.phase != Phase::Done(true) ==> relation.committed == prior
            &&& ended.phase is Done ==> relation.pending is None
            &&& outcomes.len() >= total + 3 ==> ended.phase is Done
        }),
{
    let begun = Reload { total, size, phase: Phase::Begin };
    let stored = Relation { committed: prior, pending: None };
    lemma_play(begun, stored, prior, rows, outcomes);
}

/// A reload ends with a commit only if no statement has failed.
pub proof fn lemma_commit_needs_success(reload: Reload, succeeded: bool)
    ensures
        after(reload, succeeded).phase == Phase::Done(true) ==> reload.phase == Phase::Done(true)
            || (reload.phase == Phase::Commit && succeeded),
        !succeeded && !(reload.phase is Done) ==> after(reload, succeeded).phase == Phase::Rollback
            || after(reload, succeeded).phase == Phase::Done(false),
{
}

impl Reload {
    /// The reload of `total` rows in batches of `size` rows, before its
    /// first statement.
    pub fn start(total: usize, size: usize) -> (reload: Reload)
        requires
            size > 0,
        ensures
            reload == (Reload { total, size, phase: Phase::Begin }),
    {
        Reload { total, size, phase: Phase::Begin }
    }

    fn end_of(&self, start: usize) -> (end: usize)
        ensures
            end == batch_end(start as int, self.size as int, self.total as int),
            end <= self.total || end == start,
    {
        if start >= self.total || self.size >= self.total - start {
            self.total
        } else {
            start + self.size
        }
    }

    /// The statement that is executed next; none once the reload has ended.
    pub fn statement(&self) -> (next: Option<Statement>)
        ensures
            next == statement_of(*self),
    {
        match self.phase {
            Phase::Begin => Some(Statement::Begin),
            Phase::Clear => Some(Statement::Clear),
            Phase::Insert(start) => Some(Statement::Insert(Batch { start, end: self.end_of(start) })),
            Phase::Commit => Some(Statement::Commit),
            Phase::Rollback => Some(Statement::Rollback),
            Phase::Done(_) => None,
        }
    }

    /// The reload after the statement that was due has succeeded or failed.
    pub fn advance(self, succeeded: bool) -> (next: Reload)
        ensures
            next == after(self, succeeded),
    {
        let phase = match self.phase {
            Phase::Begin => if succeeded {
                Phase::Clear
            } else {
                Phase::Done(false)
            },
            Phase::Clear => if !succeeded {
                Phase::Rollback
            } else if self.total == 0 {
                Phase::Commit
            } else {
                Phase::Insert(0)
            },
            Phase::Insert(start) => {
                let end = self.end_of(start);
                if !succeeded {
                    Phase::Rollback
                } else if end >= self.total {
                    Phase::Commit
                } else {
                    Phase::Insert(end)
                }
            },
            Phase::Commit => Phase::Done(succeeded),
            Phase::Rollback => Phase::Done(false),
            Phase::Done(committed) => Phase::Done(committed),
        };
        Reload { total: self.total, size: self.size, phase }
    }

    /// How the reload has ended: `Some(true)` with the new rows committed,
    /// `Some(false)` without; `None` while it goes on.
    pub fn outcome(&self) -> (ended: Option<bool>)
        ensures
            ended == match self.phase {
                Phase::Done(committed) => Some(committed),
                _ => None::<bool>,
            },
    {
        match self.phase {
            Phase::Done(committed) => Some(committed),
            _ => None,
        }
    }
}

} // verus!
