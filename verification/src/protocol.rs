//! The insert protocol: how one file's two rows reach the store together or
//! not at all.
//!
//! An insert is a short conversation with the engine: open a transaction,
//! write the path, write the vector under the row identity the path was
//! given, commit. Any statement may fail. `InsertStep` says where the
//! conversation stands and `InsertStep::advance` what comes next, given the
//! engine's reply. `Engine` is a model of what the engine holds, and
//! `lemma_insert_is_atomic` shows that under this protocol a reader of the
//! store sees both rows of a file or neither.

use crate::sqlite::{Reply, BEGIN, COMMIT, INSERT_FILE, INSERT_VECTOR, ROLLBACK};
use vstd::prelude::*;
use vstd::string::*;

verus! {

/// What is said when the engine hands out a row identity that is not above
/// every identity handed out before.
pub const STALE_ROW: &'static str = "the engine gave a row identity that is not new";

/// Where an insert stands: the statement to run next, or how it ended.
#[derive(Debug, PartialEq, Eq)]
pub enum InsertStep {
    /// Open a transaction.
    Begin,
    /// Write the path; the engine assigns the row identity.
    WriteFile,
    /// Write the vector under the identity the path was given.
    WriteVector { row: i64 },
    /// Make both rows visible.
    Commit { row: i64 },
    /// Undo what was written; `cause` is what went wrong.
    Rollback { cause: String },
    /// Both rows are in the store under `row`.
    Stored { row: i64 },
    /// Nothing was stored; `cause` is what went wrong.
    Failed { cause: String },
}

/// An `InsertStep` in mathematical terms.
pub enum Phase {
    Begin,
    WriteFile,
    WriteVector { row: int },
    Commit { row: int },
    Rollback { cause: Seq<char> },
    Stored { row: int },
    Failed { cause: Seq<char> },
}

impl View for InsertStep {
    type V = Phase;

    open spec fn view(&self) -> Phase {
        match *self {
            InsertStep::Begin => Phase::Begin,
            InsertStep::WriteFile => Phase::WriteFile,
            InsertStep::WriteVector { row } => Phase::WriteVector { row: row as int },
            InsertStep::Commit { row } => Phase::Commit { row: row as int },
            InsertStep::Rollback { cause } => Phase::Rollback { cause: cause@ },
            InsertStep::Stored { row } => Phase::Stored { row: row as int },
            InsertStep::Failed { cause } => Phase::Failed { cause: cause@ },
        }
    }
}

impl Phase {
    /// Whether the insert has ended.
    pub open spec fn ended(self) -> bool {
        self is Stored || self is Failed
    }

    /// Whether the row identity that this phase carries, if it carries one,
    /// is above `newest`.
    pub open spec fn row_above(self, newest: int) -> bool {
        match self {
            Phase::WriteVector { row } => row > newest,
            Phase::Commit { row } => row > newest,
            Phase::Stored { row } => row > newest,
            _ => true,
        }
    }

    /// An upper bound on the statements still to run.
    pub open spec fn statements_left(self) -> nat {
        match self {
            Phase::Begin => 5,
            Phase::WriteFile => 4,
            Phase::WriteVector { .. } => 3,
            Phase::Commit { .. } => 2,
            Phase::Rollback { .. } => 1,
            Phase::Stored { .. } => 0,
            Phase::Failed { .. } => 0,
        }
    }

    /// The next phase, once the engine has answered the statement of this one.
    /// `newest` is the highest row identity the store has handed out.
    ///
    /// A failed `Begin` ends the insert at once: no transaction is open. Any
    /// later failure leads to `Rollback`, and so does a row identity that is
    /// not above `newest`. After `Rollback` the insert has failed with the
    /// cause that led there, whatever the engine answered to the rollback.
    pub open spec fn after(self, reply: Reply, newest: int) -> Phase {
        match self {
            Phase::Begin => match reply {
                Ok(_) => Phase::WriteFile,
                Err(failure) => Phase::Failed { cause: failure.message@ },
            },
            Phase::WriteFile => match reply {
                Ok(row) => if row > newest {
                    Phase::WriteVector { row: row as int }
                } else {
                    Phase::Rollback { cause: STALE_ROW@ }
                },
                Err(failure) => Phase::Rollback { cause: failure.message@ },
            },
            Phase::WriteVector { row } => match reply {
                Ok(_) => Phase::Commit { row },
                Err(failure) => Phase::Rollback { cause: failure.message@ },
            },
            Phase::Commit { row } => match reply {
                Ok(_) => Phase::Stored { row },
                Err(failure) => Phase::Rollback { cause: failure.message@ },
            },
            Phase::Rollback { cause } => Phase::Failed { cause },
            Phase::Stored { row } => Phase::Stored { row },
            Phase::Failed { cause } => Phase::Failed { cause },
        }
    }
}

/// The statement that is run in each phase of an insert; none once the
/// insert has ended.
pub open spec fn statement_text(phase: Phase) -> Seq<char> {
    match phase {
        Phase::Begin => BEGIN@,
        Phase::WriteFile => INSERT_FILE@,
        Phase::WriteVector { .. } => INSERT_VECTOR@,
        Phase::Commit { .. } => COMMIT@,
        Phase::Rollback { .. } => ROLLBACK@,
        Phase::Stored { .. } => Seq::empty(),
        Phase::Failed { .. } => Seq::empty(),
    }
}

impl InsertStep {
    /// The statement to run in this step.
    pub fn statement(&self) -> (sql: &'static str)
        requires
            !self@.ended(),
        ensures
            sql@ == statement_text(self@),
    {
        match self {
            InsertStep::Begin => BEGIN,
            InsertStep::WriteFile => INSERT_FILE,
            InsertStep::WriteVector { .. } => INSERT_VECTOR,
            InsertStep::Commit { .. } => COMMIT,
            InsertStep::Rollback { .. } => ROLLBACK,
            _ => unreached(),
        }
    }

    /// Whether the insert has ended.
    pub fn ended(&self) -> (done: bool)
        ensures
            done == self@.ended(),
    {
        match self {
            InsertStep::Stored { .. } => true,
            InsertStep::Failed { .. } => true,
            _ => false,
        }
    }

    /// The next step, once the engine has answered the statement of this one.
    pub fn advance(self, reply: Reply, newest: i64) -> (next: InsertStep)
        ensures
            next@ == self@.after(reply, newest as int),
            !self@.ended() ==> next@.statements_left() < self@.statements_left(),
            self@.row_above(newest as int) ==> next@.row_above(newest as int),
    {
        match self {
            InsertStep::Begin => match reply {
                Ok(_) => InsertStep::WriteFile,
                Err(failure) => InsertStep::Failed { cause: failure.message },
            },
            InsertStep::WriteFile => match reply {
                Ok(row) => if row > newest {
                    InsertStep::WriteVector { row }
                } else {
                    InsertStep::Rollback { cause: STALE_ROW.to_owned() }
                },
                Err(failure) => InsertStep::Rollback { cause: failure.message },
            },
            InsertStep::WriteVector { row } => match reply {
                Ok(_) => InsertStep::Commit { row },
                Err(failure) => InsertStep::Rollback { cause: failure.message },
            },
            InsertStep::Commit { row } => match reply {
                Ok(_) => InsertStep::Stored { row },
                Err(failure) => InsertStep::Rollback { cause: failure.message },
            },
            InsertStep::Rollback { cause } => InsertStep::Failed { cause },
            InsertStep::Stored { row } => InsertStep::Stored { row },
            InsertStep::Failed { cause } => InsertStep::Failed { cause },
        }
    }
}

/// The two tables, keyed by row identity.
pub struct Tables {
    /// Row identity to file path.
    pub files: Map<int, Seq<char>>,
    /// Row identity to the bytes of the embedding.
    pub vectors: Map<int, Seq<u8>>,
}

impl Tables {
    /// No row in either table.
    pub open spec fn empty() -> Tables {
        Tables { files: Map::empty(), vectors: Map::empty() }
    }

    /// Every row identity has a path if and only if it has a vector.
    pub open spec fn paired(self) -> bool {
        self.files.dom() =~= self.vectors.dom()
    }

    /// Every row identity in either table lies above zero and not above
    /// `newest`.
    pub open spec fn within(self, newest: int) -> bool {
        forall|row: int|
            self.files.dom().contains(row) || self.vectors.dom().contains(row) ==> 0 < row
                <= newest
    }

    /// These tables with one file more.
    pub open spec fn with_file(self, row: int, path: Seq<char>, blob: Seq<u8>) -> Tables {
        Tables { files: self.files.insert(row, path), vectors: self.vectors.insert(row, blob) }
    }
}

/// What the engine holds: the tables every reader sees, and, while a
/// transaction is open, the tables as that transaction has changed them.
pub struct Engine {
    pub committed: Tables,
    pub pending: Option<Tables>,
}

impl Engine {
    /// The engine once it has answered `reply` to the statement of `phase`,
    /// in an insert of `path` with the vector bytes `blob`.
    ///
    /// A statement that failed changed nothing. One that succeeded did what
    /// it says: `Begin` opens a transaction on the committed tables, the two
    /// writes change the open transaction, `Commit` makes its tables the
    /// committed ones, `Rollback` drops it.
    pub open spec fn after(self, phase: Phase, reply: Reply, path: Seq<char>, blob: Seq<u8>) -> Engine {
        match (phase, reply, self.pending) {
            (Phase::Begin, Ok(_), None) => Engine { pending: Some(self.committed), ..self },
            (Phase::WriteFile, Ok(row), Some(tables)) => Engine {
                pending: Some(Tables { files: tables.files.insert(row as int, path), ..tables }),
                ..self
            },
            (Phase::WriteVector { row }, Ok(_), Some(tables)) => Engine {
                pending: Some(Tables { vectors: tables.vectors.insert(row, blob), ..tables }),
                ..self
            },
            (Phase::Commit { .. }, Ok(_), Some(tables)) => Engine { committed: tables, pending: None },
            (Phase::Rollback { .. }, Ok(_), _) => Engine { pending: None, ..self },
            _ => self,
        }
    }
}

/// The phase an insert has reached after the engine's first replies.
pub open spec fn phase_reached(newest: int, replies: Seq<Reply>) -> Phase
    decreases replies.len(),
{
    if replies.len() == 0 {
        Phase::Begin
    } else {
        phase_reached(newest, replies.drop_last()).after(replies.last(), newest)
    }
}

/// The engine after it has given these replies to an insert of `path` and
/// `blob`, one reply to the statement of each phase the insert went through.
pub open spec fn engine_reached(
    engine: Engine,
    newest: int,
    replies: Seq<Reply>,
    path: Seq<char>,
    blob: Seq<u8>,
) -> Engine
    decreases replies.len(),
{
    if replies.len() == 0 {
        engine
    } else {
        engine_reached(engine, newest, replies.drop_last(), path, blob).after(
            phase_reached(newest, replies.drop_last()),
            replies.last(),
            path,
            blob,
        )
    }
}

/// What the engine holds at each phase of an insert that began on `start`.
spec fn in_step(engine: Engine, phase: Phase, start: Tables, newest: int, path: Seq<char>, blob: Seq<u8>) -> bool {
    match phase {
        Phase::Begin => engine.committed == start && engine.pending is None,
        Phase::WriteFile => engine.committed == start && engine.pending == Some(start),
        Phase::WriteVector { row } => {
            &&& row > newest
            &&& engine.committed == start
            &&& engine.pending == Some(Tables { files: start.files.insert(row, path), ..start })
        },
        Phase::Commit { row } => {
            &&& row > newest
            &&& engine.committed == start
            &&& engine.pending == Some(start.with_file(row, path, blob))
        },
        Phase::Rollback { .. } => engine.committed == start,
        Phase::Stored { row } => {
            &&& row > newest
            &&& engine.committed == start.with_file(row, path, blob)
            &&& engine.pending is None
        },
        Phase::Failed { .. } => engine.committed == start,
    }
}

proof fn lemma_in_step(engine: Engine, newest: int, replies: Seq<Reply>, path: Seq<char>, blob: Seq<u8>)
    requires
        engine.pending is None,
    ensures
        in_step(
            engine_reached(engine, newest, replies, path, blob),
            phase_reached(newest, replies),
            engine.committed,
            newest,
            path,
            blob,
        ),
    decreases replies.len(),
{
    if replies.len() > 0 {
        lemma_in_step(engine, newest, replies.drop_last(), path, blob);
    }
}

/// An insert is atomic. Take an engine with no transaction open, and any
/// replies it may give to an insert of `path` and `blob`, failures at any
/// statement among them. If the insert ends as `Stored`, the committed
/// tables are the old ones with exactly this file more, under a row identity
/// above every earlier one. At every other point, and however else the
/// insert ends, the committed tables are the old ones: no path without its
/// vector, no vector without its path. Tables that were paired stay paired.
pub proof fn lemma_insert_is_atomic(
    engine: Engine,
    newest: int,
    replies: Seq<Reply>,
    path: Seq<char>,
    blob: Seq<u8>,
)
    requires
        engine.pending is None,
    ensures
        phase_reached(newest, replies) matches Phase::Stored { row } ==> {
            &&& row > newest
            &&& engine_reached(engine, newest, replies, path, blob).committed
                == engine.committed.with_file(row, path, blob)
            &&& engine_reached(engine, newest, replies, path, blob).pending is None
        },
        !(phase_reached(newest, replies) is Stored) ==> engine_reached(
            engine,
            newest,
            replies,
            path,
            blob,
        ).committed == engine.committed,
        engine.committed.paired() ==> engine_reached(
            engine,
            newest,
            replies,
            path,
            blob,
        ).committed.paired(),
{
    lemma_in_step(engine, newest, replies, path, blob);
}

/// The highest row identity a store remembers bounds the rows of its tables,
/// and an insert keeps it so. Take tables whose row identities all lie above
/// zero and not above `newest`, which is not negative. An insert that ends as `Stored` used a row
/// identity that neither table held, and the row identities then lie not
/// above that one; after any other insert they lie where they lay. Where
/// `newest` is zero the tables hold no row at all.
pub proof fn lemma_newest_row_bounds_the_tables(
    engine: Engine,
    newest: int,
    replies: Seq<Reply>,
    path: Seq<char>,
    blob: Seq<u8>,
)
    requires
        engine.pending is None,
        newest >= 0,
        engine.committed.within(newest),
    ensures
        newest == 0 ==> engine.committed == Tables::empty(),
        phase_reached(newest, replies) matches Phase::Stored { row } ==> {
            &&& !engine.committed.files.dom().contains(row)
            &&& !engine.committed.vectors.dom().contains(row)
            &&& engine_reached(engine, newest, replies, path, blob).committed.within(row)
        },
        !(phase_reached(newest, replies) is Stored) ==> engine_reached(
            engine,
            newest,
            replies,
            path,
            blob,
        ).committed.within(newest),
{
    lemma_insert_is_atomic(engine, newest, replies, path, blob);
    if newest == 0 {
        assert(engine.committed.files =~= Map::<int, Seq<char>>::empty());
        assert(engine.committed.vectors =~= Map::<int, Seq<u8>>::empty());
    }
}

} // verus!
