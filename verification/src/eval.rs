//! Evaluation of a parsed directive: the access-control gate.
//!
//! Evaluating an `OPTION` directive requires at least database-level
//! privilege. A denial short-circuits evaluation: no toggle is handed
//! on. On success the evaluator's own observable result is the neutral
//! value; applying `(name, what)` to the runtime flag belongs to the
//! surrounding runtime, not to this core.

use vstd::prelude::*;
use crate::statement::OptionStatement;

verus! {

/// Privilege tiers of an execution context, from none to root, ordered
/// by [`Level::spec_rank`].
#[derive(Clone, Copy, Debug, PartialEq, Eq, Structural)]
pub enum Level {
    /// No privilege.
    No,
    /// Database-level privilege.
    Db,
    /// Namespace-level privilege.
    Ns,
    /// Root (key-value store) privilege.
    Kv,
}

impl Level {
    /// Position of the tier in the privilege order.
    pub open spec fn spec_rank(self) -> int {
        match self {
            Level::No => 0,
            Level::Db => 1,
            Level::Ns => 2,
            Level::Kv => 3,
        }
    }

    /// A context at this tier may perform an action gated at `required`.
    pub open spec fn permits(self, required: Level) -> bool {
        self.spec_rank() >= required.spec_rank()
    }

    /// Executable form of [`Level::spec_rank`].
    pub fn rank(&self) -> (r: u8)
        ensures
            r as int == self.spec_rank(),
    {
        match self {
            Level::No => 0,
            Level::Db => 1,
            Level::Ns => 2,
            Level::Kv => 3,
        }
    }

    /// Executable form of [`Level::permits`].
    pub fn at_least(&self, required: Level) -> (r: bool)
        ensures
            r == self.permits(required),
    {
        self.rank() >= required.rank()
    }
}

/// What the evaluator sees of the surrounding execution context: the
/// acting principal's privilege tier.
#[derive(Clone, Copy, Debug, PartialEq, Eq, Structural)]
pub struct ExecutionContext {
    pub level: Level,
}

/// The evaluator's observable result on success: the neutral value.
#[derive(Clone, Copy, Debug, PartialEq, Eq, Structural)]
pub enum Value {
    Empty,
}

/// The acting principal lacks the required privilege tier. Propagated
/// unchanged to the statement executor; deterministic in the context,
/// so retrying without changing inputs cannot succeed.
#[derive(Clone, Copy, Debug, PartialEq, Eq, Structural)]
pub struct AuthError {
    /// The tier the directive is gated at.
    pub required: Level,
    /// The tier the context actually holds.
    pub actual: Level,
}

impl OptionStatement {
    /// Evaluate the directive under `ctx`.
    ///
    /// Returns the neutral value exactly when the context holds at
    /// least database-level privilege; a context below that tier is
    /// denied, and no toggle is produced.
    pub fn compute(&self, ctx: &ExecutionContext) -> (r: Result<Value, AuthError>)
        ensures
            ctx.level.permits(Level::Db) ==> r == Ok::<Value, AuthError>(Value::Empty),
            !ctx.level.permits(Level::Db) ==> r == Err::<Value, AuthError>(
                AuthError { required: Level::Db, actual: ctx.level },
            ),
    {
        if ctx.level.at_least(Level::Db) {
            Ok(Value::Empty)
        } else {
            Err(AuthError { required: Level::Db, actual: ctx.level })
        }
    }
}

} // verus!
