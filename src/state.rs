use vstd::prelude::*;

verus! {

/// Status code returned by every fallible call of the native engine.
#[derive(Debug, Clone, Copy, PartialEq, Eq, Structural)]
pub enum DuckDBState {
    DuckDBSuccess,
    DuckDBError,
}

impl DuckDBState {
    /// Reads the two-valued status word of the native interface: zero is
    /// success, anything else an error.
    pub fn from_code(code: i32) -> (r: DuckDBState)
        ensures
            r == (if code == 0 {
                DuckDBState::DuckDBSuccess
            } else {
                DuckDBState::DuckDBError
            }),
    {
        if code == 0 {
            DuckDBState::DuckDBSuccess
        } else {
            DuckDBState::DuckDBError
        }
    }

    pub fn is_success(&self) -> (r: bool)
        ensures
            r <==> *self == DuckDBState::DuckDBSuccess,
    {
        match self {
            DuckDBState::DuckDBSuccess => true,
            DuckDBState::DuckDBError => false,
        }
    }

    /// Turns the status into a `Result` so that `?` can stop on failure.
    pub fn into_result(self) -> (r: Result<DuckDBState, DuckDBState>)
        ensures
            r == (if self == DuckDBState::DuckDBSuccess {
                Ok::<DuckDBState, DuckDBState>(self)
            } else {
                Err::<DuckDBState, DuckDBState>(self)
            }),
    {
        match self {
            DuckDBState::DuckDBSuccess => Ok(self),
            DuckDBState::DuckDBError => Err(self),
        }
    }
}

} // verus!
