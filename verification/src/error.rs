//! The errors a command ends with, their machine-readable codes and the
//! process exit codes that go with them.
use vstd::prelude::*;

verus! {

/// An error that ends a command.
#[derive(Debug, Clone, PartialEq, Eq)]
pub enum CliError {
    /// The arguments or local input were rejected.
    BadInput(String),
    /// The API key is missing or was refused.
    Auth(String),
    /// The API answered with an error.
    Server(String),
    /// The API could not be reached.
    Network(String),
}

/// The code that the JSON error envelope carries for `e`.
pub open spec fn error_code(e: CliError) -> Seq<char> {
    match e {
        CliError::BadInput(_) => "BAD_INPUT"@,
        CliError::Auth(_) => "AUTH_ERROR"@,
        CliError::Server(_) => "SERVER_ERROR"@,
        CliError::Network(_) => "NETWORK_ERROR"@,
    }
}

/// The process exit code for `e`.
pub open spec fn error_exit_code(e: CliError) -> u8 {
    match e {
        CliError::BadInput(_) => 1,
        CliError::Auth(_) => 2,
        CliError::Server(_) => 3,
        CliError::Network(_) => 4,
    }
}

/// The human-readable message of `e`.
pub open spec fn error_message(e: CliError) -> Seq<char> {
    match e {
        CliError::BadInput(m) => m@,
        CliError::Auth(m) => m@,
        CliError::Server(m) => m@,
        CliError::Network(m) => m@,
    }
}

/// A `BadInput` error whose message is `m`.
pub open spec fn is_bad_input(e: CliError, m: Seq<char>) -> bool {
    e matches CliError::BadInput(s) && s@ == m
}

impl CliError {
    /// A `BadInput` error with message `m`.
    pub fn bad_input(m: &str) -> (e: Self)
        ensures
            is_bad_input(e, m@),
    {
        CliError::BadInput(String::from_str(m))
    }

    /// The code of the JSON error envelope.
    pub fn code(&self) -> (r: &'static str)
        ensures
            r@ == error_code(*self),
    {
        match self {
            CliError::BadInput(_) => "BAD_INPUT",
            CliError::Auth(_) => "AUTH_ERROR",
            CliError::Server(_) => "SERVER_ERROR",
            CliError::Network(_) => "NETWORK_ERROR",
        }
    }

    /// The process exit code.
    pub fn exit_code(&self) -> (r: u8)
        ensures
            r == error_exit_code(*self),
            r > 0,
    {
        match self {
            CliError::BadInput(_) => 1,
            CliError::Auth(_) => 2,
            CliError::Server(_) => 3,
            CliError::Network(_) => 4,
        }
    }

    /// The human-readable message.
    pub fn message(&self) -> (r: &String)
        ensures
            r@ == error_message(*self),
    {
        match self {
            CliError::BadInput(m) => m,
            CliError::Auth(m) => m,
            CliError::Server(m) => m,
            CliError::Network(m) => m,
        }
    }
}

/// Law: every error ends the process with a non-zero exit code, and the
/// exit code tells the kind of error: two errors share an exit code exactly
/// when they share an envelope code.
pub proof fn law_exit_codes(a: CliError, b: CliError)
    ensures
        1 <= error_exit_code(a) <= 4,
        (error_exit_code(a) == error_exit_code(b)) <==> (error_code(a) == error_code(b)),
{
    reveal_strlit("BAD_INPUT");
    reveal_strlit("AUTH_ERROR");
    reveal_strlit("SERVER_ERROR");
    reveal_strlit("NETWORK_ERROR");
    assert("BAD_INPUT"@[0] == 'B');
    assert("AUTH_ERROR"@[0] == 'A');
    assert("SERVER_ERROR"@[0] == 'S');
    assert("NETWORK_ERROR"@[0] == 'N');
    if error_code(a) == error_code(b) {
        assert(error_code(a)[0] == error_code(b)[0]);
    }
}

} // verus!
