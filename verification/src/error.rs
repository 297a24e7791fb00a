//! The failures this crate reports.

use vstd::prelude::*;
use vstd::string::*;

verus! {

/// Every way an invocation can fail. Each kind ends the run.
#[derive(Debug, PartialEq, Eq)]
pub enum Error {
    /// The host is neither a Unix nor a Windows system.
    PlatformUnsupported,
    /// A Unix host without a home directory.
    HomeNotFound,
    /// A configuration file is already in place.
    ConfigAlreadyExists,
    /// No readable configuration file at the path.
    ConfigMissing,
    /// The configuration file does not follow the format.
    ConfigMalformed,
    /// The configuration file has no environment of the requested name.
    EnvironmentNotFound,
    /// Neither the command line nor the configuration file gave an endpoint.
    NoEndpointResolved,
    /// The named command was invoked without any of its flags.
    NoFlagSupplied(String),
    /// The named command was invoked with flags that exclude each other.
    ConflictingFlags(String),
    /// The agent did not answer the reachability probe.
    AgentUnreachable,
}

/// The text of an error's kind.
pub open spec fn fixed_message(error: Error) -> Seq<char> {
    match error {
        Error::PlatformUnsupported => "Unsupported platform: the host is neither Unix nor Windows."@,
        Error::HomeNotFound => "Unable to find the home directory."@,
        Error::ConfigAlreadyExists => "A configuration file already exists; it was left untouched."@,
        Error::ConfigMissing => "No configuration file could be read at the configuration path."@,
        Error::ConfigMalformed => "The configuration file is malformed."@,
        Error::EnvironmentNotFound => "The configuration file does not contain the requested environment."@,
        Error::NoEndpointResolved => "No endpoint supplied: pass --endpoint or add one to the configuration file."@,
        Error::AgentUnreachable => "The agent could not be reached at the configured endpoint."@,
        Error::NoFlagSupplied(_) => "No flag supplied for the command: "@,
        Error::ConflictingFlags(_) => "Mutually exclusive flags supplied for the command: "@,
    }
}

/// The one line shown to the user for `error`: the text of its kind,
/// followed by the command's name where the error carries one.
pub open spec fn message_of(error: Error) -> Seq<char> {
    match error {
        Error::NoFlagSupplied(command) => fixed_message(error) + command@,
        Error::ConflictingFlags(command) => fixed_message(error) + command@,
        _ => fixed_message(error),
    }
}

impl Clone for Error {
    fn clone(&self) -> (copy: Error)
        ensures
            copy == *self,
    {
        match self {
            Error::PlatformUnsupported => Error::PlatformUnsupported,
            Error::HomeNotFound => Error::HomeNotFound,
            Error::ConfigAlreadyExists => Error::ConfigAlreadyExists,
            Error::ConfigMissing => Error::ConfigMissing,
            Error::ConfigMalformed => Error::ConfigMalformed,
            Error::EnvironmentNotFound => Error::EnvironmentNotFound,
            Error::NoEndpointResolved => Error::NoEndpointResolved,
            Error::NoFlagSupplied(command) => Error::NoFlagSupplied(command.clone()),
            Error::ConflictingFlags(command) => Error::ConflictingFlags(command.clone()),
            Error::AgentUnreachable => Error::AgentUnreachable,
        }
    }
}

impl Error {
    /// The single human-readable line for this error.
    pub fn message(&self) -> (text: String)
        ensures
            text@ == message_of(*self),
    {
        match self {
            Error::PlatformUnsupported => String::from_str(
                "Unsupported platform: the host is neither Unix nor Windows.",
            ),
            Error::HomeNotFound => String::from_str("Unable to find the home directory."),
            Error::ConfigAlreadyExists => String::from_str(
                "A configuration file already exists; it was left untouched.",
            ),
            Error::ConfigMissing => String::from_str(
                "No configuration file could be read at the configuration path.",
            ),
            Error::ConfigMalformed => String::from_str("The configuration file is malformed."),
            Error::EnvironmentNotFound => String::from_str(
                "The configuration file does not contain the requested environment.",
            ),
            Error::NoEndpointResolved => String::from_str(
                "No endpoint supplied: pass --endpoint or add one to the configuration file.",
            ),
            Error::AgentUnreachable => String::from_str(
                "The agent could not be reached at the configured endpoint.",
            ),
            Error::NoFlagSupplied(command) => String::from_str(
                "No flag supplied for the command: ",
            ).concat(command.as_str()),
            Error::ConflictingFlags(command) => String::from_str(
                "Mutually exclusive flags supplied for the command: ",
            ).concat(command.as_str()),
        }
    }

    /// The status with which the process ends on this error; never zero.
    pub fn exit_code(&self) -> (code: i32)
        ensures
            code == 1,
    {
        1
    }
}

/// Whether two errors are of one kind and, where they carry a command's
/// name, carry the same one.
pub open spec fn same_error(one: Error, other: Error) -> bool {
    match (one, other) {
        (Error::NoFlagSupplied(a), Error::NoFlagSupplied(b)) => a@ == b@,
        (Error::ConflictingFlags(a), Error::ConflictingFlags(b)) => a@ == b@,
        _ => one == other,
    }
}

/// Every kind of error has a message of its own: two errors with one
/// message are the same error.
pub proof fn lemma_messages_tell_errors_apart(one: Error, other: Error)
    requires
        message_of(one) == message_of(other),
    ensures
        same_error(one, other),
{
    reveal_strlit("Unsupported platform: the host is neither Unix nor Windows.");
    reveal_strlit("Unable to find the home directory.");
    reveal_strlit("A configuration file already exists; it was left untouched.");
    reveal_strlit("No configuration file could be read at the configuration path.");
    reveal_strlit("The configuration file is malformed.");
    reveal_strlit("The configuration file does not contain the requested environment.");
    reveal_strlit("No endpoint supplied: pass --endpoint or add one to the configuration file.");
    reveal_strlit("The agent could not be reached at the configured endpoint.");
    reveal_strlit("No flag supplied for the command: ");
    reveal_strlit("Mutually exclusive flags supplied for the command: ");
    let a = message_of(one);
    let b = message_of(other);
    // The texts of two kinds differ in one of these places.
    assert(a[0] == b[0] && a[2] == b[2] && a[3] == b[3] && a[4] == b[4] && a[23] == b[23]);
    match (one, other) {
        (Error::NoFlagSupplied(x), Error::NoFlagSupplied(y)) => {
            let skipped = fixed_message(one).len() as int;
            assert(x@ == a.skip(skipped));
            assert(y@ == b.skip(skipped));
        },
        (Error::ConflictingFlags(x), Error::ConflictingFlags(y)) => {
            let skipped = fixed_message(one).len() as int;
            assert(x@ == a.skip(skipped));
            assert(y@ == b.skip(skipped));
        },
        _ => {},
    }
}

} // verus!
