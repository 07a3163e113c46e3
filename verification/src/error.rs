//! The error channel: every fallible operation of the layer reports a
//! human-readable message, taken from the engine where it supplied one.

use vstd::prelude::*;
use vstd::string::StringExecFns;

verus! {

/// A failure reported by the layer or by the engine underneath it.
#[derive(Debug)]
pub struct Error {
    message: String,
}

impl View for Error {
    type V = Seq<char>;

    closed spec fn view(&self) -> Seq<char> {
        self.message@
    }
}

/// The text reported when a path or a name holds a NUL byte.
pub open spec fn path_message() -> Seq<char> {
    "Failed to convert path to CString when opening DB."@
}

/// The text reported when the name of a column family holds a NUL byte.
pub open spec fn name_message() -> Seq<char> {
    "Failed to convert path to CString when opening rocksdb"@
}

/// The text reported when the engine hands back no connection.
pub open spec fn uninitialized_message() -> Seq<char> {
    "Could not initialize database."@
}

/// The text reported when the engine hands back a null family handle.
pub open spec fn null_family_message() -> Seq<char> {
    "Received null column family handle from DB."@
}

/// The text reported when read options could not be constructed.
pub open spec fn read_options_message() -> Seq<char> {
    "Unable to create RocksDB read options. This is a fairly trivial call, and its failure may be indicative of a mis-compiled or mis-loaded RocksDB library."@
}

/// The text that precedes the name of an unknown column family.
pub open spec fn invalid_family_prefix() -> Seq<char> {
    "Invalid column family: "@
}

/// The text reported when a column family handle is used that the
/// database does not, or no longer, know.
pub open spec fn stale_family_message() -> Seq<char> {
    "Invalid column family handle."@
}

/// The text that precedes the cause when the storage directory cannot be made.
pub open spec fn directory_prefix() -> Seq<char> {
    "Failed to create RocksDB directory: `"@
}

/// The text that follows the cause when the storage directory cannot be made.
pub open spec fn directory_suffix() -> Seq<char> {
    "`."@
}

/// The text reported when the engine hands back no point-in-time marker.
pub open spec fn no_snapshot_message() -> Seq<char> {
    "Could not create snapshot."@
}

/// The text reported when a transaction is used that the engine could not
/// begin.
pub open spec fn unbegun_message() -> Seq<char> {
    "Could not begin transaction."@
}

/// The text reported when a finished transaction is used again.
pub open spec fn inactive_message() -> Seq<char> {
    "Transaction is not active."@
}

impl Error {
    /// An error carrying `message` verbatim.
    pub fn new(message: String) -> (e: Error)
        ensures
            e@ == message@,
    {
        Error { message }
    }

    /// The message, by value.
    pub fn into_string(self) -> (s: String)
        ensures
            s@ == self@,
    {
        self.message
    }

    /// A copy of the message.
    pub fn to_string(&self) -> (s: String)
        ensures
            s@ == self@,
    {
        self.message.clone()
    }

    /// The message, borrowed.
    pub fn as_str(&self) -> (s: &str)
        ensures
            s@ == self@,
    {
        self.message.as_str()
    }

    /// A path or a name cannot be written in the engine's string encoding.
    pub fn path() -> (e: Error)
        ensures
            e@ == path_message(),
    {
        Error::new(String::from_str("Failed to convert path to CString when opening DB."))
    }

    /// The name of a column family cannot be written in the engine's
    /// string encoding.
    pub fn name() -> (e: Error)
        ensures
            e@ == name_message(),
    {
        Error::new(String::from_str("Failed to convert path to CString when opening rocksdb"))
    }

    /// The engine returned no connection.
    pub fn uninitialized() -> (e: Error)
        ensures
            e@ == uninitialized_message(),
    {
        Error::new(String::from_str("Could not initialize database."))
    }

    /// The engine returned a null handle for a requested family.
    pub fn null_family() -> (e: Error)
        ensures
            e@ == null_family_message(),
    {
        Error::new(String::from_str("Received null column family handle from DB."))
    }

    /// Read options could not be constructed.
    pub fn read_options() -> (e: Error)
        ensures
            e@ == read_options_message(),
    {
        Error::new(
            String::from_str(
                "Unable to create RocksDB read options. This is a fairly trivial call, and its failure may be indicative of a mis-compiled or mis-loaded RocksDB library.",
            ),
        )
    }

    /// No family of that name is registered.
    pub fn invalid_family(name: &str) -> (e: Error)
        ensures
            e@ == invalid_family_prefix() + name@,
    {
        Error::new(String::from_str("Invalid column family: ").concat(name))
    }

    /// A column family handle was used that the database does not, or no
    /// longer, know.
    pub fn stale_family() -> (e: Error)
        ensures
            e@ == stale_family_message(),
    {
        Error::new(String::from_str("Invalid column family handle."))
    }

    /// The storage directory could not be created; `cause` describes why.
    pub fn directory(cause: &str) -> (e: Error)
        ensures
            e@ == directory_prefix() + cause@ + directory_suffix(),
    {
        Error::new(
            String::from_str("Failed to create RocksDB directory: `").concat(cause).concat("`."),
        )
    }

    /// The engine returned no point-in-time marker.
    pub fn no_snapshot() -> (e: Error)
        ensures
            e@ == no_snapshot_message(),
    {
        Error::new(String::from_str("Could not create snapshot."))
    }

    /// A transaction was used that the engine could not begin.
    pub fn unbegun() -> (e: Error)
        ensures
            e@ == unbegun_message(),
    {
        Error::new(String::from_str("Could not begin transaction."))
    }

    /// A transaction was used after it had been committed or rolled back.
    pub fn inactive() -> (e: Error)
        ensures
            e@ == inactive_message(),
    {
        Error::new(String::from_str("Transaction is not active."))
    }
}

/// Turns the engine's failure signal into a typed result: no message means
/// success, a message becomes the error, verbatim.
pub fn check(signal: Option<String>) -> (r: Result<(), Error>)
    ensures
        signal is None ==> r is Ok,
        signal is Some ==> r is Err && r->Err_0@ == signal->Some_0@,
{
    match signal {
        None => Ok(()),
        Some(message) => Err(Error::new(message)),
    }
}

} // verus!
