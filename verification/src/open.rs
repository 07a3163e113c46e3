//! Opening a store: what is asked of the engine, and what becomes of its
//! answer. The three kinds of database share both halves.

use vstd::prelude::*;
use vstd::string::{StringExecFns, StringSliceAdditionalSpecFns};
use crate::column_family::{same_text, ColumnFamily, ColumnFamilyRegistry};
use crate::error::{
    directory_prefix, directory_suffix, null_family_message, path_message, uninitialized_message, Error,
};
use crate::options::{Options, TransactionDBOptions};
use crate::utils::{encodable, is_encodable, to_cpath};

verus! {

/// The name of the family that every store has.
pub open spec fn default_family() -> Seq<char> {
    "default"@
}

/// The texts of a list of names.
pub open spec fn names_of(names: Seq<String>) -> Seq<Seq<char>> {
    Seq::new(names.len(), |i: int| names[i]@)
}

/// The texts of a list of borrowed names.
pub open spec fn texts_of(names: Seq<&str>) -> Seq<Seq<char>> {
    Seq::new(names.len(), |i: int| names[i]@)
}

/// Every name can be written in the engine's string encoding.
pub open spec fn all_encodable(names: Seq<&str>) -> bool {
    forall|i: int| 0 <= i < names.len() ==> encodable(#[trigger] names[i])
}

/// The families that are opened when `asked` are asked for: none for a
/// plain open, else those asked for, in order, followed by the default
/// family unless it is among them.
pub open spec fn families_opened(asked: Seq<Seq<char>>) -> Seq<Seq<char>> {
    if asked.len() == 0 || asked.contains(default_family()) {
        asked
    } else {
        asked.push(default_family())
    }
}

/// What is asked of the engine to open a store.
#[derive(Debug)]
pub struct OpenRequest {
    /// The path of the store, as the caller gave it.
    pub directory: String,
    /// The same path in the engine's string encoding.
    pub path: Vec<u8>,
    /// The column families to open, in order; none for a plain open.
    pub families: Vec<String>,
    /// The options to open with.
    pub options: Options,
    /// Whether the directory is to be created first, with its parents.
    pub create_directory: bool,
    /// The lock options, where the store is opened for pessimistic
    /// transactions.
    pub locks: Option<TransactionDBOptions>,
}

/// The engine's answer to an [`OpenRequest`].
#[derive(Debug)]
pub enum Opened {
    /// The directory could not be created; the text describes the cause.
    NoDirectory(String),
    /// The engine reported a failure, with its message.
    Failed(String),
    /// The engine returned a connection and one handle for each family
    /// asked for, in order. Zero stands for a null handle.
    Connected { db: usize, families: Vec<usize> },
}

/// An open store: its connection, its families and its path.
#[derive(Debug)]
pub struct Connection {
    pub db: usize,
    pub families: ColumnFamilyRegistry,
    pub path: String,
}

/// The registry that results from registering each name with the handle at
/// the same place, first to last: of a name given twice the later handle
/// stays.
pub open spec fn registered(names: Seq<String>, handles: Seq<usize>) -> Map<Seq<char>, ColumnFamily>
    decreases names.len(),
{
    if names.len() == 0 || handles.len() != names.len() {
        Map::empty()
    } else {
        registered(names.drop_last(), handles.drop_last()).insert(
            names.last()@,
            ColumnFamily { inner: handles.last() },
        )
    }
}

/// Why an answer of the engine does not open the store, if it does not:
/// the directory or the engine failed, a family handle is missing or null,
/// or the connection itself is null, in that order.
pub open spec fn refusal(families: Seq<String>, outcome: Opened) -> Option<Seq<char>> {
    match outcome {
        Opened::NoDirectory(cause) => Some(directory_prefix() + cause@ + directory_suffix()),
        Opened::Failed(message) => Some(message@),
        Opened::Connected { db, families: handles } => if handles@.len() != families.len()
            || handles@.contains(0usize) {
            Some(null_family_message())
        } else if db == 0 {
            Some(uninitialized_message())
        } else {
            None
        },
    }
}

/// Decides which families to open for the families asked for.
fn families_to_open(cfs: &[&str]) -> (r: Vec<String>)
    ensures
        names_of(r@) == families_opened(texts_of(cfs@)),
{
    let ghost asked = texts_of(cfs@);
    let mut names: Vec<String> = Vec::new();
    let mut has_default = false;
    let mut i: usize = 0;
    while i < cfs.len()
        invariant
            i <= cfs.len(),
            asked == texts_of(cfs@),
            names_of(names@) =~= asked.take(i as int),
            has_default == asked.take(i as int).contains(default_family()),
        decreases cfs.len() - i,
    {
        let name: &str = cfs[i];
        let ghost before = asked.take(i as int);
        assert(asked.take(i + 1) =~= before.push(name@));
        if same_text(name, "default") {
            has_default = true;
            assert(asked.take(i + 1)[i as int] == default_family());
        } else {
            proof {
                let grown = asked.take(i + 1);
                if grown.contains(default_family()) {
                    let j = choose|j: int| 0 <= j < grown.len() && #[trigger] grown[j] == default_family();
                    assert(before[j] == default_family());
                }
                if before.contains(default_family()) {
                    let j = choose|j: int| 0 <= j < before.len() && #[trigger] before[j] == default_family();
                    assert(grown[j] == default_family());
                }
            }
        }
        names.push(String::from_str(name));
        i += 1;
    }
    assert(asked.take(cfs.len() as int) =~= asked);
    if cfs.len() > 0 && !has_default {
        names.push(String::from_str("default"));
        assert(names_of(names@) =~= asked.push(default_family()));
    }
    names
}

/// Decides whether every name can be written in the engine's encoding.
fn names_encodable(cfs: &[&str]) -> (r: bool)
    ensures
        r == all_encodable(cfs@),
{
    let mut i: usize = 0;
    while i < cfs.len()
        invariant
            i <= cfs.len(),
            forall|j: int| 0 <= j < i ==> encodable(#[trigger] cfs@[j]),
        decreases cfs.len() - i,
    {
        if !is_encodable(cfs[i]) {
            return false;
        }
        i += 1;
    }
    true
}

/// Decides whether one of the handles is null.
fn holds_null(handles: &Vec<usize>) -> (r: bool)
    ensures
        r == handles@.contains(0usize),
{
    let mut i: usize = 0;
    while i < handles.len()
        invariant
            i <= handles.len(),
            forall|j: int| 0 <= j < i ==> handles@[j] != 0,
        decreases handles.len() - i,
    {
        if handles[i] == 0 {
            assert(handles@[i as int] == 0usize);
            return true;
        }
        i += 1;
    }
    false
}

/// What to ask of the engine to open the store at `path` with the families
/// `cfs`. Nothing is asked when the path or a name holds a NUL byte.
pub fn plan(
    opts: &Options,
    path: &str,
    cfs: &[&str],
    create_directory: bool,
    locks: Option<TransactionDBOptions>,
) -> (r: Result<OpenRequest, Error>)
    ensures
        encodable(path) && all_encodable(cfs@) ==> {
            &&& r is Ok
            &&& r->Ok_0.directory@ == path@
            &&& r->Ok_0.path@ == path.spec_bytes().push(0u8)
            &&& names_of(r->Ok_0.families@) == families_opened(texts_of(cfs@))
            &&& r->Ok_0.options == *opts
            &&& r->Ok_0.create_directory == create_directory
            &&& r->Ok_0.locks == locks
        },
        !(encodable(path) && all_encodable(cfs@)) ==> r is Err && r->Err_0@ == path_message(),
{
    let encoded = match to_cpath(path) {
        Ok(encoded) => encoded,
        Err(e) => {
            return Err(e);
        },
    };
    if !names_encodable(cfs) {
        return Err(Error::path());
    }
    Ok(
        OpenRequest {
            directory: String::from_str(path),
            path: encoded,
            families: families_to_open(cfs),
            options: *opts,
            create_directory,
            locks,
        },
    )
}

/// Turns the engine's answer into an open store, or into the error that
/// the answer calls for. On an error nothing is registered.
pub fn connect(request: OpenRequest, outcome: Opened) -> (r: Result<Connection, Error>)
    ensures
        match refusal(request.families@, outcome) {
            Some(message) => r is Err && r->Err_0@ == message,
            None => {
                &&& r is Ok
                &&& r->Ok_0.db == outcome->db
                &&& r->Ok_0.db != 0
                &&& r->Ok_0.path@ == request.directory@
                &&& r->Ok_0.families@ == registered(request.families@, outcome->families@)
            },
        },
{
    match outcome {
        Opened::NoDirectory(cause) => Err(Error::directory(cause.as_str())),
        Opened::Failed(message) => Err(Error::new(message)),
        Opened::Connected { db, families: handles } => {
            let names = request.families;
            if handles.len() != names.len() {
                return Err(Error::null_family());
            }
            if holds_null(&handles) {
                return Err(Error::null_family());
            }
            if db == 0 {
                return Err(Error::uninitialized());
            }
            let mut registry = ColumnFamilyRegistry::new();
            let mut k: usize = 0;
            assert(registry@ =~= registered(names@.take(0), handles@.take(0)));
            while k < names.len()
                invariant
                    k <= names.len(),
                    names.len() == handles.len(),
                    registry@ == registered(names@.take(k as int), handles@.take(k as int)),
                decreases names.len() - k,
            {
                registry.insert(names[k].as_str(), ColumnFamily { inner: handles[k] });
                proof {
                    let more = names@.take(k + 1);
                    let hs = handles@.take(k + 1);
                    assert(more.drop_last() =~= names@.take(k as int));
                    assert(hs.drop_last() =~= handles@.take(k as int));
                    assert(more.last() == names@[k as int]);
                    assert(hs.last() == handles@[k as int]);
                }
                k += 1;
            }
            assert(names@.take(names.len() as int) =~= names@);
            assert(handles@.take(handles.len() as int) =~= handles@);
            Ok(Connection { db, families: registry, path: request.directory })
        },
    }
}

/// Every family that is opened can be looked up afterwards: when the
/// engine's answer opens the store, each name asked for is registered.
pub proof fn registered_covers(names: Seq<String>, handles: Seq<usize>, i: int)
    requires
        names.len() == handles.len(),
        0 <= i < names.len(),
    ensures
        registered(names, handles).contains_key(names[i]@),
    decreases names.len(),
{
    if i < names.len() - 1 {
        registered_covers(names.drop_last(), handles.drop_last(), i);
        assert(names.drop_last()[i] == names[i]);
    }
}

/// The default family is among the families of every family-aware open.
pub proof fn default_is_opened(asked: Seq<Seq<char>>)
    requires
        asked.len() > 0,
    ensures
        families_opened(asked).contains(default_family()),
{
    if !asked.contains(default_family()) {
        assert(asked.push(default_family())[asked.len() as int] == default_family());
    }
}

/// Once a store is opened with column families, the default family is in
/// its registry, whether or not it was asked for.
pub proof fn family_aware_open_registers_default(
    asked: Seq<Seq<char>>,
    names: Seq<String>,
    handles: Seq<usize>,
)
    requires
        asked.len() > 0,
        names_of(names) == families_opened(asked),
        handles.len() == names.len(),
    ensures
        registered(names, handles).contains_key(default_family()),
{
    default_is_opened(asked);
    let opened = names_of(names);
    let i = choose|i: int| 0 <= i < opened.len() && opened[i] == default_family();
    assert(opened[i] == names[i]@);
    registered_covers(names, handles, i);
}

} // verus!
