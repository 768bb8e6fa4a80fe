//! The error log: the latest failure message under each key.

use vstd::hash_map::StringHashMap;
use vstd::prelude::*;

verus! {

/// The key under which the webhook handler files its failures.
pub const ERROR_KEY: &'static str = "errorHandler";

/// A mapping from a key to the most recent message recorded under it.
///
/// Entries are overwritten, never removed. The log has no lock of its own:
/// `record` takes it by unique reference, so whoever shares a log between
/// requests wraps it in a mutex.
pub struct ErrorLog {
    entries: StringHashMap<String>,
}

impl View for ErrorLog {
    type V = Map<Seq<char>, Seq<char>>;

    closed spec fn view(&self) -> Map<Seq<char>, Seq<char>> {
        self.entries@.map_values(|message: String| message@)
    }
}

impl ErrorLog {
    /// A log without entries.
    pub fn new() -> (log: ErrorLog)
        ensures
            log@ == Map::<Seq<char>, Seq<char>>::empty(),
    {
        let log = ErrorLog { entries: StringHashMap::new() };
        assert(log@ =~= Map::<Seq<char>, Seq<char>>::empty());
        log
    }

    /// Files `message` under `key`, replacing what was there.
    pub fn record(&mut self, key: &str, message: &str)
        ensures
            final(self)@ == old(self)@.insert(key@, message@),
    {
        self.entries.insert(key.to_owned(), message.to_owned());
        assert(self@ =~= old(self)@.insert(key@, message@));
    }

    /// The message on file under `key`, if there is one.
    pub fn get(&self, key: &str) -> (found: Option<&String>)
        ensures
            match found {
                Some(message) => self@.contains_key(key@) && message@ == self@[key@],
                None => !self@.contains_key(key@),
            },
    {
        self.entries.get(key)
    }

    /// The number of keys on file.
    pub fn len(&self) -> (n: usize)
        ensures
            n == self@.len(),
    {
        broadcast use vstd::hash_map::group_hash_map_axioms;

        assert(self@.dom() =~= self.entries@.dom());
        self.entries.len()
    }
}

/// The line that announces a failure on the process output.
pub open spec fn error_line(error: Seq<char>) -> Seq<char> {
    "errorHandler: "@ + error
}

/// Files `error` as the latest failure and returns the line to print for it.
pub fn error_handler(log: &mut ErrorLog, error: &str) -> (line: String)
    ensures
        final(log)@ == old(log)@.insert(ERROR_KEY@, error@),
        line@ == error_line(error@),
{
    log.record(ERROR_KEY, error);
    String::from_str("errorHandler: ").concat(error)
}

} // verus!
