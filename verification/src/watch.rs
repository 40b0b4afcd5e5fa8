//! The decisions of the key watchers.
//!
//! The registry watcher polls `reg.exe query` and signals each time the
//! value it reads differs from the last one it saw; a key that does not
//! exist yet is polled again, any other failure ends the watch. The tmpfs
//! watcher signals on every create, modify or move-in event for the key's
//! file in its directory.

use vstd::prelude::*;
use vstd::string::StringSliceAdditionalSpecFns;
use vstd::utf8::{decode_utf8, valid_utf8};
use crate::crypto::utf8_text;
use crate::text::{parse_reg_value, spec_reg_value};

verus! {

/// Whether `needle` occurs in `s` at position `i`.
pub open spec fn occurs_at(s: Seq<u8>, needle: Seq<u8>, i: int) -> bool {
    0 <= i && i + needle.len() <= s.len() && s.subrange(i, i + needle.len()) == needle
}

/// Whether `needle` occurs anywhere in `s`.
pub open spec fn contains_bytes(s: Seq<u8>, needle: Seq<u8>) -> bool {
    exists|i: int| occurs_at(s, needle, i)
}

/// Searches `haystack` for `needle`.
pub fn find_bytes(haystack: &[u8], needle: &[u8]) -> (found: bool)
    ensures
        found == contains_bytes(haystack@, needle@),
{
    let n = haystack.len();
    let m = needle.len();
    if m > n {
        assert forall|i: int| !occurs_at(haystack@, needle@, i) by {}
        return false;
    }
    let mut i: usize = 0;
    while i <= n - m
        invariant
            n == haystack@.len(),
            m == needle@.len(),
            m <= n,
            i <= n - m + 1,
            forall|k: int| 0 <= k < i ==> !occurs_at(haystack@, needle@, k),
        decreases n - m + 1 - i,
    {
        let mut j: usize = 0;
        let mut same = true;
        while j < m
            invariant
                n == haystack@.len(),
                m == needle@.len(),
                i + m <= n,
                j <= m,
                same == forall|t: int| 0 <= t < j ==> haystack@[i + t] == needle@[t],
            decreases m - j,
        {
            if haystack[i + j] != needle[j] {
                same = false;
            }
            j = j + 1;
        }
        if same {
            assert(haystack@.subrange(i as int, i + m) =~= needle@);
            assert(occurs_at(haystack@, needle@, i as int));
            return true;
        }
        assert(!occurs_at(haystack@, needle@, i as int)) by {
            if haystack@.subrange(i as int, i + m) == needle@ {
                let t = choose|t: int| 0 <= t < m && haystack@[i + t] != needle@[t];
                assert(haystack@.subrange(i as int, i + m)[t] == haystack@[i + t]);
            }
        }
        i = i + 1;
    }
    assert forall|k: int| !occurs_at(haystack@, needle@, k) by {
        if 0 <= k < i {
        } else if k + m > n {
        }
    }
    false
}

/// The value a successful query printed: the `REG_SZ` value of its output
/// when that output is UTF-8 text, `None` otherwise.
pub open spec fn spec_polled_value(stdout: Seq<u8>) -> Option<Seq<char>> {
    if valid_utf8(stdout) {
        spec_reg_value(decode_utf8(stdout))
    } else {
        None
    }
}

/// Whether a failed query only means that the key does not exist yet: no
/// output at all, or an error text that says the key was not found.
pub open spec fn spec_key_not_there_yet(stdout: Seq<u8>, stderr: Seq<u8>) -> bool {
    stdout.len() == 0 || contains_bytes(stderr, "unable to find".spec_bytes())
        || contains_bytes(stderr, "ERROR_FILE_NOT_FOUND".spec_bytes())
}

/// What one poll of `reg.exe query` came back with.
pub enum PollOutcome {
    /// `reg.exe` could not be started.
    SpawnFailed,
    /// It ran and failed, with this output and error output.
    Failed { stdout: Vec<u8>, stderr: Vec<u8> },
    /// It ran and succeeded with this output.
    Succeeded { stdout: Vec<u8> },
}

/// What the watcher does after a poll.
#[derive(Debug, Clone, Copy, PartialEq, Eq, Structural)]
pub enum PollAction {
    /// End the watch.
    Stop,
    /// The key is not there yet: poll again.
    Retry,
    /// The value changed: signal the watcher's receiver, then poll again.
    Signal,
    /// Nothing changed: poll again.
    Quiet,
}

/// The model of a [`PollOutcome`].
pub enum PollModel {
    SpawnFailed,
    Failed { stdout: Seq<u8>, stderr: Seq<u8> },
    Succeeded { stdout: Seq<u8> },
}

impl View for PollOutcome {
    type V = PollModel;

    open spec fn view(&self) -> PollModel {
        match self {
            PollOutcome::SpawnFailed => PollModel::SpawnFailed,
            PollOutcome::Failed { stdout, stderr } => PollModel::Failed {
                stdout: stdout@,
                stderr: stderr@,
            },
            PollOutcome::Succeeded { stdout } => PollModel::Succeeded { stdout: stdout@ },
        }
    }
}

/// One step of the registry watcher: from the last value seen and a poll's
/// outcome, the value remembered next and the action taken.
pub open spec fn spec_poll(last: Option<Seq<char>>, outcome: PollModel) -> (
    Option<Seq<char>>,
    PollAction,
) {
    match outcome {
        PollModel::SpawnFailed => (last, PollAction::Stop),
        PollModel::Failed { stdout, stderr } => (
            last,
            if spec_key_not_there_yet(stdout, stderr) {
                PollAction::Retry
            } else {
                PollAction::Stop
            },
        ),
        PollModel::Succeeded { stdout } => {
            let current = spec_polled_value(stdout);
            (current, if current != last {
                PollAction::Signal
            } else {
                PollAction::Quiet
            })
        },
    }
}

/// The registry watcher's memory: the value it saw last (`None` before
/// the first value, or when the value could not be read).
pub struct RegistryPoll {
    last: Option<String>,
}

pub open spec fn opt_view(o: Option<String>) -> Option<Seq<char>> {
    match o {
        Some(s) => Some(s@),
        None => None,
    }
}

impl RegistryPoll {
    pub closed spec fn spec_last(&self) -> Option<Seq<char>> {
        opt_view(self.last)
    }

    pub fn new() -> (p: Self)
        ensures
            p.spec_last() is None,
    {
        RegistryPoll { last: None }
    }

    /// Takes one poll's outcome.
    pub fn on_poll(&mut self, outcome: &PollOutcome) -> (a: PollAction)
        ensures
            (final(self).spec_last(), a) == spec_poll(old(self).spec_last(), outcome@),
    {
        match outcome {
            PollOutcome::SpawnFailed => PollAction::Stop,
            PollOutcome::Failed { stdout, stderr } => {
                let unable = "unable to find".as_bytes();
                let not_found = "ERROR_FILE_NOT_FOUND".as_bytes();
                if stdout.len() == 0 || find_bytes(stderr.as_slice(), unable)
                    || find_bytes(stderr.as_slice(), not_found) {
                    PollAction::Retry
                } else {
                    PollAction::Stop
                }
            },
            PollOutcome::Succeeded { stdout } => {
                let current = match utf8_text(stdout.as_slice()) {
                    Some(text) => {
                        proof {
                            vstd::utf8::encode_utf8_decode_utf8(text@);
                        }
                        parse_reg_value(text)
                    },
                    None => None,
                };
                let changed = match (&current, &self.last) {
                    (Some(c), Some(l)) => !(*c == *l),
                    (None, None) => false,
                    _ => true,
                };
                self.last = current;
                if changed {
                    PollAction::Signal
                } else {
                    PollAction::Quiet
                }
            },
        }
    }
}

/// One inotify event in the watched directory, read as plain values:
/// the name of the file it concerns (`None` when it has none or the name
/// is not UTF-8) and which of the watched kinds it carries.
#[derive(Debug, Clone)]
pub struct FileEvent {
    pub name: Option<String>,
    pub created: bool,
    pub modified: bool,
    pub moved_to: bool,
}

/// Whether an event signals the watcher of file `file_name`: it concerns
/// that file and is a create, modify or move-in.
pub fn event_signals(event: &FileEvent, file_name: &str) -> (b: bool)
    ensures
        b == ((event.name matches Some(n) && n@ == file_name@) && (event.created || event.modified
            || event.moved_to)),
{
    let wanted = String::from_str(file_name);
    let named = match &event.name {
        Some(n) => *n == wanted,
        None => false,
    };
    named && (event.created || event.modified || event.moved_to)
}

/// A value is signalled once per change: polling the same output again
/// right after is quiet, a poll that reads a different value signals, and
/// a failed poll forgets nothing.
pub proof fn law_change_signalled_once(
    last: Option<Seq<char>>,
    stdout: Seq<u8>,
    other: Seq<u8>,
    failed_out: Seq<u8>,
    failed_err: Seq<u8>,
)
    ensures
        ({
            let (seen, _) = spec_poll(last, PollModel::Succeeded { stdout });
            &&& spec_poll(seen, PollModel::Succeeded { stdout }).1 == PollAction::Quiet
            &&& spec_polled_value(other) != spec_polled_value(stdout) ==> spec_poll(
                seen,
                PollModel::Succeeded { stdout: other },
            ).1 == PollAction::Signal
            &&& spec_poll(seen, PollModel::Failed { stdout: failed_out, stderr: failed_err }).0
                == seen
        }),
{
}

} // verus!
