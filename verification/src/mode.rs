//! Update scope: which half of a resolved timestamp pair is written.
//!
//! The flags `-a`, `-m` and `--time=WORD` are reduced once per invocation to
//! one `UpdateMode`.  Each side is requested on its own; when both sides or
//! neither side is requested, both are written.

use vstd::prelude::*;
use vstd::string::StrSliceExecFns;

verus! {

/// Which timestamp components an invocation writes to its target files.
#[derive(Clone, Copy, Debug, PartialEq, Eq, Structural)]
pub enum UpdateMode {
    /// Write both the access and the modification time.
    Both,
    /// Write the access time only.
    AccessOnly,
    /// Write the modification time only.
    ModificationOnly,
}

/// The `--time` words that stand for "access only".
pub open spec fn is_access_word(w: Seq<char>) -> bool {
    w == "access"@ || w == "atime"@ || w == "use"@
}

/// The `--time` words that stand for "modification only".
pub open spec fn is_modify_word(w: Seq<char>) -> bool {
    w == "modify"@ || w == "mtime"@
}

/// Whether the flag set asks for the access side: `-a`, or a `--time` word
/// that names it.
pub open spec fn access_requested(only_atime: bool, word: Option<Seq<char>>) -> bool {
    only_atime || (word is Some && is_access_word(word->0))
}

/// Whether the flag set asks for the modification side: `-m`, or a `--time`
/// word that names it.
pub open spec fn modification_requested(only_mtime: bool, word: Option<Seq<char>>) -> bool {
    only_mtime || (word is Some && is_modify_word(word->0))
}

/// The mode a flag set reduces to: one side alone only when exactly that
/// side is requested; no request at all, or a conflicting pair of requests,
/// falls back to both sides.
pub open spec fn spec_update_mode(
    only_atime: bool,
    only_mtime: bool,
    word: Option<Seq<char>>,
) -> UpdateMode {
    let a = access_requested(only_atime, word);
    let m = modification_requested(only_mtime, word);
    if a && !m {
        UpdateMode::AccessOnly
    } else if m && !a {
        UpdateMode::ModificationOnly
    } else {
        UpdateMode::Both
    }
}

/// The characters of an optional `--time` word.
pub open spec fn word_view(time_word: Option<&str>) -> Option<Seq<char>> {
    match time_word {
        Some(w) => Some(w@),
        None => None,
    }
}

/// Character-for-character equality of two words.
fn word_is(s: &str, w: &str) -> (r: bool)
    ensures
        r == (s@ == w@),
{
    let n = s.unicode_len();
    let m = w.unicode_len();
    if n != m {
        return false;
    }
    let mut i: usize = 0;
    while i < n
        invariant
            i <= n,
            n == s@.len(),
            n == w@.len(),
            forall|j: int| 0 <= j < i ==> s@[j] == w@[j],
        decreases n - i,
    {
        if s.get_char(i) != w.get_char(i) {
            return false;
        }
        i = i + 1;
    }
    proof {
        assert(s@ =~= w@);
    }
    true
}

/// Reduces the timestamp-selection flags to one `UpdateMode`.
pub fn resolve_update_mode(only_atime: bool, only_mtime: bool, time_word: Option<&str>) -> (r:
    UpdateMode)
    ensures
        r == spec_update_mode(only_atime, only_mtime, word_view(time_word)),
{
    let a = only_atime || match time_word {
        Some(w) => word_is(w, "access") || word_is(w, "atime") || word_is(w, "use"),
        None => false,
    };
    let m = only_mtime || match time_word {
        Some(w) => word_is(w, "modify") || word_is(w, "mtime"),
        None => false,
    };
    if a && !m {
        UpdateMode::AccessOnly
    } else if m && !a {
        UpdateMode::ModificationOnly
    } else {
        UpdateMode::Both
    }
}

impl UpdateMode {
    /// Whether this mode writes the access time.
    pub fn applies_access(&self) -> (r: bool)
        ensures
            r == (*self == UpdateMode::Both || *self == UpdateMode::AccessOnly),
    {
        match self {
            UpdateMode::Both => true,
            UpdateMode::AccessOnly => true,
            UpdateMode::ModificationOnly => false,
        }
    }

    /// Whether this mode writes the modification time.
    pub fn applies_modification(&self) -> (r: bool)
        ensures
            r == (*self == UpdateMode::Both || *self == UpdateMode::ModificationOnly),
    {
        match self {
            UpdateMode::Both => true,
            UpdateMode::AccessOnly => false,
            UpdateMode::ModificationOnly => true,
        }
    }
}

} // verus!
