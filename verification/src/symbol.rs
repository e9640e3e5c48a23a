//! Locating the version routine at run time.
//!
//! The routine is looked up by name in a module that every process already
//! has loaded. A lookup is two questions to the loader, one for the module and
//! one for the export in it, and each answer is an address-sized word in which
//! zero means "not found". The first address that a lookup yields is cached
//! for the life of the process; nothing ever replaces it.

use vstd::prelude::*;

verus! {

/// Why the version routine could not be located.
#[derive(Clone, Copy, Debug, PartialEq, Eq, Structural)]
pub enum ResolveError {
    /// The loader knows no module of the expected name.
    ModuleNotFound,
    /// The module is loaded but exports no routine of the expected name.
    SymbolNotFound,
}

/// `bytes` spells `text` in ASCII and closes it with the only NUL it holds.
pub open spec fn is_c_string(bytes: Seq<u8>, text: Seq<char>) -> bool {
    &&& bytes.len() == text.len() + 1
    &&& forall|i: int|
        0 <= i < text.len() ==> 0 < #[trigger] bytes[i] < 128 && bytes[i] == text[i] as u8
    &&& bytes[text.len() as int] == 0
}

/// Name of the system-services module, in the form the loader takes.
pub fn module_name() -> (name: [u8; 10])
    ensures
        is_c_string(name@, "ntdll.dll"@),
{
    proof {
        reveal_strlit("ntdll.dll");
    }
    [
        'n' as u8, 't' as u8, 'd' as u8, 'l' as u8, 'l' as u8,
        '.' as u8,
        'd' as u8, 'l' as u8, 'l' as u8,
        0,
    ]
}

/// Name under which that module exports the version routine, in the form the
/// loader takes.
pub fn symbol_name() -> (name: [u8; 23])
    ensures
        is_c_string(name@, "RtlGetNtVersionNumbers"@),
{
    proof {
        reveal_strlit("RtlGetNtVersionNumbers");
    }
    [
        'R' as u8, 't' as u8, 'l' as u8,
        'G' as u8, 'e' as u8, 't' as u8,
        'N' as u8, 't' as u8,
        'V' as u8, 'e' as u8, 'r' as u8, 's' as u8, 'i' as u8, 'o' as u8, 'n' as u8,
        'N' as u8, 'u' as u8, 'm' as u8, 'b' as u8, 'e' as u8, 'r' as u8, 's' as u8,
        0,
    ]
}

/// What the loader answered to one lookup. Zero stands for a null answer.
#[derive(Clone, Copy, Debug, PartialEq, Eq, Structural)]
pub struct Lookup {
    /// Handle of the module, as a word.
    pub module: usize,
    /// Address of the export in that module, as a word.
    pub symbol: usize,
}

impl Lookup {
    /// What this lookup is worth: the routine's address, or the first thing
    /// that was not found.
    pub open spec fn outcome(self) -> Result<usize, ResolveError> {
        if self.module == 0 {
            Err(ResolveError::ModuleNotFound)
        } else if self.symbol == 0 {
            Err(ResolveError::SymbolNotFound)
        } else {
            Ok(self.symbol)
        }
    }

    /// The address to call, if the loader found both the module and the
    /// export. A null answer never comes back as an address.
    pub fn routine(&self) -> (found: Result<usize, ResolveError>)
        ensures
            found == self.outcome(),
    {
        if self.module == 0 {
            Err(ResolveError::ModuleNotFound)
        } else if self.symbol == 0 {
            Err(ResolveError::SymbolNotFound)
        } else {
            Ok(self.symbol)
        }
    }
}

/// The word that an empty cache holds.
pub const UNRESOLVED: usize = 0;

/// What a word of the cache stands for: nothing while it is `UNRESOLVED`, else
/// the routine's address.
pub open spec fn cached(word: usize) -> Option<usize> {
    if word == UNRESOLVED {
        None
    } else {
        Some(word)
    }
}

/// The cache once a caller has recorded `found` in it: the first address that
/// arrives stays, and a failed lookup leaves the cache as it was.
pub open spec fn after(cache: Option<usize>, found: Lookup) -> Option<usize> {
    match cache {
        Some(routine) => Some(routine),
        None => match found.outcome() {
            Ok(routine) => Some(routine),
            Err(_) => None,
        },
    }
}

/// What that caller is told: the cached address where there is one, else
/// whatever its own lookup is worth.
pub open spec fn answer(cache: Option<usize>, found: Lookup) -> Result<usize, ResolveError> {
    match cache {
        Some(routine) => Ok(routine),
        None => found.outcome(),
    }
}

/// The process-wide slot for the routine's address: empty until the first
/// successful lookup, then fixed.
///
/// The slot is one word, so that it fits whatever atomic cell the process
/// keeps it in.
#[derive(Clone, Copy, Debug, PartialEq, Eq)]
pub struct SymbolCache {
    word: usize,
}

impl View for SymbolCache {
    type V = Option<usize>;

    closed spec fn view(&self) -> Option<usize> {
        cached(self.word)
    }
}

impl SymbolCache {
    /// No cache holds the null address.
    pub proof fn lemma_never_null(self)
        ensures
            self@ != Some(0usize),
    {
    }

    /// The cache of a process that has not looked anything up yet.
    pub fn unresolved() -> (cache: Self)
        ensures
            cache@ is None,
    {
        SymbolCache { word: UNRESOLVED }
    }

    /// The cache that the stored word `word` stands for.
    pub fn from_word(word: usize) -> (cache: Self)
        ensures
            cache@ == cached(word),
    {
        SymbolCache { word }
    }

    /// The word to store for this cache: `UNRESOLVED` while it is empty, else
    /// the address it holds.
    pub fn word(&self) -> (word: usize)
        ensures
            cached(word) == self@,
    {
        self.word
    }

    /// The cached address, if there is one. It is never null.
    pub fn routine(&self) -> (routine: Option<usize>)
        ensures
            routine == self@,
            routine != Some(0usize),
    {
        if self.word == UNRESOLVED {
            None
        } else {
            Some(self.word)
        }
    }

    /// Records what a lookup found and says which address to call.
    ///
    /// An empty cache takes the address of a successful lookup and stays empty
    /// after a failed one, whose error is returned. A cache that already holds
    /// an address keeps it, whatever `found` says, and returns it.
    pub fn record(&mut self, found: Lookup) -> (told: Result<usize, ResolveError>)
        ensures
            final(self)@ == after(old(self)@, found),
            told == answer(old(self)@, found),
            told != Ok::<usize, ResolveError>(0usize),
    {
        if self.word != UNRESOLVED {
            return Ok(self.word);
        }
        match found.routine() {
            Ok(routine) => {
                self.word = routine;
                Ok(routine)
            },
            Err(error) => Err(error),
        }
    }
}

/// The cache after every lookup of `lookups` has been recorded, first to last.
pub open spec fn after_all(cache: Option<usize>, lookups: Seq<Lookup>) -> Option<usize>
    decreases lookups.len(),
{
    if lookups.len() == 0 {
        cache
    } else {
        after(after_all(cache, lookups.drop_last()), lookups.last())
    }
}

/// What the caller that records `lookups[i]` is told, when the lookups are
/// recorded first to last on a cache that starts as `cache`.
pub open spec fn answer_at(cache: Option<usize>, lookups: Seq<Lookup>, i: int) -> Result<
    usize,
    ResolveError,
> {
    answer(after_all(cache, lookups.take(i)), lookups[i])
}

/// A cache that holds an address is final: recording any lookup leaves it
/// unchanged, and the caller is told the address that was there.
pub proof fn lemma_resolved_is_final(cache: Option<usize>, found: Lookup)
    requires
        cache is Some,
    ensures
        after(cache, found) == cache,
        answer(cache, found) == Ok::<usize, ResolveError>(cache->0),
{
}

/// Recording is idempotent: a second caller whose lookup found the same as
/// the first changes nothing and is told the same.
pub proof fn lemma_record_is_idempotent(cache: Option<usize>, found: Lookup)
    ensures
        after(after(cache, found), found) == after(cache, found),
        answer(after(cache, found), found) == answer(cache, found),
{
}

proof fn lemma_prefix_stays_resolved(cache: Option<usize>, lookups: Seq<Lookup>, k: int, n: int)
    requires
        0 <= k <= n <= lookups.len(),
        after_all(cache, lookups.take(k)) is Some,
    ensures
        after_all(cache, lookups.take(n)) == after_all(cache, lookups.take(k)),
    decreases n - k,
{
    if k < n {
        lemma_prefix_stays_resolved(cache, lookups, k, n - 1);
        assert(lookups.take(n).drop_last() =~= lookups.take(n - 1));
    }
}

proof fn lemma_settled_after(cache: Option<usize>, lookups: Seq<Lookup>, i: int)
    requires
        0 <= i < lookups.len(),
        answer_at(cache, lookups, i) is Ok,
    ensures
        after_all(cache, lookups.take(i + 1)) == Some(answer_at(cache, lookups, i)->Ok_0),
{
    assert(lookups.take(i + 1).drop_last() =~= lookups.take(i));
    assert(lookups.take(i + 1).last() == lookups[i]);
}

/// However many callers record their lookups, in whatever order and whatever
/// each of them found, all those that are told an address are told the same
/// one, and it is the one that the cache ends up with.
pub proof fn lemma_callers_agree(cache: Option<usize>, lookups: Seq<Lookup>, i: int, j: int)
    requires
        0 <= i < lookups.len(),
        0 <= j < lookups.len(),
        answer_at(cache, lookups, i) is Ok,
        answer_at(cache, lookups, j) is Ok,
    ensures
        answer_at(cache, lookups, i) == answer_at(cache, lookups, j),
        after_all(cache, lookups) == Some(answer_at(cache, lookups, i)->Ok_0),
{
    lemma_settled_after(cache, lookups, i);
    lemma_settled_after(cache, lookups, j);
    if i < j {
        lemma_prefix_stays_resolved(cache, lookups, i + 1, j);
    } else if j < i {
        lemma_prefix_stays_resolved(cache, lookups, j + 1, i);
    }
    lemma_prefix_stays_resolved(cache, lookups, i + 1, lookups.len() as int);
    assert(lookups.take(lookups.len() as int) =~= lookups);
}

} // verus!
