//! The write-once slot that freezes the selector's answer for a process.
use crate::providers::Provider;
use crate::ClipError;
use vstd::prelude::*;

verus! {

/// Either no backend has been chosen yet, or the selector's answer, which
/// never changes afterwards.
pub enum SelectionCache {
    Empty,
    Filled(Result<Provider, ClipError>),
}

/// The answer a call gives on cache `c` when detection would give `d`: the
/// stored answer, or `d` on an empty cache.
pub open spec fn answer(c: SelectionCache, d: Result<Provider, ClipError>) -> Result<
    Provider,
    ClipError,
> {
    match c {
        SelectionCache::Empty => d,
        SelectionCache::Filled(r) => r,
    }
}

/// The cache after one call.
pub open spec fn after(c: SelectionCache, d: Result<Provider, ClipError>) -> SelectionCache {
    SelectionCache::Filled(answer(c, d))
}

/// The answers of successive calls on cache `c`, detection giving `fs[k]`
/// if it ran at the `k`-th call.
pub open spec fn answers(c: SelectionCache, fs: Seq<Result<Provider, ClipError>>) -> Seq<
    Result<Provider, ClipError>,
>
    decreases fs.len(),
{
    if fs.len() == 0 {
        Seq::empty()
    } else {
        seq![answer(c, fs[0])] + answers(after(c, fs[0]), fs.drop_first())
    }
}

/// How many of those successive calls need detection to run.
pub open spec fn detections(c: SelectionCache, fs: Seq<Result<Provider, ClipError>>) -> nat
    decreases fs.len(),
{
    if fs.len() == 0 {
        0
    } else {
        (if c is Empty {
            1nat
        } else {
            0nat
        }) + detections(after(c, fs[0]), fs.drop_first())
    }
}

impl SelectionCache {
    /// A cache in which nothing has been chosen yet.
    pub fn new() -> (r: SelectionCache)
        ensures
            r is Empty,
    {
        SelectionCache::Empty
    }

    /// The stored answer, if detection has run.
    pub fn cached(&self) -> (r: Option<Result<Provider, ClipError>>)
        ensures
            match *self {
                SelectionCache::Empty => r is None,
                SelectionCache::Filled(x) => r == Some(x),
            },
    {
        match self {
            SelectionCache::Empty => None,
            SelectionCache::Filled(x) => Some(*x),
        }
    }

    /// The backend for the process: on an empty cache `detected`, the
    /// outcome of detection, is stored and returned; otherwise the stored
    /// answer is returned and `detected` is dropped, as a racer that lost.
    pub fn resolve(&mut self, detected: Result<Provider, ClipError>) -> (r: Result<
        Provider,
        ClipError,
    >)
        ensures
            r == answer(*old(self), detected),
            *final(self) == after(*old(self), detected),
    {
        match self {
            SelectionCache::Filled(x) => *x,
            SelectionCache::Empty => {
                *self = SelectionCache::Filled(detected);
                detected
            },
        }
    }
}

/// Once filled, the cache answers every call with what it holds and never
/// needs detection again, whatever detection would give by then.
pub proof fn lemma_filled_is_frozen(x: Result<Provider, ClipError>, fs: Seq<Result<Provider, ClipError>>)
    ensures
        answers(SelectionCache::Filled(x), fs).len() == fs.len(),
        forall|k: int|
            0 <= k < fs.len() ==> #[trigger] answers(SelectionCache::Filled(x), fs)[k] == x,
        detections(SelectionCache::Filled(x), fs) == 0,
    decreases fs.len(),
{
    if fs.len() > 0 {
        lemma_filled_is_frozen(x, fs.drop_first());
        let tail = answers(SelectionCache::Filled(x), fs.drop_first());
        assert forall|k: int| 0 <= k < fs.len() implies #[trigger] answers(
            SelectionCache::Filled(x),
            fs,
        )[k] == x by {
            if k > 0 {
                assert(answers(SelectionCache::Filled(x), fs)[k] == tail[k - 1]);
            }
        }
    }
}

/// Any number of calls on a fresh cache need detection at most once, and
/// every call gets the answer of the first detection.
pub proof fn lemma_selection_once(fs: Seq<Result<Provider, ClipError>>)
    ensures
        detections(SelectionCache::Empty, fs) <= 1,
        answers(SelectionCache::Empty, fs).len() == fs.len(),
        forall|k: int|
            0 <= k < fs.len() ==> #[trigger] answers(SelectionCache::Empty, fs)[k] == fs[0],
{
    if fs.len() > 0 {
        let x = fs[0];
        lemma_filled_is_frozen(x, fs.drop_first());
        let tail = answers(SelectionCache::Filled(x), fs.drop_first());
        assert forall|k: int| 0 <= k < fs.len() implies #[trigger] answers(
            SelectionCache::Empty,
            fs,
        )[k] == x by {
            if k > 0 {
                assert(answers(SelectionCache::Empty, fs)[k] == tail[k - 1]);
            }
        }
    }
}

/// When the first detection finds no backend, every later call gets the
/// same error, and detection has run exactly once.
pub proof fn lemma_failure_is_sticky(fs: Seq<Result<Provider, ClipError>>)
    requires
        fs.len() > 0,
        fs[0] is Err,
    ensures
        detections(SelectionCache::Empty, fs) == 1,
        forall|k: int|
            0 <= k < fs.len() ==> #[trigger] answers(SelectionCache::Empty, fs)[k] == fs[0],
{
    lemma_selection_once(fs);
    lemma_filled_is_frozen(fs[0], fs.drop_first());
}

} // verus!
