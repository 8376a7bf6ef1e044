//! Pointer chains with nested offsets (CheatEngine's "pointers"): a base
//! address followed by offsets, which evaluate to
//! `*(*(*(*a + b) + c) + d) + e` for the chain `[a, b, c, d, e]`.
//!
//! Reading memory is the caller's work: the walk asks for the word stored at
//! an address and is told what was read, or that the read failed.
use vstd::prelude::*;

verus! {

/// The address a chain evaluates to, starting from `addr` with the offsets
/// `offsets`, when reading the word at address `a` gives `mem(a)` (`None`
/// for a failed read): each offset is added to the word read at the current
/// address.
pub open spec fn chain_eval(addr: int, offsets: Seq<usize>, mem: spec_fn(int) -> Option<int>) -> Option<
    int,
>
    decreases offsets.len(),
{
    if offsets.len() == 0 {
        Some(addr)
    } else {
        match mem(addr) {
            Some(v) => chain_eval(v + offsets[0], offsets.drop_first(), mem),
            None => None,
        }
    }
}

/// A chain of a base address and the offsets applied after each read.
pub struct PointerChain {
    base: usize,
    offsets: Vec<usize>,
}

impl PointerChain {
    pub closed spec fn spec_base(&self) -> usize {
        self.base
    }

    pub closed spec fn spec_offsets(&self) -> Seq<usize> {
        self.offsets@
    }

    /// Creates a chain from its addresses: the first is the base, the rest
    /// are the offsets.
    pub fn new(chain: &[usize]) -> (r: Self)
        requires
            chain@.len() >= 1,
        ensures
            r.spec_base() == chain@[0],
            r.spec_offsets() == chain@.drop_first(),
    {
        let mut offsets: Vec<usize> = Vec::new();
        let mut i: usize = 1;
        while i < chain.len()
            invariant
                1 <= i <= chain@.len(),
                offsets@ == chain@.subrange(1, i as int),
            decreases chain@.len() - i,
        {
            offsets.push(chain[i]);
            i = i + 1;
        }
        assert(offsets@ =~= chain@.drop_first());
        PointerChain { base: chain[0], offsets }
    }

    /// Starts evaluating the chain at its base address.
    pub fn walk(&self) -> (r: ChainWalk)
        ensures
            r.wf(),
            r.spec_offsets() == self.spec_offsets(),
            r.spec_index() == 0,
            r.spec_current() == Some(self.spec_base()),
    {
        let w = ChainWalk { offsets: self.offsets.clone(), index: 0, current: Some(self.base) };
        assert(w.offsets@ =~= self.offsets@);
        w
    }
}

/// What a chain evaluation needs next.
#[derive(Debug, Clone, Copy, PartialEq, Eq, Structural)]
pub enum WalkStep {
    /// The word at this address must be read.
    Read(usize),
    /// The evaluation ended with this address, or failed (`None`).
    Done(Option<usize>),
}

/// An evaluation of a pointer chain in progress.
pub struct ChainWalk {
    offsets: Vec<usize>,
    index: usize,
    current: Option<usize>,
}

/// The result of the rest of a walk that stands at `current` with the
/// offsets `rest` still to apply.
pub open spec fn walk_outcome(current: Option<usize>, rest: Seq<usize>, mem: spec_fn(int) -> Option<int>) -> Option<int> {
    match current {
        Some(a) => chain_eval(a as int, rest, mem),
        None => None,
    }
}

impl ChainWalk {
    pub closed spec fn spec_offsets(&self) -> Seq<usize> {
        self.offsets@
    }

    /// How many offsets have been applied.
    pub closed spec fn spec_index(&self) -> usize {
        self.index
    }

    /// The address reached so far, or `None` after a failed read.
    pub closed spec fn spec_current(&self) -> Option<usize> {
        self.current
    }

    pub closed spec fn wf(&self) -> bool {
        self.index <= self.offsets@.len()
    }

    /// The step that the walk's state calls for.
    pub open spec fn spec_next(&self) -> WalkStep {
        match self.spec_current() {
            None => WalkStep::Done(None),
            Some(a) => if self.spec_index() >= self.spec_offsets().len() {
                WalkStep::Done(Some(a))
            } else {
                WalkStep::Read(a)
            },
        }
    }

    /// What to do next: read the word at an address, or take the result.
    pub fn next(&self) -> (r: WalkStep)
        requires
            self.wf(),
        ensures
            r == self.spec_next(),
    {
        match self.current {
            None => WalkStep::Done(None),
            Some(a) => if self.index >= self.offsets.len() {
                WalkStep::Done(Some(a))
            } else {
                WalkStep::Read(a)
            },
        }
    }

    /// The offset that the next report adds to the word read, while the
    /// walk asks for a read.
    pub fn pending_offset(&self) -> (r: Option<usize>)
        requires
            self.wf(),
        ensures
            self.spec_next() is Read ==> r == Some(self.spec_offsets()[self.spec_index() as int]),
            !(self.spec_next() is Read) ==> r is None,
    {
        match self.current {
            Some(_) => if self.index < self.offsets.len() {
                Some(self.offsets[self.index])
            } else {
                None
            },
            None => None,
        }
    }

    /// Reports the word read at the address that [`ChainWalk::next`] asked
    /// for, or `None` if the read failed; the next offset is added to it.
    pub fn report(&mut self, read: Option<usize>)
        requires
            old(self).wf(),
            old(self).spec_next() is Read,
            read matches Some(v) ==> v + old(self).spec_offsets()[old(self).spec_index() as int]
                <= usize::MAX,
        ensures
            final(self).wf(),
            final(self).spec_offsets() == old(self).spec_offsets(),
            final(self).spec_index() == old(self).spec_index() + 1,
            final(self).spec_current() == match read {
                Some(v) => Some((v + old(self).spec_offsets()[old(self).spec_index() as int]) as usize),
                None => None::<usize>,
            },
    {
        let i = self.index;
        let n = self.offsets.len();
        assert(i < n);
        self.current = match read {
            Some(v) => Some(v + self.offsets[i]),
            None => None,
        };
        self.index = i + 1;
    }
}

/// A walk that starts at the chain's base has the chain's value as outcome.
pub proof fn lemma_walk_starts_at_chain(c: PointerChain, mem: spec_fn(int) -> Option<int>)
    ensures
        walk_outcome(Some(c.spec_base()), c.spec_offsets(), mem) == chain_eval(
            c.spec_base() as int,
            c.spec_offsets(),
            mem,
        ),
{
}

/// Answering a read with the word in memory keeps the outcome of the walk:
/// the evaluation that the caller drives step by step computes
/// [`chain_eval`].
pub proof fn lemma_report_keeps_outcome(a: usize, rest: Seq<usize>, mem: spec_fn(int) -> Option<int>, read: Option<usize>)
    requires
        rest.len() >= 1,
        match mem(a as int) {
            Some(v) => read == Some(v as usize) && 0 <= v && v + rest[0] <= usize::MAX,
            None => read is None,
        },
    ensures
        walk_outcome(Some(a), rest, mem) == walk_outcome(
            match read {
                Some(v) => Some((v + rest[0]) as usize),
                None => None::<usize>,
            },
            rest.drop_first(),
            mem,
        ),
{
}

/// A finished walk's result is its outcome.
pub proof fn lemma_done_is_outcome(w: ChainWalk, mem: spec_fn(int) -> Option<int>)
    requires
        w.wf(),
        w.spec_next() is Done,
    ensures
        w.spec_next() == WalkStep::Done(
            match walk_outcome(w.spec_current(), w.spec_offsets().skip(w.spec_index() as int), mem) {
                Some(x) => Some(x as usize),
                None => None::<usize>,
            },
        ),
{
}

} // verus!
