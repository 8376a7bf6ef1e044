//! How much of a memory region can be read: the pages that the region spans
//! are probed in address order, and the region is cut at the first page that
//! is not readable.
//!
//! Probing a page (asking the system for its protection) is the caller's
//! work: the scan names the page to probe and is told the answer.
use vstd::prelude::*;

verus! {

/// The start of the page that holds address `a`.
pub open spec fn page_start(a: int, ps: int) -> int {
    a - a % ps
}

/// The number of whole elements of `elem_size` bytes between `ptr` and the
/// start of the unreadable page `page` (none if the page starts before
/// `ptr`).
pub open spec fn readable_before(ptr: int, page: int, elem_size: int) -> int {
    (if page > ptr {
        page - ptr
    } else {
        0
    }) / elem_size
}

/// What the scan needs next.
#[derive(Debug, Clone, Copy, PartialEq, Eq, Structural)]
pub enum RegionStep {
    /// Tell whether the page starting at this address is readable.
    Probe(usize),
    /// The region can be read for this many elements.
    Done(usize),
}

/// A readability scan of a region of `limit` elements of `elem_size` bytes
/// at `ptr`, with pages of `page_size` bytes.
pub struct RegionScan {
    ptr: usize,
    limit: usize,
    elem_size: usize,
    page_size: usize,
    next_page: usize,
    last_page: usize,
    result: Option<usize>,
}

proof fn lemma_page_start(a: int, ps: int)
    requires
        a >= 0,
        ps > 0,
    ensures
        a - ps < page_start(a, ps) <= a,
        page_start(a, ps) % ps == 0,
        page_start(a, ps) >= 0,
{
    vstd::arithmetic::div_mod::lemma_mod_pos_bound(a, ps);
    vstd::arithmetic::div_mod::lemma_fundamental_div_mod(a, ps);
    vstd::arithmetic::div_mod::lemma_mod_multiples_basic(a / ps, ps);
    assert(page_start(a, ps) == ps * (a / ps));
    vstd::arithmetic::mul::lemma_mul_is_commutative(ps, a / ps);
}

impl RegionScan {
    pub closed spec fn spec_ptr(&self) -> usize {
        self.ptr
    }

    pub closed spec fn spec_limit(&self) -> usize {
        self.limit
    }

    pub closed spec fn spec_elem_size(&self) -> usize {
        self.elem_size
    }

    pub closed spec fn spec_page_size(&self) -> usize {
        self.page_size
    }

    /// The start of the last page the region spans.
    pub closed spec fn spec_last_page(&self) -> usize {
        self.last_page
    }

    /// The next page to probe, while the scan goes on.
    pub closed spec fn spec_next_page(&self) -> usize {
        self.next_page
    }

    /// The readable length, once the scan is over.
    pub closed spec fn spec_result(&self) -> Option<usize> {
        self.result
    }

    /// The step that the scan's state calls for.
    pub open spec fn spec_next(&self) -> RegionStep {
        match self.spec_result() {
            Some(n) => RegionStep::Done(n),
            None => RegionStep::Probe(self.spec_next_page()),
        }
    }

    pub closed spec fn wf(&self) -> bool {
        let ps = self.page_size as int;
        &&& self.page_size > 0
        &&& self.elem_size > 0
        &&& 1 <= self.ptr + self.limit * self.elem_size <= usize::MAX
        &&& self.last_page == page_start(self.ptr + self.limit * self.elem_size - 1, ps)
        &&& self.result matches Some(r) ==> r <= self.limit
        &&& self.result is None ==> {
            &&& page_start(self.ptr as int, ps) <= self.next_page <= self.last_page
            &&& (self.next_page as int) % ps == 0
        }
    }

    /// Starts the scan of `limit` elements of `elem_size` bytes at `ptr`,
    /// with pages of `page_size` bytes: the first page to probe is the one
    /// holding `ptr`; a region that spans no page is readable whole.
    pub fn new(ptr: usize, limit: usize, elem_size: usize, page_size: usize) -> (r: Self)
        requires
            page_size > 0,
            elem_size > 0,
            1 <= ptr + limit * elem_size <= usize::MAX,
        ensures
            r.wf(),
            r.spec_ptr() == ptr,
            r.spec_limit() == limit,
            r.spec_elem_size() == elem_size,
            r.spec_page_size() == page_size,
            r.spec_last_page() == page_start(ptr + limit * elem_size - 1, page_size as int),
            page_start(ptr as int, page_size as int) <= r.spec_last_page() ==> r.spec_next()
                == RegionStep::Probe(page_start(ptr as int, page_size as int) as usize),
            page_start(ptr as int, page_size as int) > r.spec_last_page() ==> r.spec_next()
                == RegionStep::Done(limit),
    {
        let bytes = limit * elem_size;
        let end = ptr + bytes - 1;
        proof {
            lemma_page_start(ptr as int, page_size as int);
            lemma_page_start(end as int, page_size as int);
        }
        let first = ptr - ptr % page_size;
        let last = end - end % page_size;
        let result = if first <= last {
            None
        } else {
            Some(limit)
        };
        RegionScan {
            ptr,
            limit,
            elem_size,
            page_size,
            next_page: first,
            last_page: last,
            result,
        }
    }

    /// What to do next: probe a page, or take the readable length.
    pub fn next(&self) -> (r: RegionStep)
        requires
            self.wf(),
        ensures
            r == self.spec_next(),
            r matches RegionStep::Done(n) ==> n <= self.spec_limit(),
    {
        match self.result {
            Some(n) => RegionStep::Done(n),
            None => RegionStep::Probe(self.next_page),
        }
    }

    /// Reports whether the page that [`RegionScan::next`] named is readable.
    /// An unreadable page ends the scan with the elements before it; a
    /// readable one moves to the next page, or ends the scan with the whole
    /// region after the last page.
    pub fn report(&mut self, readable: bool)
        requires
            old(self).wf(),
            old(self).spec_next() is Probe,
        ensures
            final(self).wf(),
            final(self).spec_ptr() == old(self).spec_ptr(),
            final(self).spec_limit() == old(self).spec_limit(),
            final(self).spec_elem_size() == old(self).spec_elem_size(),
            final(self).spec_page_size() == old(self).spec_page_size(),
            final(self).spec_last_page() == old(self).spec_last_page(),
            !readable ==> final(self).spec_next() == RegionStep::Done(
                readable_before(
                    old(self).spec_ptr() as int,
                    old(self).spec_next_page() as int,
                    old(self).spec_elem_size() as int,
                ) as usize,
            ),
            readable && old(self).spec_next_page() == old(self).spec_last_page() ==> final(self).spec_next() == RegionStep::Done(old(self).spec_limit()),
            readable && old(self).spec_next_page() != old(self).spec_last_page() ==> final(self).spec_next() == RegionStep::Probe(
                (old(self).spec_next_page() + old(self).spec_page_size()) as usize,
            ),
    {
        let page = self.next_page;
        let ghost ps = self.page_size as int;
        let ghost end = self.ptr + self.limit * self.elem_size;
        if !readable {
            let gap = if page > self.ptr {
                page - self.ptr
            } else {
                0
            };
            let n = gap / self.elem_size;
            proof {
                lemma_page_start(end - 1, ps);
                assert(self.last_page <= end - 1);
                assert(page <= end - 1);
                assert(end - 1 - self.ptr == self.limit * self.elem_size - 1);
                if gap > 0 {
                    assert(gap <= self.limit * self.elem_size - 1);
                    assert(n <= self.limit) by (nonlinear_arith)
                        requires
                            n == gap / self.elem_size,
                            gap < self.limit * self.elem_size,
                            self.elem_size > 0,
                    {
                        if n > self.limit {
                            assert(n >= self.limit + 1);
                            assert(n * self.elem_size >= (self.limit + 1) * self.elem_size);
                            assert(gap >= n * self.elem_size) by {
                                vstd::arithmetic::div_mod::lemma_fundamental_div_mod(
                                    gap as int,
                                    self.elem_size as int,
                                );
                            }
                        }
                    }
                }
            }
            self.result = Some(n);
        } else if page == self.last_page {
            self.result = Some(self.limit);
        } else {
            proof {
                assert(self.next_page < self.last_page);
                lemma_page_start(end - 1, ps);
                assert((self.last_page as int) % ps == 0);
                assert(((self.last_page - self.next_page) as int) % ps == 0) by {
                    vstd::arithmetic::div_mod::lemma_sub_mod_noop(
                        self.last_page as int,
                        self.next_page as int,
                        ps,
                    );
                    vstd::arithmetic::div_mod::lemma_small_mod(0, ps as nat);
                }
                assert(self.last_page - self.next_page >= ps) by {
                    if self.last_page - self.next_page < ps {
                        vstd::arithmetic::div_mod::lemma_small_mod(
                            (self.last_page - self.next_page) as nat,
                            ps as nat,
                        );
                    }
                }
                assert(((self.next_page + ps) as int) % ps == 0) by {
                    vstd::arithmetic::div_mod::lemma_mod_add_multiples_vanish(
                        self.next_page as int,
                        ps,
                    );
                }
            }
            self.next_page = page + self.page_size;
        }
    }
}

} // verus!
