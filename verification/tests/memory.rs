use hudhook::pointer_chain::{PointerChain, WalkStep};
use hudhook::region::{RegionScan, RegionStep};

/// Drives a chain walk against a memory map given as (address, word) pairs.
fn eval(chain: &[usize], memory: &[(usize, usize)]) -> Option<usize> {
    let c = PointerChain::new(chain);
    let mut w = c.walk();
    loop {
        match w.next() {
            WalkStep::Done(r) => return r,
            WalkStep::Read(a) => {
                let word = memory.iter().find(|(addr, _)| *addr == a).map(|(_, v)| *v);
                w.report(word);
            },
        }
    }
}

#[test]
fn chain_follows_each_pointer_then_adds_the_offset() {
    // [a, b, c] evaluates to *(*a + b) + c.
    let memory = [(0x1000usize, 0x2000usize), (0x2010, 0x3000)];
    assert_eq!(eval(&[0x1000, 0x10, 0x8], &memory), Some(0x3008));
    // A chain of one address is the address itself.
    assert_eq!(eval(&[0x1234], &memory), Some(0x1234));
    // [a, b] reads once: *a + b.
    assert_eq!(eval(&[0x1000, 0x4], &memory), Some(0x2004));
}

#[test]
fn chain_fails_on_an_unreadable_pointer() {
    let memory = [(0x1000usize, 0x2000usize)];
    assert_eq!(eval(&[0x1000, 0x10, 0x8], &memory), None);
    assert_eq!(eval(&[0x5000, 0x10], &memory), None);
}

fn scan(ptr: usize, limit: usize, elem: usize, page: usize, readable: &[usize]) -> usize {
    let mut s = RegionScan::new(ptr, limit, elem, page);
    loop {
        match s.next() {
            RegionStep::Done(n) => return n,
            RegionStep::Probe(p) => s.report(readable.contains(&p)),
        }
    }
}

#[test]
fn region_is_cut_at_the_first_unreadable_page() {
    // 0x2000 bytes from 0x1100 span the pages at 0x1000, 0x2000 and 0x3000.
    assert_eq!(scan(0x1100, 0x2000, 1, 0x1000, &[0x1000, 0x2000, 0x3000]), 0x2000);
    assert_eq!(scan(0x1100, 0x2000, 1, 0x1000, &[0x1000]), 0xF00);
    assert_eq!(scan(0x1100, 0x2000, 1, 0x1000, &[0x1000, 0x2000]), 0x1F00);
    // Elements of 4 bytes: only whole elements before the page count.
    assert_eq!(scan(0x1100, 0x600, 4, 0x1000, &[0x1000]), 0x3C0);
    // The first page itself unreadable: nothing can be read.
    assert_eq!(scan(0x1100, 0x10, 1, 0x1000, &[]), 0);
}

#[test]
fn region_probes_pages_in_order() {
    let mut s = RegionScan::new(0x1100, 0x2000, 1, 0x1000);
    assert_eq!(s.next(), RegionStep::Probe(0x1000));
    s.report(true);
    assert_eq!(s.next(), RegionStep::Probe(0x2000));
    s.report(true);
    assert_eq!(s.next(), RegionStep::Probe(0x3000));
    s.report(false);
    assert_eq!(s.next(), RegionStep::Done(0x1F00));
}

#[test]
fn region_readable_page_then_unreadable_page() {
    // A readable page at 0x10000 followed by an unreadable one at 0x11000.
    const PAGE: usize = 0x1000;
    let base = 0x10000usize;
    let readable = [base];
    assert_eq!(scan(base, PAGE, 1, PAGE, &readable), PAGE);
    assert_eq!(scan(base, PAGE + 1, 1, PAGE, &readable), PAGE);
    assert_eq!(scan(base + PAGE, 1, 1, PAGE, &readable), 0);
    assert_eq!(scan(base + PAGE - 1, 2, 1, PAGE, &readable), 1);
}
