//! Diagnostic helpers.

use crate::ehci::{link_address, link_is_terminate};
use crate::host::controller::{ControllerView, ImxrtHostController};
use crate::host::statics::{DmaLayout, StaticsView};
use crate::host::{NUM_QH, QH_POOL_LEN};
use vstd::prelude::*;

verus! {

/// The name of a queue head: `QH` and its pool index.
pub open spec fn qh_name(q: int) -> Seq<char> {
    seq!['Q', 'H', (0x30 + q) as char]
}

/// The names of the queue heads of a chain, with arrows in between.
pub open spec fn chain_text(chain: Seq<int>) -> Seq<char>
    decreases chain.len(),
{
    if chain.len() == 0 {
        Seq::empty()
    } else if chain.len() == 1 {
        qh_name(chain[0])
    } else {
        chain_text(chain.drop_last()) + seq!['-', '>'] + qh_name(chain.last())
    }
}

/// After cache maintenance of the queue heads of a chain, in its order.
pub open spec fn chain_cleaned(hc: ControllerView, chain: Seq<int>) -> ControllerView
    decreases chain.len(),
{
    if chain.len() == 0 {
        hc
    } else {
        chain_cleaned(hc, chain.drop_last()).clean_qh(chain.last())
    }
}

/// The digit of a pool index.
fn qh_digit(q: usize) -> (digit: char)
    requires
        q <= NUM_QH,
    ensures
        digit == (0x30 + q) as char,
{
    match q {
        0 => '0',
        1 => '1',
        2 => '2',
        3 => '3',
        _ => '4',
    }
}

/// The most queue heads that a description names: one more than there are for endpoints.
pub const MAX_NAMED: usize = 5;

/// The pool index of the queue head at an address.
pub open spec fn qh_at(layout: DmaLayout, addr: u32) -> Option<int> {
    let offset = addr - layout.qh_base;
    if 0 <= offset < 64 * QH_POOL_LEN && offset % 64 == 0 {
        Some(offset / 64)
    } else {
        None
    }
}

/// Whether each of the first `n` links from `link` on terminates or leads to a queue head of the
/// pool.
pub open spec fn walkable(s: StaticsView, link: u32, n: nat) -> bool
    decreases n,
{
    n == 0 || link_is_terminate(link) || match qh_at(s.layout, link_address(link)) {
        Some(i) => walkable(s, s.qh[i].horizontal_link@, (n - 1) as nat),
        None => false,
    }
}

/// The first queue heads, `n` at most, that are reached from `link` on.
pub open spec fn walked(s: StaticsView, link: u32, n: nat) -> Seq<int>
    decreases n,
{
    if n == 0 || link_is_terminate(link) {
        Seq::empty()
    } else {
        match qh_at(s.layout, link_address(link)) {
            Some(i) => seq![i] + walked(s, s.qh[i].horizontal_link@, (n - 1) as nat),
            None => Seq::empty(),
        }
    }
}

/// What is reached along a well-formed periodic schedule is the schedule.
pub proof fn lemma_walked_chain(s: StaticsView, chain: Seq<int>)
    requires
        s.wf(),
        s.is_periodic_chain(chain),
    ensures
        walkable(s, s.frames[0], MAX_NAMED as nat),
        walked(s, s.frames[0], MAX_NAMED as nat) == chain,
{
    crate::host::links::lemma_chain_len(chain);
    lemma_walked_from(s, chain, 0, MAX_NAMED as nat);
    assert(chain.skip(0) =~= chain);
}

proof fn lemma_walked_from(s: StaticsView, chain: Seq<int>, k: int, n: nat)
    requires
        s.wf(),
        s.is_periodic_chain(chain),
        0 <= k <= chain.len(),
        chain.len() - k < n,
    ensures
        walkable(s, crate::host::links::chain_link(s.layout, chain, k), n),
        walked(s, crate::host::links::chain_link(s.layout, chain, k), n) == chain.skip(k),
    decreases n,
{
    crate::host::links::lemma_qh_link(s.layout, 0);
    if k < chain.len() {
        crate::host::links::lemma_qh_link(s.layout, chain[k]);
        assert(s.links()[chain[k]] == crate::host::links::chain_link(s.layout, chain, k + 1));
        lemma_walked_from(s, chain, k + 1, (n - 1) as nat);
        assert(chain.skip(k) =~= seq![chain[k]] + chain.skip(k + 1));
    } else {
        assert(chain.skip(k) =~= Seq::empty());
    }
}

impl<'p> ImxrtHostController<'p> {
    /// Find the queue head at an address.
    fn find_qh(&self, addr: u32) -> (index: Option<usize>)
        requires
            self.wf(),
        ensures
            match index {
                Some(i) => i < QH_POOL_LEN && qh_at(self@.statics.layout, addr) == Some(i as int),
                None => qh_at(self@.statics.layout, addr) is None,
            },
    {
        let mut i: usize = 0;
        while i < QH_POOL_LEN
            invariant
                self.wf(),
                i <= QH_POOL_LEN,
                forall|j: int|
                    0 <= j < i ==> addr != #[trigger] self@.statics.layout.qh_address(j),
            decreases QH_POOL_LEN - i,
        {
            if self.statics.qh_ptr(i) == addr {
                return Some(i);
            }
            i = i + 1;
        }
        proof {
            let offset = addr - self@.statics.layout.qh_base;
            if 0 <= offset < 64 * QH_POOL_LEN && offset % 64 == 0 {
                assert(addr == self@.statics.layout.qh_address(offset / 64));
            }
        }
        None
    }

    /// Whether the periodic schedule can be described: each link that is reached terminates or
    /// leads to a queue head of the pool.
    pub fn can_log_periodic_chain(&self) -> (ok: bool)
        requires
            self.wf(),
        ensures
            ok == walkable(self@.statics, self@.statics.frames[0], MAX_NAMED as nat),
    {
        let ghost s = self@.statics;
        let mut link: u32 = self.statics.frame_list.entries[0].read();
        let mut step: usize = 0;
        while step < MAX_NAMED
            invariant
                self.wf(),
                s == self@.statics,
                step <= MAX_NAMED,
                walkable(s, s.frames[0], MAX_NAMED as nat) == walkable(
                    s,
                    link,
                    (MAX_NAMED - step) as nat,
                ),
            decreases MAX_NAMED - step,
        {
            if link_is_terminate(link) {
                return true;
            }
            match self.find_qh(link_address(link)) {
                Some(i) => {
                    link = self.statics.qh_pool[i].horizontal_link.read();
                },
                None => {
                    return false;
                },
            }
            step = step + 1;
        }
        true
    }

    /// Describe the periodic schedule chain for debugging.
    ///
    /// Walks from the first frame list entry from QH to QH, and yields the names of the first
    /// QHs, or `[empty]`. The walk is bounded, so that it ends for links that run in a circle.
    pub fn log_periodic_chain(&mut self) -> (text: Vec<char>)
        requires
            old(self).wf(),
            walkable(old(self)@.statics, old(self)@.statics.frames[0], MAX_NAMED as nat),
        ensures
            final(self).wf(),
            ({
                let s = old(self)@.statics;
                let reached = walked(s, s.frames[0], MAX_NAMED as nat);
                &&& text@ == (if link_is_terminate(s.frames[0]) {
                    seq!['[', 'e', 'm', 'p', 't', 'y', ']']
                } else {
                    chain_text(reached)
                })
                &&& final(self)@ == chain_cleaned(old(self)@, reached)
                &&& s.is_periodic_chain(s.periodic_chain()) ==> reached == s.periodic_chain()
            }),
    {
        let ghost s = self@.statics;
        let ghost reached = walked(s, s.frames[0], MAX_NAMED as nat);
        proof {
            if s.is_periodic_chain(s.periodic_chain()) {
                lemma_walked_chain(s, s.periodic_chain());
            }
        }
        let mut text: Vec<char> = Vec::new();
        let mut link: u32 = self.statics.frame_list.entries[0].read();
        if link_is_terminate(link) {
            text.push('[');
            text.push('e');
            text.push('m');
            text.push('p');
            text.push('t');
            text.push('y');
            text.push(']');
            assert(text@ =~= seq!['[', 'e', 'm', 'p', 't', 'y', ']']);
            return text;
        }
        let ghost mut done: Seq<int> = Seq::empty();
        let mut step: usize = 0;
        assert(done + reached =~= reached);
        while step < MAX_NAMED
            invariant_except_break
                reached == done + walked(s, link, (MAX_NAMED - step) as nat),
                walkable(s, link, (MAX_NAMED - step) as nat),
            invariant
                self.wf(),
                self@.statics == s,
                s == old(self)@.statics,
                step <= MAX_NAMED,
                done.len() == step,
                text@.len() > 0 <==> step > 0,
                text@ == chain_text(done),
                self@ == chain_cleaned(old(self)@, done),
            ensures
                done == reached,
            decreases MAX_NAMED - step,
        {
            if link_is_terminate(link) {
                assert(done + Seq::<int>::empty() =~= done);
                break;
            }
            let index: usize = self.find_qh(link_address(link)).unwrap();
            let ghost q = index as int;
            let ghost before = text@;
            if step > 0 {
                text.push('-');
                text.push('>');
            }
            text.push('Q');
            text.push('H');
            text.push(qh_digit(index));
            // Follow horizontal_link
            self.cache_clean_qh(index);
            link = self.statics.qh_pool[index].horizontal_link.read();
            proof {
                let more = done.push(q);
                assert(more.drop_last() =~= done);
                if step > 0 {
                    assert(text@ =~= before + seq!['-', '>'] + qh_name(q));
                } else {
                    assert(text@ =~= qh_name(q));
                }
                let rest = walked(s, link, (MAX_NAMED - step - 1) as nat);
                assert(done + (seq![q] + rest) =~= more + rest);
                done = more;
            }
            step = step + 1;
            proof {
                if step == MAX_NAMED {
                    assert(done + Seq::<int>::empty() =~= done);
                }
            }
        }
        text
    }
}

} // verus!
