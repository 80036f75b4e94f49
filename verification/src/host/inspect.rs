//! Reading the schedules back from the links.
//!
//! The operations that follow links require them to be well-formed. These functions tell, for
//! links that were loaded from memory, whether they are.

use crate::ehci::{link_pointer, link_type, FRAME_LIST_LEN, LINK_TERMINATE};
use crate::host::statics::UsbStatics;
use crate::host::{NUM_QH, QH_POOL_LEN};
use vstd::prelude::*;

verus! {

/// Pool indices as numbers.
pub open spec fn indices(nodes: Seq<usize>) -> Seq<int> {
    Seq::new(nodes.len(), |k: int| nodes[k] as int)
}

/// Whether a list of pool indices holds `q`.
fn has_index(nodes: &Vec<usize>, q: usize) -> (found: bool)
    ensures
        found == indices(nodes@).contains(q as int),
{
    let mut k: usize = 0;
    while k < nodes.len()
        invariant
            k <= nodes.len(),
            forall|j: int| 0 <= j < k ==> #[trigger] nodes@[j] != q,
        decreases nodes.len() - k,
    {
        if nodes[k] == q {
            assert(indices(nodes@)[k as int] == q);
            return true;
        }
        k = k + 1;
    }
    false
}

impl UsbStatics {
    /// The pool index of the queue head that a link leads to.
    fn linked_qh(&self, link: u32) -> (index: Option<usize>)
        requires
            self.wf(),
        ensures
            match index {
                Some(i) => i < QH_POOL_LEN && link == crate::host::links::qh_link(
                    self@.layout,
                    i as int,
                ),
                None => forall|i: int|
                    0 <= i < QH_POOL_LEN ==> link != #[trigger] crate::host::links::qh_link(
                        self@.layout,
                        i,
                    ),
            },
    {
        let mut i: usize = 0;
        while i < QH_POOL_LEN
            invariant
                self.wf(),
                i <= QH_POOL_LEN,
                forall|j: int|
                    0 <= j < i ==> link != #[trigger] crate::host::links::qh_link(self@.layout, j),
            decreases QH_POOL_LEN - i,
        {
            if link == link_pointer(self.qh_ptr(i), link_type::QH) {
                return Some(i);
            }
            i = i + 1;
        }
        None
    }

    /// The queue heads in the async schedule, in the order in which the controller visits them
    /// after the sentinel; `None` if the links make no ring through the sentinel.
    pub fn async_schedule(&self) -> (ring: Option<Vec<usize>>)
        requires
            self.wf(),
        ensures
            match ring {
                Some(nodes) => {
                    &&& self@.is_async_ring(indices(nodes@))
                    &&& self@.async_ring() == indices(nodes@)
                },
                None => forall|r: Seq<int>| !#[trigger] self@.is_async_ring(r),
            },
    {
        let ghost s = self@;
        let mut nodes: Vec<usize> = Vec::new();
        let mut prev: usize = 0;
        loop
            invariant
                self.wf(),
                s == self@,
                prev < QH_POOL_LEN,
                indices(nodes@).no_duplicates(),
                forall|k: int|
                    0 <= k < nodes@.len() ==> 1 <= #[trigger] indices(nodes@)[k] <= NUM_QH,
                prev == crate::host::links::ring_node(indices(nodes@), nodes@.len() as int),
                forall|k: int|
                    0 <= k < nodes@.len() ==> #[trigger] s.links()[crate::host::links::ring_node(
                        indices(nodes@),
                        k,
                    )] == crate::host::links::qh_link(
                        s.layout,
                        crate::host::links::ring_node(indices(nodes@), k + 1),
                    ),
                forall|r: Seq<int>| #[trigger]
                    s.is_async_ring(r) ==> nodes@.len() <= r.len() && indices(nodes@) == r.take(
                        nodes@.len() as int,
                    ),
            decreases NUM_QH - nodes@.len(),
        {
            let ghost built = indices(nodes@);
            let ghost n = built.len() as int;
            let link: u32 = self.qh_pool[prev].horizontal_link.read();
            assert(link == s.links()[prev as int]);
            proof {
                crate::host::links::lemma_chain_len(built);
                // Any ring goes on from here along this link
                assert forall|r: Seq<int>| #[trigger] s.is_async_ring(r) implies link
                    == crate::host::links::qh_link(
                    s.layout,
                    crate::host::links::ring_node(r, n + 1),
                ) by {
                    if n > 0 {
                        assert(r.take(n)[n - 1] == r[n - 1]);
                    }
                    assert(crate::host::links::ring_node(r, n) == prev);
                    assert(s.links()[crate::host::links::ring_node(r, n)]
                        == crate::host::links::qh_link(
                        s.layout,
                        crate::host::links::ring_node(r, n + 1),
                    ));
                }
            }
            match self.linked_qh(link) {
                None => {
                    assert forall|r: Seq<int>| !#[trigger] s.is_async_ring(r) by {
                        if s.is_async_ring(r) {
                            let next = crate::host::links::ring_node(r, n + 1);
                            if n < r.len() {
                                assert(r[n] == next);
                            }
                            assert(0 <= next < QH_POOL_LEN);
                        }
                    }
                    return None;
                },
                Some(i) => {
                    proof {
                        assert forall|r: Seq<int>| #[trigger] s.is_async_ring(r) implies
                            crate::host::links::ring_node(r, n + 1) == i by {
                            if n < r.len() {
                                assert(r[n] == crate::host::links::ring_node(r, n + 1));
                            }
                            crate::host::links::lemma_qh_link_injective(
                                s.layout,
                                crate::host::links::ring_node(r, n + 1),
                                i as int,
                            );
                        }
                    }
                    if i == 0 {
                        proof {
                            assert forall|k: int| 0 <= k <= built.len() implies
                                #[trigger] s.links()[crate::host::links::ring_node(built, k)]
                                == crate::host::links::qh_link(
                                s.layout,
                                crate::host::links::ring_node(built, k + 1),
                            ) by {
                            }
                            assert(s.is_async_ring(built));
                            crate::host::links::lemma_ring_unique(
                                s.layout,
                                s.links(),
                                s.async_ring(),
                                built,
                            );
                        }
                        return Some(nodes);
                    }
                    if has_index(&nodes, i) {
                        assert forall|r: Seq<int>| !#[trigger] s.is_async_ring(r) by {
                            if s.is_async_ring(r) {
                                let j = built.index_of(i as int);
                                assert(built[j] == i);
                                assert(r.take(n)[j] == r[j]);
                                assert(r[n] == i);
                            }
                        }
                        return None;
                    }
                    nodes.push(i);
                    prev = i;
                    proof {
                        let longer = indices(nodes@);
                        assert(longer =~= built.push(i as int));
                        assert forall|k: int| 0 <= k < longer.len() implies
                            #[trigger] s.links()[crate::host::links::ring_node(longer, k)]
                            == crate::host::links::qh_link(
                            s.layout,
                            crate::host::links::ring_node(longer, k + 1),
                        ) by {
                            assert(crate::host::links::ring_node(longer, k)
                                == crate::host::links::ring_node(built, k));
                            if k < n {
                                assert(s.links()[crate::host::links::ring_node(built, k)]
                                    == crate::host::links::qh_link(
                                    s.layout,
                                    crate::host::links::ring_node(built, k + 1),
                                ));
                                assert(crate::host::links::ring_node(longer, k + 1)
                                    == crate::host::links::ring_node(built, k + 1));
                            }
                        }
                        assert forall|r: Seq<int>| #[trigger] s.is_async_ring(r) implies
                            longer.len() <= r.len() && longer == r.take(longer.len() as int) by {
                            assert(r[n] == i);
                            assert(longer =~= r.take(n + 1)) by {
                                assert forall|k: int| 0 <= k < longer.len() implies longer[k]
                                    == r.take(n + 1)[k] by {
                                    if k < n {
                                        assert(built[k] == r.take(n)[k]);
                                    }
                                }
                            }
                        }
                        assert forall|k: int| 0 <= k < longer.len() implies 1
                            <= #[trigger] longer[k] <= NUM_QH by {
                            if k < n {
                                assert(longer[k] == built[k]);
                            }
                        }
                        crate::host::links::lemma_chain_len(longer);
                    }
                },
            }
        }
    }

    /// The queue heads in the periodic schedule, in the order in which the controller visits them
    /// in each frame; `None` if the frame list entries differ, or lead to no chain.
    pub fn periodic_schedule(&self) -> (chain: Option<Vec<usize>>)
        requires
            self.wf(),
        ensures
            match chain {
                Some(nodes) => {
                    &&& self@.is_periodic_chain(indices(nodes@))
                    &&& self@.periodic_chain() == indices(nodes@)
                },
                None => forall|c: Seq<int>| !#[trigger] self@.is_periodic_chain(c),
            },
    {
        let ghost s = self@;
        let head: u32 = self.frame_list.entries[0].read();
        let mut f: usize = 0;
        while f < FRAME_LIST_LEN
            invariant
                self.wf(),
                s == self@,
                head == s.frames[0],
                f <= FRAME_LIST_LEN,
                forall|j: int| 0 <= j < f ==> #[trigger] s.frames[j] == head,
            decreases FRAME_LIST_LEN - f,
        {
            if self.frame_list.entries[f].read() != head {
                assert(s.frames[f as int] != head);
                assert(crate::ehci::FrameList::all(head)[f as int] == head);
                return None;
            }
            assert(s.frames[f as int] == head);
            f = f + 1;
        }
        assert(s.frames =~= crate::ehci::FrameList::all(head));
        let mut nodes: Vec<usize> = Vec::new();
        let mut link: u32 = head;
        while link != LINK_TERMINATE
            invariant
                self.wf(),
                s == self@,
                head == s.frames[0],
                s.frames == crate::ehci::FrameList::all(head),
                indices(nodes@).no_duplicates(),
                forall|k: int|
                    0 <= k < nodes@.len() ==> 1 <= #[trigger] indices(nodes@)[k] <= NUM_QH,
                nodes@.len() == 0 ==> link == head,
                nodes@.len() > 0 ==> {
                    &&& head == crate::host::links::qh_link(s.layout, indices(nodes@)[0])
                    &&& link == s.links()[indices(nodes@)[nodes@.len() - 1]]
                },
                forall|k: int|
                    0 <= k < nodes@.len() - 1 ==> s.links()[#[trigger] indices(nodes@)[k]]
                        == crate::host::links::qh_link(s.layout, indices(nodes@)[k + 1]),
                forall|c: Seq<int>| #[trigger]
                    s.is_periodic_chain(c) ==> nodes@.len() <= c.len() && indices(nodes@) == c.take(
                        nodes@.len() as int,
                    ),
            decreases NUM_QH - nodes@.len(),
        {
            let ghost built = indices(nodes@);
            let ghost n = built.len() as int;
            proof {
                crate::host::links::lemma_chain_len(built);
                // Any chain goes on from here along this link
                assert forall|c: Seq<int>| #[trigger] s.is_periodic_chain(c) implies n < c.len()
                    && link == crate::host::links::qh_link(s.layout, c[n]) by {
                    if n > 0 {
                        assert(c.take(n)[n - 1] == c[n - 1]);
                        assert(s.links()[c[n - 1]] == crate::host::links::chain_link(
                            s.layout,
                            c,
                            n - 1 + 1,
                        ));
                    }
                    assert(link == crate::host::links::chain_link(s.layout, c, n));
                }
            }
            let index: usize = match self.linked_qh(link) {
                Some(i) => i,
                None => {
                    assert forall|c: Seq<int>| !#[trigger] s.is_periodic_chain(c) by {
                        if s.is_periodic_chain(c) {
                            assert(1 <= c[n] <= NUM_QH);
                        }
                    }
                    return None;
                },
            };
            proof {
                assert forall|c: Seq<int>| #[trigger] s.is_periodic_chain(c) implies c[n]
                    == index by {
                    assert(1 <= c[n] <= NUM_QH);
                    crate::host::links::lemma_qh_link_injective(s.layout, c[n], index as int);
                }
            }
            if index == 0 || has_index(&nodes, index) {
                assert forall|c: Seq<int>| !#[trigger] s.is_periodic_chain(c) by {
                    if s.is_periodic_chain(c) {
                        assert(1 <= c[n] <= NUM_QH);
                        let j = built.index_of(index as int);
                        assert(built[j] == index);
                        assert(c.take(n)[j] == c[j]);
                    }
                }
                return None;
            }
            nodes.push(index);
            link = self.qh_pool[index].horizontal_link.read();
            proof {
                let longer = indices(nodes@);
                assert(longer =~= built.push(index as int));
                assert(link == s.links()[index as int]);
                assert forall|k: int| 0 <= k < longer.len() implies 1 <= #[trigger] longer[k]
                    <= NUM_QH by {
                    if k < n {
                        assert(longer[k] == built[k]);
                    }
                }
                assert forall|k: int| 0 <= k < longer.len() - 1 implies
                    s.links()[#[trigger] longer[k]] == crate::host::links::qh_link(
                    s.layout,
                    longer[k + 1],
                ) by {
                    assert(longer[k] == built[k]);
                    if k < n - 1 {
                        assert(longer[k + 1] == built[k + 1]);
                    }
                }
                assert forall|c: Seq<int>| #[trigger] s.is_periodic_chain(c) implies longer.len()
                    <= c.len() && longer == c.take(longer.len() as int) by {
                    assert(longer =~= c.take(n + 1)) by {
                        assert forall|k: int| 0 <= k < longer.len() implies longer[k] == c.take(
                            n + 1,
                        )[k] by {
                            if k < n {
                                assert(built[k] == c.take(n)[k]);
                            }
                        }
                    }
                }
                crate::host::links::lemma_chain_len(longer);
            }
        }
        proof {
            let built = indices(nodes@);
            assert forall|k: int| 0 <= k < built.len() implies s.links()[#[trigger] built[k]]
                == crate::host::links::chain_link(s.layout, built, k + 1) by {
            }
            assert(s.is_periodic_chain(built));
            crate::host::links::lemma_chain_unique(
                s.layout,
                s.links(),
                head,
                s.periodic_chain(),
                built,
            );
        }
        Some(nodes)
    }

    /// Whether both schedules are well-formed, and no queue head is in both.
    pub fn has_schedules(&self) -> (ok: bool)
        requires
            self.wf(),
        ensures
            ok == self@.schedules_wf(),
    {
        let ring = match self.async_schedule() {
            Some(ring) => ring,
            None => {
                return false;
            },
        };
        let chain = match self.periodic_schedule() {
            Some(chain) => chain,
            None => {
                return false;
            },
        };
        let mut k: usize = 0;
        while k < ring.len()
            invariant
                self@.async_ring() == indices(ring@),
                self@.periodic_chain() == indices(chain@),
                k <= ring.len(),
                forall|j: int|
                    0 <= j < k ==> !indices(chain@).contains(#[trigger] indices(ring@)[j]),
            decreases ring.len() - k,
        {
            if has_index(&chain, ring[k]) {
                proof {
                    assert(indices(ring@)[k as int] == ring[k as int]);
                    assert(self@.async_ring().contains(ring[k as int] as int));
                    assert(self@.periodic_chain().contains(ring[k as int] as int));
                }
                return false;
            }
            k = k + 1;
        }
        proof {
            assert forall|i: int|
                !(#[trigger] self@.async_ring().contains(i) && self@.periodic_chain().contains(
                    i,
                )) by {
                if self@.async_ring().contains(i) {
                    let j = indices(ring@).index_of(i);
                    assert(indices(ring@)[j] == i);
                }
            }
        }
        true
    }

    /// Whether the schedules are well-formed, and the queue head `q` is in the async schedule.
    pub fn is_running(&self, q: usize) -> (running: bool)
        requires
            self.wf(),
        ensures
            running == self@.running(q as int),
    {
        if !self.has_schedules() {
            return false;
        }
        match self.async_schedule() {
            Some(ring) => has_index(&ring, q),
            None => false,
        }
    }
}

} // verus!
