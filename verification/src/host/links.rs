//! How queue heads are linked into the schedules.
//!
//! The async schedule is a ring of queue heads through the sentinel, pool index 0. The
//! periodic schedule is a chain of queue heads that every frame list entry leads to. Both
//! are made of the horizontal links of the queue heads in the pool.

use crate::ehci::{link_pointer, link_type, LINK_TERMINATE};
use crate::ehci::FrameList;
use crate::host::statics::{DmaLayout, StaticsView};
use crate::host::{NUM_QH, QH_POOL_LEN};
use vstd::prelude::*;

verus! {

/// The link to the queue head with pool index `i`.
pub open spec fn qh_link(layout: DmaLayout, i: int) -> u32 {
    link_pointer(layout.qh_address(i), link_type::QH)
}

proof fn lemma_front_no_duplicates(nodes: Seq<int>, q: int)
    requires
        nodes.no_duplicates(),
        !nodes.contains(q),
    ensures
        (seq![q] + nodes).no_duplicates(),
{
    let longer = seq![q] + nodes;
    assert forall|i: int, j: int|
        0 <= i < longer.len() && 0 <= j < longer.len() && i != j implies longer[i]
        != longer[j] by {
        if i > 0 {
            assert(longer[i] == nodes[i - 1]);
        }
        if j > 0 {
            assert(longer[j] == nodes[j - 1]);
        }
    }
}

proof fn lemma_remove_no_duplicates(nodes: Seq<int>, m: int)
    requires
        nodes.no_duplicates(),
        0 <= m < nodes.len(),
    ensures
        nodes.remove(m).no_duplicates(),
{
    let shorter = nodes.remove(m);
    assert forall|i: int, j: int|
        0 <= i < shorter.len() && 0 <= j < shorter.len() && i != j implies shorter[i]
        != shorter[j] by {
        let oi = if i < m {
            i
        } else {
            i + 1
        };
        let oj = if j < m {
            j
        } else {
            j + 1
        };
        assert(shorter[i] == nodes[oi]);
        assert(shorter[j] == nodes[oj]);
    }
}

// ---------------------------------------------------------------------------
// Rings
// ---------------------------------------------------------------------------

/// The node at position `k` of the ring that goes from the sentinel through the nodes of
/// `ring` and back to the sentinel.
pub open spec fn ring_node(ring: Seq<int>, k: int) -> int {
    if 1 <= k <= ring.len() {
        ring[k - 1]
    } else {
        0
    }
}

/// Whether the horizontal links `links` make a ring that goes from the sentinel through the
/// nodes of `ring`, in this order and each once, and back to the sentinel.
pub open spec fn is_ring(layout: DmaLayout, links: Seq<u32>, ring: Seq<int>) -> bool {
    &&& ring.no_duplicates()
    &&& forall|k: int| 0 <= k < ring.len() ==> 1 <= #[trigger] ring[k] <= NUM_QH
    &&& forall|k: int|
        0 <= k <= ring.len() ==> #[trigger] links[ring_node(ring, k)] == qh_link(
            layout,
            ring_node(ring, k + 1),
        )
}

/// Links to two different queue heads of the pool differ.
pub proof fn lemma_qh_link_injective(layout: DmaLayout, i: int, j: int)
    requires
        layout.wf(),
        0 <= i < QH_POOL_LEN,
        0 <= j < QH_POOL_LEN,
        qh_link(layout, i) == qh_link(layout, j),
    ensures
        i == j,
{
    assert(link_type::QH < 32) by (bit_vector);
    crate::ehci::lemma_link_injective(
        layout.qh_address(i),
        layout.qh_address(j),
        link_type::QH,
    );
}

/// The link to a queue head leads to its address, and is not the terminating link.
pub proof fn lemma_qh_link(layout: DmaLayout, i: int)
    requires
        layout.wf(),
        0 <= i < QH_POOL_LEN,
    ensures
        crate::ehci::link_address(qh_link(layout, i)) == layout.qh_address(i),
        !crate::ehci::link_is_terminate(qh_link(layout, i)),
        qh_link(layout, i) != LINK_TERMINATE,
        crate::ehci::link_address(LINK_TERMINATE) == 0,
        crate::ehci::link_is_terminate(LINK_TERMINATE),
{
    assert(link_type::QH == 2) by (bit_vector);
    assert(LINK_TERMINATE & !0x1Fu32 == 0 && LINK_TERMINATE & LINK_TERMINATE != 0) by (bit_vector);
    crate::ehci::lemma_link_round_trip(layout.qh_address(i), link_type::QH);
}

/// The ring that given links make is the only one.
pub proof fn lemma_ring_unique(layout: DmaLayout, links: Seq<u32>, a: Seq<int>, b: Seq<int>)
    requires
        layout.wf(),
        is_ring(layout, links, a),
        is_ring(layout, links, b),
    ensures
        a == b,
{
    if a.len() <= b.len() {
        lemma_ring_agree(layout, links, a, b, a.len() as int);
        lemma_ring_same_len(layout, links, a, b);
    } else {
        lemma_ring_agree(layout, links, b, a, b.len() as int);
        lemma_ring_same_len(layout, links, b, a);
    }
    assert(a =~= b) by {
        assert forall|k: int| 0 <= k < a.len() implies a[k] == b[k] by {
            assert(ring_node(a, k + 1) == a[k]);
            assert(ring_node(b, k + 1) == b[k]);
        }
    }
}

proof fn lemma_ring_agree(layout: DmaLayout, links: Seq<u32>, a: Seq<int>, b: Seq<int>, n: int)
    requires
        layout.wf(),
        is_ring(layout, links, a),
        is_ring(layout, links, b),
        0 <= n <= a.len() <= b.len(),
    ensures
        forall|k: int| 0 <= k <= n ==> #[trigger] ring_node(a, k) == ring_node(b, k),
    decreases n,
{
    if n > 0 {
        lemma_ring_agree(layout, links, a, b, n - 1);
        assert(ring_node(a, n - 1) == ring_node(b, n - 1));
        assert(links[ring_node(a, n - 1)] == qh_link(layout, ring_node(a, n - 1 + 1)));
        assert(links[ring_node(b, n - 1)] == qh_link(layout, ring_node(b, n - 1 + 1)));
        lemma_qh_link_injective(layout, ring_node(a, n), ring_node(b, n));
    }
}

proof fn lemma_ring_same_len(layout: DmaLayout, links: Seq<u32>, a: Seq<int>, b: Seq<int>)
    requires
        layout.wf(),
        is_ring(layout, links, a),
        is_ring(layout, links, b),
        a.len() <= b.len(),
        forall|k: int| 0 <= k <= a.len() ==> #[trigger] ring_node(a, k) == ring_node(b, k),
    ensures
        a.len() == b.len(),
{
    let n = a.len() as int;
    assert(ring_node(a, n) == ring_node(b, n));
    assert(links[ring_node(a, n)] == qh_link(layout, ring_node(a, n + 1)));
    assert(links[ring_node(b, n)] == qh_link(layout, ring_node(b, n + 1)));
    lemma_qh_link_injective(layout, ring_node(a, n + 1), ring_node(b, n + 1));
}

/// Links that agree on the sentinel and on the nodes of a ring make the same ring.
pub proof fn lemma_ring_frame(
    layout: DmaLayout,
    links: Seq<u32>,
    changed: Seq<u32>,
    ring: Seq<int>,
)
    requires
        is_ring(layout, links, ring),
        changed[0] == links[0],
        forall|k: int| 0 <= k < ring.len() ==> changed[#[trigger] ring[k]] == links[ring[k]],
    ensures
        is_ring(layout, changed, ring),
{
    assert forall|k: int| 0 <= k <= ring.len() implies #[trigger] changed[ring_node(ring, k)]
        == qh_link(layout, ring_node(ring, k + 1)) by {
        assert(links[ring_node(ring, k)] == qh_link(layout, ring_node(ring, k + 1)));
        if k >= 1 {
            assert(changed[ring[k - 1]] == links[ring[k - 1]]);
        }
    }
}

/// Linking a queue head after the sentinel puts it in front of the ring.
pub proof fn lemma_ring_link(layout: DmaLayout, links: Seq<u32>, ring: Seq<int>, q: int)
    requires
        is_ring(layout, links, ring),
        links.len() == QH_POOL_LEN,
        1 <= q <= NUM_QH,
        !ring.contains(q),
    ensures
        is_ring(
            layout,
            links.update(q, links[0]).update(0, qh_link(layout, q)),
            seq![q] + ring,
        ),
{
    let longer = seq![q] + ring;
    let linked = links.update(q, links[0]).update(0, qh_link(layout, q));
    lemma_front_no_duplicates(ring, q);
    assert forall|k: int| 0 <= k < longer.len() implies 1 <= #[trigger] longer[k] <= NUM_QH by {
        if k > 0 {
            assert(longer[k] == ring[k - 1]);
        }
    }
    assert forall|k: int| 0 <= k <= longer.len() implies #[trigger] linked[ring_node(longer, k)]
        == qh_link(layout, ring_node(longer, k + 1)) by {
        if k == 0 {
            assert(ring_node(longer, 1) == q);
        } else if k == 1 {
            assert(links[ring_node(ring, 0)] == qh_link(layout, ring_node(ring, 1)));
            assert(ring_node(longer, 2) == ring_node(ring, 1));
        } else {
            assert(longer[k - 1] == ring[k - 2]);
            assert(ring_node(longer, k) == ring_node(ring, k - 1));
            assert(ring_node(longer, k + 1) == ring_node(ring, k));
            assert(links[ring_node(ring, k - 1)] == qh_link(layout, ring_node(ring, k - 1 + 1)));
            assert(ring.contains(ring[k - 2]));
        }
    }
}

/// Pointing the predecessor of a queue head at its successor takes it out of the ring.
pub proof fn lemma_ring_unlink(layout: DmaLayout, links: Seq<u32>, ring: Seq<int>, m: int)
    requires
        is_ring(layout, links, ring),
        links.len() == QH_POOL_LEN,
        0 <= m < ring.len(),
    ensures
        is_ring(
            layout,
            links.update(ring_node(ring, m), links[ring[m]]),
            ring.remove(m),
        ),
{
    let shorter = ring.remove(m);
    let p = ring_node(ring, m);
    let unlinked = links.update(p, links[ring[m]]);
    lemma_remove_no_duplicates(ring, m);
    assert forall|k: int| 0 <= k < shorter.len() implies 1 <= #[trigger] shorter[k] <= NUM_QH by {
        if k < m {
            assert(shorter[k] == ring[k]);
        } else {
            assert(shorter[k] == ring[k + 1]);
        }
    }
    assert(ring_node(ring, m + 1) == ring[m]);
    assert(links[ring_node(ring, m + 1)] == qh_link(layout, ring_node(ring, m + 2)));
    assert forall|k: int| 0 <= k <= shorter.len() implies #[trigger] unlinked[ring_node(shorter, k)]
        == qh_link(layout, ring_node(shorter, k + 1)) by {
        if k < m {
            assert(ring_node(shorter, k) == ring_node(ring, k));
            assert(ring_node(shorter, k + 1) == ring_node(ring, k + 1));
            assert(links[ring_node(ring, k)] == qh_link(layout, ring_node(ring, k + 1)));
            lemma_ring_nodes_differ(ring, k, m);
        } else if k == m {
            assert(ring_node(shorter, k) == p);
            assert(ring_node(shorter, k + 1) == ring_node(ring, m + 2));
        } else {
            assert(ring_node(shorter, k) == ring_node(ring, k + 1));
            assert(ring_node(shorter, k + 1) == ring_node(ring, k + 2));
            assert(links[ring_node(ring, k + 1)] == qh_link(layout, ring_node(ring, k + 1 + 1)));
            lemma_ring_nodes_differ(ring, k + 1, m);
        }
    }
}

/// The nodes of a ring at different positions differ.
pub proof fn lemma_ring_nodes_differ(ring: Seq<int>, i: int, j: int)
    requires
        ring.no_duplicates(),
        forall|k: int| 0 <= k < ring.len() ==> 1 <= #[trigger] ring[k] <= NUM_QH,
        0 <= i <= ring.len(),
        0 <= j <= ring.len(),
        i != j,
    ensures
        ring_node(ring, i) != ring_node(ring, j),
{
    if i > 0 {
        assert(ring_node(ring, i) == ring[i - 1]);
    }
    if j > 0 {
        assert(ring_node(ring, j) == ring[j - 1]);
    }
}

// ---------------------------------------------------------------------------
// Chains
// ---------------------------------------------------------------------------

/// The link that leads to position `k` of a chain: to its node there, or nowhere at its end.
pub open spec fn chain_link(layout: DmaLayout, chain: Seq<int>, k: int) -> u32 {
    if 0 <= k < chain.len() {
        qh_link(layout, chain[k])
    } else {
        LINK_TERMINATE
    }
}

/// Whether the horizontal links `links` make a chain that `head` leads to and that goes
/// through the nodes of `chain`, in this order and each once, and ends.
pub open spec fn is_chain(
    layout: DmaLayout,
    links: Seq<u32>,
    head: u32,
    chain: Seq<int>,
) -> bool {
    &&& chain.no_duplicates()
    &&& forall|k: int| 0 <= k < chain.len() ==> 1 <= #[trigger] chain[k] <= NUM_QH
    &&& head == chain_link(layout, chain, 0)
    &&& forall|k: int|
        0 <= k < chain.len() ==> #[trigger] links[chain[k]] == chain_link(layout, chain, k + 1)
}

proof fn lemma_chain_link_injective(layout: DmaLayout, a: Seq<int>, b: Seq<int>, k: int)
    requires
        layout.wf(),
        forall|i: int| 0 <= i < a.len() ==> 1 <= #[trigger] a[i] <= NUM_QH,
        forall|i: int| 0 <= i < b.len() ==> 1 <= #[trigger] b[i] <= NUM_QH,
        0 <= k,
        chain_link(layout, a, k) == chain_link(layout, b, k),
    ensures
        k < a.len() <==> k < b.len(),
        k < a.len() ==> a[k] == b[k],
{
    if k < a.len() {
        lemma_qh_link(layout, a[k]);
    }
    if k < b.len() {
        lemma_qh_link(layout, b[k]);
    }
    if k < a.len() && k < b.len() {
        lemma_qh_link_injective(layout, a[k], b[k]);
    }
}

proof fn lemma_chain_agree(
    layout: DmaLayout,
    links: Seq<u32>,
    head: u32,
    a: Seq<int>,
    b: Seq<int>,
    n: int,
)
    requires
        layout.wf(),
        is_chain(layout, links, head, a),
        is_chain(layout, links, head, b),
        0 <= n,
    ensures
        n < a.len() <==> n < b.len(),
        n < a.len() ==> a[n] == b[n],
    decreases n,
{
    if n == 0 {
        lemma_chain_link_injective(layout, a, b, 0);
    } else {
        lemma_chain_agree(layout, links, head, a, b, n - 1);
        if n - 1 < a.len() {
            assert(links[a[n - 1]] == chain_link(layout, a, n - 1 + 1));
            assert(links[b[n - 1]] == chain_link(layout, b, n - 1 + 1));
            lemma_chain_link_injective(layout, a, b, n);
        }
    }
}

/// The chain that a head and links make is the only one.
pub proof fn lemma_chain_unique(
    layout: DmaLayout,
    links: Seq<u32>,
    head: u32,
    a: Seq<int>,
    b: Seq<int>,
)
    requires
        layout.wf(),
        is_chain(layout, links, head, a),
        is_chain(layout, links, head, b),
    ensures
        a == b,
{
    assert(a.len() == b.len()) by {
        if a.len() < b.len() {
            lemma_chain_agree(layout, links, head, a, b, a.len() as int);
        } else if b.len() < a.len() {
            lemma_chain_agree(layout, links, head, a, b, b.len() as int);
        }
    }
    assert(a =~= b) by {
        assert forall|k: int| 0 <= k < a.len() implies a[k] == b[k] by {
            lemma_chain_agree(layout, links, head, a, b, k);
        }
    }
}

/// A chain visits each queue head of the pool at most once.
pub proof fn lemma_chain_len(chain: Seq<int>)
    requires
        chain.no_duplicates(),
        forall|k: int| 0 <= k < chain.len() ==> 1 <= #[trigger] chain[k] <= NUM_QH,
    ensures
        chain.len() <= NUM_QH,
{
    chain.unique_seq_to_set();
    let all = vstd::set_lib::set_int_range(1, NUM_QH + 1);
    vstd::set_lib::lemma_int_range(1, NUM_QH + 1);
    assert(chain.to_set().subset_of(all)) by {
        assert forall|i: int| chain.to_set().contains(i) implies all.contains(i) by {
            let k = chain.index_of(i);
            assert(chain[k] == i);
        }
    }
    vstd::set_lib::lemma_len_subset(chain.to_set(), all);
}

/// Links that agree on the nodes of a chain make the same chain.
pub proof fn lemma_chain_frame(
    layout: DmaLayout,
    links: Seq<u32>,
    changed: Seq<u32>,
    head: u32,
    chain: Seq<int>,
)
    requires
        is_chain(layout, links, head, chain),
        forall|k: int| 0 <= k < chain.len() ==> changed[#[trigger] chain[k]] == links[chain[k]],
    ensures
        is_chain(layout, changed, head, chain),
{
}

/// Linking a queue head to the old head of a chain puts it in front of the chain.
pub proof fn lemma_chain_link(
    layout: DmaLayout,
    links: Seq<u32>,
    head: u32,
    chain: Seq<int>,
    q: int,
)
    requires
        is_chain(layout, links, head, chain),
        links.len() == QH_POOL_LEN,
        1 <= q <= NUM_QH,
        !chain.contains(q),
    ensures
        is_chain(layout, links.update(q, head), qh_link(layout, q), seq![q] + chain),
{
    let longer = seq![q] + chain;
    let linked = links.update(q, head);
    lemma_front_no_duplicates(chain, q);
    assert forall|k: int| 0 <= k < longer.len() implies 1 <= #[trigger] longer[k] <= NUM_QH
        && linked[longer[k]] == chain_link(layout, longer, k + 1) by {
        if k > 0 {
            assert(longer[k] == chain[k - 1]);
            assert(chain.contains(chain[k - 1]));
            assert(chain_link(layout, longer, k + 1) == chain_link(layout, chain, k));
        } else {
            assert(chain_link(layout, longer, 1) == chain_link(layout, chain, 0));
        }
    }
}

/// The link that leads to a node of a chain is that of the head, for the first node, or that
/// of the node before it; replacing it by the node's own link takes the node out of the chain.
pub proof fn lemma_chain_unlink(
    layout: DmaLayout,
    links: Seq<u32>,
    head: u32,
    chain: Seq<int>,
    m: int,
)
    requires
        is_chain(layout, links, head, chain),
        links.len() == QH_POOL_LEN,
        0 <= m < chain.len(),
    ensures
        m == 0 ==> is_chain(layout, links, links[chain[0]], chain.remove(0)),
        m > 0 ==> is_chain(
            layout,
            links.update(chain[m - 1], links[chain[m]]),
            head,
            chain.remove(m),
        ),
{
    let shorter = chain.remove(m);
    let unlinked = if m == 0 {
        links
    } else {
        links.update(chain[m - 1], links[chain[m]])
    };
    lemma_remove_no_duplicates(chain, m);
    assert(links[chain[m]] == chain_link(layout, chain, m + 1));
    assert forall|k: int| 0 <= k < shorter.len() implies 1 <= #[trigger] shorter[k] <= NUM_QH
        && unlinked[shorter[k]] == chain_link(layout, shorter, k + 1) by {
        if k < m {
            assert(shorter[k] == chain[k]);
            assert(links[chain[k]] == chain_link(layout, chain, k + 1));
            if k + 1 < m {
                assert(shorter[k + 1] == chain[k + 1]);
                assert(chain[k] != chain[m - 1]);
            } else {
                assert(unlinked[shorter[k]] == links[chain[m]]);
                if m < shorter.len() {
                    assert(shorter[m] == chain[m + 1]);
                }
            }
        } else {
            assert(shorter[k] == chain[k + 1]);
            assert(links[chain[k + 1]] == chain_link(layout, chain, k + 1 + 1));
            assert(m > 0 ==> chain[k + 1] != chain[m - 1]);
            if k + 1 < shorter.len() {
                assert(shorter[k + 1] == chain[k + 2]);
            }
        }
    }
    if m == 0 {
        assert(chain_link(layout, shorter, 0) == chain_link(layout, chain, 1));
    } else {
        assert(chain_link(layout, shorter, 0) == chain_link(layout, chain, 0));
    }
}

// ---------------------------------------------------------------------------
// The schedules
// ---------------------------------------------------------------------------

impl StaticsView {
    /// The horizontal links of the queue heads.
    pub open spec fn links(self) -> Seq<u32> {
        Seq::new(QH_POOL_LEN as nat, |i: int| self.qh[i].horizontal_link@)
    }

    /// Whether the async schedule goes through the queue heads of `ring`.
    pub open spec fn is_async_ring(self, ring: Seq<int>) -> bool {
        is_ring(self.layout, self.links(), ring)
    }

    /// Whether the periodic schedule goes, in every frame, through the queue heads of `chain`.
    pub open spec fn is_periodic_chain(self, chain: Seq<int>) -> bool {
        &&& self.frames == FrameList::all(self.frames[0])
        &&& is_chain(self.layout, self.links(), self.frames[0], chain)
    }

    /// The queue heads in the async schedule, in the order in which the controller visits
    /// them after the sentinel.
    pub open spec fn async_ring(self) -> Seq<int> {
        choose|ring: Seq<int>| self.is_async_ring(ring)
    }

    /// The queue heads in the periodic schedule, in the order in which the controller visits
    /// them in each frame.
    pub open spec fn periodic_chain(self) -> Seq<int> {
        choose|chain: Seq<int>| self.is_periodic_chain(chain)
    }

    /// Whether a queue head is in one of the schedules.
    pub open spec fn scheduled(self, q: int) -> bool {
        self.async_ring().contains(q) || self.periodic_chain().contains(q)
    }

    /// Whether both schedules are well-formed, and no queue head is in both.
    pub open spec fn schedules_wf(self) -> bool {
        &&& self.wf()
        &&& self.is_async_ring(self.async_ring())
        &&& self.is_periodic_chain(self.periodic_chain())
        &&& forall|i: int|
            !(#[trigger] self.async_ring().contains(i) && self.periodic_chain().contains(i))
    }

    /// With the queue head `q` linked into the async schedule, after the sentinel.
    pub open spec fn link_async(self, q: int) -> Self {
        self.with_link(q, self.qh[0].horizontal_link@).with_link(0, qh_link(self.layout, q))
    }

    /// The predecessor of the queue head `q` in the async schedule.
    pub open spec fn async_predecessor(self, q: int) -> int {
        ring_node(self.async_ring(), self.async_ring().index_of(q))
    }

    /// With the queue head `q` unlinked from the async schedule: its predecessor leads to its
    /// successor.
    pub open spec fn unlink_async(self, q: int) -> Self {
        self.with_link(self.async_predecessor(q), self.qh[q].horizontal_link@)
    }

    /// With the queue head `q` linked in front of the periodic schedule.
    pub open spec fn link_periodic(self, q: int) -> Self {
        self.with_link(q, self.frames[0]).with_frames(qh_link(self.layout, q))
    }

    /// With the queue head `q` unlinked from the periodic schedule: what led to it leads to
    /// its successor.
    pub open spec fn unlink_periodic(self, q: int) -> Self {
        let m = self.periodic_chain().index_of(q);
        if m == 0 {
            self.with_frames(self.qh[q].horizontal_link@)
        } else {
            self.with_link(self.periodic_chain()[m - 1], self.qh[q].horizontal_link@)
        }
    }
}

/// A ring and a chain that the links make are *the* schedules.
pub proof fn lemma_schedules(s: StaticsView, ring: Seq<int>, chain: Seq<int>)
    requires
        s.wf(),
        s.is_async_ring(ring),
        s.is_periodic_chain(chain),
        forall|i: int| !(#[trigger] ring.contains(i) && chain.contains(i)),
    ensures
        s.async_ring() == ring,
        s.periodic_chain() == chain,
        s.schedules_wf(),
{
    lemma_ring_unique(s.layout, s.links(), s.async_ring(), ring);
    lemma_chain_unique(s.layout, s.links(), s.frames[0], s.periodic_chain(), chain);
}

/// With a sentinel that leads to itself and a terminated frame list, both schedules are empty.
pub proof fn lemma_initial_schedules(s: StaticsView)
    requires
        s.wf(),
        s.qh[0].horizontal_link@ == qh_link(s.layout, 0),
        s.frames == FrameList::all(LINK_TERMINATE),
    ensures
        s.schedules_wf(),
        s.async_ring() == Seq::<int>::empty(),
        s.periodic_chain() == Seq::<int>::empty(),
{
    lemma_schedules(s, Seq::empty(), Seq::empty());
}

/// A queue head that is in no schedule can be changed at will, and one that is can be changed
/// in all but its link: the schedules stay as they are.
pub proof fn lemma_schedules_frame(s: StaticsView, changed: StaticsView)
    requires
        s.schedules_wf(),
        changed.wf(),
        changed.layout == s.layout,
        changed.frames == s.frames,
        forall|i: int|
            0 <= i < QH_POOL_LEN && (i == 0 || s.scheduled(i)) ==> #[trigger] changed.links()[i]
                == s.links()[i],
    ensures
        changed.schedules_wf(),
        changed.async_ring() == s.async_ring(),
        changed.periodic_chain() == s.periodic_chain(),
{
    let ring = s.async_ring();
    let chain = s.periodic_chain();
    assert forall|k: int| 0 <= k < ring.len() implies changed.links()[#[trigger] ring[k]]
        == s.links()[ring[k]] by {
        assert(ring.contains(ring[k]));
        assert(s.scheduled(ring[k]));
    }
    assert forall|k: int| 0 <= k < chain.len() implies changed.links()[#[trigger] chain[k]]
        == s.links()[chain[k]] by {
        assert(chain.contains(chain[k]));
        assert(s.scheduled(chain[k]));
    }
    lemma_ring_frame(s.layout, s.links(), changed.links(), ring);
    lemma_chain_frame(s.layout, s.links(), changed.links(), s.frames[0], chain);
    lemma_schedules(changed, ring, chain);
}

/// Linking a queue head that is in no schedule into the async schedule puts it in front of the
/// ring, and leaves the periodic schedule as it is.
pub proof fn lemma_link_async(s: StaticsView, q: int)
    requires
        s.schedules_wf(),
        1 <= q <= NUM_QH,
        !s.scheduled(q),
    ensures
        s.link_async(q).schedules_wf(),
        s.link_async(q).async_ring() == seq![q] + s.async_ring(),
        s.link_async(q).periodic_chain() == s.periodic_chain(),
{
    let linked = s.link_async(q);
    let ring = s.async_ring();
    let chain = s.periodic_chain();
    lemma_ring_link(s.layout, s.links(), ring, q);
    assert(linked.links() =~= s.links().update(q, s.links()[0]).update(0, qh_link(s.layout, q)));
    assert forall|k: int| 0 <= k < chain.len() implies linked.links()[#[trigger] chain[k]]
        == s.links()[chain[k]] by {
        assert(chain.contains(chain[k]));
    }
    lemma_chain_frame(s.layout, s.links(), linked.links(), s.frames[0], chain);
    let longer = seq![q] + ring;
    assert forall|i: int| !(#[trigger] longer.contains(i) && chain.contains(i)) by {
        if longer.contains(i) && i != q {
            let k = longer.index_of(i);
            assert(longer[k] == i);
            assert(ring[k - 1] == i);
            assert(ring.contains(i));
        }
    }
    lemma_schedules(linked, longer, chain);
}

/// Unlinking a queue head from the async schedule takes it, and nothing else, out of the ring,
/// and leaves the periodic schedule as it is.
pub proof fn lemma_unlink_async(s: StaticsView, q: int)
    requires
        s.schedules_wf(),
        s.async_ring().contains(q),
    ensures
        s.unlink_async(q).schedules_wf(),
        s.unlink_async(q).async_ring() == s.async_ring().remove(s.async_ring().index_of(q)),
        s.unlink_async(q).periodic_chain() == s.periodic_chain(),
        !s.unlink_async(q).scheduled(q),
{
    let ring = s.async_ring();
    let chain = s.periodic_chain();
    let m = ring.index_of(q);
    let p = s.async_predecessor(q);
    let unlinked = s.unlink_async(q);
    assert(ring[m] == q);
    assert(1 <= q <= NUM_QH);
    if m > 0 {
        assert(ring.contains(ring[m - 1]));
        assert(1 <= ring[m - 1] <= NUM_QH);
    }
    lemma_ring_unlink(s.layout, s.links(), ring, m);
    assert(unlinked.links() =~= s.links().update(p, s.links()[q]));
    assert forall|k: int| 0 <= k < chain.len() implies unlinked.links()[#[trigger] chain[k]]
        == s.links()[chain[k]] by {
        assert(chain.contains(chain[k]));
        assert(1 <= chain[k] <= NUM_QH);
    }
    lemma_chain_frame(s.layout, s.links(), unlinked.links(), s.frames[0], chain);
    let shorter = ring.remove(m);
    lemma_remove_contains(ring, m);
    assert forall|i: int| !(#[trigger] shorter.contains(i) && chain.contains(i)) by {
        if shorter.contains(i) {
            assert(ring.contains(i));
        }
    }
    lemma_schedules(unlinked, shorter, chain);
}

/// Linking a queue head that is in no schedule into the periodic schedule puts it in front of
/// the chain, and leaves the async schedule as it is.
pub proof fn lemma_link_periodic(s: StaticsView, q: int)
    requires
        s.schedules_wf(),
        1 <= q <= NUM_QH,
        !s.scheduled(q),
    ensures
        s.link_periodic(q).schedules_wf(),
        s.link_periodic(q).async_ring() == s.async_ring(),
        s.link_periodic(q).periodic_chain() == seq![q] + s.periodic_chain(),
{
    let linked = s.link_periodic(q);
    let ring = s.async_ring();
    let chain = s.periodic_chain();
    lemma_chain_link(s.layout, s.links(), s.frames[0], chain, q);
    assert(linked.links() =~= s.links().update(q, s.frames[0]));
    assert forall|k: int| 0 <= k < ring.len() implies linked.links()[#[trigger] ring[k]]
        == s.links()[ring[k]] by {
        assert(ring.contains(ring[k]));
    }
    lemma_ring_frame(s.layout, s.links(), linked.links(), ring);
    let longer = seq![q] + chain;
    assert forall|i: int| !(#[trigger] ring.contains(i) && longer.contains(i)) by {
        if longer.contains(i) && i != q {
            let k = longer.index_of(i);
            assert(longer[k] == i);
            assert(chain[k - 1] == i);
            assert(chain.contains(i));
        }
    }
    lemma_schedules(linked, ring, longer);
}

/// Unlinking a queue head from the periodic schedule takes it, and nothing else, out of the
/// chain, and leaves the async schedule as it is.
pub proof fn lemma_unlink_periodic(s: StaticsView, q: int)
    requires
        s.schedules_wf(),
        s.periodic_chain().contains(q),
    ensures
        s.unlink_periodic(q).schedules_wf(),
        s.unlink_periodic(q).async_ring() == s.async_ring(),
        s.unlink_periodic(q).periodic_chain() == s.periodic_chain().remove(
            s.periodic_chain().index_of(q),
        ),
        !s.unlink_periodic(q).scheduled(q),
{
    let ring = s.async_ring();
    let chain = s.periodic_chain();
    let m = chain.index_of(q);
    let unlinked = s.unlink_periodic(q);
    assert(chain[m] == q);
    assert(1 <= q <= NUM_QH);
    lemma_chain_unlink(s.layout, s.links(), s.frames[0], chain, m);
    if m == 0 {
        assert(unlinked.links() =~= s.links());
    } else {
        assert(chain.contains(chain[m - 1]));
        assert(1 <= chain[m - 1] <= NUM_QH);
        assert(unlinked.links() =~= s.links().update(chain[m - 1], s.links()[q]));
    }
    assert forall|k: int| 0 <= k < ring.len() implies unlinked.links()[#[trigger] ring[k]]
        == s.links()[ring[k]] by {
        assert(ring.contains(ring[k]));
        assert(1 <= ring[k] <= NUM_QH);
    }
    lemma_ring_frame(s.layout, s.links(), unlinked.links(), ring);
    let shorter = chain.remove(m);
    lemma_remove_contains(chain, m);
    assert forall|i: int| !(#[trigger] ring.contains(i) && shorter.contains(i)) by {
        if shorter.contains(i) {
            assert(chain.contains(i));
        }
    }
    lemma_schedules(unlinked, ring, shorter);
}

proof fn lemma_remove_contains(nodes: Seq<int>, m: int)
    requires
        nodes.no_duplicates(),
        0 <= m < nodes.len(),
    ensures
        forall|i: int|
            #[trigger] nodes.remove(m).contains(i) <==> nodes.contains(i) && i != nodes[m],
{
    let shorter = nodes.remove(m);
    assert forall|i: int|
        #[trigger] shorter.contains(i) <==> nodes.contains(i) && i != nodes[m] by {
        if shorter.contains(i) {
            let k = shorter.index_of(i);
            assert(shorter[k] == i);
            let o = if k < m {
                k
            } else {
                k + 1
            };
            assert(nodes[o] == i);
        }
        if nodes.contains(i) && i != nodes[m] {
            let k = nodes.index_of(i);
            assert(nodes[k] == i);
            let o = if k < m {
                k
            } else {
                k - 1
            };
            assert(shorter[o] == i);
        }
    }
}

/// Linking a queue head into the async schedule and unlinking it again restores the schedule.
pub proof fn lemma_link_unlink_async(s: StaticsView, q: int)
    requires
        s.schedules_wf(),
        1 <= q <= NUM_QH,
        !s.scheduled(q),
    ensures
        s.link_async(q).async_ring().contains(q),
        s.link_async(q).unlink_async(q).async_ring() == s.async_ring(),
        s.link_async(q).unlink_async(q).periodic_chain() == s.periodic_chain(),
        s.link_async(q).unlink_async(q).schedules_wf(),
{
    lemma_link_async(s, q);
    let ring = s.async_ring();
    let longer = seq![q] + ring;
    assert(longer[0] == q);
    assert(longer.contains(q));
    lemma_unlink_async(s.link_async(q), q);
    lemma_index_of_front(ring, q);
}

/// Linking a queue head into the periodic schedule and unlinking it again restores the schedule.
pub proof fn lemma_link_unlink_periodic(s: StaticsView, q: int)
    requires
        s.schedules_wf(),
        1 <= q <= NUM_QH,
        !s.scheduled(q),
    ensures
        s.link_periodic(q).periodic_chain().contains(q),
        s.link_periodic(q).unlink_periodic(q).periodic_chain() == s.periodic_chain(),
        s.link_periodic(q).unlink_periodic(q).async_ring() == s.async_ring(),
        s.link_periodic(q).unlink_periodic(q).schedules_wf(),
{
    lemma_link_periodic(s, q);
    let chain = s.periodic_chain();
    let longer = seq![q] + chain;
    assert(longer[0] == q);
    assert(longer.contains(q));
    lemma_unlink_periodic(s.link_periodic(q), q);
    lemma_index_of_front(chain, q);
}

proof fn lemma_index_of_front(nodes: Seq<int>, q: int)
    requires
        !nodes.contains(q),
    ensures
        (seq![q] + nodes).index_of(q) == 0,
        (seq![q] + nodes).remove(0) == nodes,
{
    let longer = seq![q] + nodes;
    assert(longer[0] == q);
    let k = longer.index_of(q);
    assert(longer[k] == q);
    if k > 0 {
        assert(nodes[k - 1] == q);
    }
    assert(longer.remove(0) =~= nodes);
}

} // verus!
