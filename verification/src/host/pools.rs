//! Pools that pipes are allocated from.

use crate::host::{NUM_BULK_PIPES, NUM_CONTROL_PIPES};
use cotton_usb_host::async_pool::{Pool, Pooled};
use vstd::prelude::*;

verus! {

/// `cotton_usb_host::async_pool::Pool`: shares out a number of equivalent resources.
#[verifier::external_type_specification]
#[verifier::external_body]
pub struct ExPool(Pool);

/// `cotton_usb_host::async_pool::Pooled`: ownership of one resource of a pool, which goes back
/// to the pool when this is dropped.
#[verifier::external_type_specification]
#[verifier::external_body]
pub struct ExPooled<'a>(Pooled<'a>);

/// The number of resources that a pool was made with.
pub uninterp spec fn pool_size(pool: Pool) -> nat;

/// Which one of its pool's resources a `Pooled` owns.
pub uninterp spec fn pooled_index(pooled: Pooled<'_>) -> u8;

/// The number of resources of the pool that a `Pooled` belongs to.
pub uninterp spec fn pooled_total(pooled: Pooled<'_>) -> nat;

/// Calls `Pool::new`, which panics for more than 32 resources and otherwise makes a pool of
/// `total` resources.
#[verifier::external_body]
fn pool_new(total: u8) -> (pool: Pool)
    requires
        total <= 32,
    ensures
        pool_size(pool) == total,
{
    Pool::new(total)
}

/// Calls `Pool::try_alloc`, which yields one of the pool's resources, numbered from 0, or `None`
/// if all of them are owned. What it yields belongs to that pool.
///
/// Which resources are owned is interior state of the pool, so nothing is said here of which
/// resource is handed out, nor of when there is none.
#[verifier::external_body]
pub(crate) fn pool_try_alloc<'a>(pool: &'a Pool) -> (pooled: Option<Pooled<'a>>)
    ensures
        pooled matches Some(p) ==> pooled_index(p) < pool_size(*pool) && pooled_total(p)
            == pool_size(*pool),
{
    pool.try_alloc()
}

/// Calls `Pooled::which`, which says which resource is owned: a number below 32, since no pool
/// has more resources.
#[verifier::external_body]
pub(crate) fn pooled_which(pooled: &Pooled<'_>) -> (which: u8)
    ensures
        which == pooled_index(*pooled),
        which < 32,
{
    pooled.which()
}

/// The pools that pipes are allocated from.
pub struct UsbPools {
    /// Pool for control pipe slots (1 slot: only one EP0 at a time).
    pub control_pipes: Pool,
    /// Pool for bulk/interrupt pipe slots.
    pub bulk_pipes: Pool,
}

impl UsbPools {
    /// Whether the pools have one resource for each queue head of their kind.
    pub open spec fn wf(self) -> bool {
        &&& pool_size(self.control_pipes) == NUM_CONTROL_PIPES
        &&& pool_size(self.bulk_pipes) == NUM_BULK_PIPES
    }

    /// Create pools with all pipes free: one control pipe, and as many bulk/interrupt pipes as
    /// there are queue heads left beside it.
    pub fn new() -> (pools: Self)
        ensures
            pools.wf(),
    {
        UsbPools { control_pipes: pool_new(NUM_CONTROL_PIPES), bulk_pipes: pool_new(NUM_BULK_PIPES) }
    }
}

} // verus!
