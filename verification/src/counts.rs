//! Descriptor counters: one running count for each descriptor type.

use crate::pso::{
    capacity, lemma_capacity_push, lemma_required_push, required, DescriptorRangeDesc,
    DescriptorSetLayoutBinding, DescriptorType,
};
use vstd::prelude::*;

verus! {

/// The product of two machine words fits a counter.
proof fn lemma_product_fits(a: nat, b: nat)
    requires
        a <= usize::MAX,
        b <= usize::MAX,
    ensures
        a * b <= u128::MAX,
{
    assert(a * b <= 0xffff_ffff_ffff_ffff * 0xffff_ffff_ffff_ffff) by (nonlinear_arith)
        requires
            a <= 0xffff_ffff_ffff_ffff,
            b <= 0xffff_ffff_ffff_ffff,
    ;
}

/// The sum of `terms` machine words fits a counter.
proof fn lemma_sum_fits(terms: nat)
    requires
        terms <= usize::MAX,
    ensures
        terms * usize::MAX <= u128::MAX,
{
    lemma_product_fits(terms, usize::MAX as nat);
}

/// A running count of descriptors, one counter per descriptor type. The
/// counters are wide enough to hold the sum of any vector of `usize` counts.
pub(crate) struct DescriptorCounts {
    read_only_buffers: u128,
    read_write_buffers: u128,
    read_only_images: u128,
    read_write_images: u128,
}

impl DescriptorCounts {
    pub(crate) closed spec fn get(self, ty: DescriptorType) -> nat {
        match ty {
            DescriptorType::Buffer { read_only } => if read_only {
                self.read_only_buffers as nat
            } else {
                self.read_write_buffers as nat
            },
            DescriptorType::Image { read_only } => if read_only {
                self.read_only_images as nat
            } else {
                self.read_write_images as nat
            },
        }
    }

    pub(crate) fn zero() -> (counts: DescriptorCounts)
        ensures
            forall|ty: DescriptorType| #![trigger counts.get(ty)] counts.get(ty) == 0,
    {
        DescriptorCounts {
            read_only_buffers: 0,
            read_write_buffers: 0,
            read_only_images: 0,
            read_write_images: 0,
        }
    }

    /// Counts `count` more descriptors of type `ty`.
    pub(crate) fn record(&mut self, ty: DescriptorType, count: usize)
        requires
            old(self).get(ty) + count <= u128::MAX,
        ensures
            forall|t: DescriptorType|
                #![trigger final(self).get(t)]
                final(self).get(t) == old(self).get(t) + if t == ty {
                    count as nat
                } else {
                    0nat
                },
    {
        match ty {
            DescriptorType::Buffer { read_only } => {
                if read_only {
                    self.read_only_buffers = self.read_only_buffers + count as u128;
                } else {
                    self.read_write_buffers = self.read_write_buffers + count as u128;
                }
            },
            DescriptorType::Image { read_only } => {
                if read_only {
                    self.read_only_images = self.read_only_images + count as u128;
                } else {
                    self.read_write_images = self.read_write_images + count as u128;
                }
            },
        }
    }

    /// Adds every counter of `more` to its counterpart in `self`, provided
    /// that none of them then exceeds its counterpart in `limit`; otherwise
    /// leaves `self` as it is.
    pub(crate) fn absorb_within(&mut self, more: &DescriptorCounts, limit: &DescriptorCounts) -> (ok:
        bool)
        requires
            forall|ty: DescriptorType|
                #![trigger old(self).get(ty)]
                #![trigger limit.get(ty)]
                old(self).get(ty) <= limit.get(ty),
        ensures
            ok <==> forall|ty: DescriptorType|
                #![trigger old(self).get(ty)]
                #![trigger more.get(ty)]
                #![trigger limit.get(ty)]
                old(self).get(ty) + more.get(ty) <= limit.get(ty),
            forall|ty: DescriptorType|
                #![trigger final(self).get(ty)]
                final(self).get(ty) == old(self).get(ty) + if ok {
                    more.get(ty)
                } else {
                    0nat
                },
    {
        proof {
            let ghost rb = DescriptorType::Buffer { read_only: true };
            let ghost wb = DescriptorType::Buffer { read_only: false };
            let ghost ri = DescriptorType::Image { read_only: true };
            let ghost wi = DescriptorType::Image { read_only: false };
            assert(self.get(rb) <= limit.get(rb));
            assert(self.get(wb) <= limit.get(wb));
            assert(self.get(ri) <= limit.get(ri));
            assert(self.get(wi) <= limit.get(wi));
        }
        let ok = more.read_only_buffers <= limit.read_only_buffers - self.read_only_buffers
            && more.read_write_buffers <= limit.read_write_buffers - self.read_write_buffers
            && more.read_only_images <= limit.read_only_images - self.read_only_images
            && more.read_write_images <= limit.read_write_images - self.read_write_images;
        if ok {
            self.read_only_buffers = self.read_only_buffers + more.read_only_buffers;
            self.read_write_buffers = self.read_write_buffers + more.read_write_buffers;
            self.read_only_images = self.read_only_images + more.read_only_images;
            self.read_write_images = self.read_write_images + more.read_write_images;
        }
        ok
    }

    /// Counts what one set of the layout `bindings` needs.
    pub(crate) fn of_bindings(bindings: &Vec<DescriptorSetLayoutBinding>) -> (counts:
        DescriptorCounts)
        ensures
            forall|ty: DescriptorType|
                #![trigger counts.get(ty)]
                counts.get(ty) == required(bindings@, ty) && counts.get(ty) <= usize::MAX,
    {
        let mut counts = DescriptorCounts::zero();
        let mut i: usize = 0;
        while i < bindings.len()
            invariant
                i <= bindings.len(),
                forall|ty: DescriptorType|
                    #![trigger counts.get(ty)]
                    counts.get(ty) == required(bindings@.take(i as int), ty) && counts.get(ty)
                        <= i,
            decreases bindings.len() - i,
        {
            let slot = bindings[i];
            proof {
                lemma_required_push(bindings@.take(i as int), slot);
                assert(bindings@.take(i as int).push(slot) =~= bindings@.take(i + 1));
            }
            counts.record(slot.ty, 1);
            i = i + 1;
        }
        assert(bindings@.take(bindings.len() as int) =~= bindings@);
        counts
    }

    /// Counts what the pool ranges `ranges` provide.
    pub(crate) fn of_ranges(ranges: &Vec<DescriptorRangeDesc>) -> (counts: DescriptorCounts)
        ensures
            forall|ty: DescriptorType|
                #![trigger counts.get(ty)]
                counts.get(ty) == capacity(ranges@, ty),
    {
        let mut counts = DescriptorCounts::zero();
        let mut i: usize = 0;
        while i < ranges.len()
            invariant
                i <= ranges.len(),
                forall|ty: DescriptorType|
                    #![trigger counts.get(ty)]
                    counts.get(ty) == capacity(ranges@.take(i as int), ty) && counts.get(ty) <= i
                        * usize::MAX,
            decreases ranges.len() - i,
        {
            let range = ranges[i];
            proof {
                lemma_capacity_push(ranges@.take(i as int), range);
                assert(ranges@.take(i as int).push(range) =~= ranges@.take(i + 1));
                lemma_sum_fits((i + 1) as nat);
                assert((i + 1) * usize::MAX == i * usize::MAX + usize::MAX) by (nonlinear_arith);
            }
            counts.record(range.ty, range.count);
            i = i + 1;
        }
        assert(ranges@.take(ranges.len() as int) =~= ranges@);
        counts
    }

    /// Whether `self` holds, of every type, at least `sets` times what
    /// `per_set` holds.
    pub(crate) fn covers(&self, per_set: &DescriptorCounts, sets: usize) -> (ok: bool)
        requires
            forall|ty: DescriptorType| #![trigger per_set.get(ty)] per_set.get(ty) <= usize::MAX,
        ensures
            ok <==> forall|ty: DescriptorType|
                #![trigger self.get(ty)]
                #![trigger per_set.get(ty)]
                self.get(ty) >= sets * per_set.get(ty),
    {
        proof {
            let ghost rb = DescriptorType::Buffer { read_only: true };
            let ghost wb = DescriptorType::Buffer { read_only: false };
            let ghost ri = DescriptorType::Image { read_only: true };
            let ghost wi = DescriptorType::Image { read_only: false };
            lemma_product_fits(sets as nat, per_set.get(rb));
            lemma_product_fits(sets as nat, per_set.get(wb));
            lemma_product_fits(sets as nat, per_set.get(ri));
            lemma_product_fits(sets as nat, per_set.get(wi));
        }
        let sets: u128 = sets as u128;
        self.read_only_buffers >= sets * per_set.read_only_buffers && self.read_write_buffers
            >= sets * per_set.read_write_buffers && self.read_only_images >= sets
            * per_set.read_only_images && self.read_write_images >= sets
            * per_set.read_write_images
    }
}

} // verus!
