//! The memory map handed over by the firmware, and the spans of it that the
//! kernel heap claims.
use vstd::prelude::*;

verus! {

/// UEFI memory type of free, conventional memory (`EfiConventionalMemory`).
pub const CONVENTIONAL: u32 = 7;

/// Size in bytes of a UEFI page: memory map entries count 4 KiB pages.
pub const PAGE_SIZE: usize = 4096;

/// One entry of the firmware's memory map.
#[derive(Clone, Copy, Debug, PartialEq, Eq, Structural)]
pub struct MemoryRegion {
    /// The UEFI memory type of the range.
    pub ty: u32,
    /// Starting physical address.
    pub phys_start: u64,
    /// Number of 4 KiB pages in the range.
    pub page_count: u64,
}

/// A span of memory handed to the heap allocator: `size` bytes from `base`.
#[derive(Clone, Copy, Debug, PartialEq, Eq, Structural)]
pub struct ClaimSpan {
    pub base: usize,
    pub size: usize,
}

/// Whether the heap may use the region.
pub open spec fn is_conventional(region: MemoryRegion) -> bool {
    region.ty == CONVENTIONAL
}

/// The span that covers a region.
pub open spec fn span_of(region: MemoryRegion) -> ClaimSpan {
    ClaimSpan {
        base: region.phys_start as usize,
        size: (region.page_count as usize * PAGE_SIZE) as usize,
    }
}

/// A region whose size in bytes fits in a `usize` (conventional regions
/// that do not are refused by a panic).
pub open spec fn size_fits(region: MemoryRegion) -> bool {
    region.page_count as usize * PAGE_SIZE <= usize::MAX
}

/// The spans to claim for a memory map: the span of each conventional
/// region, in the map's order.
pub open spec fn claim_spans(regions: Seq<MemoryRegion>) -> Seq<ClaimSpan> {
    regions.filter(|r: MemoryRegion| is_conventional(r)).map_values(|r: MemoryRegion| span_of(r))
}

/// Adding a region to the end of a map adds its span to the end of the
/// claimed spans when it is conventional, and nothing otherwise.
pub proof fn lemma_claim_spans_last(regions: Seq<MemoryRegion>)
    requires
        regions.len() > 0,
    ensures
        claim_spans(regions) == if is_conventional(regions.last()) {
            claim_spans(regions.drop_last()).push(span_of(regions.last()))
        } else {
            claim_spans(regions.drop_last())
        },
{
    reveal(Seq::filter);
    let pred = |r: MemoryRegion| is_conventional(r);
    let f = |r: MemoryRegion| span_of(r);
    let rest = regions.drop_last().filter(pred);
    if is_conventional(regions.last()) {
        assert(regions.filter(pred) == rest.push(regions.last()));
        assert(rest.push(regions.last()).map_values(f) =~= rest.map_values(f).push(
            span_of(regions.last()),
        ));
    } else {
        assert(regions.filter(pred) == rest);
    }
}

/// Whether every conventional region's size in bytes fits in a `usize`, so
/// that its span can be computed.
pub fn sizes_fit(regions: &Vec<MemoryRegion>) -> (b: bool)
    ensures
        b == (forall|i: int|
            0 <= i < regions.len() && is_conventional(#[trigger] regions@[i]) ==> size_fits(
                regions@[i],
            )),
        b == (forall|i: int|
            0 <= i < regions.len() && #[trigger] regions@[i].ty == 7u32 ==> (
            regions@[i].page_count as usize) as int * 4096 <= usize::MAX as int),
{
    let mut i: usize = 0;
    while i < regions.len()
        invariant
            i <= regions.len(),
            forall|k: int|
                0 <= k < i && is_conventional(#[trigger] regions@[k]) ==> size_fits(regions@[k]),
        decreases regions.len() - i,
    {
        let region = regions[i];
        if region.ty == CONVENTIONAL {
            let pages = region.page_count as usize;
            if pages.checked_mul(PAGE_SIZE).is_none() {
                assert(!size_fits(regions@[i as int]));
                return false;
            }
        }
        i = i + 1;
    }
    true
}

/// The spans of memory to register with the heap allocator: each
/// conventional region of the memory map, from its physical start, for its
/// page count times 4 KiB; other regions are left alone.
pub fn conventional_spans(regions: &Vec<MemoryRegion>) -> (spans: Vec<ClaimSpan>)
    requires
        forall|i: int|
            0 <= i < regions.len() && is_conventional(#[trigger] regions@[i]) ==> size_fits(
                regions@[i],
            ),
    ensures
        spans@ == claim_spans(regions@),
        spans@ == regions@.filter(|r: MemoryRegion| r.ty == 7u32).map_values(
            |r: MemoryRegion|
                ClaimSpan {
                    base: r.phys_start as usize,
                    size: (r.page_count as usize * 4096) as usize,
                },
        ),
{
    let mut spans: Vec<ClaimSpan> = Vec::new();
    let mut i: usize = 0;
    while i < regions.len()
        invariant
            i <= regions.len(),
            forall|k: int|
                0 <= k < regions.len() && is_conventional(#[trigger] regions@[k]) ==> size_fits(
                    regions@[k],
                ),
            spans@ == claim_spans(regions@.subrange(0, i as int)),
        decreases regions.len() - i,
    {
        let region = regions[i];
        proof {
            assert(regions@.subrange(0, i + 1).drop_last() =~= regions@.subrange(0, i as int));
            lemma_claim_spans_last(regions@.subrange(0, i + 1));
        }
        if region.ty == CONVENTIONAL {
            let start = region.phys_start as usize;
            let size = region.page_count as usize * PAGE_SIZE;
            spans.push(ClaimSpan { base: start, size });
        }
        i = i + 1;
    }
    proof {
        assert(regions@.subrange(0, regions.len() as int) =~= regions@);
        lemma_heap_gets_exactly_type_7(regions@);
    }
    spans
}

/// Every claimed span is the span of a conventional region of the map: no
/// span is made of memory the firmware keeps for other uses.
pub proof fn lemma_claims_only_conventional(regions: Seq<MemoryRegion>, j: int)
    requires
        0 <= j < claim_spans(regions).len(),
    ensures
        exists|i: int|
            0 <= i < regions.len() && is_conventional(#[trigger] regions[i]) && claim_spans(
                regions,
            )[j] == span_of(regions[i]),
    decreases regions.len(),
{
    lemma_claim_spans_last(regions);
    let rest = claim_spans(regions.drop_last());
    if j < rest.len() {
        lemma_claims_only_conventional(regions.drop_last(), j);
        let i = choose|i: int|
            0 <= i < regions.drop_last().len() && is_conventional(
                #[trigger] regions.drop_last()[i],
            ) && rest[j] == span_of(regions.drop_last()[i]);
        assert(regions[i] == regions.drop_last()[i]);
    } else {
        let i = regions.len() - 1;
        assert(is_conventional(regions[i]));
    }
}

/// Every conventional region of the map is claimed.
pub proof fn lemma_every_conventional_region_claimed(regions: Seq<MemoryRegion>, i: int)
    requires
        0 <= i < regions.len(),
        is_conventional(regions[i]),
    ensures
        exists|j: int|
            0 <= j < claim_spans(regions).len() && #[trigger] claim_spans(regions)[j] == span_of(
                regions[i],
            ),
    decreases regions.len(),
{
    lemma_claim_spans_last(regions);
    let rest = claim_spans(regions.drop_last());
    if i < regions.len() - 1 {
        lemma_every_conventional_region_claimed(regions.drop_last(), i);
        let j = choose|j: int|
            0 <= j < rest.len() && #[trigger] rest[j] == span_of(regions.drop_last()[i]);
        assert(claim_spans(regions)[j] == rest[j]);
    } else {
        assert(claim_spans(regions)[rest.len() as int] == span_of(regions[i]));
    }
}

/// The number of spans is the number of conventional regions.
pub open spec fn conventional_count(regions: Seq<MemoryRegion>) -> nat
    decreases regions.len(),
{
    if regions.len() == 0 {
        0
    } else {
        conventional_count(regions.drop_last()) + if is_conventional(regions.last()) {
            1nat
        } else {
            0nat
        }
    }
}

/// One span is claimed per conventional region, and a map without
/// conventional memory claims nothing.
pub proof fn lemma_one_span_per_conventional_region(regions: Seq<MemoryRegion>)
    ensures
        claim_spans(regions).len() == conventional_count(regions),
        (forall|i: int| 0 <= i < regions.len() ==> !is_conventional(#[trigger] regions[i]))
            ==> claim_spans(regions).len() == 0,
    decreases regions.len(),
{
    if regions.len() == 0 {
        reveal(Seq::filter);
    } else {
        lemma_claim_spans_last(regions);
        lemma_one_span_per_conventional_region(regions.drop_last());
        if forall|i: int| 0 <= i < regions.len() ==> !is_conventional(#[trigger] regions[i]) {
            assert forall|i: int|
                0 <= i < regions.drop_last().len() implies !is_conventional(
                #[trigger] regions.drop_last()[i],
            ) by {
                assert(regions.drop_last()[i] == regions[i]);
            }
            assert(!is_conventional(regions[regions.len() - 1]));
        }
    }
}

/// Whether `span` covers a region of memory type 7 of the map: from its
/// physical start, for its page count times 4096 bytes.
pub open spec fn comes_from_type_7(regions: Seq<MemoryRegion>, span: ClaimSpan) -> bool {
    exists|i: int|
        0 <= i < regions.len() && #[trigger] regions[i].ty == 7u32 && span.base
            == regions[i].phys_start as usize && span.size == (regions[i].page_count as usize
            * 4096) as usize
}

/// The heap is handed exactly the regions of memory type 7
/// (`EfiConventionalMemory`), in map order, each from its physical start for
/// its page count times 4096 bytes; a region of any other type code is never
/// handed over.
pub proof fn lemma_heap_gets_exactly_type_7(regions: Seq<MemoryRegion>)
    ensures
        claim_spans(regions) == regions.filter(|r: MemoryRegion| r.ty == 7u32).map_values(
            |r: MemoryRegion|
                ClaimSpan {
                    base: r.phys_start as usize,
                    size: (r.page_count as usize * 4096) as usize,
                },
        ),
        claim_spans(regions).len() == regions.filter(|r: MemoryRegion| r.ty == 7u32).len(),
        forall|j: int|
            0 <= j < claim_spans(regions).len() ==> comes_from_type_7(
                regions,
                #[trigger] claim_spans(regions)[j],
            ),
        forall|i: int|
            0 <= i < regions.len() && #[trigger] regions[i].ty == 7u32 ==> claim_spans(
                regions,
            ).contains(ClaimSpan {
                base: regions[i].phys_start as usize,
                size: (regions[i].page_count as usize * 4096) as usize,
            }),
{
    let p1 = |r: MemoryRegion| is_conventional(r);
    let p2 = |r: MemoryRegion| r.ty == 7u32;
    let f1 = |r: MemoryRegion| span_of(r);
    let f2 = |r: MemoryRegion|
        ClaimSpan { base: r.phys_start as usize, size: (r.page_count as usize * 4096) as usize };
    assert(p1 =~= p2);
    assert(f1 =~= f2);
    assert forall|j: int| 0 <= j < claim_spans(regions).len() implies comes_from_type_7(
        regions,
        #[trigger] claim_spans(regions)[j],
    ) by {
        lemma_claims_only_conventional(regions, j);
        let i = choose|i: int|
            0 <= i < regions.len() && is_conventional(#[trigger] regions[i]) && claim_spans(
                regions,
            )[j] == span_of(regions[i]);
        assert(regions[i].ty == 7u32);
    }
    assert forall|i: int| 0 <= i < regions.len() && #[trigger] regions[i].ty == 7u32 implies claim_spans(
        regions,
    ).contains(ClaimSpan {
        base: regions[i].phys_start as usize,
        size: (regions[i].page_count as usize * 4096) as usize,
    }) by {
        lemma_every_conventional_region_claimed(regions, i);
        let j = choose|j: int|
            0 <= j < claim_spans(regions).len() && #[trigger] claim_spans(regions)[j] == span_of(
                regions[i],
            );
        assert(claim_spans(regions)[j] == span_of(regions[i]));
    }
}

/// A region's byte size fits exactly when its page count, taken as a
/// `usize`, times 4096 is at most `usize::MAX`; on a target where every page
/// count is a `usize` (64-bit), exactly when the page count times 4096 is at
/// most `usize::MAX`.
pub proof fn lemma_size_fits_exactly(region: MemoryRegion)
    ensures
        size_fits(region) <==> (region.page_count as usize) as int * 4096 <= usize::MAX as int,
        region.page_count <= usize::MAX ==> (size_fits(region) <==> region.page_count as int
            * 4096 <= usize::MAX as int),
{
}

} // verus!
