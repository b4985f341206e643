//! The multi-block memory driver: an ordered list of memory blocks presented
//! as one flat address space. Every control setter is broadcast to every
//! block (each block gates itself on the shared address); only reads are
//! routed, to the single block whose cumulative line count covers the
//! current address.

use vstd::prelude::*;
use vstd::arithmetic::power2::{pow2, lemma2_to64, lemma_pow2_unfold};
use crate::word::Word;
use crate::error::EmulationError;
use crate::memory::{SramView, StaticRandomAccessMemory};

verus! {

/// The line count of the first `k` blocks put together.
pub open spec fn spec_prefix_lines<W>(memory_blocks: Seq<SramView<W>>, k: int) -> int
    decreases k,
{
    if k <= 0 {
        0
    } else {
        spec_prefix_lines(memory_blocks, k - 1) + memory_blocks[k - 1].memory_lines.len()
    }
}

/// Prefix line counts never decrease as blocks are added.
pub proof fn lemma_prefix_lines_monotonic<W>(memory_blocks: Seq<SramView<W>>, k1: int, k2: int)
    requires
        k1 <= k2,
    ensures
        spec_prefix_lines(memory_blocks, k1) <= spec_prefix_lines(memory_blocks, k2),
    decreases k2 - k1,
{
    if k1 < k2 {
        lemma_prefix_lines_monotonic(memory_blocks, k1, k2 - 1);
    }
}

/// Which block owns `address`: the first block whose cumulative line count
/// exceeds it. Meaningful only when `address` lies below the total.
pub open spec fn spec_block_index_of<W>(memory_blocks: Seq<SramView<W>>, address: int) -> int
    decreases memory_blocks.len(),
{
    if memory_blocks.len() == 0 {
        0
    } else if address < memory_blocks[0].memory_lines.len() {
        0
    } else {
        1 + spec_block_index_of(memory_blocks.skip(1), address - memory_blocks[0].memory_lines.len())
    }
}

/// For an address below the total line count, the owning block index is in
/// range and its surrounding prefix sums bracket the address.
pub proof fn lemma_block_index_of_brackets<W>(memory_blocks: Seq<SramView<W>>, address: int)
    requires
        0 <= address < spec_prefix_lines(memory_blocks, memory_blocks.len() as int),
    ensures
        ({
            let k = spec_block_index_of(memory_blocks, address);
            &&& 0 <= k < memory_blocks.len()
            &&& spec_prefix_lines(memory_blocks, k) <= address
            &&& address < spec_prefix_lines(memory_blocks, k + 1)
        }),
    decreases memory_blocks.len(),
{
    if memory_blocks.len() == 0 {
    } else if address < memory_blocks[0].memory_lines.len() {
    } else {
        let tail = memory_blocks.skip(1);
        assert forall|j: int| 0 <= j <= tail.len() implies
            spec_prefix_lines(memory_blocks, j + 1)
                == memory_blocks[0].memory_lines.len() + spec_prefix_lines(tail, j) by {
            lemma_prefix_lines_shift(memory_blocks, j);
        }
        lemma_block_index_of_brackets(tail, address - memory_blocks[0].memory_lines.len());
    }
}

/// Dropping the first block shifts prefix sums by its line count.
pub proof fn lemma_prefix_lines_shift<W>(memory_blocks: Seq<SramView<W>>, j: int)
    requires
        0 <= j < memory_blocks.len(),
    ensures
        spec_prefix_lines(memory_blocks, j + 1)
            == memory_blocks[0].memory_lines.len() + spec_prefix_lines(memory_blocks.skip(1), j),
    decreases j,
{
    if j > 0 {
        lemma_prefix_lines_shift(memory_blocks, j - 1);
        assert(memory_blocks.skip(1)[j - 1] == memory_blocks[j]);
        assert(spec_prefix_lines(memory_blocks.skip(1), j)
            == spec_prefix_lines(memory_blocks.skip(1), j - 1)
                + memory_blocks.skip(1)[j - 1].memory_lines.len());
        assert(spec_prefix_lines(memory_blocks, j + 1)
            == spec_prefix_lines(memory_blocks, j) + memory_blocks[j].memory_lines.len());
    } else {
        assert(spec_prefix_lines(memory_blocks.skip(1), 0) == 0);
        assert(spec_prefix_lines(memory_blocks, 1)
            == spec_prefix_lines(memory_blocks, 0) + memory_blocks[0].memory_lines.len());
    }
}

/// The owning block depends only on the blocks' line counts.
pub proof fn lemma_block_index_of_same_lens<W>(
    blocks1: Seq<SramView<W>>,
    blocks2: Seq<SramView<W>>,
    address: int,
)
    requires
        blocks1.len() == blocks2.len(),
        forall|i: int| 0 <= i < blocks1.len()
            ==> #[trigger] blocks1[i].memory_lines.len() == blocks2[i].memory_lines.len(),
    ensures
        spec_block_index_of(blocks1, address) == spec_block_index_of(blocks2, address),
        spec_prefix_lines(blocks1, blocks1.len() as int) == spec_prefix_lines(blocks2, blocks2.len() as int),
    decreases blocks1.len(),
{
    lemma_prefix_lines_same_lens(blocks1, blocks2, blocks1.len() as int);
    if blocks1.len() > 0 {
        let t1 = blocks1.skip(1);
        let t2 = blocks2.skip(1);
        assert(forall|i: int| 0 <= i < t1.len()
            ==> #[trigger] t1[i].memory_lines.len() == t2[i].memory_lines.len());
        lemma_block_index_of_same_lens(t1, t2, address - blocks1[0].memory_lines.len());
    }
}

/// Prefix sums depend only on the blocks' line counts.
pub proof fn lemma_prefix_lines_same_lens<W>(
    blocks1: Seq<SramView<W>>,
    blocks2: Seq<SramView<W>>,
    k: int,
)
    requires
        blocks1.len() == blocks2.len(),
        forall|i: int| 0 <= i < blocks1.len()
            ==> #[trigger] blocks1[i].memory_lines.len() == blocks2[i].memory_lines.len(),
        k <= blocks1.len(),
    ensures
        spec_prefix_lines(blocks1, k) == spec_prefix_lines(blocks2, k),
    decreases k,
{
    if k > 0 {
        lemma_prefix_lines_same_lens(blocks1, blocks2, k - 1);
    }
}

/// The minimal address bit-width for `n` lines: the least `b` with
/// `pow2(b) >= n`, computed as repeated halving (rounding up).
pub open spec fn spec_ceil_log2(n: nat) -> nat
    decreases n,
{
    if n <= 1 {
        0
    } else {
        (1 + spec_ceil_log2((n - n / 2) as nat)) as nat
    }
}

/// `spec_ceil_log2` is exactly the minimal bit-width: two to that power
/// covers `n`, and no smaller power does.
pub proof fn lemma_ceil_log2_minimal(n: nat)
    requires
        n >= 1,
    ensures
        pow2(spec_ceil_log2(n)) >= n,
        spec_ceil_log2(n) > 0 ==> pow2((spec_ceil_log2(n) - 1) as nat) < n,
    decreases n,
{
    lemma2_to64();
    if n > 1 {
        let m = (n - n / 2) as nat;
        lemma_ceil_log2_minimal(m);
        let b = spec_ceil_log2(m);
        lemma_pow2_unfold(b + 1);
        assert(pow2(b + 1) == 2 * pow2(b));
        if b > 0 {
            lemma_pow2_unfold(b);
            assert(pow2(b) == 2 * pow2((b - 1) as nat));
        }
    }
}

/// The abstract state of a `StaticRandomAccessMemoryDriver`.
#[verifier::ext_equal]
pub struct DriverView<W> {
    /// The owned memory blocks, in address order.
    pub memory_blocks: Seq<SramView<W>>,
    /// The address bit-width derived at construction.
    pub bits: usize,
    /// The current global address.
    pub address: usize,
}

impl<W: Word> DriverView<W> {
    /// The total line count over all blocks.
    pub open spec fn spec_total_lines(self) -> int {
        spec_prefix_lines(self.memory_blocks, self.memory_blocks.len() as int)
    }

    /// Which block owns the current address.
    pub open spec fn spec_owning_block(self) -> int {
        spec_block_index_of(self.memory_blocks, self.address as int)
    }

    /// The state after chip-select is broadcast to every block.
    pub open spec fn spec_set_chip_select(self, chip_select: bool) -> Self {
        DriverView {
            memory_blocks: Seq::new(
                self.memory_blocks.len(),
                |i: int| self.memory_blocks[i].spec_set_chip_select(chip_select),
            ),
            ..self
        }
    }

    /// The state after write-enable is broadcast to every block.
    pub open spec fn spec_set_write_enable(self, write_enable: bool) -> Self {
        DriverView {
            memory_blocks: Seq::new(
                self.memory_blocks.len(),
                |i: int| self.memory_blocks[i].spec_set_write_enable(write_enable),
            ),
            ..self
        }
    }

    /// The state after the clock level is broadcast to every block.
    pub open spec fn spec_set_clock(self, clock_bit: bool) -> Self {
        DriverView {
            memory_blocks: Seq::new(
                self.memory_blocks.len(),
                |i: int| self.memory_blocks[i].spec_set_clock(clock_bit),
            ),
            ..self
        }
    }

    /// The state after the global address is recorded and broadcast to every
    /// block; each block gates itself on the shared address internally.
    pub open spec fn spec_set_address(self, address: usize) -> Self {
        DriverView {
            address: address,
            memory_blocks: Seq::new(
                self.memory_blocks.len(),
                |i: int| self.memory_blocks[i].spec_set_address(address),
            ),
            ..self
        }
    }

    /// The state after the data feed is broadcast to every block.
    pub open spec fn spec_set_feed(self, input_data: W) -> Self {
        DriverView {
            memory_blocks: Seq::new(
                self.memory_blocks.len(),
                |i: int| self.memory_blocks[i].spec_set_feed(input_data),
            ),
            ..self
        }
    }

    /// The state a read leaves the driver in: the owning block has prepared
    /// its read multiplexer; an out-of-range address touches nothing.
    pub open spec fn spec_read_prepared(self) -> Self {
        if self.address < self.spec_total_lines() {
            let k = self.spec_owning_block();
            DriverView {
                memory_blocks: self.memory_blocks.update(k, self.memory_blocks[k].spec_read_prepared()),
                ..self
            }
        } else {
            self
        }
    }

    /// What a read returns: `AddressOutOfRange` when no block owns the
    /// current address, otherwise whatever the owning block reads.
    pub open spec fn spec_read_result(self) -> Result<W, EmulationError> {
        if self.address < self.spec_total_lines() {
            self.memory_blocks[self.spec_owning_block()].spec_read_result()
        } else {
            Err(EmulationError::AddressOutOfRange)
        }
    }

    /// The stored word at global address `address`: the word held by the
    /// cell that a routed read of that address would reach.
    pub open spec fn spec_stored_word(self, address: int) -> W {
        self.memory_blocks[spec_block_index_of(self.memory_blocks, address)].memory_lines[address].data_word
    }

    /// Boundary-isolation law: with every block's clock low, a write
    /// sequence addressed to `a` leaves the stored word at any other
    /// readable global address `b` unchanged; writes cannot leak across
    /// addresses or block boundaries.
    pub proof fn lemma_write_isolation(self, a: usize, w: W, b: usize)
        requires
            forall|i: int| 0 <= i < self.memory_blocks.len()
                ==> !(#[trigger] self.memory_blocks[i]).clock_bit,
            b != a,
            (b as int) < self.spec_total_lines(),
            (b as int) < self.memory_blocks[
                spec_block_index_of(self.memory_blocks, b as int)
            ].memory_lines.len(),
        ensures
            self.spec_set_write_enable(true)
                .spec_set_chip_select(false)
                .spec_set_address(a)
                .spec_set_feed(w)
                .spec_set_clock(true)
                .spec_set_clock(false)
                .spec_stored_word(b as int) == self.spec_stored_word(b as int),
    {
        let blocks0 = self.memory_blocks;
        lemma_block_index_of_brackets(blocks0, b as int);
        let k = spec_block_index_of(blocks0, b as int);

        let d1 = self.spec_set_write_enable(true);
        let d2 = d1.spec_set_chip_select(false);
        let d3 = d2.spec_set_address(a);
        let d4 = d3.spec_set_feed(w);
        let d5 = d4.spec_set_clock(true);
        let d6 = d5.spec_set_clock(false);

        assert forall|i: int| 0 <= i < blocks0.len() implies
            #[trigger] d6.memory_blocks[i]
                == blocks0[i].spec_set_write_enable(true)
                    .spec_set_chip_select(false)
                    .spec_set_address(a)
                    .spec_set_feed(w)
                    .spec_set_clock(true)
                    .spec_set_clock(false) by {
            assert(d1.memory_blocks[i] == blocks0[i].spec_set_write_enable(true));
            assert(d2.memory_blocks[i] == d1.memory_blocks[i].spec_set_chip_select(false));
            assert(d3.memory_blocks[i] == d2.memory_blocks[i].spec_set_address(a));
            assert(d4.memory_blocks[i] == d3.memory_blocks[i].spec_set_feed(w));
            assert(d5.memory_blocks[i] == d4.memory_blocks[i].spec_set_clock(true));
            assert(d6.memory_blocks[i] == d5.memory_blocks[i].spec_set_clock(false));
        }

        assert forall|i: int| 0 <= i < blocks0.len() implies
            #[trigger] d6.memory_blocks[i].memory_lines.len() == blocks0[i].memory_lines.len() by {
            blocks0[i].lemma_write_sequence_preserves_line_count(a, w);
        }
        lemma_block_index_of_same_lens(d6.memory_blocks, blocks0, b as int);

        blocks0[k].lemma_write_preserves_other_lines(a, w, b as int);
    }
}

/// Several memory blocks presented as one contiguous address space. Control
/// signals are broadcast to every block; reads are routed to the owning
/// block.
pub struct StaticRandomAccessMemoryDriver<W: Word> {
    memory_blocks: Vec<StaticRandomAccessMemory<W>>,
    bits: usize,
    address: usize,
}

impl<W: Word> View for StaticRandomAccessMemoryDriver<W> {
    type V = DriverView<W>;

    closed spec fn view(&self) -> DriverView<W> {
        DriverView {
            memory_blocks: self.memory_blocks@.map_values(|b: StaticRandomAccessMemory<W>| b@),
            bits: self.bits,
            address: self.address,
        }
    }
}

impl<W: Word> StaticRandomAccessMemoryDriver<W> {
    /// Take ownership of `memory_blocks` and derive the address bit-width
    /// from their total line count. The total must fit the address type.
    #[verifier::loop_isolation(false)]
    pub fn new(memory_blocks: Vec<StaticRandomAccessMemory<W>>) -> (r: Self)
        requires
            spec_prefix_lines(
                memory_blocks@.map_values(|b: StaticRandomAccessMemory<W>| b@),
                memory_blocks@.len() as int,
            ) <= usize::MAX,
        ensures
            r@.memory_blocks == memory_blocks@.map_values(|b: StaticRandomAccessMemory<W>| b@),
            r@.address == 0,
            r@.bits == spec_ceil_log2(r@.spec_total_lines() as nat),
    {
        let ghost views = memory_blocks@.map_values(|b: StaticRandomAccessMemory<W>| b@);
        let mut total_addresses: usize = 0;
        let mut i: usize = 0;
        while i < memory_blocks.len()
            invariant
                i <= memory_blocks.len(),
                total_addresses == spec_prefix_lines(views, i as int),
            decreases memory_blocks.len() - i,
        {
            proof {
                lemma_prefix_lines_monotonic(views, i + 1, views.len() as int);
            }
            total_addresses = total_addresses + memory_blocks[i].get_memory_lines_count();
            i = i + 1;
        }
        let bit_count = ceil_log2(total_addresses);
        StaticRandomAccessMemoryDriver {
            memory_blocks,
            bits: bit_count,
            address: 0,
        }
    }

    /// Which block owns `address`: scan the blocks in order, subtracting each
    /// block's line count until one covers the remainder. Fails with
    /// `AddressOutOfRange` when the address lies beyond every block.
    #[verifier::loop_isolation(false)]
    fn determine_block_index(&self, address: usize) -> (r: Result<usize, EmulationError>)
        ensures
            match r {
                Ok(k) => {
                    &&& address < self@.spec_total_lines()
                    &&& k == spec_block_index_of(self@.memory_blocks, address as int)
                    &&& k < self@.memory_blocks.len()
                    &&& spec_prefix_lines(self@.memory_blocks, k as int) <= address
                    &&& address < spec_prefix_lines(self@.memory_blocks, k as int + 1)
                },
                Err(e) => {
                    &&& e == EmulationError::AddressOutOfRange
                    &&& address >= self@.spec_total_lines()
                },
            },
    {
        let ghost views = self@.memory_blocks;
        proof {
            assert(views.skip(0) =~= views);
        }
        let mut remaining: usize = address;
        let mut block_index: usize = 0;
        while block_index < self.memory_blocks.len()
            invariant
                block_index <= self.memory_blocks.len(),
                remaining == address - spec_prefix_lines(views, block_index as int),
                spec_prefix_lines(views, block_index as int) <= address,
                spec_block_index_of(views, address as int)
                    == block_index + spec_block_index_of(views.skip(block_index as int), remaining as int),
            decreases self.memory_blocks.len() - block_index,
        {
            let line_count = self.memory_blocks[block_index].get_memory_lines_count();
            proof {
                assert(views.skip(block_index as int)[0] == views[block_index as int]);
            }
            if remaining < line_count {
                proof {
                    lemma_prefix_lines_monotonic(views, block_index as int + 1, views.len() as int);
                }
                return Ok(block_index);
            }
            proof {
                assert(views.skip(block_index as int).skip(1) =~= views.skip(block_index as int + 1));
            }
            remaining = remaining - line_count;
            block_index = block_index + 1;
        }
        Err(EmulationError::AddressOutOfRange)
    }

    /// Read the word at the current global address: routed to the owning
    /// block alone. Fails with `AddressOutOfRange` beyond the configured
    /// space; the owning block may itself fail fast on a selector beyond its
    /// own line count.
    pub fn read_word(&mut self) -> (r: Result<W, EmulationError>)
        ensures
            final(self)@ == old(self)@.spec_read_prepared(),
            r == old(self)@.spec_read_result(),
    {
        let block_index = match self.determine_block_index(self.address) {
            Ok(k) => k,
            Err(e) => {
                return Err(e);
            },
        };
        let ghost pre = self@;
        let block = &mut self.memory_blocks[block_index];
        let result = block.read_word();
        proof {
            assert(self@.memory_blocks =~= pre.spec_read_prepared().memory_blocks);
        }
        result
    }

    /// Broadcast chip-select to every block.
    #[verifier::loop_isolation(false)]
    pub fn set_chip_select(&mut self, chip_select: bool)
        ensures
            final(self)@ == old(self)@.spec_set_chip_select(chip_select),
    {
        let mut i: usize = 0;
        while i < self.memory_blocks.len()
            invariant
                i <= self.memory_blocks.len(),
                self.memory_blocks@.len() == old(self).memory_blocks@.len(),
                self.bits == old(self).bits,
                self.address == old(self).address,
                forall|j: int| 0 <= j < i
                    ==> self.memory_blocks@[j]@ == old(self)@.memory_blocks[j].spec_set_chip_select(chip_select),
                forall|j: int| i <= j < self.memory_blocks@.len()
                    ==> self.memory_blocks@[j]@ == old(self)@.memory_blocks[j],
            decreases self.memory_blocks.len() - i,
        {
            let block = &mut self.memory_blocks[i];
            block.set_chip_select(chip_select);
            i = i + 1;
        }
        proof {
            assert(self@ =~= old(self)@.spec_set_chip_select(chip_select));
        }
    }

    /// Broadcast write-enable to every block.
    #[verifier::loop_isolation(false)]
    pub fn set_write_enable(&mut self, write_enable: bool)
        ensures
            final(self)@ == old(self)@.spec_set_write_enable(write_enable),
    {
        let mut i: usize = 0;
        while i < self.memory_blocks.len()
            invariant
                i <= self.memory_blocks.len(),
                self.memory_blocks@.len() == old(self).memory_blocks@.len(),
                self.bits == old(self).bits,
                self.address == old(self).address,
                forall|j: int| 0 <= j < i
                    ==> self.memory_blocks@[j]@ == old(self)@.memory_blocks[j].spec_set_write_enable(write_enable),
                forall|j: int| i <= j < self.memory_blocks@.len()
                    ==> self.memory_blocks@[j]@ == old(self)@.memory_blocks[j],
            decreases self.memory_blocks.len() - i,
        {
            let block = &mut self.memory_blocks[i];
            block.set_write_enable(write_enable);
            i = i + 1;
        }
        proof {
            assert(self@ =~= old(self)@.spec_set_write_enable(write_enable));
        }
    }

    /// Broadcast the clock level to every block.
    #[verifier::loop_isolation(false)]
    pub fn set_clock(&mut self, clock_bit: bool)
        ensures
            final(self)@ == old(self)@.spec_set_clock(clock_bit),
    {
        let mut i: usize = 0;
        while i < self.memory_blocks.len()
            invariant
                i <= self.memory_blocks.len(),
                self.memory_blocks@.len() == old(self).memory_blocks@.len(),
                self.bits == old(self).bits,
                self.address == old(self).address,
                forall|j: int| 0 <= j < i
                    ==> self.memory_blocks@[j]@ == old(self)@.memory_blocks[j].spec_set_clock(clock_bit),
                forall|j: int| i <= j < self.memory_blocks@.len()
                    ==> self.memory_blocks@[j]@ == old(self)@.memory_blocks[j],
            decreases self.memory_blocks.len() - i,
        {
            let block = &mut self.memory_blocks[i];
            block.set_clock(clock_bit);
            i = i + 1;
        }
        proof {
            assert(self@ =~= old(self)@.spec_set_clock(clock_bit));
        }
    }

    /// Record the global address and broadcast it to every block.
    #[verifier::loop_isolation(false)]
    pub fn set_address(&mut self, address: usize)
        ensures
            final(self)@ == old(self)@.spec_set_address(address),
    {
        self.address = address;
        let mut i: usize = 0;
        while i < self.memory_blocks.len()
            invariant
                i <= self.memory_blocks.len(),
                self.memory_blocks@.len() == old(self).memory_blocks@.len(),
                self.bits == old(self).bits,
                self.address == address,
                forall|j: int| 0 <= j < i
                    ==> self.memory_blocks@[j]@ == old(self)@.memory_blocks[j].spec_set_address(address),
                forall|j: int| i <= j < self.memory_blocks@.len()
                    ==> self.memory_blocks@[j]@ == old(self)@.memory_blocks[j],
            decreases self.memory_blocks.len() - i,
        {
            let block = &mut self.memory_blocks[i];
            block.set_address(address);
            i = i + 1;
        }
        proof {
            assert(self@ =~= old(self)@.spec_set_address(address));
        }
    }

    /// Broadcast the data feed to every block.
    #[verifier::loop_isolation(false)]
    pub fn set_feed(&mut self, input_data: W)
        ensures
            final(self)@ == old(self)@.spec_set_feed(input_data),
    {
        let mut i: usize = 0;
        while i < self.memory_blocks.len()
            invariant
                i <= self.memory_blocks.len(),
                self.memory_blocks@.len() == old(self).memory_blocks@.len(),
                self.bits == old(self).bits,
                self.address == old(self).address,
                forall|j: int| 0 <= j < i
                    ==> self.memory_blocks@[j]@ == old(self)@.memory_blocks[j].spec_set_feed(input_data),
                forall|j: int| i <= j < self.memory_blocks@.len()
                    ==> self.memory_blocks@[j]@ == old(self)@.memory_blocks[j],
            decreases self.memory_blocks.len() - i,
        {
            let block = &mut self.memory_blocks[i];
            block.set_feed(input_data);
            i = i + 1;
        }
        proof {
            assert(self@ =~= old(self)@.spec_set_feed(input_data));
        }
    }

    /// The address bit-width derived at construction.
    pub fn get_address_bits(&self) -> (r: usize)
        ensures
            r == self@.bits,
    {
        self.bits
    }
}

/// The minimal bit-width spanning `total_addresses` lines.
#[verifier::loop_isolation(false)]
fn ceil_log2(total_addresses: usize) -> (r: usize)
    ensures
        r == spec_ceil_log2(total_addresses as nat),
{
    let mut n: usize = total_addresses;
    let mut bit_count: usize = 0;
    while n > 1
        invariant
            spec_ceil_log2(total_addresses as nat) == bit_count + spec_ceil_log2(n as nat),
            total_addresses >= 1 ==> n >= 1 && bit_count + n <= total_addresses,
            total_addresses == 0 ==> n == 0 && bit_count == 0,
        decreases n,
    {
        n = n - n / 2;
        bit_count = bit_count + 1;
    }
    bit_count
}

} // verus!
