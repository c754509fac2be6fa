//! The boundary memory manager.
//!
//! Buffers that have been handed to the host are kept in a registry,
//! [`GuestMemory`]. A buffer is in exactly one of two places: it is an ordinary
//! value owned by guest code, or it is an outstanding block of the registry,
//! held by the host until it is captured or released. Moving a `Vec<u8>` into
//! [`GuestMemory::transfer_out`] and getting one back from
//! [`GuestMemory::capture_in`] is the ownership flip at the boundary.
//!
//! Addresses are handed out in increasing order and never reused, so an address
//! that was released once names no block ever again: releasing twice, or
//! releasing what was never handed out, is reported as
//! [`MemoryError::UnknownBlock`] instead of corrupting memory.
//!
//! An address is a handle, not a place that the host can write through: the
//! registry holds the bytes of every outstanding block, and the host reaches
//! them through [`GuestMemory::host_write`] and [`GuestMemory::host_read`]
//! only.
//!
//! A release reclaims the bytes of a block, not its addresses. Every block
//! takes as many addresses as it has bytes, an empty block one, and the
//! frontier never moves back. A registry therefore hands out at most the
//! addresses from [`BASE_ADDRESS`] to the end of the 32-bit address space over
//! its whole life; once they are used up, every further block is refused with
//! [`MemoryError::OutOfMemory`], whatever is outstanding then.
//!
//! Each operation is one step of the protocol of [`crate::protocol`], whose
//! laws therefore hold of every sequence of calls.
use crate::protocol::{address_limit, span, MemoryOp, MemoryState};
use crate::record::{pack_parts, packed, unpack_parts, unpacked, RECORD_LEN};
use vstd::prelude::*;
use vstd::slice::slice_to_vec;

verus! {

/// The first address that is ever handed out.
pub const BASE_ADDRESS: u32 = 8;

/// `len` zero bytes: what a freshly allocated block holds.
pub open spec fn zeros(len: int) -> Seq<u8> {
    Seq::new(len as nat, |i: int| 0u8)
}

/// Why a memory operation was refused. A refused operation changes nothing.
#[derive(Debug, Clone, Copy, PartialEq, Eq, Structural)]
pub enum MemoryError {
    /// The address space has no room left for the block.
    OutOfMemory,
    /// No outstanding block starts at the address: it was never handed out, or
    /// it has been captured or released already.
    UnknownBlock,
    /// A block starts at the address, but it has another length.
    SizeMismatch,
}

/// An outstanding block: where it starts and what it holds.
struct Block {
    addr: u32,
    bytes: Vec<u8>,
}

/// The registry of blocks that are held by the host.
pub struct GuestMemory {
    /// Outstanding blocks, by increasing address.
    blocks: Vec<Block>,
    /// The first address that was never handed out.
    next: u64,
}

/// Blocks lie one after the other between the base address and `limit`,
/// without overlap.
spec fn laid_out(blocks: Seq<Block>, limit: int) -> bool {
    &&& forall|i: int|
        0 <= i < blocks.len() ==> BASE_ADDRESS <= (#[trigger] blocks[i]).addr && blocks[i].addr
            + span(blocks[i].bytes@.len() as int) <= limit
    &&& forall|i: int, j: int|
        0 <= i < j < blocks.len() ==> (#[trigger] blocks[i]).addr + span(
            blocks[i].bytes@.len() as int,
        ) <= (#[trigger] blocks[j]).addr
}

/// The blocks as a map from address to content.
spec fn block_map(blocks: Seq<Block>) -> Map<u32, Seq<u8>>
    decreases blocks.len(),
{
    if blocks.len() == 0 {
        Map::empty()
    } else {
        block_map(blocks.drop_last()).insert(blocks.last().addr, blocks.last().bytes@)
    }
}

proof fn lemma_block_map_dom(blocks: Seq<Block>, addr: u32)
    ensures
        block_map(blocks).contains_key(addr) <==> exists|i: int|
            0 <= i < blocks.len() && (#[trigger] blocks[i]).addr == addr,
    decreases blocks.len(),
{
    if blocks.len() > 0 {
        let front = blocks.drop_last();
        lemma_block_map_dom(front, addr);
        if block_map(blocks).contains_key(addr) {
            if blocks.last().addr == addr {
                assert(blocks[blocks.len() - 1].addr == addr);
            } else {
                let i = choose|i: int| 0 <= i < front.len() && (#[trigger] front[i]).addr == addr;
                assert(blocks[i].addr == addr);
            }
        }
        if exists|i: int| 0 <= i < blocks.len() && (#[trigger] blocks[i]).addr == addr {
            let i = choose|i: int| 0 <= i < blocks.len() && (#[trigger] blocks[i]).addr == addr;
            if i < front.len() {
                assert(front[i].addr == addr);
            }
        }
    }
}

proof fn lemma_block_map_at(blocks: Seq<Block>, limit: int, i: int)
    requires
        laid_out(blocks, limit),
        0 <= i < blocks.len(),
    ensures
        block_map(blocks).contains_key(blocks[i].addr),
        block_map(blocks)[blocks[i].addr] == blocks[i].bytes@,
    decreases blocks.len(),
{
    let front = blocks.drop_last();
    if i < blocks.len() - 1 {
        lemma_laid_out_front(blocks, limit);
        lemma_block_map_at(front, limit, i);
        assert(front[i] == blocks[i]);
        assert(blocks[i].addr < blocks[blocks.len() - 1].addr);
    }
}

proof fn lemma_laid_out_front(blocks: Seq<Block>, limit: int)
    requires
        laid_out(blocks, limit),
        blocks.len() > 0,
    ensures
        laid_out(blocks.drop_last(), limit),
{
    let front = blocks.drop_last();
    assert forall|k: int| 0 <= k < front.len() implies BASE_ADDRESS <= (#[trigger] front[k]).addr
        && front[k].addr + span(front[k].bytes@.len() as int) <= limit by {
        assert(front[k] == blocks[k]);
    }
    assert forall|k: int, j: int| 0 <= k < j < front.len() implies (#[trigger] front[k]).addr
        + span(front[k].bytes@.len() as int) <= (#[trigger] front[j]).addr by {
        assert(front[k] == blocks[k]);
        assert(front[j] == blocks[j]);
    }
}

proof fn lemma_laid_out_remove(blocks: Seq<Block>, limit: int, i: int)
    requires
        laid_out(blocks, limit),
        0 <= i < blocks.len(),
    ensures
        laid_out(blocks.remove(i), limit),
{
    let rest = blocks.remove(i);
    assert forall|k: int| 0 <= k < rest.len() implies BASE_ADDRESS <= (#[trigger] rest[k]).addr
        && rest[k].addr + span(rest[k].bytes@.len() as int) <= limit by {
        if k < i {
            assert(rest[k] == blocks[k]);
        } else {
            assert(rest[k] == blocks[k + 1]);
        }
    }
    assert forall|k: int, j: int| 0 <= k < j < rest.len() implies (#[trigger] rest[k]).addr + span(
        rest[k].bytes@.len() as int,
    ) <= (#[trigger] rest[j]).addr by {
        let k0 = if k < i {
            k
        } else {
            k + 1
        };
        let j0 = if j < i {
            j
        } else {
            j + 1
        };
        assert(rest[k] == blocks[k0]);
        assert(rest[j] == blocks[j0]);
    }
}

proof fn lemma_block_map_remove(blocks: Seq<Block>, limit: int, i: int)
    requires
        laid_out(blocks, limit),
        0 <= i < blocks.len(),
    ensures
        block_map(blocks.remove(i)) == block_map(blocks).remove(blocks[i].addr),
    decreases blocks.len(),
{
    let front = blocks.drop_last();
    let last = blocks.last();
    lemma_laid_out_front(blocks, limit);
    if i == blocks.len() - 1 {
        assert(blocks.remove(i) =~= front);
        lemma_block_map_dom(front, last.addr);
        if block_map(front).contains_key(last.addr) {
            let k = choose|k: int| 0 <= k < front.len() && (#[trigger] front[k]).addr == last.addr;
            assert(front[k] == blocks[k]);
            assert(blocks[k].addr < blocks[i].addr);
        }
        assert(block_map(front) =~= block_map(blocks).remove(last.addr));
    } else {
        lemma_block_map_remove(front, limit, i);
        assert(front[i] == blocks[i]);
        assert(blocks[i].addr < blocks[blocks.len() - 1].addr);
        let rest = blocks.remove(i);
        assert(rest.drop_last() =~= front.remove(i));
        assert(rest.last() == last);
        assert(block_map(rest) =~= block_map(blocks).remove(blocks[i].addr));
    }
}

proof fn lemma_block_map_update(blocks: Seq<Block>, limit: int, i: int, block: Block)
    requires
        laid_out(blocks, limit),
        0 <= i < blocks.len(),
        block.addr == blocks[i].addr,
        block.bytes@.len() == blocks[i].bytes@.len(),
    ensures
        laid_out(blocks.update(i, block), limit),
        block_map(blocks.update(i, block)) == block_map(blocks).insert(block.addr, block.bytes@),
    decreases blocks.len(),
{
    let after = blocks.update(i, block);
    assert(laid_out(after, limit)) by {
        assert forall|k: int| 0 <= k < after.len() implies BASE_ADDRESS <= (
        #[trigger] after[k]).addr && after[k].addr + span(after[k].bytes@.len() as int)
            <= limit by {
            assert(blocks[k].addr == after[k].addr);
        }
        assert forall|k: int, j: int| 0 <= k < j < after.len() implies (#[trigger] after[k]).addr
            + span(after[k].bytes@.len() as int) <= (#[trigger] after[j]).addr by {
            assert(blocks[k].addr == after[k].addr);
            assert(blocks[j].addr == after[j].addr);
        }
    }
    let front = blocks.drop_last();
    if i == blocks.len() - 1 {
        assert(after.drop_last() =~= front);
        assert(block_map(after) =~= block_map(blocks).insert(block.addr, block.bytes@));
    } else {
        lemma_laid_out_front(blocks, limit);
        lemma_block_map_update(front, limit, i, block);
        assert(front[i] == blocks[i]);
        assert(blocks[i].addr < blocks[blocks.len() - 1].addr);
        assert(after.drop_last() =~= front.update(i, block));
        assert(after.last() == blocks.last());
        assert(block_map(after) =~= block_map(blocks).insert(block.addr, block.bytes@));
    }
}

proof fn lemma_block_map_count(blocks: Seq<Block>, limit: int)
    requires
        laid_out(blocks, limit),
    ensures
        block_map(blocks).dom().finite(),
        block_map(blocks).dom().len() == blocks.len(),
    decreases blocks.len(),
{
    if blocks.len() > 0 {
        let front = blocks.drop_last();
        let last = blocks.last();
        lemma_laid_out_front(blocks, limit);
        lemma_block_map_count(front, limit);
        lemma_block_map_dom(front, last.addr);
        if block_map(front).contains_key(last.addr) {
            let k = choose|k: int| 0 <= k < front.len() && (#[trigger] front[k]).addr == last.addr;
            assert(front[k] == blocks[k]);
            assert(blocks[k].addr < blocks[blocks.len() - 1].addr);
        }
        assert(block_map(blocks).dom() =~= block_map(front).dom().insert(last.addr));
    } else {
        assert(block_map(blocks).dom() =~= Set::<u32>::empty());
    }
}

proof fn lemma_laid_out_push(blocks: Seq<Block>, limit: int, block: Block, new_limit: int)
    requires
        laid_out(blocks, limit),
        limit <= block.addr,
        BASE_ADDRESS <= block.addr,
        block.addr + span(block.bytes@.len() as int) <= new_limit,
    ensures
        laid_out(blocks.push(block), new_limit),
        block_map(blocks.push(block)) == block_map(blocks).insert(block.addr, block.bytes@),
        !block_map(blocks).contains_key(block.addr),
{
    let after = blocks.push(block);
    assert(after.drop_last() =~= blocks);
    assert forall|k: int| 0 <= k < after.len() implies BASE_ADDRESS <= (#[trigger] after[k]).addr
        && after[k].addr + span(after[k].bytes@.len() as int) <= new_limit by {
        if k < blocks.len() {
            assert(after[k] == blocks[k]);
        }
    }
    assert forall|k: int, j: int| 0 <= k < j < after.len() implies (#[trigger] after[k]).addr
        + span(after[k].bytes@.len() as int) <= (#[trigger] after[j]).addr by {
        assert(after[k] == blocks[k]);
        if j < blocks.len() {
            assert(after[j] == blocks[j]);
        }
    }
    lemma_block_map_dom(blocks, block.addr);
    if block_map(blocks).contains_key(block.addr) {
        let k = choose|k: int| 0 <= k < blocks.len() && (#[trigger] blocks[k]).addr == block.addr;
        assert(blocks[k].addr + span(blocks[k].bytes@.len() as int) <= limit);
    }
}

impl View for GuestMemory {
    type V = Map<u32, Seq<u8>>;

    /// The outstanding blocks: each address that the host holds, with the
    /// bytes of its block.
    closed spec fn view(&self) -> Map<u32, Seq<u8>> {
        block_map(self.blocks@)
    }
}

impl GuestMemory {
    /// The first address that was never handed out. Every outstanding block
    /// ends at or before it.
    pub closed spec fn frontier(&self) -> int {
        self.next as int
    }

    /// The registry is well formed: its blocks lie one after the other, without
    /// overlap, between the base address and the frontier.
    pub closed spec fn wf(&self) -> bool {
        &&& laid_out(self.blocks@, self.next as int)
        &&& BASE_ADDRESS <= self.next <= address_limit()
    }

    /// Whether a block of `len` bytes still fits in the address space.
    pub open spec fn has_room(&self, len: int) -> bool {
        self.frontier() + span(len) <= address_limit()
    }

    /// The memory as the host sees it: the outstanding blocks and the
    /// frontier.
    pub open spec fn state(&self) -> MemoryState {
        MemoryState { blocks: self@, frontier: self.frontier() }
    }

    /// A registry with no outstanding block.
    pub fn new() -> (mem: GuestMemory)
        ensures
            mem.wf(),
            mem@ == Map::<u32, Seq<u8>>::empty(),
            mem.frontier() == BASE_ADDRESS,
    {
        GuestMemory { blocks: Vec::new(), next: 8 }
    }

    /// The number of outstanding blocks: those handed to the host and neither
    /// captured nor released since.
    pub fn outstanding(&self) -> (count: usize)
        requires
            self.wf(),
        ensures
            self@.dom().finite(),
            count == self@.dom().len(),
            count == 0 <==> self@ == Map::<u32, Seq<u8>>::empty(),
    {
        proof {
            lemma_block_map_count(self.blocks@, self.next as int);
            if self.blocks@.len() == 0 {
                assert(self@ =~= Map::<u32, Seq<u8>>::empty());
            } else {
                lemma_block_map_at(self.blocks@, self.next as int, 0);
            }
        }
        self.blocks.len()
    }

    /// Whether an outstanding block starts at `addr`.
    pub fn holds(&self, addr: u32) -> (held: bool)
        requires
            self.wf(),
        ensures
            held == self@.contains_key(addr),
    {
        self.find(addr).is_some()
    }

    /// Whether a block of `len` bytes still fits in the address space.
    pub fn fits(&self, len: u32) -> (b: bool)
        requires
            self.wf(),
        ensures
            b == self.has_room(len as int),
    {
        let room: u64 = 0x1_0000_0000 - self.next;
        if len == 0 {
            room >= 1
        } else {
            len as u64 <= room
        }
    }

    /// The place of the block that starts at `addr`, if there is one.
    fn find(&self, addr: u32) -> (place: Option<usize>)
        requires
            self.wf(),
        ensures
            place is Some <==> self@.contains_key(addr),
            place matches Some(i) ==> i < self.blocks@.len() && self.blocks@[i as int].addr == addr
                && self@[addr] == self.blocks@[i as int].bytes@,
    {
        let mut i: usize = 0;
        while i < self.blocks.len()
            invariant
                self.wf(),
                i <= self.blocks@.len(),
                forall|k: int| 0 <= k < i ==> (#[trigger] self.blocks@[k]).addr != addr,
            decreases self.blocks@.len() - i,
        {
            if self.blocks[i].addr == addr {
                proof {
                    lemma_block_map_at(self.blocks@, self.next as int, i as int);
                }
                return Some(i);
            }
            i += 1;
        }
        proof {
            lemma_block_map_dom(self.blocks@, addr);
        }
        None
    }

    /// Puts a new block at the frontier.
    fn place(&mut self, bytes: Vec<u8>) -> (r: Result<u32, MemoryError>)
        requires
            old(self).wf(),
        ensures
            final(self).wf(),
            r is Ok <==> old(self).state().accepts(MemoryOp::Place(bytes@)),
            final(self).state() == old(self).state().step(MemoryOp::Place(bytes@)),
            match r {
                Ok(addr) => {
                    &&& old(self).has_room(bytes@.len() as int)
                    &&& addr == old(self).frontier()
                    &&& !old(self)@.contains_key(addr)
                    &&& final(self)@ == old(self)@.insert(addr, bytes@)
                    &&& final(self).frontier() == old(self).frontier() + span(bytes@.len() as int)
                },
                Err(error) => {
                    &&& !old(self).has_room(bytes@.len() as int)
                    &&& error == MemoryError::OutOfMemory
                    &&& *final(self) == *old(self)
                },
            },
    {
        let len = bytes.len();
        let room: u64 = 0x1_0000_0000 - self.next;
        if len as u64 > room || (len == 0 && room == 0) {
            return Err(MemoryError::OutOfMemory);
        }
        let taken: u64 = if len == 0 {
            1
        } else {
            len as u64
        };
        let addr = self.next as u32;
        let block = Block { addr, bytes };
        proof {
            lemma_laid_out_push(self.blocks@, self.next as int, block, self.next + taken);
        }
        self.blocks.push(block);
        self.next = self.next + taken;
        Ok(addr)
    }

    /// Hands a buffer over to the host: the buffer becomes an outstanding block
    /// and the guest no longer has it. Returns the block's address and length.
    ///
    /// Fails, changing nothing, exactly when the address space has no room for
    /// the buffer.
    pub fn transfer_out(&mut self, bytes: Vec<u8>) -> (r: Result<(u32, u32), MemoryError>)
        requires
            old(self).wf(),
        ensures
            final(self).wf(),
            r is Ok <==> old(self).state().accepts(MemoryOp::Place(bytes@)),
            final(self).state() == old(self).state().step(MemoryOp::Place(bytes@)),
            match r {
                Ok((addr, size)) => {
                    &&& old(self).has_room(bytes@.len() as int)
                    &&& addr == old(self).frontier()
                    &&& size == bytes@.len()
                    &&& !old(self)@.contains_key(addr)
                    &&& final(self)@ == old(self)@.insert(addr, bytes@)
                    &&& final(self).frontier() == old(self).frontier() + span(bytes@.len() as int)
                },
                Err(error) => {
                    &&& !old(self).has_room(bytes@.len() as int)
                    &&& error == MemoryError::OutOfMemory
                    &&& *final(self) == *old(self)
                },
            },
    {
        let len = bytes.len();
        match self.place(bytes) {
            Ok(addr) => Ok((addr, len as u32)),
            Err(error) => Err(error),
        }
    }

    /// Takes a block back from the host: the guest becomes the sole owner of
    /// its bytes and the block is no longer outstanding.
    ///
    /// Fails, changing nothing, when no outstanding block starts at `addr`
    /// (`UnknownBlock`) or when that block is not `size` bytes long
    /// (`SizeMismatch`).
    pub fn capture_in(&mut self, addr: u32, size: u32) -> (r: Result<Vec<u8>, MemoryError>)
        requires
            old(self).wf(),
        ensures
            final(self).wf(),
            r is Ok <==> old(self).state().accepts(MemoryOp::Take(addr, size)),
            final(self).state() == old(self).state().step(MemoryOp::Take(addr, size)),
            final(self).frontier() == old(self).frontier(),
            match r {
                Ok(bytes) => {
                    &&& old(self)@.contains_key(addr)
                    &&& old(self)@[addr].len() == size
                    &&& bytes@ == old(self)@[addr]
                    &&& final(self)@ == old(self)@.remove(addr)
                },
                Err(MemoryError::UnknownBlock) => {
                    &&& !old(self)@.contains_key(addr)
                    &&& *final(self) == *old(self)
                },
                Err(MemoryError::SizeMismatch) => {
                    &&& old(self)@.contains_key(addr)
                    &&& old(self)@[addr].len() != size
                    &&& *final(self) == *old(self)
                },
                Err(MemoryError::OutOfMemory) => false,
            },
    {
        match self.find(addr) {
            None => Err(MemoryError::UnknownBlock),
            Some(i) => {
                if self.blocks[i].bytes.len() != size as usize {
                    return Err(MemoryError::SizeMismatch);
                }
                proof {
                    lemma_block_map_remove(self.blocks@, self.next as int, i as int);
                    lemma_laid_out_remove(self.blocks@, self.next as int, i as int);
                }
                let block = self.blocks.remove(i);
                Ok(block.bytes)
            },
        }
    }

    /// What the host does between an allocation and the next crossing: it
    /// fills a block that it holds. The block keeps its address and length.
    ///
    /// Fails, changing nothing, when no outstanding block starts at `addr`
    /// (`UnknownBlock`) or when `data` has another length than the block
    /// (`SizeMismatch`).
    pub fn host_write(&mut self, addr: u32, data: &[u8]) -> (r: Result<(), MemoryError>)
        requires
            old(self).wf(),
        ensures
            final(self).wf(),
            final(self).frontier() == old(self).frontier(),
            match r {
                Ok(()) => {
                    &&& old(self)@.contains_key(addr)
                    &&& old(self)@[addr].len() == data@.len()
                    &&& final(self)@ == old(self)@.insert(addr, data@)
                },
                Err(MemoryError::UnknownBlock) => {
                    &&& !old(self)@.contains_key(addr)
                    &&& *final(self) == *old(self)
                },
                Err(MemoryError::SizeMismatch) => {
                    &&& old(self)@.contains_key(addr)
                    &&& old(self)@[addr].len() != data@.len()
                    &&& *final(self) == *old(self)
                },
                Err(MemoryError::OutOfMemory) => false,
            },
    {
        match self.find(addr) {
            None => Err(MemoryError::UnknownBlock),
            Some(i) => {
                if self.blocks[i].bytes.len() != data.len() {
                    return Err(MemoryError::SizeMismatch);
                }
                let block = Block { addr, bytes: slice_to_vec(data) };
                proof {
                    lemma_block_map_update(self.blocks@, self.next as int, i as int, block);
                }
                self.blocks.set(i, block);
                Ok(())
            },
        }
    }

    /// What the host does with a block that it received: it reads the bytes.
    /// The block stays outstanding.
    ///
    /// Fails when no outstanding block starts at `addr` (`UnknownBlock`) or
    /// when that block is not `size` bytes long (`SizeMismatch`).
    pub fn host_read(&self, addr: u32, size: u32) -> (r: Result<Vec<u8>, MemoryError>)
        requires
            self.wf(),
        ensures
            match r {
                Ok(bytes) => {
                    &&& self@.contains_key(addr)
                    &&& self@[addr].len() == size
                    &&& bytes@ == self@[addr]
                },
                Err(MemoryError::UnknownBlock) => !self@.contains_key(addr),
                Err(MemoryError::SizeMismatch) => {
                    &&& self@.contains_key(addr)
                    &&& self@[addr].len() != size
                },
                Err(MemoryError::OutOfMemory) => false,
            },
    {
        match self.find(addr) {
            None => Err(MemoryError::UnknownBlock),
            Some(i) => {
                if self.blocks[i].bytes.len() != size as usize {
                    return Err(MemoryError::SizeMismatch);
                }
                Ok(slice_to_vec(self.blocks[i].bytes.as_slice()))
            },
        }
    }

    /// Two outstanding blocks never overlap, and each lies between the base
    /// address and the frontier.
    pub proof fn lemma_blocks_apart(&self, a: u32, b: u32)
        requires
            self.wf(),
            self@.contains_key(a),
            self@.contains_key(b),
            a != b,
        ensures
            BASE_ADDRESS <= a,
            a + span(self@[a].len() as int) <= self.frontier(),
            a + span(self@[a].len() as int) <= b || b + span(self@[b].len() as int) <= a,
    {
        let blocks = self.blocks@;
        lemma_block_map_dom(blocks, a);
        lemma_block_map_dom(blocks, b);
        let i = choose|i: int| 0 <= i < blocks.len() && (#[trigger] blocks[i]).addr == a;
        let j = choose|j: int| 0 <= j < blocks.len() && (#[trigger] blocks[j]).addr == b;
        lemma_block_map_at(blocks, self.next as int, i);
        lemma_block_map_at(blocks, self.next as int, j);
        if i < j {
            assert(blocks[i].addr + span(blocks[i].bytes@.len() as int) <= blocks[j].addr);
        } else {
            assert(blocks[j].addr + span(blocks[j].bytes@.len() as int) <= blocks[i].addr);
        }
    }

    /// The frontier lies between the base address and the end of the address
    /// space: every address that is handed out is at least the base address,
    /// and so never zero.
    pub proof fn lemma_frontier_in_range(&self)
        requires
            self.wf(),
        ensures
            BASE_ADDRESS <= self.frontier() <= address_limit(),
    {
    }

    /// A well-formed registry is a sound state of the protocol: what is proved
    /// of every run of the protocol holds of it.
    pub proof fn lemma_state_is_sound(&self)
        requires
            self.wf(),
        ensures
            self.state().sound(),
    {
        lemma_block_map_count(self.blocks@, self.next as int);
        assert forall|addr: u32| self@.contains_key(addr) implies addr < self.frontier() by {
            if self.frontier() <= addr {
                self.lemma_frontier_is_free(addr);
            }
        }
    }

    /// No outstanding block starts at or after the frontier: an address that
    /// is yet to be handed out names no block.
    pub proof fn lemma_frontier_is_free(&self, addr: u32)
        requires
            self.wf(),
            self.frontier() <= addr,
        ensures
            !self@.contains_key(addr),
    {
        let blocks = self.blocks@;
        lemma_block_map_dom(blocks, addr);
        if self@.contains_key(addr) {
            let i = choose|i: int| 0 <= i < blocks.len() && (#[trigger] blocks[i]).addr == addr;
            assert(blocks[i].addr + span(blocks[i].bytes@.len() as int) <= self.next);
        }
    }
}

/// Reserves a block of `len` bytes for the host to write into, and returns its
/// address. The block is outstanding from the start; it holds zeros until the
/// host has filled it.
///
/// Fails, changing nothing, exactly when the address space has no room left:
/// when the addresses from the frontier on are fewer than the block needs.
/// Released blocks give no addresses back, so what counts is all that was ever
/// handed out, not what is outstanding.
pub fn wasm_alloc(mem: &mut GuestMemory, len: u32) -> (r: Result<u32, MemoryError>)
    requires
        old(mem).wf(),
    ensures
        final(mem).wf(),
        r is Ok <==> old(mem).state().accepts(MemoryOp::Place(zeros(len as int))),
        final(mem).state() == old(mem).state().step(MemoryOp::Place(zeros(len as int))),
        match r {
            Ok(addr) => {
                &&& old(mem).has_room(len as int)
                &&& addr == old(mem).frontier()
                &&& !old(mem)@.contains_key(addr)
                &&& final(mem)@ == old(mem)@.insert(addr, zeros(len as int))
                &&& final(mem).frontier() == old(mem).frontier() + span(len as int)
            },
            Err(error) => {
                &&& !old(mem).has_room(len as int)
                &&& error == MemoryError::OutOfMemory
                &&& *final(mem) == *old(mem)
            },
        },
{
    if !mem.fits(len) {
        return Err(MemoryError::OutOfMemory);
    }
    let bytes: Vec<u8> = vec![0u8; len as usize];
    assert(bytes@ =~= zeros(len as int));
    mem.place(bytes)
}

/// Destroys a block that the host holds and reclaims its bytes; its addresses
/// are not handed out again, and the frontier stays where it is. Each block is
/// released once: a second release of the same address, or the release of an
/// address that was never handed out, fails with `UnknownBlock` and changes
/// nothing; so does one with the wrong length, with `SizeMismatch`.
pub fn unforget(mem: &mut GuestMemory, offset: u32, size: u32) -> (r: Result<(), MemoryError>)
    requires
        old(mem).wf(),
    ensures
        final(mem).wf(),
        r is Ok <==> old(mem).state().accepts(MemoryOp::Take(offset, size)),
        final(mem).state() == old(mem).state().step(MemoryOp::Take(offset, size)),
        final(mem).frontier() == old(mem).frontier(),
        match r {
            Ok(()) => {
                &&& old(mem)@.contains_key(offset)
                &&& old(mem)@[offset].len() == size
                &&& final(mem)@ == old(mem)@.remove(offset)
            },
            Err(MemoryError::UnknownBlock) => {
                &&& !old(mem)@.contains_key(offset)
                &&& *final(mem) == *old(mem)
            },
            Err(MemoryError::SizeMismatch) => {
                &&& old(mem)@.contains_key(offset)
                &&& old(mem)@[offset].len() != size
                &&& *final(mem) == *old(mem)
            },
            Err(MemoryError::OutOfMemory) => false,
        },
{
    match mem.capture_in(offset, size) {
        Ok(_) => Ok(()),
        Err(error) => Err(error),
    }
}

/// Writes the record of the block `(offset, size)` into a block of its own
/// and returns that block's address, the one word that crosses the boundary.
/// The host unpacks the record and then releases both blocks.
///
/// Fails, changing nothing, exactly when the address space has no room for
/// the record.
pub fn vec_parts_to_host(mem: &mut GuestMemory, offset: u32, size: u32) -> (r: Result<
    u32,
    MemoryError,
>)
    requires
        old(mem).wf(),
    ensures
        final(mem).wf(),
        r is Ok <==> old(mem).state().accepts(MemoryOp::Place(packed(offset, size))),
        final(mem).state() == old(mem).state().step(MemoryOp::Place(packed(offset, size))),
        match r {
            Ok(addr) => {
                &&& old(mem).has_room(RECORD_LEN as int)
                &&& addr == old(mem).frontier()
                &&& !old(mem)@.contains_key(addr)
                &&& final(mem)@ == old(mem)@.insert(addr, packed(offset, size))
                &&& final(mem).frontier() == old(mem).frontier() + RECORD_LEN
            },
            Err(error) => {
                &&& !old(mem).has_room(RECORD_LEN as int)
                &&& error == MemoryError::OutOfMemory
                &&& *final(mem) == *old(mem)
            },
        },
{
    let record = pack_parts(offset, size);
    mem.place(record)
}

/// Leaves the record of the block `(offset, size)` for the host, as
/// [`vec_parts_to_host`] does, or takes the block back: where the address space
/// has no room for the record, the block is released, so that a call that fails
/// here leaves nothing of its own outstanding.
///
/// Fails exactly when the address space has no room for the record. The block
/// is then released if it is outstanding with that length; nothing else
/// changes.
pub fn record_to_host(mem: &mut GuestMemory, offset: u32, size: u32) -> (r: Result<
    u32,
    MemoryError,
>)
    requires
        old(mem).wf(),
    ensures
        final(mem).wf(),
        match r {
            Ok(addr) => {
                &&& old(mem).has_room(RECORD_LEN as int)
                &&& addr == old(mem).frontier()
                &&& !old(mem)@.contains_key(addr)
                &&& final(mem)@ == old(mem)@.insert(addr, packed(offset, size))
                &&& final(mem).frontier() == old(mem).frontier() + RECORD_LEN
            },
            Err(error) => {
                &&& !old(mem).has_room(RECORD_LEN as int)
                &&& error == MemoryError::OutOfMemory
                &&& final(mem).frontier() == old(mem).frontier()
                &&& final(mem)@ == if old(mem)@.contains_key(offset) && old(mem)@[offset].len()
                    == size {
                    old(mem)@.remove(offset)
                } else {
                    old(mem)@
                }
            },
        },
{
    match vec_parts_to_host(mem, offset, size) {
        Ok(addr) => Ok(addr),
        Err(error) => {
            let _ = mem.capture_in(offset, size);
            Err(error)
        },
    }
}

/// Takes the record that the host left at `offset` and reads the block that it
/// describes. The record's block is consumed.
///
/// Fails, changing nothing, when no outstanding block starts at `offset`
/// (`UnknownBlock`) or when that block is not a record of eight bytes
/// (`SizeMismatch`).
pub fn vec_parts_from_host(mem: &mut GuestMemory, offset: u32) -> (r: Result<
    (u32, u32),
    MemoryError,
>)
    requires
        old(mem).wf(),
    ensures
        final(mem).wf(),
        final(mem).frontier() == old(mem).frontier(),
        match r {
            Ok(parts) => {
                &&& old(mem)@.contains_key(offset)
                &&& old(mem)@[offset].len() == RECORD_LEN
                &&& parts == unpacked(old(mem)@[offset])
                &&& final(mem)@ == old(mem)@.remove(offset)
            },
            Err(MemoryError::UnknownBlock) => {
                &&& !old(mem)@.contains_key(offset)
                &&& *final(mem) == *old(mem)
            },
            Err(MemoryError::SizeMismatch) => {
                &&& old(mem)@.contains_key(offset)
                &&& old(mem)@[offset].len() != RECORD_LEN
                &&& *final(mem) == *old(mem)
            },
            Err(MemoryError::OutOfMemory) => false,
        },
{
    match mem.capture_in(offset, 8) {
        Ok(record) => {
            match unpack_parts(record.as_slice()) {
                Some(parts) => Ok(parts),
                None => Err(MemoryError::SizeMismatch),
            }
        },
        Err(error) => Err(error),
    }
}

/// Takes the reply that the host left behind a record: captures the record at
/// `offset`, then the block that the record describes, and returns that
/// block's bytes. Both blocks are consumed.
///
/// Fails, changing nothing, when no record of eight bytes starts at `offset`.
/// Fails with the record consumed when the record describes no outstanding
/// block (`UnknownBlock`) or one of another length (`SizeMismatch`).
pub fn bytes_from_host(mem: &mut GuestMemory, offset: u32) -> (r: Result<Vec<u8>, MemoryError>)
    requires
        old(mem).wf(),
    ensures
        final(mem).wf(),
        final(mem).frontier() == old(mem).frontier(),
        old(mem)@.contains_key(offset) && old(mem)@[offset].len() == RECORD_LEN ==> ({
            let (addr, size) = unpacked(old(mem)@[offset]);
            let rest = old(mem)@.remove(offset);
            match r {
                Ok(bytes) => {
                    &&& rest.contains_key(addr)
                    &&& rest[addr].len() == size
                    &&& bytes@ == rest[addr]
                    &&& final(mem)@ == rest.remove(addr)
                },
                Err(MemoryError::UnknownBlock) => !rest.contains_key(addr) && final(mem)@ == rest,
                Err(MemoryError::SizeMismatch) => {
                    &&& rest.contains_key(addr)
                    &&& rest[addr].len() != size
                    &&& final(mem)@ == rest
                },
                Err(MemoryError::OutOfMemory) => false,
            }
        }),
        !old(mem)@.contains_key(offset) ==> r == Err::<Vec<u8>, MemoryError>(
            MemoryError::UnknownBlock,
        ) && *final(mem) == *old(mem),
        old(mem)@.contains_key(offset) && old(mem)@[offset].len() != RECORD_LEN ==> r == Err::<
            Vec<u8>,
            MemoryError,
        >(MemoryError::SizeMismatch) && *final(mem) == *old(mem),
{
    match vec_parts_from_host(mem, offset) {
        Err(error) => Err(error),
        Ok((addr, size)) => mem.capture_in(addr, size),
    }
}

} // verus!
