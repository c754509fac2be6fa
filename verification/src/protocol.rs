//! The ownership protocol, as the host sees it.
//!
//! The memory manager is a small state machine: a block is placed at the
//! frontier when the host asks for one or the guest hands one over, and it is
//! taken away again when the host releases it or the guest captures it. This
//! module states the machine over plain values and proves what holds of every
//! run of it.
use vstd::prelude::*;

verus! {

/// One past the last address of the 32-bit address space.
pub open spec fn address_limit() -> int {
    0x1_0000_0000
}

/// The room that a block of `len` bytes takes in the address space. An empty
/// block still takes one address, so that no two blocks share theirs.
pub open spec fn span(len: int) -> int {
    if len <= 0 {
        1
    } else {
        len
    }
}

/// The memory as the host sees it.
pub struct MemoryState {
    /// The outstanding blocks: address to content.
    pub blocks: Map<u32, Seq<u8>>,
    /// The first address that was never handed out.
    pub frontier: int,
}

/// One step that touches the memory.
pub enum MemoryOp {
    /// A block with the given content is placed and handed to the host.
    Place(Seq<u8>),
    /// The block at an address, of a length, is released or captured.
    Take(u32, u32),
}

impl MemoryState {
    /// Whether a block of `len` bytes still fits in the address space.
    pub open spec fn has_room(self, len: int) -> bool {
        self.frontier + span(len) <= address_limit()
    }

    /// Whether the block `(addr, size)` is outstanding.
    pub open spec fn holds(self, addr: u32, size: u32) -> bool {
        self.blocks.contains_key(addr) && self.blocks[addr].len() == size
    }

    /// No block lies at or beyond the frontier, and there are finitely many.
    pub open spec fn sound(self) -> bool {
        &&& self.blocks.dom().finite()
        &&& 0 <= self.frontier <= address_limit()
        &&& forall|addr: u32| self.blocks.contains_key(addr) ==> addr < self.frontier
    }

    /// The number of outstanding blocks.
    pub open spec fn outstanding(self) -> nat {
        self.blocks.dom().len()
    }

    /// Whether a step is carried out. A step that is not leaves the memory as
    /// it was, and its caller gets an error.
    pub open spec fn accepts(self, op: MemoryOp) -> bool {
        match op {
            MemoryOp::Place(bytes) => self.has_room(bytes.len() as int),
            MemoryOp::Take(addr, size) => self.holds(addr, size),
        }
    }

    /// The memory after one step.
    pub open spec fn step(self, op: MemoryOp) -> MemoryState {
        if !self.accepts(op) {
            self
        } else {
            match op {
                MemoryOp::Place(bytes) => MemoryState {
                    blocks: self.blocks.insert(self.frontier as u32, bytes),
                    frontier: self.frontier + span(bytes.len() as int),
                },
                MemoryOp::Take(addr, size) => MemoryState {
                    blocks: self.blocks.remove(addr),
                    frontier: self.frontier,
                },
            }
        }
    }

    /// The memory after a run of steps.
    pub open spec fn run(self, ops: Seq<MemoryOp>) -> MemoryState
        decreases ops.len(),
    {
        if ops.len() == 0 {
            self
        } else {
            self.run(ops.drop_last()).step(ops.last())
        }
    }

    /// How many blocks a run hands out.
    pub open spec fn placed(self, ops: Seq<MemoryOp>) -> nat
        decreases ops.len(),
    {
        if ops.len() == 0 {
            0
        } else {
            let before = self.run(ops.drop_last());
            self.placed(ops.drop_last()) + if ops.last() is Place && before.accepts(ops.last()) {
                1nat
            } else {
                0nat
            }
        }
    }

    /// How many blocks a run takes back.
    pub open spec fn taken(self, ops: Seq<MemoryOp>) -> nat
        decreases ops.len(),
    {
        if ops.len() == 0 {
            0
        } else {
            let before = self.run(ops.drop_last());
            self.taken(ops.drop_last()) + if ops.last() is Take && before.accepts(ops.last()) {
                1nat
            } else {
                0nat
            }
        }
    }
}

/// A step keeps the memory sound, never moves the frontier back, and changes
/// the number of outstanding blocks by exactly one where it is carried out.
pub proof fn lemma_step(state: MemoryState, op: MemoryOp)
    requires
        state.sound(),
    ensures
        state.step(op).sound(),
        state.frontier <= state.step(op).frontier,
        !state.accepts(op) ==> state.step(op) == state,
        state.accepts(op) && op is Place ==> state.step(op).outstanding() == state.outstanding()
            + 1,
        state.accepts(op) && op is Take ==> state.step(op).outstanding() == state.outstanding()
            - 1,
{
    if state.accepts(op) {
        match op {
            MemoryOp::Place(bytes) => {
                let addr = state.frontier as u32;
                assert(!state.blocks.contains_key(addr));
                assert(state.step(op).blocks.dom() =~= state.blocks.dom().insert(addr));
            },
            MemoryOp::Take(addr, size) => {
                assert(state.step(op).blocks.dom() =~= state.blocks.dom().remove(addr));
            },
        }
    }
}

/// A block is released once: taking a block that was just taken is refused,
/// and changes nothing.
pub proof fn lemma_second_take_is_refused(state: MemoryState, addr: u32, size: u32)
    ensures
        !state.step(MemoryOp::Take(addr, size)).accepts(MemoryOp::Take(addr, size)) || !state.accepts(
            MemoryOp::Take(addr, size),
        ),
        state.accepts(MemoryOp::Take(addr, size)) ==> state.step(MemoryOp::Take(addr, size)).step(
            MemoryOp::Take(addr, size),
        ) == state.step(MemoryOp::Take(addr, size)),
{
}

/// An address is handed out once: a block that was taken is never placed at the
/// same address again, whatever steps follow.
pub proof fn lemma_address_is_not_reused(state: MemoryState, ops: Seq<MemoryOp>, addr: u32)
    requires
        state.sound(),
        addr < state.frontier,
        !state.blocks.contains_key(addr),
    ensures
        state.run(ops).sound(),
        state.frontier <= state.run(ops).frontier,
        !state.run(ops).blocks.contains_key(addr),
    decreases ops.len(),
{
    if ops.len() > 0 {
        lemma_address_is_not_reused(state, ops.drop_last(), addr);
        lemma_step(state.run(ops.drop_last()), ops.last());
    }
}

/// Over every run, the outstanding blocks are those that were there, plus
/// those handed out, minus those taken back.
pub proof fn lemma_run_balance(state: MemoryState, ops: Seq<MemoryOp>)
    requires
        state.sound(),
    ensures
        state.run(ops).sound(),
        state.run(ops).outstanding() + state.taken(ops) == state.outstanding() + state.placed(ops),
    decreases ops.len(),
{
    if ops.len() > 0 {
        lemma_run_balance(state, ops.drop_last());
        lemma_step(state.run(ops.drop_last()), ops.last());
    }
}

/// A host that starts with nothing outstanding and gets every block taken back
/// that was handed out, each once, ends with nothing outstanding; a host that
/// omits a release ends with a block outstanding.
pub proof fn lemma_disciplined_host(state: MemoryState, ops: Seq<MemoryOp>)
    requires
        state.sound(),
        state.blocks == Map::<u32, Seq<u8>>::empty(),
    ensures
        state.taken(ops) <= state.placed(ops),
        state.taken(ops) == state.placed(ops) <==> state.run(ops).blocks == Map::<
            u32,
            Seq<u8>,
        >::empty(),
{
    lemma_run_balance(state, ops);
    let end = state.run(ops);
    assert(state.outstanding() == 0);
    if end.outstanding() == 0 {
        assert(end.blocks.dom() =~= Set::<u32>::empty());
        assert(end.blocks =~= Map::<u32, Seq<u8>>::empty());
    }
}

} // verus!
