//! The boot sequence: RAM initialization and the layout of the vector table.
//!
//! Memory is represented as a byte array indexed by address offset; the
//! regions come from the linker as start and end offsets into it.
use vstd::prelude::*;

verus! {

/// `m` with the bytes of `[start, end)` set to 0.
pub open spec fn zero_filled(m: Seq<u8>, start: int, end: int) -> Seq<u8> {
    Seq::new(m.len(), |i: int| if start <= i < end { 0u8 } else { m[i] })
}

/// `m` with the `count` bytes at `src` copied to `dst`.
pub open spec fn copied(m: Seq<u8>, src: int, dst: int, count: int) -> Seq<u8> {
    Seq::new(m.len(), |i: int| if dst <= i < dst + count { m[src + (i - dst)] } else { m[i] })
}

/// Sets every byte of `[start, end)` to 0.
pub fn zero_fill(mem: &mut Vec<u8>, start: usize, end: usize)
    requires
        start <= end <= old(mem).len(),
    ensures
        final(mem)@ == zero_filled(old(mem)@, start as int, end as int),
        forall|i: int| start <= i < end ==> #[trigger] final(mem)@[i] == 0,
{
    let mut i: usize = start;
    while i < end
        invariant
            start <= i <= end,
            end <= mem.len(),
            mem.len() == old(mem).len(),
            forall|j: int|
                0 <= j < mem.len() ==> #[trigger] mem@[j] == (if start <= j < i {
                    0u8
                } else {
                    old(mem)@[j]
                }),
        decreases end - i,
    {
        mem.set(i, 0);
        i = i + 1;
    }
    assert(mem@ =~= zero_filled(old(mem)@, start as int, end as int));
}

/// Copies the `count` bytes at `src` to `dst`; the two ranges do not overlap.
pub fn copy_nonoverlapping(mem: &mut Vec<u8>, src: usize, dst: usize, count: usize)
    requires
        src + count <= old(mem).len(),
        dst + count <= old(mem).len(),
        src + count <= dst || dst + count <= src,
    ensures
        final(mem)@ == copied(old(mem)@, src as int, dst as int, count as int),
        forall|k: int| 0 <= k < count ==> #[trigger] final(mem)@[dst + k] == old(mem)@[src + k],
{
    let mut k: usize = 0;
    while k < count
        invariant
            k <= count,
            src + count <= mem.len(),
            dst + count <= mem.len(),
            src + count <= dst || dst + count <= src,
            mem.len() == old(mem).len(),
            forall|j: int|
                0 <= j < mem.len() ==> #[trigger] mem@[j] == (if dst <= j < dst + k {
                    old(mem)@[src + (j - dst)]
                } else {
                    old(mem)@[j]
                }),
        decreases count - k,
    {
        let b = mem[src + k];
        mem.set(dst + k, b);
        k = k + 1;
    }
    assert(mem@ =~= copied(old(mem)@, src as int, dst as int, count as int));
    assert forall|k: int| 0 <= k < count implies #[trigger] mem@[dst + k] == old(mem)@[src + k] by {
        assert(mem@[dst + k] == old(mem)@[src + ((dst + k) - dst)]);
    }
}

/// The memory regions that the linker defines: the zero-initialized data
/// (`.bss`, from `sbss` to `ebss`), the initialized data in RAM (`.data`, from
/// `sdata` to `edata`) and the image of its initial values (from `sidata`).
#[derive(Clone, Copy, Debug)]
pub struct MemoryLayout {
    pub sbss: usize,
    pub ebss: usize,
    pub sdata: usize,
    pub edata: usize,
    pub sidata: usize,
}

impl MemoryLayout {
    /// The regions are well formed and lie within a memory of `len` bytes, and
    /// the initial-value image does not overlap `.data`.
    pub open spec fn fits(&self, len: int) -> bool {
        &&& self.sbss <= self.ebss <= len
        &&& self.sdata <= self.edata <= len
        &&& self.sidata + (self.edata - self.sdata) <= len
        &&& (self.sidata + (self.edata - self.sdata) <= self.sdata || self.edata <= self.sidata)
    }
}

/// Initializes the RAM: sets `.bss` to 0, then copies the initial values of
/// the static variables into `.data`.
pub fn initialize_ram(mem: &mut Vec<u8>, layout: &MemoryLayout)
    requires
        layout.fits(old(mem).len() as int),
    ensures
        final(mem)@ == copied(
            zero_filled(old(mem)@, layout.sbss as int, layout.ebss as int),
            layout.sidata as int,
            layout.sdata as int,
            layout.edata - layout.sdata,
        ),
{
    let count_bss = layout.ebss - layout.sbss;
    zero_fill(mem, layout.sbss, layout.sbss + count_bss);
    let count_data = layout.edata - layout.sdata;
    copy_nonoverlapping(mem, layout.sidata, layout.sdata, count_data);
}

/// The handler that a vector table slot refers to.
#[derive(Clone, Copy, Debug, PartialEq, Eq, Structural)]
pub enum Handler {
    /// The reset handler, which runs the boot sequence.
    Reset,
    /// The default handler, which halts in place.
    Default,
}

/// Entry of the vector table: a handler, or a reserved slot that must hold 0.
#[derive(Clone, Copy, Debug, PartialEq, Eq, Structural)]
pub enum VectorTableEntry {
    Handler(Handler),
    Reserved,
}

impl VectorTableEntry {
    /// The word the slot holds, given the addresses of the two handlers.
    pub fn word(&self, reset_address: u32, default_address: u32) -> (r: u32)
        ensures
            r == match *self {
                VectorTableEntry::Handler(Handler::Reset) => reset_address,
                VectorTableEntry::Handler(Handler::Default) => default_address,
                VectorTableEntry::Reserved => 0u32,
            },
    {
        match self {
            VectorTableEntry::Handler(Handler::Reset) => reset_address,
            VectorTableEntry::Handler(Handler::Default) => default_address,
            VectorTableEntry::Reserved => 0,
        }
    }
}

/// The number of exception slots after the reset vector (NMI to SysTick).
pub const NUM_EXCEPTIONS: usize = 14;

/// The number of external interrupts of the board's microcontroller.
pub const NUM_EXTERNAL_INTERRUPTS: usize = 32;

/// The slot at `offset` in the vector table (offset 0 is the initial stack
/// pointer, which the linker places): the reset handler at 1; at 2 to 15 the
/// exceptions NMI, HardFault, MemManage, BusFault, UsageFault, four reserved
/// slots, SVCall, DebugMonitor, a reserved slot, PendSV and SysTick; at 16 to
/// 47 the external interrupts.
pub open spec fn vector_slot(offset: int) -> VectorTableEntry {
    if offset == 1 {
        VectorTableEntry::Handler(Handler::Reset)
    } else if 7 <= offset <= 10 || offset == 13 {
        VectorTableEntry::Reserved
    } else {
        VectorTableEntry::Handler(Handler::Default)
    }
}

/// The exception slots, offsets 2 to 15 of the vector table.
pub fn exceptions() -> (r: Vec<VectorTableEntry>)
    ensures
        r.len() == NUM_EXCEPTIONS,
        forall|i: int| 0 <= i < r.len() ==> #[trigger] r@[i] == vector_slot(i + 2),
{
    let handler = VectorTableEntry::Handler(Handler::Default);
    let reserved = VectorTableEntry::Reserved;
    let r = vec![
        // 2: NMI
        handler,
        // 3: HardFault
        handler,
        // 4: MemManage
        handler,
        // 5: BusFault
        handler,
        // 6: UsageFault
        handler,
        // 7-10: reserved
        reserved,
        reserved,
        reserved,
        reserved,
        // 11: SVCall
        handler,
        // 12: DebugMonitor
        handler,
        // 13: reserved
        reserved,
        // 14: PendSV
        handler,
        // 15: SysTick
        handler,
    ];
    assert forall|i: int| 0 <= i < r.len() implies #[trigger] r@[i] == vector_slot(i + 2) by {
        assert(r@ == seq![
            handler, handler, handler, handler, handler,
            reserved, reserved, reserved, reserved,
            handler, handler, reserved, handler, handler,
        ]);
    }
    r
}

/// The external interrupt slots, offsets 16 to 47 of the vector table: all
/// bound to the default handler.
pub fn external_interrupts() -> (r: Vec<VectorTableEntry>)
    ensures
        r.len() == NUM_EXTERNAL_INTERRUPTS,
        forall|i: int| 0 <= i < r.len() ==> #[trigger] r@[i] == vector_slot(i + 16),
{
    let mut r: Vec<VectorTableEntry> = Vec::new();
    let mut i: usize = 0;
    while i < NUM_EXTERNAL_INTERRUPTS
        invariant
            i <= NUM_EXTERNAL_INTERRUPTS,
            r.len() == i,
            forall|j: int| 0 <= j < r.len() ==> #[trigger] r@[j] == vector_slot(j + 16),
        decreases NUM_EXTERNAL_INTERRUPTS - i,
    {
        r.push(VectorTableEntry::Handler(Handler::Default));
        i = i + 1;
    }
    r
}

/// The vector table from offset 1 to 47: the reset vector, the exceptions and
/// the external interrupts.
pub fn vector_table() -> (r: Vec<VectorTableEntry>)
    ensures
        r.len() == 1 + NUM_EXCEPTIONS + NUM_EXTERNAL_INTERRUPTS,
        forall|i: int| 0 <= i < r.len() ==> #[trigger] r@[i] == vector_slot(i + 1),
{
    let mut r: Vec<VectorTableEntry> = vec![VectorTableEntry::Handler(Handler::Reset)];
    let mut exc = exceptions();
    let mut ext = external_interrupts();
    let ghost head = r@;
    let ghost exc_slots = exc@;
    let ghost ext_slots = ext@;
    r.append(&mut exc);
    r.append(&mut ext);
    assert(r@ =~= head + exc_slots + ext_slots);
    assert forall|i: int| 0 <= i < r.len() implies #[trigger] r@[i] == vector_slot(i + 1) by {
        if 1 <= i < 15 {
            assert(r@[i] == exc_slots[i - 1]);
        } else if 15 <= i {
            assert(r@[i] == ext_slots[i - 15]);
        }
    }
    r
}

} // verus!
