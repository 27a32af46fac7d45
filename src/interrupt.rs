use vstd::prelude::*;
use crate::lazy::OnceCell;
use crate::sync::Mutex;

verus! {

/// The kind of gate a trap descriptor describes.
#[derive(Clone, Copy, Debug, PartialEq, Eq, Structural)]
pub enum GateType {
    /// Interrupts are disabled on entry (type field `0xE`).
    InterruptGate,
    /// Interrupts stay enabled on entry (type field `0xF`).
    TrapGate,
}

impl GateType {
    /// The four-bit type field encoding this gate.
    pub open spec fn spec_bits(self) -> u8 {
        match self {
            GateType::InterruptGate => 0xE,
            GateType::TrapGate => 0xF,
        }
    }

    pub fn bits(self) -> (r: u8)
        ensures
            r == self.spec_bits(),
    {
        match self {
            GateType::InterruptGate => 0xE,
            GateType::TrapGate => 0xF,
        }
    }
}

impl Default for GateType {
    fn default() -> (r: Self)
        ensures
            r == GateType::InterruptGate,
    {
        GateType::InterruptGate
    }
}

/// The options byte of a trap descriptor.
///
/// Bits 0..=3 hold the descriptor kind, bits 5..=6 the privilege level and bit 7
/// the present flag.
#[derive(Clone, Copy, Debug, PartialEq, Eq, Structural)]
pub struct IDTEntryOptions(pub u8);

/// The kind field (bits 0..=3) of an options byte.
pub open spec fn gate_field(b: u8) -> u8 {
    b & 0x0F
}

/// The privilege-level field of an options byte, shifted down to 0..=3.
pub open spec fn dpl_field(b: u8) -> u8 {
    (b >> 5u8) & 3
}

/// The present flag of an options byte.
pub open spec fn present_field(b: u8) -> bool {
    (b & 0x80) == 0x80
}

impl IDTEntryOptions {
    /// The descriptor kind; the field must hold one of the two valid encodings.
    pub fn gate_type(&self) -> (r: GateType)
        requires
            gate_field(self.0) == 0xE || gate_field(self.0) == 0xF,
        ensures
            r.spec_bits() == gate_field(self.0),
    {
        if self.0 & 0x0F == 0xE {
            GateType::InterruptGate
        } else {
            GateType::TrapGate
        }
    }

    pub fn set_gate_type(&mut self, gate_type: GateType)
        ensures
            final(self).0 == (old(self).0 & 0xF0) | gate_type.spec_bits(),
            gate_field(final(self).0) == gate_type.spec_bits(),
            final(self).0 & 0xF0 == old(self).0 & 0xF0,
    {
        let g = gate_type.bits();
        let old_b = self.0;
        self.0 = self.0 & 0xF0 | g;
        assert(g <= 0xF ==> ((old_b & 0xF0) | g) & 0x0F == g && ((old_b & 0xF0) | g) & 0xF0
            == old_b & 0xF0) by (bit_vector);
    }

    /// The privilege-level bits, in place (masked, not shifted).
    pub fn dpl(&self) -> (r: u8)
        ensures
            r == self.0 & 0x60,
            r == dpl_field(self.0) << 5u8,
    {
        let b = self.0;
        assert(b & 0x60 == ((b >> 5u8) & 3) << 5u8) by (bit_vector);
        self.0 & 0b0110_0000
    }

    /// Places `dpl` at bit 5; a level of 0..=3 leaves every other field as it was.
    pub fn set_dpl(&mut self, dpl: u8)
        ensures
            final(self).0 == (old(self).0 & 0x9F) | (dpl << 5u8),
            dpl <= 3 ==> dpl_field(final(self).0) == dpl,
            dpl <= 3 ==> final(self).0 & 0x9F == old(self).0 & 0x9F,
    {
        let old_b = self.0;
        self.0 = self.0 & 0b1001_1111 | dpl << 5;
        assert(dpl <= 3 ==> (((old_b & 0x9F) | (dpl << 5u8)) >> 5u8) & 3 == dpl
            && ((old_b & 0x9F) | (dpl << 5u8)) & 0x9F == old_b & 0x9F) by (bit_vector);
    }

    pub fn present(&self) -> (r: bool)
        ensures
            r == present_field(self.0),
    {
        (self.0 & 0b1000_0000) == 0b1000_0000
    }

    pub fn set_present(&mut self, present: bool)
        ensures
            final(self).0 == (old(self).0 & 0x7F) | (if present { 0x80u8 } else { 0u8 }),
            present_field(final(self).0) == present,
            final(self).0 & 0x7F == old(self).0 & 0x7F,
    {
        let old_b = self.0;
        let bit: u8 = if present { 0x80 } else { 0 };
        self.0 = self.0 & 0x7F | bit;
        assert(bit == 0x80 || bit == 0 ==> (((old_b & 0x7F) | bit) & 0x80 == 0x80 <==> bit == 0x80)
            && ((old_b & 0x7F) | bit) & 0x7F == old_b & 0x7F) by (bit_vector);
    }
}

impl Default for IDTEntryOptions {
    /// An interrupt gate, privilege level 0, not present: `0x0E`.
    fn default() -> (r: Self)
        ensures
            r.0 == 0x0E,
    {
        let mut ret = IDTEntryOptions(0);
        ret.set_gate_type(GateType::InterruptGate);
        assert((0u8 & 0xF0) | 0xE == 0x0E) by (bit_vector);
        ret
    }
}

impl From<u8> for IDTEntryOptions {
    fn from(v: u8) -> (r: Self)
        ensures
            r.0 == v,
    {
        IDTEntryOptions(v)
    }
}

impl vstd::std_specs::convert::FromSpecImpl<u8> for IDTEntryOptions {
    open spec fn obeys_from_spec() -> bool {
        true
    }

    open spec fn from_spec(v: u8) -> Self {
        IDTEntryOptions(v)
    }
}

/// One 16-byte trap descriptor.
///
/// The handler address is split over `fn_ptr_low` (bits 0..=15),
/// `fn_ptr_mid` (bits 16..=31) and `fn_ptr_high` (bits 32..=63).
#[derive(Clone, Copy, Debug, PartialEq, Eq, Structural)]
pub struct IDTEnrty {
    pub fn_ptr_low: u16,
    pub gdt_selector: u16,
    pub ist: u8,
    pub options: IDTEntryOptions,
    pub fn_ptr_mid: u16,
    pub fn_ptr_high: u32,
    pub reserved: u32,
}

/// The descriptor every vector holds until a handler is installed: all
/// fields zero but the options, which say "interrupt gate, not present".
pub open spec fn blank_entry() -> IDTEnrty {
    IDTEnrty {
        fn_ptr_low: 0,
        gdt_selector: 0,
        ist: 0,
        options: IDTEntryOptions(0x0E),
        fn_ptr_mid: 0,
        fn_ptr_high: 0,
        reserved: 0,
    }
}

/// The descriptor that routes a vector to the handler at `handler`
/// through the code segment `cs`: interrupt gate, privilege 0, present,
/// no stack switch.
pub open spec fn handler_entry(handler: u64, cs: u16) -> IDTEnrty {
    IDTEnrty {
        fn_ptr_low: (handler & 0xFFFF) as u16,
        gdt_selector: cs,
        ist: 0,
        options: IDTEntryOptions(0x8E),
        fn_ptr_mid: ((handler >> 16u64) & 0xFFFF) as u16,
        fn_ptr_high: (handler >> 32u64) as u32,
        reserved: 0,
    }
}

impl IDTEnrty {
    /// The handler address put back together from its three parts.
    pub open spec fn handler_address(self) -> u64 {
        (self.fn_ptr_low as u64) | ((self.fn_ptr_mid as u64) << 16u64) | ((self.fn_ptr_high as u64)
            << 32u64)
    }

    /// A present interrupt-gate descriptor for `handler`; `cs` is the code
    /// segment selector active when the descriptor is built.
    pub fn new(handler: u64, cs: u16) -> (r: Self)
        ensures
            r == handler_entry(handler, cs),
            r.handler_address() == handler,
            present_field(r.options.0),
    {
        let mut options = IDTEntryOptions::default();
        options.set_present(true);
        assert((0x0Eu8 & 0x7F) | 0x80u8 == 0x8E) by (bit_vector);
        let r = IDTEnrty {
            fn_ptr_low: (handler & 0xFFFF) as u16,
            gdt_selector: cs,
            ist: 0,
            options,
            fn_ptr_mid: ((handler >> 16) & 0xFFFF) as u16,
            fn_ptr_high: (handler >> 32) as u32,
            reserved: 0,
        };
        assert((((handler & 0xFFFF) as u16) as u64) | (((((handler >> 16u64) & 0xFFFF) as u16) as u64)
            << 16u64) | ((((handler >> 32u64) as u32) as u64) << 32u64) == handler) by (bit_vector);
        r
    }

    /// The descriptor as two little-endian 64-bit words, in the order the
    /// hardware reads them.
    pub open spec fn words(self) -> (u64, u64) {
        (
            (self.fn_ptr_low as u64) | ((self.gdt_selector as u64) << 16u64) | ((self.ist as u64)
                << 32u64) | ((self.options.0 as u64) << 40u64) | ((self.fn_ptr_mid as u64)
                << 48u64),
            (self.fn_ptr_high as u64) | ((self.reserved as u64) << 32u64),
        )
    }

    pub fn encode(&self) -> (r: (u64, u64))
        ensures
            r == self.words(),
            r.0 & 0xFFFF == self.fn_ptr_low as u64,
            (r.0 >> 16u64) & 0xFFFF == self.gdt_selector as u64,
            (r.0 >> 32u64) & 0xFF == self.ist as u64,
            (r.0 >> 40u64) & 0xFF == self.options.0 as u64,
            r.0 >> 48u64 == self.fn_ptr_mid as u64,
            r.1 & 0xFFFF_FFFF == self.fn_ptr_high as u64,
            r.1 >> 32u64 == self.reserved as u64,
    {
        let low = self.fn_ptr_low as u64;
        let sel = self.gdt_selector as u64;
        let ist = self.ist as u64;
        let opt = self.options.0 as u64;
        let mid = self.fn_ptr_mid as u64;
        let high = self.fn_ptr_high as u64;
        let res = self.reserved as u64;
        let w0 = low | (sel << 16) | (ist << 32) | (opt << 40) | (mid << 48);
        let w1 = high | (res << 32);
        assert(low <= 0xFFFF && sel <= 0xFFFF && ist <= 0xFF && opt <= 0xFF && mid <= 0xFFFF ==> {
            let w = low | (sel << 16u64) | (ist << 32u64) | (opt << 40u64) | (mid << 48u64);
            &&& w & 0xFFFF == low
            &&& (w >> 16u64) & 0xFFFF == sel
            &&& (w >> 32u64) & 0xFF == ist
            &&& (w >> 40u64) & 0xFF == opt
            &&& w >> 48u64 == mid
        }) by (bit_vector);
        assert(high <= 0xFFFF_FFFF && res <= 0xFFFF_FFFF ==> (high | (res << 32u64)) & 0xFFFF_FFFF
            == high && (high | (res << 32u64)) >> 32u64 == res) by (bit_vector);
        (w0, w1)
    }
}

impl Default for IDTEnrty {
    fn default() -> (r: Self)
        ensures
            r == blank_entry(),
    {
        IDTEnrty {
            fn_ptr_low: 0,
            gdt_selector: 0,
            ist: 0,
            options: IDTEntryOptions::default(),
            fn_ptr_mid: 0,
            fn_ptr_high: 0,
            reserved: 0,
        }
    }
}

/// Number of vectors in the table.
pub const IDT_VECTORS: usize = 256;

/// Vector of the double-fault exception.
pub const DOUBLE_FAULT_VECTOR: usize = 8;

/// Vector of the page-fault exception.
pub const PAGE_FAULT_VECTOR: usize = 14;

/// The full table of 256 trap descriptors.
pub struct InterruptDescriptorTable {
    entries: Vec<IDTEnrty>,
}

impl View for InterruptDescriptorTable {
    type V = Seq<IDTEnrty>;

    closed spec fn view(&self) -> Seq<IDTEnrty> {
        self.entries@
    }
}

impl InterruptDescriptorTable {
    /// A table always holds exactly one descriptor per vector.
    pub open spec fn wf(&self) -> bool {
        self@.len() == IDT_VECTORS
    }

    /// Every vector holds the blank descriptor.
    pub fn new() -> (r: Self)
        ensures
            r@ =~= Seq::new(IDT_VECTORS as nat, |i: int| blank_entry()),
    {
        let mut entries: Vec<IDTEnrty> = Vec::new();
        let mut i: usize = 0;
        while i < IDT_VECTORS
            invariant
                i <= IDT_VECTORS,
                entries@ =~= Seq::new(i as nat, |k: int| blank_entry()),
            decreases IDT_VECTORS - i,
        {
            entries.push(IDTEnrty::default());
            i = i + 1;
        }
        InterruptDescriptorTable { entries }
    }

    pub fn len(&self) -> (r: usize)
        requires
            self.wf(),
        ensures
            r == self@.len(),
            r == IDT_VECTORS,
    {
        self.entries.len()
    }

    pub fn entry(&self, vector: usize) -> (r: IDTEnrty)
        requires
            self.wf(),
            vector < IDT_VECTORS,
        ensures
            r == self@[vector as int],
    {
        self.entries[vector]
    }

    /// Installs `entry` at `vector`; every other vector keeps its descriptor.
    pub fn set_entry(&mut self, vector: usize, entry: IDTEnrty)
        requires
            old(self).wf(),
            vector < IDT_VECTORS,
        ensures
            final(self)@ == old(self)@.update(vector as int, entry),
    {
        self.entries.set(vector, entry);
    }

    /// The limit the trap-table register is loaded with: the table's size
    /// in bytes, minus one.
    pub fn limit(&self) -> (r: u16)
        ensures
            r as int == IDT_VECTORS * 16 - 1,
    {
        (IDT_VECTORS * 16 - 1) as u16
    }

    /// The table as the 512 little-endian words the hardware reads, two per
    /// vector.
    pub fn encode(&self) -> (r: Vec<u64>)
        requires
            self.wf(),
        ensures
            r@.len() == 2 * IDT_VECTORS,
            forall|v: int|
                0 <= v < IDT_VECTORS ==> (#[trigger] self@[v]).words() == (
                    r@[2 * v],
                    r@[2 * v + 1],
                ),
    {
        let mut words: Vec<u64> = Vec::new();
        let mut i: usize = 0;
        while i < IDT_VECTORS
            invariant
                i <= IDT_VECTORS,
                self@.len() == IDT_VECTORS,
                words@.len() == 2 * i,
                forall|v: int|
                    0 <= v < i ==> (#[trigger] self@[v]).words() == (
                        words@[2 * v],
                        words@[2 * v + 1],
                    ),
            decreases IDT_VECTORS - i,
        {
            let (w0, w1) = self.entries[i].encode();
            words.push(w0);
            words.push(w1);
            i = i + 1;
        }
        words
    }
}

impl Default for InterruptDescriptorTable {
    fn default() -> (r: Self)
        ensures
            r@ =~= Seq::new(IDT_VECTORS as nat, |i: int| blank_entry()),
    {
        InterruptDescriptorTable::new()
    }
}

/// The table `init_idt` builds: the double-fault and page-fault vectors
/// route to their handlers, every other vector holds the blank descriptor.
pub open spec fn initial_table(double_fault: u64, page_fault: u64, cs: u16) -> Seq<IDTEnrty> {
    Seq::new(IDT_VECTORS as nat, |i: int| blank_entry()).update(
        DOUBLE_FAULT_VECTOR as int,
        handler_entry(double_fault, cs),
    ).update(PAGE_FAULT_VECTOR as int, handler_entry(page_fault, cs))
}

/// Builds the trap table into the empty one-time cell behind `idt`, under
/// its lock. `double_fault` and `page_fault` are the handlers' addresses and
/// `cs` the code segment selector in use; the table is then ready to load.
pub fn init_idt(
    idt: &mut Mutex<OnceCell<InterruptDescriptorTable>>,
    double_fault: u64,
    page_fault: u64,
    cs: u16,
)
    requires
        !old(idt).is_locked(),
        old(idt).data()@ is None,
    ensures
        !final(idt).is_locked(),
        final(idt).data()@ is Some,
        final(idt).data()@.unwrap()@ == initial_table(double_fault, page_fault, cs),
{
    let guard = idt.lock();
    let cell = idt.get_mut(&guard);
    let _ = cell.set(InterruptDescriptorTable::default());
    match cell.get_mut() {
        Some(table) => {
            table.set_entry(DOUBLE_FAULT_VECTOR, IDTEnrty::new(double_fault, cs));
            table.set_entry(PAGE_FAULT_VECTOR, IDTEnrty::new(page_fault, cs));
            assert(table@ =~= initial_table(double_fault, page_fault, cs));
        },
        None => {},
    }
    idt.unlock(guard);
}

} // verus!
