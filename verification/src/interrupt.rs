//! The two-stage generic interrupt controller driver.
//!
//! The memory-mapped register file (distributor and CPU interface) is held
//! as owned state: each 32-bit register bank is a word vector, the
//! acknowledge register presents the queue of raised interrupt values, and
//! every end-of-interrupt write is logged in order.  The driver's protocol
//! obligation — acknowledge, react, then write the same value back exactly
//! once, and never for a spurious read — is stated on `handle_interrupt`.

use vstd::prelude::*;

verus! {

/// Interrupt line of the system timer.
pub const IRQ_TIMER: u32 = 64;

/// Interrupt line of the primary UART.
pub const IRQ_UART0: u32 = 153;

/// Interrupt line of the GPIO block.
pub const IRQ_GPIO: u32 = 113;

/// Acknowledge values at or above this are spurious and get no EOI write.
pub const SPURIOUS_IRQ_FLOOR: u32 = 1020;

/// What the acknowledge register reads when no interrupt is pending.
pub const NO_PENDING_IRQ: u32 = 1023;

/// The type register value of the modeled distributor: 256 lines.
pub const GIC_TYPER_RESET: u32 = 7;

/// How many interrupt lines a distributor with this type register carries.
pub open spec fn spec_num_lines(typer: u32) -> u32 {
    (((typer & 0x1F) + 1) * 32) as u32
}

/// The mathematical state of the interrupt controller's register file.
#[verifier::ext_equal]
pub struct GicView {
    /// Distributor control register; 1 when forwarding interrupts.
    pub dist_ctlr: u32,
    /// Read-only type register, fixed by the hardware.
    pub typer: u32,
    /// Effective enable bits, one word per 32 lines.
    pub enabled: Seq<u32>,
    /// Effective pending bits, one word per 32 lines.
    pub pending: Seq<u32>,
    /// Priority bytes, one word per 4 lines.
    pub priority: Seq<u32>,
    /// Target-core bytes, one word per 4 lines.
    pub targets: Seq<u32>,
    /// CPU interface control register; 1 when signalling the core.
    pub cpu_ctlr: u32,
    /// Priority mask of the CPU interface.
    pub pmr: u32,
    /// Values the acknowledge register will present, in order.
    pub pending_acks: Seq<u32>,
    /// Values written to the end-of-interrupt register, in order.
    pub eoi_writes: Seq<u32>,
}

impl GicView {
    /// The register banks cover the architectural maximum of 1024 lines.
    pub open spec fn wf(self) -> bool {
        &&& self.enabled.len() == 32
        &&& self.pending.len() == 32
        &&& self.priority.len() == 256
        &&& self.targets.len() == 256
    }

    /// Whether the distributor forwards a given line.
    pub open spec fn irq_enabled(self, irq: u32) -> bool {
        self.enabled[(irq / 32) as int] & (1u32 << (irq % 32)) != 0
    }
}

/// One acknowledge/handle/EOI round: the acknowledge register presents the
/// next raised value (or the no-pending value), a spurious read is dropped
/// without an EOI write, any other value is answered by exactly one EOI
/// write of that same value.
pub open spec fn spec_handle(g: GicView) -> (GicView, Option<u32>) {
    if g.pending_acks.len() == 0 {
        (g, None)
    } else {
        let iar = g.pending_acks[0];
        let g1 = GicView { pending_acks: g.pending_acks.subrange(1, g.pending_acks.len() as int), ..g };
        let irq = iar & 0x3FF;
        if irq >= SPURIOUS_IRQ_FLOOR {
            (g1, None)
        } else {
            (GicView { eoi_writes: g1.eoi_writes.push(iar), ..g1 }, Some(irq))
        }
    }
}

pub struct InterruptController {
    dist_ctlr: u32,
    typer: u32,
    enabled: Vec<u32>,
    pending: Vec<u32>,
    priority: Vec<u32>,
    targets: Vec<u32>,
    cpu_ctlr: u32,
    pmr: u32,
    pending_acks: Vec<u32>,
    eoi_writes: Vec<u32>,
}

impl View for InterruptController {
    type V = GicView;

    closed spec fn view(&self) -> GicView {
        GicView {
            dist_ctlr: self.dist_ctlr,
            typer: self.typer,
            enabled: self.enabled@,
            pending: self.pending@,
            priority: self.priority@,
            targets: self.targets@,
            cpu_ctlr: self.cpu_ctlr,
            pmr: self.pmr,
            pending_acks: self.pending_acks@,
            eoi_writes: self.eoi_writes@,
        }
    }
}

impl InterruptController {
    pub open spec fn wf(&self) -> bool {
        self@.wf()
    }

    /// The controller at reset: everything masked and nothing pending.
    pub fn new() -> (r: InterruptController)
        ensures
            r.wf(),
            r@.dist_ctlr == 0,
            r@.typer == GIC_TYPER_RESET,
            r@.cpu_ctlr == 0,
            r@.pmr == 0,
            forall|w: int| 0 <= w < 32 ==> r@.enabled[w] == 0 && r@.pending[w] == 0,
            forall|w: int| 0 <= w < 256 ==> r@.priority[w] == 0 && r@.targets[w] == 0,
            r@.pending_acks == Seq::<u32>::empty(),
            r@.eoi_writes == Seq::<u32>::empty(),
    {
        InterruptController {
            dist_ctlr: 0,
            typer: GIC_TYPER_RESET,
            enabled: zero_words(32),
            pending: zero_words(32),
            priority: zero_words(256),
            targets: zero_words(256),
            cpu_ctlr: 0,
            pmr: 0,
            pending_acks: Vec::new(),
            eoi_writes: Vec::new(),
        }
    }

    /// Brings the controller up: distributor reset and re-enabled, CPU
    /// interface open to every priority, and exactly the timer, UART and
    /// GPIO lines unmasked.
    pub fn init(&mut self) -> (r: Result<(), &'static str>)
        requires
            old(self).wf(),
            old(self)@.typer == GIC_TYPER_RESET,
        ensures
            final(self).wf(),
            r is Ok,
            final(self)@.dist_ctlr == 1,
            final(self)@.cpu_ctlr == 1,
            final(self)@.pmr == 0xFF,
            final(self)@.typer == old(self)@.typer,
            forall|irq: u32|
                irq < spec_num_lines(old(self)@.typer) ==> (#[trigger] final(self)@.irq_enabled(irq)
                    <==> (irq == IRQ_TIMER || irq == IRQ_UART0 || irq == IRQ_GPIO)),
            forall|w: int|
                0 <= w < spec_num_lines(old(self)@.typer) / 32 ==> final(self)@.pending[w] == 0,
            forall|w: int|
                0 <= w < spec_num_lines(old(self)@.typer) / 4 ==> final(self)@.priority[w]
                    == 0xA0A0A0A0,
            forall|w: int|
                8 <= w < spec_num_lines(old(self)@.typer) / 4 ==> final(self)@.targets[w]
                    == 0x01010101,
            final(self)@.pending_acks == old(self)@.pending_acks,
            final(self)@.eoi_writes == old(self)@.eoi_writes,
    {
        self.init_distributor();
        self.init_cpu_interface();

        self.enable_interrupt(IRQ_TIMER);
        self.enable_interrupt(IRQ_UART0);
        self.enable_interrupt(IRQ_GPIO);

        proof {
            let g = self@;
            let lines = spec_num_lines(old(self)@.typer);
            assert(7u32 & 0x1F == 7) by (bit_vector);
            assert(lines == 256);
            assert forall|irq: u32| irq < lines implies (#[trigger] g.irq_enabled(irq) <==> (irq
                == IRQ_TIMER || irq == IRQ_UART0 || irq == IRQ_GPIO)) by {
                let bank = (irq / 32) as int;
                let bit = irq % 32;
                vstd::arithmetic::div_mod::lemma_fundamental_div_mod(irq as int, 32);
                assert(irq == 32 * bank + bit);
                assert(0 <= bank < 8);
                if bank == 2 {
                    assert(g.enabled[bank] == (0u32 | (1u32 << 0u32)));
                    assert((((0u32 | (1u32 << 0u32)) & (1u32 << bit)) != 0) <==> bit == 0)
                        by (bit_vector);
                } else if bank == 3 {
                    assert(g.enabled[bank] == (0u32 | (1u32 << 17u32)));
                    assert((((0u32 | (1u32 << 17u32)) & (1u32 << bit)) != 0) <==> bit == 17)
                        by (bit_vector);
                } else if bank == 4 {
                    assert(g.enabled[bank] == (0u32 | (1u32 << 25u32)));
                    assert((((0u32 | (1u32 << 25u32)) & (1u32 << bit)) != 0) <==> bit == 25)
                        by (bit_vector);
                } else {
                    assert(g.enabled[bank] == 0u32);
                    assert((0u32 & (1u32 << bit)) == 0) by (bit_vector);
                }
            }
        }
        Ok(())
    }

    /// Resets the distributor: all lines masked and cleared, a fixed
    /// priority everywhere, every shared line routed to the primary core,
    /// then forwarding re-enabled.
    fn init_distributor(&mut self)
        requires
            old(self).wf(),
        ensures
            final(self).wf(),
            final(self)@.dist_ctlr == 1,
            final(self)@.typer == old(self)@.typer,
            final(self)@.enabled.len() == 32,
            forall|w: int|
                0 <= w < spec_num_lines(old(self)@.typer) / 32 ==> final(self)@.enabled[w] == 0
                    && final(self)@.pending[w] == 0,
            forall|w: int|
                spec_num_lines(old(self)@.typer) / 32 <= w < 32 ==> final(self)@.enabled[w] == old(
                    self,
                )@.enabled[w] && final(self)@.pending[w] == old(self)@.pending[w],
            forall|w: int|
                0 <= w < spec_num_lines(old(self)@.typer) / 4 ==> final(self)@.priority[w]
                    == 0xA0A0A0A0,
            forall|w: int|
                8 <= w < spec_num_lines(old(self)@.typer) / 4 ==> final(self)@.targets[w]
                    == 0x01010101,
            forall|w: int| 0 <= w < 8 ==> final(self)@.targets[w] == old(self)@.targets[w],
            forall|w: int|
                spec_num_lines(old(self)@.typer) / 4 <= w < 256 ==> final(self)@.priority[w] == old(
                    self,
                )@.priority[w] && final(self)@.targets[w] == old(self)@.targets[w],
            final(self)@.cpu_ctlr == old(self)@.cpu_ctlr,
            final(self)@.pmr == old(self)@.pmr,
            final(self)@.pending_acks == old(self)@.pending_acks,
            final(self)@.eoi_writes == old(self)@.eoi_writes,
    {
        // Disable the distributor while it is reprogrammed.
        self.dist_ctlr = 0;

        // The type register tells how many lines are implemented.
        let typer = self.typer;
        proof {
            assert(typer & 0x1F <= 0x1F) by (bit_vector);
        }
        let num_lines: u32 = ((typer & 0x1F) + 1) * 32;
        let num_words: usize = (num_lines / 32) as usize;
        let num_prio_words: usize = (num_lines / 4) as usize;
        proof {
            assert(num_lines == spec_num_lines(typer));
            assert(num_lines <= 1024);
            assert(num_prio_words == 8 * num_words);
        }

        // Mask every line: a clear-enable write of all ones per bank.
        let mut w: usize = 0;
        while w < num_words
            invariant
                self@.wf(),
                num_words <= 32,
                self@.enabled.len() == 32,
                w <= num_words,
                forall|v: int| 0 <= v < w ==> self@.enabled[v] == 0,
                forall|v: int| w <= v < 32 ==> self@.enabled[v] == old(self)@.enabled[v],
                self@ == (GicView { enabled: self@.enabled, dist_ctlr: 0u32, ..old(self)@ }),
            decreases num_words - w,
        {
            self.enabled[w] = 0;
            w = w + 1;
        }

        // Clear every pending line the same way.
        let mut w2: usize = 0;
        while w2 < num_words
            invariant
                self@.wf(),
                num_words <= 32,
                self@.pending.len() == 32,
                w2 <= num_words,
                forall|v: int| 0 <= v < w2 ==> self@.pending[v] == 0,
                forall|v: int| w2 <= v < 32 ==> self@.pending[v] == old(self)@.pending[v],
                forall|v: int| 0 <= v < num_words ==> self@.enabled[v] == 0,
                forall|v: int| num_words <= v < 32 ==> self@.enabled[v] == old(self)@.enabled[v],
                self@ == (GicView {
                    enabled: self@.enabled,
                    pending: self@.pending,
                    dist_ctlr: 0u32,
                    ..old(self)@
                }),
            decreases num_words - w2,
        {
            self.pending[w2] = 0;
            w2 = w2 + 1;
        }

        // A fixed middling priority for every line, four bytes per word.
        let mut p: usize = 0;
        while p < num_prio_words
            invariant
                self@.wf(),
                num_prio_words <= 256,
                self@.priority.len() == 256,
                p <= num_prio_words,
                forall|v: int| 0 <= v < p ==> self@.priority[v] == 0xA0A0A0A0,
                forall|v: int| p <= v < 256 ==> self@.priority[v] == old(self)@.priority[v],
                forall|v: int| 0 <= v < num_words ==> self@.enabled[v] == 0 && self@.pending[v] == 0,
                forall|v: int|
                    num_words <= v < 32 ==> self@.enabled[v] == old(self)@.enabled[v]
                        && self@.pending[v] == old(self)@.pending[v],
                self@ == (GicView {
                    enabled: self@.enabled,
                    pending: self@.pending,
                    priority: self@.priority,
                    dist_ctlr: 0u32,
                    ..old(self)@
                }),
            decreases num_prio_words - p,
        {
            self.priority[p] = 0xA0A0A0A0;
            p = p + 1;
        }

        // Route every shared line (32 and up) to the primary core.
        let mut t: usize = 8;
        while t < num_prio_words
            invariant
                self@.wf(),
                num_prio_words <= 256,
                8 <= num_prio_words || t == 8,
                self@.targets.len() == 256,
                8 <= t <= 256,
                t <= num_prio_words || t == 8,
                forall|v: int| 8 <= v < t ==> self@.targets[v] == 0x01010101,
                forall|v: int| 0 <= v < 8 ==> self@.targets[v] == old(self)@.targets[v],
                forall|v: int| t <= v < 256 ==> self@.targets[v] == old(self)@.targets[v],
                forall|v: int| 0 <= v < num_words ==> self@.enabled[v] == 0 && self@.pending[v] == 0,
                forall|v: int|
                    num_words <= v < 32 ==> self@.enabled[v] == old(self)@.enabled[v]
                        && self@.pending[v] == old(self)@.pending[v],
                forall|v: int| 0 <= v < num_prio_words ==> self@.priority[v] == 0xA0A0A0A0,
                forall|v: int|
                    num_prio_words <= v < 256 ==> self@.priority[v] == old(self)@.priority[v],
                self@ == (GicView {
                    enabled: self@.enabled,
                    pending: self@.pending,
                    priority: self@.priority,
                    targets: self@.targets,
                    dist_ctlr: 0u32,
                    ..old(self)@
                }),
            decreases num_prio_words - t,
        {
            self.targets[t] = 0x01010101;
            t = t + 1;
        }

        // Forward interrupts again.
        self.dist_ctlr = 1;
    }

    /// Opens the CPU interface: accept every priority and enable signalling.
    fn init_cpu_interface(&mut self)
        requires
            old(self).wf(),
        ensures
            final(self).wf(),
            final(self)@ == (GicView { cpu_ctlr: 1u32, pmr: 0xFFu32, ..old(self)@ }),
    {
        self.pmr = 0xFF;
        self.cpu_ctlr = 1;
    }

    /// Unmasks one line: a set-enable write of the line's bit in its bank.
    pub fn enable_interrupt(&mut self, irq: u32)
        requires
            old(self).wf(),
            irq < 1024,
        ensures
            final(self).wf(),
            final(self)@ == (GicView {
                enabled: old(self)@.enabled.update(
                    (irq / 32) as int,
                    (old(self)@.enabled[(irq / 32) as int] | (1u32 << (irq % 32))),
                ),
                ..old(self)@
            }),
    {
        let bank = (irq / 32) as usize;
        let bit = irq % 32;
        let current = self.enabled[bank];
        self.enabled[bank] = current | (1u32 << bit);
        proof {
            assert(self@ =~= GicView {
                enabled: old(self)@.enabled.update(
                    (irq / 32) as int,
                    (old(self)@.enabled[(irq / 32) as int] | (1u32 << (irq % 32))),
                ),
                ..old(self)@
            });
        }
    }

    /// Masks one line: a clear-enable write of the line's bit in its bank.
    pub fn disable_interrupt(&mut self, irq: u32)
        requires
            old(self).wf(),
            irq < 1024,
        ensures
            final(self).wf(),
            final(self)@ == (GicView {
                enabled: old(self)@.enabled.update(
                    (irq / 32) as int,
                    (old(self)@.enabled[(irq / 32) as int] & !(1u32 << (irq % 32))),
                ),
                ..old(self)@
            }),
    {
        let bank = (irq / 32) as usize;
        let bit = irq % 32;
        let current = self.enabled[bank];
        self.enabled[bank] = current & !(1u32 << bit);
        proof {
            assert(self@ =~= GicView {
                enabled: old(self)@.enabled.update(
                    (irq / 32) as int,
                    (old(self)@.enabled[(irq / 32) as int] & !(1u32 << (irq % 32))),
                ),
                ..old(self)@
            });
        }
    }

    /// Models the hardware raising an interrupt: the value joins the queue
    /// the acknowledge register presents.
    pub fn raise_interrupt(&mut self, iar: u32)
        requires
            old(self).wf(),
        ensures
            final(self).wf(),
            final(self)@ == (GicView {
                pending_acks: old(self)@.pending_acks.push(iar),
                ..old(self)@
            }),
    {
        self.pending_acks.push(iar);
        proof {
            assert(self@ =~= GicView {
                pending_acks: old(self)@.pending_acks.push(iar),
                ..old(self)@
            });
        }
    }

    /// One acknowledge/react/EOI round.  Reads the acknowledge register;
    /// a spurious value (1020 and up) is ignored with no EOI write; any
    /// other value is answered by exactly one end-of-interrupt write of the
    /// same value, and its line number is returned.
    pub fn handle_interrupt(&mut self) -> (r: Option<u32>)
        requires
            old(self).wf(),
        ensures
            final(self).wf(),
            final(self)@ == spec_handle(old(self)@).0,
            r == spec_handle(old(self)@).1,
    {
        let iar = if self.pending_acks.len() > 0 {
            self.pending_acks.remove(0)
        } else {
            NO_PENDING_IRQ
        };
        let irq = iar & 0x3FF;

        if irq >= SPURIOUS_IRQ_FLOOR {
            proof {
                assert(1023u32 & 0x3FF == 1023) by (bit_vector);
                assert(self@ =~= spec_handle(old(self)@).0);
            }
            return None;
        }
        proof {
            assert(1023u32 & 0x3FF == 1023) by (bit_vector);
        }

        // The in-kernel reaction to the specific line (timer requeue,
        // console service) is the caller's concern; the protocol step owed
        // here is the end-of-interrupt write.
        self.eoi_writes.push(iar);
        proof {
            assert(self@ =~= spec_handle(old(self)@).0);
        }
        Some(irq)
    }

    /// Whether the distributor currently forwards a line.
    pub fn is_enabled(&self, irq: u32) -> (r: bool)
        requires
            self.wf(),
            irq < 1024,
        ensures
            r == self@.irq_enabled(irq),
    {
        let bank = (irq / 32) as usize;
        let bit = irq % 32;
        self.enabled[bank] & (1u32 << bit) != 0
    }

    /// The end-of-interrupt writes issued so far, oldest first.
    pub fn eoi_log(&self) -> (r: &[u32])
        ensures
            r@ == self@.eoi_writes,
    {
        self.eoi_writes.as_slice()
    }
}

/// The byte offset of an exception-vector slot: sixteen 0x80-aligned slots,
/// four exception classes by four exception kinds.
pub fn vector_slot_offset(class: u32, kind: u32) -> (r: u32)
    requires
        class < 4,
        kind < 4,
    ensures
        r == (class * 4 + kind) * 0x80,
{
    (class * 4 + kind) * 0x80
}

/// A fresh word bank of the given length, all zero.
fn zero_words(n: usize) -> (r: Vec<u32>)
    ensures
        r@.len() == n,
        forall|w: int| 0 <= w < n ==> r@[w] == 0,
{
    let mut v: Vec<u32> = Vec::new();
    let mut i: usize = 0;
    while i < n
        invariant
            i <= n,
            v@.len() == i,
            forall|w: int| 0 <= w < i ==> v@[w] == 0,
        decreases n - i,
    {
        v.push(0);
        i = i + 1;
    }
    v
}

} // verus!
