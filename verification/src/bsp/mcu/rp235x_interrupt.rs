//! The interrupt table of the RP2350: one handler slot per interrupt line.
use vstd::prelude::*;

verus! {

/// The number of interrupt lines of the RP2350.
pub const INTR_CNT: usize = 52;

/// The registered entries of `t[0..k]`, with their line numbers, in order.
pub open spec fn registered<D>(t: Seq<Option<D>>, k: int) -> Seq<(u16, D)>
    decreases k,
{
    if k <= 0 {
        Seq::empty()
    } else {
        let prev = registered(t, k - 1);
        match t[k - 1] {
            Some(d) => prev.push(((k - 1) as u16, d)),
            None => prev,
        }
    }
}

/// The handler table: for each interrupt line, the handler registered for
/// it, if any. `new` makes one slot per line of the chip.
pub struct Rp235xIrqManger<D> {
    table: Vec<Option<D>>,
}

impl<D> View for Rp235xIrqManger<D> {
    type V = Seq<Option<D>>;

    closed spec fn view(&self) -> Seq<Option<D>> {
        self.table@
    }
}

impl<D: Copy> Rp235xIrqManger<D> {
    /// A table with no handler.
    pub fn new() -> (m: Self)
        ensures
            m@ == Seq::new(INTR_CNT as nat, |i: int| None::<D>),
    {
        let mut table: Vec<Option<D>> = Vec::new();
        let mut i: usize = 0;
        while i < INTR_CNT
            invariant
                i <= INTR_CNT,
                table@ == Seq::new(i as nat, |j: int| None::<D>),
            decreases INTR_CNT - i,
        {
            table.push(None);
            i += 1;
            assert(table@ =~= Seq::new(i as nat, |j: int| None::<D>));
        }
        Rp235xIrqManger { table }
    }

    /// Installs `handler` for line `irq`, replacing any earlier one.
    pub fn register_irq_handler(&mut self, irq: u16, handler: D)
        requires
            irq < old(self)@.len(),
        ensures
            final(self)@ == old(self)@.update(irq as int, Some(handler)),
    {
        self.table.set(irq as usize, Some(handler));
    }

    /// The handler registered for line `irq`, if any.
    pub fn dispatch(&self, irq: u16) -> (h: Option<D>)
        requires
            irq < self@.len(),
        ensures
            h == self@[irq as int],
    {
        self.table[irq as usize]
    }

    /// The registered handlers with their lines, by line number.
    pub fn enumerate(&self) -> (v: Vec<(u16, D)>)
        ensures
            v@ == registered(self@, self@.len() as int),
    {
        let mut v: Vec<(u16, D)> = Vec::new();
        let mut i: usize = 0;
        while i < self.table.len()
            invariant
                i <= self.table@.len(),
                v@ == registered(self.table@, i as int),
            decreases self.table@.len() - i,
        {
            match self.table[i] {
                Some(d) => {
                    v.push((i as u16, d));
                },
                None => {},
            }
            i += 1;
        }
        v
    }
}

/// Dispatching a line gives the handler last registered for it, and
/// registering one line leaves every other line as it was.
pub proof fn lemma_dispatch_after_register<D>(t: Seq<Option<D>>, irq: int, handler: D, other: int)
    requires
        t.len() == INTR_CNT,
        0 <= irq < INTR_CNT,
        0 <= other < INTR_CNT,
        other != irq,
    ensures
        t.update(irq, Some(handler))[irq] == Some(handler),
        t.update(irq, Some(handler))[other] == t[other],
{
}

} // verus!
