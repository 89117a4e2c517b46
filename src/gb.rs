use vstd::prelude::*;
use crate::bus::{Bus, BusState};
use crate::cpu::{reset_state, step, Cpu, CpuState};
use crate::fault::Fault;

verus! {

/// Bytes in a frame: 160 x 144 pixels, four bytes each.
pub const FRAME_BYTES: usize = 160 * 144 * 4;

/// Running `n` machine cycles from `c` and `b`: the states reached, how many
/// cycles completed, and the fault that stopped the run early, if one did.
pub open spec fn run(c: CpuState, b: BusState, n: nat) -> (CpuState, BusState, nat, Option<Fault>)
    decreases n,
{
    if n == 0 {
        (c, b, 0, None)
    } else {
        let (c1, b1, k, f) = run(c, b, (n - 1) as nat);
        if f is Some {
            (c1, b1, k, f)
        } else {
            match step(c1, b1) {
                Ok((c2, b2)) => (c2, b2, k + 1, None),
                Err(e) => (c1, b1, k, Some(e)),
            }
        }
    }
}

/// Once a run has stopped on a fault, running longer changes nothing.
pub proof fn lemma_run_stays_stopped(c: CpuState, b: BusState, m: nat, n: nat)
    requires
        m <= n,
        run(c, b, m).3 is Some,
    ensures
        run(c, b, n) == run(c, b, m),
    decreases n,
{
    if n > m {
        lemma_run_stays_stopped(c, b, m, (n - 1) as nat);
    }
}

/// The whole machine as a driver sees it.
pub struct GbState {
    pub cpu: CpuState,
    pub bus: BusState,
    pub frame: Seq<u8>,
    pub tick: u128,
}

/// A CPU, its bus, a frame buffer and a count of machine cycles run.
pub struct GB {
    cpu: Cpu,
    bus: Bus,
    frame_buf: Vec<u8>,
    tick: u128,
}

impl View for GB {
    type V = GbState;

    closed spec fn view(&self) -> GbState {
        GbState { cpu: self.cpu@, bus: self.bus@, frame: self.frame_buf@, tick: self.tick }
    }
}

impl GB {
    pub closed spec fn wf(&self) -> bool {
        &&& self.cpu.wf()
        &&& self.bus.wf()
        &&& self.frame_buf@.len() == FRAME_BYTES
    }

    /// A machine at reset whose boot ROM holds `boot_rom`.
    pub fn new(boot_rom: &[u8; 0x100]) -> (r: Self)
        ensures
            r.wf(),
            r@.cpu == reset_state(),
            r@.bus.boot_rom == boot_rom@,
            r@.frame == Seq::new(FRAME_BYTES as nat, |i: int| 0u8),
            r@.tick == 0,
    {
        let frame_buf = vec![0u8; FRAME_BYTES];
        assert(frame_buf@ =~= Seq::new(FRAME_BYTES as nat, |i: int| 0u8));
        GB { cpu: Cpu::new(), bus: Bus::new(boot_rom), frame_buf, tick: 0 }
    }

    pub fn cpu(&self) -> (r: &Cpu)
        ensures
            r@ == self@.cpu,
            self.wf() ==> r.wf(),
    {
        &self.cpu
    }

    pub fn bus(&self) -> (r: &Bus)
        ensures
            r@ == self@.bus,
            self.wf() ==> r.wf(),
    {
        &self.bus
    }

    /// Machine cycles run so far.
    pub fn ticks(&self) -> (r: u128)
        ensures
            r == self@.tick,
    {
        self.tick
    }

    pub fn frame_buffer(&self) -> (r: &[u8])
        ensures
            r@ == self@.frame,
    {
        self.frame_buf.as_slice()
    }

    /// Sets the buttons held, 0 = pressed (see [`Bus::write_joystate`]).
    pub fn write_joystate(&mut self, state: u8)
        requires
            old(self).wf(),
        ensures
            final(self).wf(),
            final(self)@ == (GbState { bus: BusState { joy_state: state, ..old(self)@.bus }, ..old(self)@ }),
    {
        self.bus.write_joystate(state);
    }

    /// Runs `count` machine cycles, stopping at the first fault; the tick
    /// count grows by the cycles completed.
    pub fn cycle(&mut self, count: usize) -> (r: Result<(), Fault>)
        requires
            old(self).wf(),
            old(self)@.tick + count <= u128::MAX,
        ensures
            final(self).wf(),
            ({
                let (c, b, k, f) = run(old(self)@.cpu, old(self)@.bus, count as nat);
                &&& final(self)@.cpu == c
                &&& final(self)@.bus == b
                &&& final(self)@.tick == old(self)@.tick + k
                &&& final(self)@.frame == old(self)@.frame
                &&& r == match f {
                    None => Ok::<(), Fault>(()),
                    Some(e) => Err(e),
                }
            }),
    {
        let ghost c0 = self.cpu@;
        let ghost b0 = self.bus@;
        let ghost t0 = self.tick;
        let mut i: usize = 0;
        while i < count
            invariant
                i <= count,
                self.wf(),
                run(c0, b0, i as nat) == (self.cpu@, self.bus@, i as nat, None::<Fault>),
                self.tick == t0 + i,
                t0 + count <= u128::MAX,
                self@.frame == old(self)@.frame,
                c0 == old(self)@.cpu,
                b0 == old(self)@.bus,
                t0 == old(self)@.tick,
            decreases count - i,
        {
            match self.cpu.cycle(&mut self.bus) {
                Ok(()) => {
                    self.tick = self.tick + 1;
                    i = i + 1;
                },
                Err(e) => {
                    proof {
                        lemma_run_stays_stopped(c0, b0, (i + 1) as nat, count as nat);
                    }
                    return Err(e);
                },
            }
        }
        Ok(())
    }
}

} // verus!
