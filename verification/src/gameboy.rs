use vstd::prelude::*;

use crate::bootrom::{Bootrom, BOOTROM_LEN};
use crate::cartridge::Cartridge;
use crate::cpu::Cpu;
use crate::peripherals::{BusView, Peripherals};

verus! {

pub const CPU_CLOCK_HZ: u128 = 4_194_304;

pub const M_CYCLE_CLOCK: u128 = 4;

/// Length of a machine cycle in nanoseconds, rounded down.
pub const M_CYCLE_NANOS: u128 = M_CYCLE_CLOCK * 1_000_000_000 / CPU_CLOCK_HZ;

/// The CPU and the bus after `n` machine cycles.
pub open spec fn run_cycles(cpu: Cpu, bus: BusView, n: nat) -> (Cpu, BusView)
    decreases n,
{
    if n == 0 {
        (cpu, bus)
    } else {
        let (c, b) = run_cycles(cpu, bus, (n - 1) as nat);
        c.cycle_model(b)
    }
}

/// The number of whole machine cycles from `from` to `to` nanoseconds.
pub open spec fn cycles_between(from: u128, to: u128) -> nat {
    ((to - from) / (M_CYCLE_NANOS as int)) as nat
}

/// None of the first `n` machine cycles halts the emulator.
pub open spec fn runs_clear(cpu: Cpu, bus: BusView, n: nat) -> bool {
    forall|k: nat| k < n ==> !(#[trigger] run_cycles(cpu, bus, k)).0.cycle_halts()
}

/// Running `m` cycles and then `n` more is running `m + n` cycles.
pub proof fn lemma_run_cycles_compose(cpu: Cpu, bus: BusView, m: nat, n: nat)
    ensures
        run_cycles(run_cycles(cpu, bus, m).0, run_cycles(cpu, bus, m).1, n) == run_cycles(
            cpu,
            bus,
            m + n,
        ),
    decreases n,
{
    if n > 0 {
        lemma_run_cycles_compose(cpu, bus, m, (n - 1) as nat);
    }
}

/// How emulated time is sliced into calls does not matter: catching up from
/// `e0` to `e1` (a whole number of machine cycles later) and then to `e2` runs
/// the same cycles as catching up from `e0` to `e2` at once.
pub proof fn lemma_time_slicing(cpu: Cpu, bus: BusView, e0: u128, e1: u128, e2: u128)
    requires
        e0 <= e1 <= e2,
        (e1 - e0) % (M_CYCLE_NANOS as int) == 0,
    ensures
        cycles_between(e0, e1) + cycles_between(e1, e2) == cycles_between(e0, e2),
        run_cycles(
            run_cycles(cpu, bus, cycles_between(e0, e1)).0,
            run_cycles(cpu, bus, cycles_between(e0, e1)).1,
            cycles_between(e1, e2),
        ) == run_cycles(cpu, bus, cycles_between(e0, e2)),
{
    assert(M_CYCLE_NANOS == 953);
    let d1 = e1 - e0;
    let d2 = e2 - e1;
    assert(d1 / 953 + d2 / 953 == (d1 + d2) / 953) by (nonlinear_arith)
        requires
            d1 % 953 == 0,
            d1 >= 0,
            d2 >= 0,
    ;
    lemma_run_cycles_compose(cpu, bus, cycles_between(e0, e1), cycles_between(e1, e2));
}

/// The machine: the CPU, the bus, and the emulated time, in nanoseconds, up
/// to which cycles have been run.
pub struct GameBoy {
    pub cpu: Cpu,
    pub peripherals: Peripherals,
    pub elapsed: u128,
}

impl GameBoy {
    pub open spec fn wf(self) -> bool {
        self.peripherals@.wf()
    }

    pub fn new(bootrom: Bootrom, cartridge: Cartridge) -> (r: Self)
        requires
            bootrom.rom.len() >= BOOTROM_LEN,
            cartridge@.wf(),
        ensures
            r.wf(),
            r.cpu.power_on(),
            r.peripherals@.boot == bootrom.rom@,
            r.peripherals@.boot_active == bootrom.active,
            r.peripherals@.cart == cartridge@,
            r.peripherals@.memory == Seq::new(0x10000, |i: int| 0u8),
            r.elapsed == 0,
    {
        let peripherals = Peripherals::new(bootrom, cartridge);
        let cpu = Cpu::new();
        GameBoy { cpu, peripherals, elapsed: 0 }
    }

    /// Runs every machine cycle whose time has come by `now` (in nanoseconds
    /// of emulated time): `(now - elapsed) / M_CYCLE_NANOS` of them, moving
    /// `elapsed` on by `M_CYCLE_NANOS` each. Returns `false`, and stops before
    /// it, when a cycle would halt the emulator.
    pub fn run(&mut self, now: u128) -> (r: bool)
        requires
            old(self).wf(),
            old(self).elapsed <= now,
        ensures
            final(self).wf(),
            old(self).elapsed <= final(self).elapsed,
            (final(self).elapsed - old(self).elapsed) % (M_CYCLE_NANOS as int) == 0,
            (final(self).cpu, final(self).peripherals@) == run_cycles(
                old(self).cpu,
                old(self).peripherals@,
                cycles_between(old(self).elapsed, final(self).elapsed),
            ),
            runs_clear(
                old(self).cpu,
                old(self).peripherals@,
                cycles_between(old(self).elapsed, final(self).elapsed),
            ),
            r ==> cycles_between(old(self).elapsed, final(self).elapsed) == cycles_between(
                old(self).elapsed,
                now,
            ),
            !r ==> cycles_between(old(self).elapsed, final(self).elapsed) < cycles_between(
                old(self).elapsed,
                now,
            ) && final(self).cpu.cycle_halts(),
    {
        assert(M_CYCLE_NANOS == 953);
        let ghost cpu0 = self.cpu;
        let ghost bus0 = self.peripherals@;
        let ghost e0 = self.elapsed;
        let n = (now - self.elapsed) / M_CYCLE_NANOS;
        let mut i: u128 = 0;
        while i < n
            invariant
                e0 == old(self).elapsed,
                cpu0 == old(self).cpu,
                bus0 == old(self).peripherals@,
                i <= n,
                n == (now - e0) / (M_CYCLE_NANOS as int),
                e0 <= now,
                self.elapsed == e0 + i * M_CYCLE_NANOS,
                self.wf(),
                (self.cpu, self.peripherals@) == run_cycles(cpu0, bus0, i as nat),
                runs_clear(cpu0, bus0, i as nat),
            decreases n - i,
        {
            if !self.cpu.can_emulate_cycle() {
                proof {
                    assert((self.elapsed - e0) / (M_CYCLE_NANOS as int) == i) by (nonlinear_arith)
                        requires
                            self.elapsed == e0 + i * M_CYCLE_NANOS,
                            M_CYCLE_NANOS as int == 953,
                    ;
                    assert((self.elapsed - e0) % (M_CYCLE_NANOS as int) == 0) by (nonlinear_arith)
                        requires
                            self.elapsed == e0 + i * M_CYCLE_NANOS,
                            M_CYCLE_NANOS as int == 953,
                    ;
                }
                return false;
            }
            self.cpu.emulate_cycle(&mut self.peripherals);
            proof {
                assert(i * M_CYCLE_NANOS + M_CYCLE_NANOS <= now - e0) by (nonlinear_arith)
                    requires
                        i < n,
                        n == (now - e0) / (M_CYCLE_NANOS as int),
                        M_CYCLE_NANOS as int == 953,
                        e0 <= now,
                ;
                assert forall|k: nat| k < (i + 1) as nat implies !(#[trigger] run_cycles(
                    cpu0,
                    bus0,
                    k,
                )).0.cycle_halts() by {
                    if k < i as nat {
                        assert(runs_clear(cpu0, bus0, i as nat));
                    }
                }
            }
            self.elapsed = self.elapsed + M_CYCLE_NANOS;
            assert(e0 + i * M_CYCLE_NANOS + M_CYCLE_NANOS == e0 + (i + 1) * M_CYCLE_NANOS)
                by (nonlinear_arith);
            i = i + 1;
        }
        proof {
            assert((self.elapsed - e0) / (M_CYCLE_NANOS as int) == i) by (nonlinear_arith)
                requires
                    self.elapsed == e0 + i * M_CYCLE_NANOS,
                    M_CYCLE_NANOS as int == 953,
            ;
            assert((self.elapsed - e0) % (M_CYCLE_NANOS as int) == 0) by (nonlinear_arith)
                requires
                    self.elapsed == e0 + i * M_CYCLE_NANOS,
                    M_CYCLE_NANOS as int == 953,
            ;
        }
        true
    }
}

} // verus!
