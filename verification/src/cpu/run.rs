use vstd::prelude::*;
use crate::cpu::message::CpuMessage;
use crate::cpu::state::CpuState;
use crate::cpu::Cpu;
use crate::error::{outcome, Error, ErrorKind, Result};

verus! {

/// Instructions after which a run gives up. No program gets there.
pub const STEP_BUDGET: u64 = u64::MAX;

/// What a step callback leaves behind: itself, the machine, and its verdict.
pub type Observed<S> = (S, CpuState, std::result::Result<(), ErrorKind>);

/// An observer that the run loop calls before each instruction, with
/// the machine as it stands. It may read registers and memory, and it
/// must act as a function of the machine and of what it has gathered.
/// An error from it ends the run.
pub trait StepCallback: Sized {
    /// What the callback has gathered, as plain values.
    type Record;

    /// What this callback has gathered. A callback that does not say
    /// leaves it open.
    open spec fn record(&self) -> Self::Record {
        arbitrary()
    }

    /// What the callback does with the machine, and what it answers. A
    /// callback that does not say leaves it open.
    open spec fn on_step_spec(record: Self::Record, cpu: CpuState) -> Observed<Self::Record> {
        arbitrary()
    }

    fn on_step(&mut self, cpu: &mut Cpu) -> (r: Result<()>)
        ensures
            (final(self).record(), final(cpu)@, outcome(r)) == Self::on_step_spec(
                old(self).record(),
                old(cpu)@,
            ),
    ;
}

/// The callback that does nothing.
#[derive(Clone, Copy, Debug)]
pub struct NoCallback;

impl StepCallback for NoCallback {
    type Record = ();

    open spec fn record(&self) -> () {
        ()
    }

    open spec fn on_step_spec(record: (), cpu: CpuState) -> Observed<()> {
        ((), cpu, Ok(()))
    }

    fn on_step(&mut self, cpu: &mut Cpu) -> (r: Result<()>) {
        Ok(())
    }
}

/// One round of the run loop: a pending interrupt is taken, the callback
/// sees the machine, and the next instruction runs. The first failure
/// ends the round.
pub open spec fn round<C: StepCallback>(observer: C::Record, cpu: CpuState) -> (
    C::Record,
    CpuState,
    std::result::Result<CpuMessage, ErrorKind>,
) {
    let (serviced, taken) = cpu.service_interrupts();
    match taken {
        Err(kind) => (observer, serviced, Err(kind)),
        Ok(_) => {
            let (observer, seen, verdict) = C::on_step_spec(observer, serviced);
            match verdict {
                Err(kind) => (observer, seen, Err(kind)),
                Ok(_) => {
                    let (executed, message) = seen.execute_next();
                    (observer, executed, message)
                },
            }
        },
    }
}

/// A run of at most `steps` rounds. It ends with `Ok` when an
/// instruction halts the machine, with the error of the first round that
/// fails, and with `Unsupported` when the rounds are used up.
pub open spec fn run_for<C: StepCallback>(
    observer: C::Record,
    cpu: CpuState,
    steps: nat,
) -> Observed<C::Record>
    decreases steps,
{
    if steps == 0 {
        (observer, cpu, Err(ErrorKind::Unsupported))
    } else {
        let (observer, next, message) = round::<C>(observer, cpu);
        match message {
            Err(kind) => (observer, next, Err(kind)),
            Ok(CpuMessage::Break) => (observer, next, Ok(())),
            Ok(CpuMessage::Continue) => run_for::<C>(observer, next, (steps - 1) as nat),
        }
    }
}

impl Cpu {
    /// Runs the program until an instruction halts the machine.
    pub fn run(&mut self) -> (r: Result<()>)
        ensures
            ((), final(self)@, outcome(r)) == run_for::<NoCallback>(
                (),
                old(self)@,
                STEP_BUDGET as nat,
            ),
    {
        let mut callback = NoCallback;
        self.run_with_callback(&mut callback)
    }

    /// Runs the program until an instruction halts the machine, and
    /// shows the machine to `callback` before each instruction.
    pub fn run_with_callback<C: StepCallback>(&mut self, callback: &mut C) -> (r: Result<()>)
        ensures
            (final(callback).record(), final(self)@, outcome(r)) == run_for::<C>(
                old(callback).record(),
                old(self)@,
                STEP_BUDGET as nat,
            ),
    {
        let mut remaining: u64 = STEP_BUDGET;
        while remaining > 0
            invariant
                run_for::<C>(callback.record(), self@, remaining as nat) == run_for::<C>(
                    old(callback).record(),
                    old(self)@,
                    STEP_BUDGET as nat,
                ),
            decreases remaining,
        {
            match self.service_interrupts() {
                Ok(_) => {},
                Err(e) => {
                    return Err(e);
                },
            }
            match callback.on_step(self) {
                Ok(_) => {},
                Err(e) => {
                    return Err(e);
                },
            }
            match self.execute_next() {
                Ok(CpuMessage::Break) => {
                    return Ok(());
                },
                Ok(CpuMessage::Continue) => {},
                Err(e) => {
                    return Err(e);
                },
            }
            remaining -= 1;
        }
        Err(Error::unsupported("the program ran longer than any program does"))
    }
}

} // verus!
