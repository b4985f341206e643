//! The memory controller: strict round-robin arbitration of one memory
//! driver across a fixed number of cores. Each core stages its request in a
//! private queue through per-core setters; only `set_clock` touches the bus,
//! applying the focused core's queued request, capturing its response on the
//! rising edge and handing the bus to the next core on the falling edge.

use vstd::prelude::*;
use crate::word::Word;
use crate::error::EmulationError;
use crate::driver::{DriverView, StaticRandomAccessMemoryDriver};

verus! {

/// What a queued request asks of the memory when it is serviced.
#[derive(PartialEq, Eq, Structural, Clone, Copy, Debug)]
pub enum MemoryControllerQueueJob {
    /// Nothing staged.
    Idle,
    /// A read of the staged address.
    Read,
    /// A write of the staged data to the staged address.
    Write,
}

/// The abstract state of one core's request queue.
#[verifier::ext_equal]
pub struct QueueView<W> {
    /// The staged chip-select signal.
    pub chip_select: bool,
    /// The staged write-enable signal.
    pub write_enable: bool,
    /// The staged address.
    pub address: usize,
    /// The staged outbound data word.
    pub data: W,
    /// The response captured the last time this core was serviced.
    pub response_data: W,
}

impl<W: Word> QueueView<W> {
    /// A fresh queue: everything low, zero data, zero address.
    pub open spec fn spec_new() -> Self {
        QueueView {
            chip_select: false,
            write_enable: false,
            address: 0,
            data: W::zero_spec(),
            response_data: W::zero_spec(),
        }
    }

    /// The queue after its staged data word is replaced.
    pub open spec fn spec_set_data(self, data: W) -> Self {
        QueueView { data: data, ..self }
    }
}

/// One core's staged request: chip-select, write-enable, address, outbound
/// data, and the response captured at the core's last service. Staged state
/// is overwritten, never queued up: only the latest value is applied.
#[derive(Clone, Copy)]
pub struct MemoryControllerQueue<W: Word> {
    chip_select: bool,
    write_enable: bool,
    address: usize,
    data: W,
    response_data: W,
}

impl<W: Word> View for MemoryControllerQueue<W> {
    type V = QueueView<W>;

    closed spec fn view(&self) -> QueueView<W> {
        QueueView {
            chip_select: self.chip_select,
            write_enable: self.write_enable,
            address: self.address,
            data: self.data,
            response_data: self.response_data,
        }
    }
}

impl<W: Word> MemoryControllerQueue<W> {
    /// A fresh queue: everything low, zero data, zero address.
    pub fn new() -> (r: Self)
        ensures
            r@ == QueueView::<W>::spec_new(),
    {
        MemoryControllerQueue {
            chip_select: false,
            write_enable: false,
            address: 0,
            data: W::zero(),
            response_data: W::zero(),
        }
    }

    /// Stage the chip-select signal.
    pub fn set_chip_select(&mut self, chip_select: bool)
        ensures
            final(self)@ == (QueueView { chip_select: chip_select, ..old(self)@ }),
    {
        self.chip_select = chip_select;
    }

    /// Stage the write-enable signal.
    pub fn set_write_enable(&mut self, write_enable: bool)
        ensures
            final(self)@ == (QueueView { write_enable: write_enable, ..old(self)@ }),
    {
        self.write_enable = write_enable;
    }

    /// The staged chip-select signal.
    pub fn get_chip_select(&self) -> (r: bool)
        ensures
            r == self@.chip_select,
    {
        self.chip_select
    }

    /// The staged write-enable signal.
    pub fn get_write_enable(&self) -> (r: bool)
        ensures
            r == self@.write_enable,
    {
        self.write_enable
    }

    /// Stage the address.
    pub fn set_address(&mut self, address: usize)
        ensures
            final(self)@ == (QueueView { address: address, ..old(self)@ }),
    {
        self.address = address;
    }

    /// Stage the outbound data word.
    pub fn set_data(&mut self, data: W)
        ensures
            final(self)@ == old(self)@.spec_set_data(data),
    {
        self.data = data;
    }

    /// The staged address.
    pub fn get_address(&self) -> (r: usize)
        ensures
            r == self@.address,
    {
        self.address
    }

    /// The staged outbound data word.
    pub fn get_data(&self) -> (r: W)
        ensures
            r == self@.data,
    {
        self.data
    }

    /// The response captured at this core's last service.
    pub fn get_response_data(&self) -> (r: W)
        ensures
            r == self@.response_data,
    {
        self.response_data
    }

    /// Record a captured response.
    pub fn set_response_data(&mut self, response_data: W)
        ensures
            final(self)@ == (QueueView { response_data: response_data, ..old(self)@ }),
    {
        self.response_data = response_data;
    }
}

/// The abstract state of a `MemoryController`.
#[verifier::ext_equal]
pub struct ControllerView<W> {
    /// The arbitrated memory driver.
    pub memory_driver: DriverView<W>,
    /// The core currently granted the bus.
    pub focus: usize,
    /// One staged request per core.
    pub queues: Seq<QueueView<W>>,
    /// The last applied global clock level.
    pub clock: bool,
}

impl<W: Word> ControllerView<W> {
    /// The focused core is one of the configured cores, and the core count
    /// fits the machine's address type.
    pub open spec fn wf(self) -> bool {
        self.focus < self.queues.len() && self.queues.len() <= usize::MAX
    }

    /// The driver state after the focused core's staged request is applied
    /// and the clock level propagated.
    pub open spec fn spec_driver_after_apply(self, clock: bool) -> DriverView<W> {
        let q = self.queues[self.focus as int];
        self.memory_driver
            .spec_set_chip_select(q.chip_select)
            .spec_set_write_enable(q.write_enable)
            .spec_set_address(q.address)
            .spec_set_feed(q.data)
            .spec_set_clock(clock)
    }

    /// The state after the global clock is driven: a re-asserted level is a
    /// no-op. On a genuine change the focused request is applied to the
    /// driver and the level propagated; a rising edge then captures the
    /// driver's read into the focused core's response slot, a falling edge
    /// hands the bus to the next core in increasing id order, wrapping.
    pub open spec fn spec_set_clock(self, clock: bool) -> Self {
        if clock == self.clock {
            self
        } else {
            let driver = self.spec_driver_after_apply(clock);
            if clock {
                let queues = match driver.spec_read_result() {
                    Ok(w) => self.queues.update(
                        self.focus as int,
                        QueueView { response_data: w, ..self.queues[self.focus as int] },
                    ),
                    Err(_) => self.queues,
                };
                ControllerView {
                    memory_driver: driver.spec_read_prepared(),
                    queues: queues,
                    clock: clock,
                    ..self
                }
            } else {
                let next_focus: usize = if self.focus + 1 >= self.queues.len() {
                    0
                } else {
                    (self.focus + 1) as usize
                };
                ControllerView { memory_driver: driver, focus: next_focus, clock: clock, ..self }
            }
        }
    }

    /// What driving the clock returns: an error exactly when a rising edge
    /// tried to capture a response and the driver's read failed.
    pub open spec fn spec_set_clock_result(self, clock: bool) -> Result<(), EmulationError> {
        if clock == self.clock || !clock {
            Ok(())
        } else {
            match self.spec_driver_after_apply(clock).spec_read_result() {
                Ok(_) => Ok(()),
                Err(e) => Err(e),
            }
        }
    }

    /// The state after one core stages a chip-select signal.
    pub open spec fn spec_set_chip_select(self, chip_select: bool, core: int) -> Self {
        ControllerView {
            queues: self.queues.update(
                core,
                QueueView { chip_select: chip_select, ..self.queues[core] },
            ),
            ..self
        }
    }

    /// The state after one core stages a write-enable signal.
    pub open spec fn spec_set_write_enable(self, write_enable: bool, core: int) -> Self {
        ControllerView {
            queues: self.queues.update(
                core,
                QueueView { write_enable: write_enable, ..self.queues[core] },
            ),
            ..self
        }
    }

    /// The state after one core stages an address.
    pub open spec fn spec_set_address(self, address: usize, core: int) -> Self {
        ControllerView {
            queues: self.queues.update(core, QueueView { address: address, ..self.queues[core] }),
            ..self
        }
    }

    /// The state after one core stages an outbound data word.
    pub open spec fn spec_set_feed(self, input_data: W, core: int) -> Self {
        ControllerView {
            queues: self.queues.update(core, self.queues[core].spec_set_data(input_data)),
            ..self
        }
    }

    /// One full clock pulse: high, then low.
    pub open spec fn spec_pulse(self) -> Self {
        self.spec_set_clock(true).spec_set_clock(false)
    }

    /// The state after `count` full clock pulses.
    pub open spec fn spec_pulses(self, count: nat) -> Self
        decreases count,
    {
        if count == 0 {
            self
        } else {
            self.spec_pulse().spec_pulses((count - 1) as nat)
        }
    }

    /// Re-asserting a clock level on the controller is idempotent.
    pub proof fn lemma_set_clock_idempotent(self, clock: bool)
        ensures
            self.spec_set_clock(clock).spec_set_clock(clock) == self.spec_set_clock(clock),
    {
    }

    /// Last-write-wins law: staging a data word twice between services
    /// leaves exactly the state of staging the second word alone; nothing is
    /// queued up.
    pub proof fn lemma_set_feed_last_write_wins(self, first: W, second: W, core: int)
        requires
            0 <= core < self.queues.len(),
        ensures
            self.spec_set_feed(first, core).spec_set_feed(second, core)
                == self.spec_set_feed(second, core),
    {
        assert(self.spec_set_feed(first, core).spec_set_feed(second, core).queues
            =~= self.spec_set_feed(second, core).queues);
        assert(self.spec_set_feed(first, core).spec_set_feed(second, core)
            =~= self.spec_set_feed(second, core));
    }

    /// One pulse services exactly the focused core: its response slot is the
    /// only queue field anywhere that may change, and the bus then passes to
    /// the next core in increasing id order, wrapping.
    pub proof fn lemma_pulse_services_focused(self)
        requires
            !self.clock,
            self.wf(),
        ensures
            !self.spec_pulse().clock,
            self.spec_pulse().wf(),
            self.spec_pulse().queues.len() == self.queues.len(),
            self.spec_pulse().focus
                == if self.focus + 1 < self.queues.len() { self.focus + 1 } else { 0 },
            forall|i: int| 0 <= i < self.queues.len() && i != self.focus
                ==> self.spec_pulse().queues[i] == self.queues[i],
            self.spec_pulse().queues[self.focus as int].chip_select
                == self.queues[self.focus as int].chip_select,
            self.spec_pulse().queues[self.focus as int].write_enable
                == self.queues[self.focus as int].write_enable,
            self.spec_pulse().queues[self.focus as int].address
                == self.queues[self.focus as int].address,
            self.spec_pulse().queues[self.focus as int].data
                == self.queues[self.focus as int].data,
    {
        let risen = self.spec_set_clock(true);
        assert(risen.focus == self.focus);
        assert(risen.queues.len() == self.queues.len());
        assert(risen.clock);
        let fallen = risen.spec_set_clock(false);
        assert(fallen.focus == if self.focus + 1 < self.queues.len() {
            self.focus + 1
        } else {
            0
        });
    }

    /// Round-robin fairness law: starting from a low clock, `count` full
    /// pulses (for `count` up to the core count) advance the focus by
    /// exactly `count`, wrapping once past the last core; with `count` equal
    /// to the core count every core has been serviced exactly once and the
    /// focus is back where it began.
    pub proof fn lemma_round_robin_order(self, count: nat)
        requires
            !self.clock,
            self.wf(),
            count <= self.queues.len(),
        ensures
            !self.spec_pulses(count).clock,
            self.spec_pulses(count).wf(),
            self.spec_pulses(count).queues.len() == self.queues.len(),
            self.spec_pulses(count).focus == if self.focus + count < self.queues.len() {
                self.focus + count
            } else {
                self.focus + count - self.queues.len()
            },
        decreases count,
    {
        if count > 0 {
            self.lemma_pulse_services_focused();
            self.spec_pulse().lemma_round_robin_order((count - 1) as nat);
        }
    }
}

/// The round-robin arbiter: owns the memory driver and one request queue per
/// core. Per-core setters stage requests; the bus itself is entered only
/// through `set_clock`.
pub struct MemoryController<W: Word> {
    memory_driver: StaticRandomAccessMemoryDriver<W>,
    focus: usize,
    queues: Vec<MemoryControllerQueue<W>>,
    clock: bool,
}

impl<W: Word> View for MemoryController<W> {
    type V = ControllerView<W>;

    closed spec fn view(&self) -> ControllerView<W> {
        ControllerView {
            memory_driver: self.memory_driver@,
            focus: self.focus,
            queues: self.queues@.map_values(|q: MemoryControllerQueue<W>| q@),
            clock: self.clock,
        }
    }
}

impl<W: Word> MemoryController<W> {
    /// Take ownership of the driver and set up one fresh queue per core,
    /// with the bus granted to core 0 and the clock low.
    #[verifier::loop_isolation(false)]
    pub fn new(cores: usize, memory_driver: StaticRandomAccessMemoryDriver<W>) -> (r: Self)
        ensures
            r@.memory_driver == memory_driver@,
            r@.focus == 0,
            r@.clock == false,
            r@.queues.len() == cores,
            forall|i: int| 0 <= i < cores ==> r@.queues[i] == QueueView::<W>::spec_new(),
    {
        let mut queues: Vec<MemoryControllerQueue<W>> = Vec::new();
        let mut i: usize = 0;
        while i < cores
            invariant
                i <= cores,
                queues@.len() == i,
                forall|k: int| 0 <= k < i ==> queues@[k]@ == QueueView::<W>::spec_new(),
            decreases cores - i,
        {
            queues.push(MemoryControllerQueue::new());
            i = i + 1;
        }
        MemoryController {
            memory_driver,
            focus: 0,
            queues,
            clock: false,
        }
    }

    /// Drive the global clock. A re-asserted level is a no-op. On a genuine
    /// change the focused core's staged request is applied to the driver and
    /// the level propagated; a rising edge captures the driver's read into
    /// the focused core's response slot (failing fast if the staged address
    /// is unreadable), a falling edge hands the bus to the next core.
    pub fn set_clock(&mut self, clock: bool) -> (r: Result<(), EmulationError>)
        requires
            old(self)@.wf(),
        ensures
            final(self)@ == old(self)@.spec_set_clock(clock),
            r == old(self)@.spec_set_clock_result(clock),
            final(self)@.wf(),
    {
        if clock != self.clock {
            self.clock = clock;
            let focus = self.focus;
            self.memory_driver.set_chip_select(self.queues[focus].get_chip_select());
            self.memory_driver.set_write_enable(self.queues[focus].get_write_enable());
            self.memory_driver.set_address(self.queues[focus].get_address());
            self.memory_driver.set_feed(self.queues[focus].get_data());
            self.memory_driver.set_clock(clock);

            if clock {
                let response = match self.memory_driver.read_word() {
                    Ok(w) => w,
                    Err(e) => {
                        proof {
                            assert(self@ =~= old(self)@.spec_set_clock(clock));
                        }
                        return Err(e);
                    },
                };
                let mut queue = self.queues[focus];
                queue.set_response_data(response);
                self.queues[focus] = queue;
                proof {
                    assert(self@.queues =~= old(self)@.spec_set_clock(clock).queues);
                    assert(self@ =~= old(self)@.spec_set_clock(clock));
                }
            } else {
                let queue_count = self.queues.len();
                self.focus = self.focus + 1;
                if self.focus >= queue_count {
                    self.focus = 0;
                }
                proof {
                    assert(self@ =~= old(self)@.spec_set_clock(clock));
                }
            }
        }
        Ok(())
    }

    /// Stage a chip-select signal for one core; the driver is untouched
    /// until that core is serviced.
    pub fn set_chip_select(&mut self, chip_select: bool, core: usize)
        requires
            core < old(self)@.queues.len(),
        ensures
            final(self)@ == old(self)@.spec_set_chip_select(chip_select, core as int),
    {
        let mut queue = self.queues[core];
        queue.set_chip_select(chip_select);
        self.queues[core] = queue;
        proof {
            assert(self@ =~= old(self)@.spec_set_chip_select(chip_select, core as int));
        }
    }

    /// Stage a write-enable signal for one core.
    pub fn set_write_enable(&mut self, write_enable: bool, core: usize)
        requires
            core < old(self)@.queues.len(),
        ensures
            final(self)@ == old(self)@.spec_set_write_enable(write_enable, core as int),
    {
        let mut queue = self.queues[core];
        queue.set_write_enable(write_enable);
        self.queues[core] = queue;
        proof {
            assert(self@ =~= old(self)@.spec_set_write_enable(write_enable, core as int));
        }
    }

    /// Stage an address for one core.
    pub fn set_address(&mut self, address: usize, core: usize)
        requires
            core < old(self)@.queues.len(),
        ensures
            final(self)@ == old(self)@.spec_set_address(address, core as int),
    {
        let mut queue = self.queues[core];
        queue.set_address(address);
        self.queues[core] = queue;
        proof {
            assert(self@ =~= old(self)@.spec_set_address(address, core as int));
        }
    }

    /// Stage an outbound data word for one core. Staged words overwrite each
    /// other: only the latest is applied when the core is serviced.
    pub fn set_feed(&mut self, input_data: W, core: usize)
        requires
            core < old(self)@.queues.len(),
        ensures
            final(self)@ == old(self)@.spec_set_feed(input_data, core as int),
    {
        let mut queue = self.queues[core];
        queue.set_data(input_data);
        self.queues[core] = queue;
        proof {
            assert(self@ =~= old(self)@.spec_set_feed(input_data, core as int));
        }
    }

    /// The response captured the last time `core` was serviced.
    pub fn read_word(&mut self, core: usize) -> (r: W)
        requires
            core < old(self)@.queues.len(),
        ensures
            final(self)@ == old(self)@,
            r == old(self)@.queues[core as int].response_data,
    {
        self.queues[core].get_response_data()
    }

    /// The driver's address bit-width.
    pub fn get_address_bits(&self) -> (r: usize)
        ensures
            r == self@.memory_driver.bits,
    {
        self.memory_driver.get_address_bits()
    }
}

} // verus!
