//! The machine: the CPU core driving the memory fabric, one instruction at
//! a time, until the program halts.

use vstd::prelude::*;
use crate::cpu::BusOp;
use crate::cpu::Cpu;
use crate::cpu::CpuView;
use crate::cpu::Status;
use crate::memory::IO_BUFFER_START;
use crate::memory::Memory;
use crate::memory::MemoryView;
use crate::memory::boot_ram;
use crate::sprite::SpriteMap;
use crate::tile::TileMap;

verus! {

/// The words of a program image: consecutive bytes pair up into words, low
/// byte first. A last byte without a partner is the low byte of a last word.
pub open spec fn image_words(image: Seq<u8>) -> Seq<u16> {
    Seq::new(
        ((image.len() + 1) / 2) as nat,
        |i: int|
            (image[2 * i] + 256 * if 2 * i + 1 < image.len() {
                image[2 * i + 1] as int
            } else {
                0
            }) as u16,
    )
}

/// Splits a program image into its words.
pub fn program_words(image: &[u8]) -> (words: Vec<u16>)
    ensures
        words@ == image_words(image@),
{
    let mut words: Vec<u16> = Vec::new();
    let n: usize = image.len();
    let count: usize = n / 2 + n % 2;
    let mut k: usize = 0;
    while k < count
        invariant
            n == image@.len(),
            count == (n + 1) / 2,
            k <= count,
            words@.len() == k,
            forall|j: int| 0 <= j < k ==> words@[j] == image_words(image@)[j],
        decreases count - k,
    {
        let low: u16 = image[2 * k] as u16;
        let high: u16 = if 2 * k + 1 < n {
            image[2 * k + 1] as u16
        } else {
            0
        };
        words.push(low + 256 * high);
        k += 1;
    }
    assert(words@ =~= image_words(image@));
    words
}

/// The state of the whole machine, as plain values.
#[verifier::ext_equal]
pub struct MachineView {
    pub cpu: CpuView,
    pub memory: MemoryView,
}

impl MachineView {
    pub open spec fn wf(self) -> bool {
        self.cpu.wf() && self.memory.wf()
    }

    /// One turn of the fetch-execute loop: fetch the word at the program
    /// counter, execute it, and perform the memory access it asks for.
    /// Fetches, loads and stores all go through the fabric, with its side
    /// effects. A store to the input port stops the machine instead. A
    /// stopped machine stays as it is.
    pub open spec fn step(self) -> MachineView {
        if self.cpu.status != Status::Running {
            self
        } else {
            let word = self.memory.read(self.cpu.pc as int);
            let fetched = self.memory.after_read(self.cpu.pc as int);
            let (cpu, op) = self.cpu.stepped(word);
            match op {
                BusOp::Idle => MachineView { cpu, memory: fetched },
                BusOp::Load { rd, addr } => MachineView {
                    cpu: cpu.with_reg(rd, fetched.read(addr as int)),
                    memory: fetched.after_read(addr as int),
                },
                BusOp::Store { addr, data } => if addr == 0xffff {
                    MachineView { cpu: cpu.stopped(Status::PortWrite), memory: fetched }
                } else {
                    MachineView { cpu, memory: fetched.after_write(addr as int, data) }
                },
            }
        }
    }

    /// The machine after `n` turns of the loop.
    pub open spec fn steps(self, n: nat) -> MachineView
        decreases n,
    {
        if n == 0 {
            self
        } else {
            self.steps((n - 1) as nat).step()
        }
    }

    /// What a run reports: the word in r0 where the program has halted,
    /// nothing where the machine still runs or a fault stopped it.
    pub open spec fn exit_word(self) -> Option<u16> {
        if self.cpu.status == Status::Halted {
            Some(self.cpu.regs[0])
        } else {
            None
        }
    }

    /// The machine after the host has delivered `keys`, oldest first.
    pub open spec fn with_keys(self, keys: Seq<u16>) -> MachineView {
        MachineView {
            memory: MemoryView { io_buffer: self.memory.io_buffer + keys, ..self.memory },
            ..self
        }
    }

    /// The machine after `n` turns of the loop, where the host delivers the
    /// keys `arrivals(k)` just before turn `k`.
    pub open spec fn steps_with_input(self, arrivals: spec_fn(nat) -> Seq<u16>, n: nat) -> MachineView
        decreases n,
    {
        if n == 0 {
            self
        } else {
            self.steps_with_input(arrivals, (n - 1) as nat).with_keys(
                arrivals((n - 1) as nat),
            ).step()
        }
    }

    /// Whether the next turn reads the input port: by fetching from it or
    /// by loading from it.
    pub open spec fn reads_port(self) -> bool {
        &&& self.cpu.status == Status::Running
        &&& {
            ||| self.cpu.pc == 0xffff
            ||| self.cpu.stepped(self.memory.read(self.cpu.pc as int)).1 matches BusOp::Load {
                rd,
                addr,
            } && addr == 0xffff
        }
    }

    /// Whether none of the first `n` turns reads the input port, where the
    /// host delivers keys as `arrivals` says.
    pub open spec fn never_reads_port(self, arrivals: spec_fn(nat) -> Seq<u16>, n: nat) -> bool
        decreases n,
    {
        n == 0 || {
            &&& self.never_reads_port(arrivals, (n - 1) as nat)
            &&& !self.steps_with_input(arrivals, (n - 1) as nat).with_keys(
                arrivals((n - 1) as nat),
            ).reads_port()
        }
    }

    /// Whether two machines agree on everything but the input queue.
    pub open spec fn same_but_input(self, other: MachineView) -> bool {
        &&& self.cpu == other.cpu
        &&& self.memory.ram == other.memory.ram
        &&& self.memory.frame_buffer == other.memory.frame_buffer
        &&& self.memory.tile_map == other.memory.tile_map
        &&& self.memory.sprite_map == other.memory.sprite_map
        &&& self.memory.vscroll == other.memory.vscroll
        &&& self.memory.hscroll == other.memory.hscroll
        &&& self.memory.scale == other.memory.scale
    }
}

/// A turn of the loop keeps the machine well formed.
pub proof fn lemma_step_wf(m: MachineView)
    requires
        m.wf(),
    ensures
        m.step().wf(),
{
    if m.cpu.status == Status::Running {
        let word = m.memory.read(m.cpu.pc as int);
        crate::isa::lemma_encode_decode(word);
    }
}

/// A stopped machine stays as it is, however many turns follow.
pub proof fn lemma_stopped_stays(m: MachineView, n: nat)
    requires
        m.cpu.status != Status::Running,
    ensures
        m.steps(n) == m,
    decreases n,
{
    if n > 0 {
        lemma_stopped_stays(m, (n - 1) as nat);
    }
}

/// Turns add up: `b` turns after `a` turns are `a + b` turns.
pub proof fn lemma_steps_add(m: MachineView, a: nat, b: nat)
    ensures
        m.steps(a).steps(b) == m.steps(a + b),
    decreases b,
{
    if b > 0 {
        lemma_steps_add(m, a, (b - 1) as nat);
    }
}

/// Where the host delivers no keys at all, the turns are those of the
/// machine left alone.
pub proof fn lemma_steps_without_input(m: MachineView, arrivals: spec_fn(nat) -> Seq<u16>, n: nat)
    requires
        forall|k: nat| (#[trigger] arrivals(k)).len() == 0,
    ensures
        m.steps_with_input(arrivals, n) == m.steps(n),
    decreases n,
{
    if n > 0 {
        let k = (n - 1) as nat;
        lemma_steps_without_input(m, arrivals, k);
        assert(arrivals(k).len() == 0);
        assert(m.steps(k).with_keys(arrivals(k)) =~= m.steps(k));
    }
}

/// A turn that does not read the input port does not depend on the input
/// queue: two machines that agree on everything else still do so afterwards.
pub proof fn lemma_step_ignores_input(a: MachineView, b: MachineView)
    requires
        a.wf(),
        b.wf(),
        a.same_but_input(b),
        !a.reads_port(),
    ensures
        a.step().same_but_input(b.step()),
        !b.reads_port(),
{
    if a.cpu.status == Status::Running {
        let pc = a.cpu.pc as int;
        assert(a.memory.read(pc) == b.memory.read(pc));
        assert(a.memory.after_read(pc) == a.memory);
        assert(b.memory.after_read(pc) == b.memory);
    }
}

/// A program that never reads the input port runs the same whenever the
/// host delivers its keys: take two machines that agree on everything but
/// their input queues, and any two ways of delivering keys between turns. If
/// the first run does not read the port in its first `n` turns, then after
/// `n` turns the two machines still agree on everything but their input
/// queues, so in particular on whether they have halted and on r0.
pub proof fn lemma_input_timing(
    a: MachineView,
    b: MachineView,
    arrivals_a: spec_fn(nat) -> Seq<u16>,
    arrivals_b: spec_fn(nat) -> Seq<u16>,
    n: nat,
)
    requires
        a.wf(),
        b.wf(),
        a.same_but_input(b),
        a.never_reads_port(arrivals_a, n),
    ensures
        a.steps_with_input(arrivals_a, n).wf(),
        b.steps_with_input(arrivals_b, n).wf(),
        a.steps_with_input(arrivals_a, n).same_but_input(b.steps_with_input(arrivals_b, n)),
        a.steps_with_input(arrivals_a, n).exit_word() == b.steps_with_input(
            arrivals_b,
            n,
        ).exit_word(),
        b.never_reads_port(arrivals_b, n),
    decreases n,
{
    if n > 0 {
        let k = (n - 1) as nat;
        lemma_input_timing(a, b, arrivals_a, arrivals_b, k);
        let fed_a = a.steps_with_input(arrivals_a, k).with_keys(arrivals_a(k));
        let fed_b = b.steps_with_input(arrivals_b, k).with_keys(arrivals_b(k));
        lemma_step_ignores_input(fed_a, fed_b);
        lemma_step_wf(fed_a);
        lemma_step_wf(fed_b);
    }
}

/// The machine.
pub struct Emulator {
    cpu: Cpu,
    memory: Memory,
}

impl View for Emulator {
    type V = MachineView;

    closed spec fn view(&self) -> MachineView {
        MachineView { cpu: self.cpu@, memory: self.memory@ }
    }
}

impl Emulator {
    pub open spec fn wf(&self) -> bool {
        self@.wf()
    }

    /// Boots the machine on a program image: the core at power-on, the image
    /// in RAM from address 0, and the given tile map and sprite table.
    pub fn new(image: &[u8], tile_map: TileMap, sprite_map: SpriteMap) -> (machine: Emulator)
        requires
            tile_map.wf(),
            tile_map@.len() == 128,
            sprite_map.wf(),
            sprite_map@.len() == 8,
        ensures
            machine.wf(),
            machine@.cpu == CpuView::reset(),
            machine@.memory.ram == boot_ram(image_words(image@)),
            machine@.memory.frame_buffer.words == Seq::new(4096, |i: int| 0u16),
            machine@.memory.tile_map == tile_map@,
            machine@.memory.sprite_map == sprite_map@,
            machine@.memory.io_buffer == Seq::<u16>::empty(),
            machine@.memory.vscroll == 0,
            machine@.memory.hscroll == 0,
            machine@.memory.scale == 0,
    {
        let memory = Memory::new(program_words(image), tile_map, sprite_map);
        Emulator { cpu: Cpu::new(), memory }
    }

    pub fn cpu(&self) -> (cpu: &Cpu)
        ensures
            cpu@ == self@.cpu,
    {
        &self.cpu
    }

    pub fn memory(&self) -> (memory: &Memory)
        ensures
            memory@ == self@.memory,
    {
        &self.memory
    }

    /// Whether the machine has stopped, for whatever reason.
    pub fn is_halted(&self) -> (halted: bool)
        ensures
            halted == (self@.cpu.status != Status::Running),
    {
        self.cpu.is_halted()
    }

    /// Appends a key code to the input queue, as the host does on a key press.
    pub fn push_key(&mut self, key: u16)
        ensures
            final(self)@ == old(self)@.with_keys(seq![key]),
    {
        self.memory.push_key(key);
        assert(self@ =~= old(self)@.with_keys(seq![key]));
    }

    /// One turn of the fetch-execute loop.
    pub fn step(&mut self)
        requires
            old(self).wf(),
        ensures
            final(self).wf(),
            final(self)@ == old(self)@.step(),
    {
        proof {
            lemma_step_wf(self@);
        }
        if self.cpu.is_halted() {
            return ;
        }
        let word = self.memory.read(self.cpu.pc() as usize);
        match self.cpu.execute(word) {
            BusOp::Idle => {},
            BusOp::Load { rd, addr } => {
                let value = self.memory.read(addr as usize);
                self.cpu.load(rd, value);
            },
            BusOp::Store { addr, data } => {
                if addr as usize == IO_BUFFER_START {
                    self.cpu.refuse_store();
                } else {
                    self.memory.write(addr as usize, data);
                }
            },
        }
        assert(self@ =~= old(self)@.step());
    }

    /// Runs the machine for at most `fuel` instructions and returns the word
    /// in r0 if the program has halted by then.
    pub fn run(&mut self, fuel: u64) -> (exit: Option<u16>)
        requires
            old(self).wf(),
        ensures
            final(self).wf(),
            final(self)@ == old(self)@.steps(fuel as nat),
            exit == final(self)@.exit_word(),
    {
        let mut done: u64 = 0;
        while done < fuel && !self.cpu.is_halted()
            invariant
                done <= fuel,
                self.wf(),
                self@ == old(self)@.steps(done as nat),
            decreases fuel - done,
        {
            self.step();
            done += 1;
        }
        proof {
            if done < fuel {
                lemma_stopped_stays(self@, (fuel - done) as nat);
                lemma_steps_add(old(self)@, done as nat, (fuel - done) as nat);
            }
            self.cpu.lemma_wf();
        }
        match self.cpu.status() {
            Status::Halted => Some(self.cpu.reg(0)),
            _ => None,
        }
    }
}

} // verus!
