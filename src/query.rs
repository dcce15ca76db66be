use vstd::prelude::*;

use crate::bits::{push_word_bytes, word_bytes};

verus! {

/// Leaf: highest basic leaf, and the vendor identification.
pub const BASIC_INFORMATION: u32 = 0x0000_0000;

/// Leaf: version information and the basic feature flags.
pub const VERSION_INFORMATION: u32 = 0x0000_0001;

/// Leaf: thermal and power management.
pub const THERMAL_POWER_MANAGEMENT_INFORMATION: u32 = 0x0000_0006;

/// Leaf: structured extended feature flags (sub-leaf 0).
pub const STRUCTURED_EXTENDED_INFORMATION: u32 = 0x0000_0007;

/// Leaf: highest extended leaf.
pub const EXTENDED_FUNCTION_INFORMATION: u32 = 0x8000_0000;

/// Leaf: extended processor signature and feature flags.
pub const EXTENDED_PROCESSOR_SIGNATURE: u32 = 0x8000_0001;

/// Leaf: first 16 bytes of the brand string.
pub const BRAND_STRING_1: u32 = 0x8000_0002;

/// Leaf: second 16 bytes of the brand string.
pub const BRAND_STRING_2: u32 = 0x8000_0003;

/// Leaf: last 16 bytes of the brand string.
pub const BRAND_STRING_3: u32 = 0x8000_0004;

/// Leaf: cache line descriptor.
pub const CACHE_LINE: u32 = 0x8000_0006;

/// Leaf: time stamp counter descriptor.
pub const TIME_STAMP_COUNTER: u32 = 0x8000_0007;

/// Leaf: physical and linear address sizes.
pub const PHYSICAL_ADDRESS_SIZE: u32 = 0x8000_0008;

/// Whether `leaf` lies in the extended numbering range.
pub open spec fn is_extended_leaf(leaf: u32) -> bool {
    leaf >= EXTENDED_FUNCTION_INFORMATION
}

/// Whether `leaf` lies in the extended numbering range.
pub fn extended_leaf(leaf: u32) -> (r: bool)
    ensures
        r == is_extended_leaf(leaf),
{
    leaf >= EXTENDED_FUNCTION_INFORMATION
}

/// The four words one identification query returns.
#[derive(Clone, Copy, Debug, PartialEq, Eq, Structural)]
pub struct Registers {
    pub eax: u32,
    pub ebx: u32,
    pub ecx: u32,
    pub edx: u32,
}

impl Registers {
    /// Four zero words.
    pub open spec fn zero() -> Registers {
        Registers { eax: 0, ebx: 0, ecx: 0, edx: 0 }
    }
}

/// The twelve vendor identification bytes of the basic leaf: ebx, edx, ecx.
pub open spec fn vendor_bytes(basic: Registers) -> Seq<u8> {
    word_bytes(basic.ebx) + word_bytes(basic.edx) + word_bytes(basic.ecx)
}

/// The vendor identification string held by the basic leaf's registers, as bytes
/// in the documented order: ebx, then edx, then ecx.
pub fn vendor_id(basic: Registers) -> (r: Vec<u8>)
    ensures
        r@ == vendor_bytes(basic),
        r@.len() == 12,
{
    let mut out: Vec<u8> = Vec::new();
    push_word_bytes(&mut out, basic.ebx);
    push_word_bytes(&mut out, basic.edx);
    push_word_bytes(&mut out, basic.ecx);
    assert(out@ =~= vendor_bytes(basic));
    out
}

/// Something that answers identification queries: the processor, or a scripted
/// stand-in. Each query is recorded, with its answer, in a log that contracts
/// speak of.
pub trait CpuidSource {
    /// Every query made so far with the answer it got, oldest first.
    spec fn log(&self) -> Seq<(u32, Registers)>;

    /// Queries `leaf` with sub-leaf 0.
    fn cpuid(&mut self, leaf: u32) -> (r: Registers)
        ensures
            final(self).log() == old(self).log().push((leaf, r)),
    ;
}

/// Relies on `core::arch::x86_64::__cpuid_count`, which executes the processor's
/// identification instruction with `leaf` and sub-leaf 0; nothing is known of the
/// words it returns.
#[verifier::external_body]
fn hardware_cpuid(leaf: u32) -> (r: Registers) {
    let res = core::arch::x86_64::__cpuid_count(leaf, 0);
    Registers { eax: res.eax, ebx: res.ebx, ecx: res.ecx, edx: res.edx }
}

/// The processor this code runs on.
pub struct HardwareCpu {
    history: Ghost<Seq<(u32, Registers)>>,
}

impl HardwareCpu {
    /// A handle on the processor, with an empty log.
    pub fn new() -> (r: HardwareCpu)
        ensures
            r.log().len() == 0,
    {
        HardwareCpu { history: Ghost(Seq::empty()) }
    }
}

impl CpuidSource for HardwareCpu {
    closed spec fn log(&self) -> Seq<(u32, Registers)> {
        self.history@
    }

    fn cpuid(&mut self, leaf: u32) -> (r: Registers) {
        let r = hardware_cpuid(leaf);
        self.history = Ghost(self.history@.push((leaf, r)));
        r
    }
}

/// The leaves of a log, in order.
pub open spec fn leaves_of(log: Seq<(u32, Registers)>) -> Seq<u32> {
    log.map_values(|e: (u32, Registers)| e.0)
}

/// The entries of a log from position `start` on.
pub open spec fn since(log: Seq<(u32, Registers)>, start: int) -> Seq<(u32, Registers)> {
    log.subrange(start, log.len() as int)
}

/// The answer that `leaf` got in a log: that of its latest query, or four zero
/// words when it was never queried.
pub open spec fn answer_in(log: Seq<(u32, Registers)>, leaf: u32) -> Registers
    decreases log.len(),
{
    if log.len() == 0 {
        Registers::zero()
    } else if log.last().0 == leaf {
        log.last().1
    } else {
        answer_in(log.drop_last(), leaf)
    }
}

/// One more entry in a log adds its leaf to the leaves.
pub broadcast proof fn lemma_leaves_push(log: Seq<(u32, Registers)>, e: (u32, Registers))
    ensures
        #[trigger] leaves_of(log.push(e)) == leaves_of(log).push(e.0),
{
    assert(leaves_of(log.push(e)) =~= leaves_of(log).push(e.0));
}

/// One more entry in a log becomes the answer of its leaf, and leaves the other
/// leaves' answers as they were.
pub broadcast proof fn lemma_answer_push(log: Seq<(u32, Registers)>, e: (u32, Registers), leaf: u32)
    ensures
        #[trigger] answer_in(log.push(e), leaf) == if e.0 == leaf {
            e.1
        } else {
            answer_in(log, leaf)
        },
{
    assert(log.push(e).drop_last() =~= log);
}

/// The answer that a script of `(leaf, registers)` entries gives to `leaf`: the
/// first entry for it, or four zero words when there is none.
pub open spec fn script_answer(script: Seq<(u32, Registers)>, leaf: u32) -> Registers
    decreases script.len(),
{
    if script.len() == 0 {
        Registers::zero()
    } else if script[0].0 == leaf {
        script[0].1
    } else {
        script_answer(script.drop_first(), leaf)
    }
}

/// A stand-in processor that answers from a fixed script and records every query.
pub struct ScriptedCpu {
    script: Vec<(u32, Registers)>,
    history: Vec<(u32, Registers)>,
}

impl ScriptedCpu {
    /// The script this stand-in answers from.
    pub closed spec fn script(&self) -> Seq<(u32, Registers)> {
        self.script@
    }

    /// A stand-in with no entries and nothing asked.
    pub fn new() -> (r: ScriptedCpu)
        ensures
            r.script().len() == 0,
            r.log().len() == 0,
    {
        ScriptedCpu { script: Vec::new(), history: Vec::new() }
    }

    /// Adds an answer for `leaf`; an earlier entry for the same leaf takes precedence.
    pub fn set(&mut self, leaf: u32, answer: Registers)
        ensures
            final(self).script() == old(self).script().push((leaf, answer)),
            final(self).log() == old(self).log(),
    {
        self.script.push((leaf, answer));
    }

    /// The answer the script gives to `leaf`.
    pub fn answer(&self, leaf: u32) -> (r: Registers)
        ensures
            r == script_answer(self.script(), leaf),
    {
        let mut i: usize = 0;
        assert(self.script@.subrange(0, self.script@.len() as int) =~= self.script@);
        while i < self.script.len()
            invariant
                0 <= i <= self.script@.len(),
                script_answer(self.script@, leaf) == script_answer(
                    self.script@.subrange(i as int, self.script@.len() as int),
                    leaf,
                ),
            decreases self.script@.len() - i,
        {
            let ghost rest = self.script@.subrange(i as int, self.script@.len() as int);
            if self.script[i].0 == leaf {
                return self.script[i].1;
            }
            assert(rest.drop_first() =~= self.script@.subrange(
                i + 1,
                self.script@.len() as int,
            ));
            i = i + 1;
        }
        Registers { eax: 0, ebx: 0, ecx: 0, edx: 0 }
    }

    /// The leaves asked for so far, oldest first.
    pub fn asked(&self) -> (r: Vec<u32>)
        ensures
            r@ == self.log().map_values(|e: (u32, Registers)| e.0),
    {
        let mut out: Vec<u32> = Vec::new();
        let mut i: usize = 0;
        while i < self.history.len()
            invariant
                0 <= i <= self.history@.len(),
                out@ == self.history@.subrange(0, i as int).map_values(
                    |e: (u32, Registers)| e.0,
                ),
            decreases self.history@.len() - i,
        {
            out.push(self.history[i].0);
            i = i + 1;
            assert(out@ =~= self.history@.subrange(0, i as int).map_values(
                |e: (u32, Registers)| e.0,
            ));
        }
        assert(self.history@.subrange(0, i as int) =~= self.history@);
        out
    }
}

impl CpuidSource for ScriptedCpu {
    closed spec fn log(&self) -> Seq<(u32, Registers)> {
        self.history@
    }

    /// Answers from the script, which stays as it was.
    fn cpuid(&mut self, leaf: u32) -> (r: Registers)
        ensures
            r == script_answer(old(self).script(), leaf),
            final(self).script() == old(self).script(),
    {
        let r = self.answer(leaf);
        self.history.push((leaf, r));
        r
    }
}

} // verus!
