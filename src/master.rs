use vstd::prelude::*;

use crate::bits::{bit_set, field_of};
use crate::brand::{brand_text, chunk_bytes, BrandString};
use crate::query::{
    answer_in, leaves_of, lemma_answer_push, lemma_leaves_push, since, CpuidSource, HardwareCpu, Registers,
    BASIC_INFORMATION, BRAND_STRING_1, BRAND_STRING_2, BRAND_STRING_3, CACHE_LINE,
    EXTENDED_FUNCTION_INFORMATION, EXTENDED_PROCESSOR_SIGNATURE, PHYSICAL_ADDRESS_SIZE,
    STRUCTURED_EXTENDED_INFORMATION, THERMAL_POWER_MANAGEMENT_INFORMATION, TIME_STAMP_COUNTER,
    VERSION_INFORMATION,
};
use crate::leaves::{
    brand_name, family_of, model_of, CacheLine, ExtendedProcessorSignature, PhysicalAddressSize,
    StructuredExtendedInformation, ThermalPowerManagementInformation, TimeStampCounter,
    VersionInformation,
};

verus! {

broadcast use {lemma_leaves_push, lemma_answer_push};

/// `s` with `leaf` appended when `cond` holds.
pub open spec fn push_if(s: Seq<u32>, cond: bool, leaf: u32) -> Seq<u32> {
    if cond {
        s.push(leaf)
    } else {
        s
    }
}

/// The leaves a snapshot queries, in order, given the highest basic leaf and the
/// highest extended leaf that the processor reports: each leaf only when it lies
/// within its range, the three brand-string leaves together when the last of them
/// does.
pub open spec fn query_plan(max_basic: u32, max_extended: u32) -> Seq<u32> {
    let basic = push_if(
        push_if(
            push_if(seq![BASIC_INFORMATION], max_basic >= VERSION_INFORMATION, VERSION_INFORMATION),
            max_basic >= THERMAL_POWER_MANAGEMENT_INFORMATION,
            THERMAL_POWER_MANAGEMENT_INFORMATION,
        ),
        max_basic >= STRUCTURED_EXTENDED_INFORMATION,
        STRUCTURED_EXTENDED_INFORMATION,
    );
    let signature = push_if(
        basic.push(EXTENDED_FUNCTION_INFORMATION),
        max_extended >= EXTENDED_PROCESSOR_SIGNATURE,
        EXTENDED_PROCESSOR_SIGNATURE,
    );
    let brand = if max_extended >= BRAND_STRING_3 {
        signature.push(BRAND_STRING_1).push(BRAND_STRING_2).push(BRAND_STRING_3)
    } else {
        signature
    };
    push_if(
        push_if(
            push_if(brand, max_extended >= CACHE_LINE, CACHE_LINE),
            max_extended >= TIME_STAMP_COUNTER,
            TIME_STAMP_COUNTER,
        ),
        max_extended >= PHYSICAL_ADDRESS_SIZE,
        PHYSICAL_ADDRESS_SIZE,
    )
}

/// What a snapshot holds: the highest basic and extended leaves, and a decoder for
/// each leaf that was within range.
pub struct MasterView {
    pub max_basic_leaf: u32,
    pub max_extended_leaf: u32,
    pub version_information: Option<VersionInformation>,
    pub thermal_power_management_information: Option<ThermalPowerManagementInformation>,
    pub structured_extended_information: Option<StructuredExtendedInformation>,
    pub extended_processor_signature: Option<ExtendedProcessorSignature>,
    pub brand_string: Option<BrandString>,
    pub cache_line: Option<CacheLine>,
    pub time_stamp_counter: Option<TimeStampCounter>,
    pub physical_address_size: Option<PhysicalAddressSize>,
}

impl MasterView {
    /// Each decoder is present exactly when its leaf lies within the reported range.
    pub open spec fn gated(self) -> bool {
        &&& (self.version_information is Some <==> self.max_basic_leaf >= VERSION_INFORMATION)
        &&& (self.thermal_power_management_information is Some <==> self.max_basic_leaf
            >= THERMAL_POWER_MANAGEMENT_INFORMATION)
        &&& (self.structured_extended_information is Some <==> self.max_basic_leaf
            >= STRUCTURED_EXTENDED_INFORMATION)
        &&& (self.extended_processor_signature is Some <==> self.max_extended_leaf
            >= EXTENDED_PROCESSOR_SIGNATURE)
        &&& (self.brand_string is Some <==> self.max_extended_leaf >= BRAND_STRING_3)
        &&& (self.cache_line is Some <==> self.max_extended_leaf >= CACHE_LINE)
        &&& (self.time_stamp_counter is Some <==> self.max_extended_leaf >= TIME_STAMP_COUNTER)
        &&& (self.physical_address_size is Some <==> self.max_extended_leaf
            >= PHYSICAL_ADDRESS_SIZE)
    }

    /// The snapshot was decoded from the answers in `log`: the maxima from the eax of
    /// the two range leaves, and each present decoder from its own leaf's answer.
    pub open spec fn decoded_from(self, log: Seq<(u32, Registers)>) -> bool {
        &&& self.max_basic_leaf == answer_in(log, BASIC_INFORMATION).eax
        &&& self.max_extended_leaf == answer_in(log, EXTENDED_FUNCTION_INFORMATION).eax
        &&& (self.version_information matches Some(d) ==> d@ == answer_in(
            log,
            VERSION_INFORMATION,
        ))
        &&& (self.thermal_power_management_information matches Some(d) ==> d@
            == ThermalPowerManagementInformation::kept(
            answer_in(log, THERMAL_POWER_MANAGEMENT_INFORMATION),
        ))
        &&& (self.structured_extended_information matches Some(d) ==> d@
            == StructuredExtendedInformation::kept(
            answer_in(log, STRUCTURED_EXTENDED_INFORMATION),
        ))
        &&& (self.extended_processor_signature matches Some(d) ==> d@
            == ExtendedProcessorSignature::kept(answer_in(log, EXTENDED_PROCESSOR_SIGNATURE)))
        &&& (self.brand_string matches Some(d) ==> d@ == chunk_bytes(
            answer_in(log, BRAND_STRING_1),
        ) + chunk_bytes(answer_in(log, BRAND_STRING_2)) + chunk_bytes(
            answer_in(log, BRAND_STRING_3),
        ))
        &&& (self.cache_line matches Some(d) ==> d@ == CacheLine::kept(
            answer_in(log, CACHE_LINE),
        ))
        &&& (self.time_stamp_counter matches Some(d) ==> d@ == TimeStampCounter::kept(
            answer_in(log, TIME_STAMP_COUNTER),
        ))
        &&& (self.physical_address_size matches Some(d) ==> d@ == PhysicalAddressSize::kept(
            answer_in(log, PHYSICAL_ADDRESS_SIZE),
        ))
    }

    /// The brand text a snapshot reports: the brand string leaves' text when present,
    /// else the brand-index name of the version information when it has one.
    pub open spec fn brand_text(self) -> Option<Seq<char>> {
        match self.brand_string {
            Some(b) => Some(brand_text(b@)),
            None => match self.version_information {
                Some(v) => brand_name(field_of(v@.ebx, 0, 7), v@.eax),
                None => None,
            },
        }
    }
}

/// Queries `leaf` and records it in the part of the log from `start` on.
fn ask<S: CpuidSource>(cpu: &mut S, leaf: u32, Ghost(start): Ghost<int>) -> (r: Registers)
    requires
        0 <= start <= old(cpu).log().len(),
    ensures
        final(cpu).log().len() == old(cpu).log().len() + 1,
        since(final(cpu).log(), start) == since(old(cpu).log(), start).push((leaf, r)),
{
    let r = cpu.cpuid(leaf);
    assert(since(cpu.log(), start) =~= since(old(cpu).log(), start).push((leaf, r)));
    r
}

/// Queries `leaf` only when it lies within `max`.
fn ask_if<S: CpuidSource>(cpu: &mut S, max: u32, leaf: u32, Ghost(start): Ghost<int>) -> (r:
    Option<Registers>)
    requires
        0 <= start <= old(cpu).log().len(),
    ensures
        r is Some <==> max >= leaf,
        match r {
            Some(a) => final(cpu).log().len() == old(cpu).log().len() + 1 && since(
                final(cpu).log(),
                start,
            ) == since(old(cpu).log(), start).push((leaf, a)),
            None => final(cpu).log() == old(cpu).log(),
        },
{
    if max >= leaf {
        Some(ask(cpu, leaf, Ghost(start)))
    } else {
        None
    }
}

/// A snapshot of the processor's identification and feature information.
#[derive(Clone, Debug)]
pub struct Master {
    max_basic_leaf: u32,
    max_extended_leaf: u32,
    version_information: Option<VersionInformation>,
    thermal_power_management_information: Option<ThermalPowerManagementInformation>,
    structured_extended_information: Option<StructuredExtendedInformation>,
    extended_processor_signature: Option<ExtendedProcessorSignature>,
    brand_string: Option<BrandString>,
    cache_line: Option<CacheLine>,
    time_stamp_counter: Option<TimeStampCounter>,
    physical_address_size: Option<PhysicalAddressSize>,
}

impl View for Master {
    type V = MasterView;

    closed spec fn view(&self) -> MasterView {
        MasterView {
            max_basic_leaf: self.max_basic_leaf,
            max_extended_leaf: self.max_extended_leaf,
            version_information: self.version_information,
            thermal_power_management_information: self.thermal_power_management_information,
            structured_extended_information: self.structured_extended_information,
            extended_processor_signature: self.extended_processor_signature,
            brand_string: self.brand_string,
            cache_line: self.cache_line,
            time_stamp_counter: self.time_stamp_counter,
            physical_address_size: self.physical_address_size,
        }
    }
}

impl Master {
    /// Takes a snapshot of the processor this code runs on. Whatever the processor
    /// answers, the snapshot is decoded from the answers to exactly the planned
    /// queries.
    pub fn new() -> (m: Master)
        ensures
            m@.gated(),
            exists|log: Seq<(u32, Registers)>|
                leaves_of(log) == query_plan(m@.max_basic_leaf, m@.max_extended_leaf)
                    && m@.decoded_from(log),
    {
        let mut cpu = HardwareCpu::new();
        let m = Master::probe(&mut cpu);
        assert(leaves_of(since(cpu.log(), 0)) == query_plan(
            m@.max_basic_leaf,
            m@.max_extended_leaf,
        ) && m@.decoded_from(since(cpu.log(), 0)));
        m
    }


    /// The highest basic leaf the processor reported.
    pub fn max_basic_leaf(&self) -> (r: u32)
        ensures
            r == self@.max_basic_leaf,
    {
        self.max_basic_leaf
    }

    /// The highest extended leaf the processor reported.
    pub fn max_extended_leaf(&self) -> (r: u32)
        ensures
            r == self@.max_extended_leaf,
    {
        self.max_extended_leaf
    }

    /// The brand text: that of the brand string leaves when they are supported,
    /// else the name that the version information's brand index stands for, else
    /// `None`.
    pub fn brand_string(&self) -> (r: Option<&str>)
        ensures
            match r {
                Some(s) => self@.brand_text() == Some(s@),
                None => self@.brand_text() is None,
            },
    {
        match &self.brand_string {
            Some(b) => Some(b.as_str()),
            None => match self.version_information {
                Some(v) => v.brand_string(),
                None => None,
            },
        }
    }

    /// The family number; `None` when version information is not supported.
    pub fn family_id(&self) -> (r: Option<u32>)
        ensures
            match self@.version_information {
                Some(v) => r matches Some(x) && x as int == family_of(v@.eax),
                None => r is None,
            },
    {
        match self.version_information {
            Some(v) => Some(v.family_id()),
            None => None,
        }
    }

    /// The model number; `None` when version information is not supported.
    pub fn model_id(&self) -> (r: Option<u32>)
        ensures
            match self@.version_information {
                Some(v) => r matches Some(x) && x as int == model_of(v@.eax),
                None => r is None,
            },
    {
        match self.version_information {
            Some(v) => Some(v.model_id()),
            None => None,
        }
    }

    /// The stepping; `None` when version information is not supported.
    pub fn stepping(&self) -> (r: Option<u32>)
        ensures
            match self@.version_information {
                Some(v) => r == Some(field_of(v@.eax, 0, 3)),
                None => r is None,
            },
    {
        match self.version_information {
            Some(v) => Some(v.stepping()),
            None => None,
        }
    }

    /// The decoder of its leaf; `None` when the leaf is not supported.
    pub fn version_information(&self) -> (r: Option<VersionInformation>)
        ensures
            r == self@.version_information,
    {
        self.version_information
    }

    /// The decoder of its leaf; `None` when the leaf is not supported.
    pub fn thermal_power_management_information(&self) -> (r: Option<ThermalPowerManagementInformation>)
        ensures
            r == self@.thermal_power_management_information,
    {
        self.thermal_power_management_information
    }

    /// The decoder of its leaf; `None` when the leaf is not supported.
    pub fn structured_extended_information(&self) -> (r: Option<StructuredExtendedInformation>)
        ensures
            r == self@.structured_extended_information,
    {
        self.structured_extended_information
    }

    /// The decoder of its leaf; `None` when the leaf is not supported.
    pub fn extended_processor_signature(&self) -> (r: Option<ExtendedProcessorSignature>)
        ensures
            r == self@.extended_processor_signature,
    {
        self.extended_processor_signature
    }

    /// The decoder of its leaf; `None` when the leaf is not supported.
    pub fn cache_line(&self) -> (r: Option<CacheLine>)
        ensures
            r == self@.cache_line,
    {
        self.cache_line
    }

    /// The decoder of its leaf; `None` when the leaf is not supported.
    pub fn time_stamp_counter(&self) -> (r: Option<TimeStampCounter>)
        ensures
            r == self@.time_stamp_counter,
    {
        self.time_stamp_counter
    }

    /// The decoder of its leaf; `None` when the leaf is not supported.
    pub fn physical_address_size(&self) -> (r: Option<PhysicalAddressSize>)
        ensures
            r == self@.physical_address_size,
    {
        self.physical_address_size
    }

    /// Whether `sse3` is reported; false when its leaf is not supported.
    pub fn sse3(&self) -> (r: bool)
        ensures
            r == (self@.version_information matches Some(d) && bit_set(d@.ecx, 0)),
    {
        match self.version_information {
            Some(d) => d.sse3(),
            None => false,
        }
    }

    /// Whether `pclmulqdq` is reported; false when its leaf is not supported.
    pub fn pclmulqdq(&self) -> (r: bool)
        ensures
            r == (self@.version_information matches Some(d) && bit_set(d@.ecx, 1)),
    {
        match self.version_information {
            Some(d) => d.pclmulqdq(),
            None => false,
        }
    }

    /// Whether `dtes64` is reported; false when its leaf is not supported.
    pub fn dtes64(&self) -> (r: bool)
        ensures
            r == (self@.version_information matches Some(d) && bit_set(d@.ecx, 2)),
    {
        match self.version_information {
            Some(d) => d.dtes64(),
            None => false,
        }
    }

    /// Whether `monitor` is reported; false when its leaf is not supported.
    pub fn monitor(&self) -> (r: bool)
        ensures
            r == (self@.version_information matches Some(d) && bit_set(d@.ecx, 3)),
    {
        match self.version_information {
            Some(d) => d.monitor(),
            None => false,
        }
    }

    /// Whether `ds_cpl` is reported; false when its leaf is not supported.
    pub fn ds_cpl(&self) -> (r: bool)
        ensures
            r == (self@.version_information matches Some(d) && bit_set(d@.ecx, 4)),
    {
        match self.version_information {
            Some(d) => d.ds_cpl(),
            None => false,
        }
    }

    /// Whether `vmx` is reported; false when its leaf is not supported.
    pub fn vmx(&self) -> (r: bool)
        ensures
            r == (self@.version_information matches Some(d) && bit_set(d@.ecx, 5)),
    {
        match self.version_information {
            Some(d) => d.vmx(),
            None => false,
        }
    }

    /// Whether `smx` is reported; false when its leaf is not supported.
    pub fn smx(&self) -> (r: bool)
        ensures
            r == (self@.version_information matches Some(d) && bit_set(d@.ecx, 6)),
    {
        match self.version_information {
            Some(d) => d.smx(),
            None => false,
        }
    }

    /// Whether `eist` is reported; false when its leaf is not supported.
    pub fn eist(&self) -> (r: bool)
        ensures
            r == (self@.version_information matches Some(d) && bit_set(d@.ecx, 7)),
    {
        match self.version_information {
            Some(d) => d.eist(),
            None => false,
        }
    }

    /// Whether `tm2` is reported; false when its leaf is not supported.
    pub fn tm2(&self) -> (r: bool)
        ensures
            r == (self@.version_information matches Some(d) && bit_set(d@.ecx, 8)),
    {
        match self.version_information {
            Some(d) => d.tm2(),
            None => false,
        }
    }

    /// Whether `ssse3` is reported; false when its leaf is not supported.
    pub fn ssse3(&self) -> (r: bool)
        ensures
            r == (self@.version_information matches Some(d) && bit_set(d@.ecx, 9)),
    {
        match self.version_information {
            Some(d) => d.ssse3(),
            None => false,
        }
    }

    /// Whether `cnxt_id` is reported; false when its leaf is not supported.
    pub fn cnxt_id(&self) -> (r: bool)
        ensures
            r == (self@.version_information matches Some(d) && bit_set(d@.ecx, 10)),
    {
        match self.version_information {
            Some(d) => d.cnxt_id(),
            None => false,
        }
    }

    /// Whether `sdbg` is reported; false when its leaf is not supported.
    pub fn sdbg(&self) -> (r: bool)
        ensures
            r == (self@.version_information matches Some(d) && bit_set(d@.ecx, 11)),
    {
        match self.version_information {
            Some(d) => d.sdbg(),
            None => false,
        }
    }

    /// Whether `fma` is reported; false when its leaf is not supported.
    pub fn fma(&self) -> (r: bool)
        ensures
            r == (self@.version_information matches Some(d) && bit_set(d@.ecx, 12)),
    {
        match self.version_information {
            Some(d) => d.fma(),
            None => false,
        }
    }

    /// Whether `cmpxchg16b` is reported; false when its leaf is not supported.
    pub fn cmpxchg16b(&self) -> (r: bool)
        ensures
            r == (self@.version_information matches Some(d) && bit_set(d@.ecx, 13)),
    {
        match self.version_information {
            Some(d) => d.cmpxchg16b(),
            None => false,
        }
    }

    /// Whether `xtpr_update_control` is reported; false when its leaf is not supported.
    pub fn xtpr_update_control(&self) -> (r: bool)
        ensures
            r == (self@.version_information matches Some(d) && bit_set(d@.ecx, 14)),
    {
        match self.version_information {
            Some(d) => d.xtpr_update_control(),
            None => false,
        }
    }

    /// Whether `pdcm` is reported; false when its leaf is not supported.
    pub fn pdcm(&self) -> (r: bool)
        ensures
            r == (self@.version_information matches Some(d) && bit_set(d@.ecx, 15)),
    {
        match self.version_information {
            Some(d) => d.pdcm(),
            None => false,
        }
    }

    /// Whether `pcid` is reported; false when its leaf is not supported.
    pub fn pcid(&self) -> (r: bool)
        ensures
            r == (self@.version_information matches Some(d) && bit_set(d@.ecx, 17)),
    {
        match self.version_information {
            Some(d) => d.pcid(),
            None => false,
        }
    }

    /// Whether `dca` is reported; false when its leaf is not supported.
    pub fn dca(&self) -> (r: bool)
        ensures
            r == (self@.version_information matches Some(d) && bit_set(d@.ecx, 18)),
    {
        match self.version_information {
            Some(d) => d.dca(),
            None => false,
        }
    }

    /// Whether `sse4_1` is reported; false when its leaf is not supported.
    pub fn sse4_1(&self) -> (r: bool)
        ensures
            r == (self@.version_information matches Some(d) && bit_set(d@.ecx, 19)),
    {
        match self.version_information {
            Some(d) => d.sse4_1(),
            None => false,
        }
    }

    /// Whether `sse4_2` is reported; false when its leaf is not supported.
    pub fn sse4_2(&self) -> (r: bool)
        ensures
            r == (self@.version_information matches Some(d) && bit_set(d@.ecx, 20)),
    {
        match self.version_information {
            Some(d) => d.sse4_2(),
            None => false,
        }
    }

    /// Whether `x2apic` is reported; false when its leaf is not supported.
    pub fn x2apic(&self) -> (r: bool)
        ensures
            r == (self@.version_information matches Some(d) && bit_set(d@.ecx, 21)),
    {
        match self.version_information {
            Some(d) => d.x2apic(),
            None => false,
        }
    }

    /// Whether `movbe` is reported; false when its leaf is not supported.
    pub fn movbe(&self) -> (r: bool)
        ensures
            r == (self@.version_information matches Some(d) && bit_set(d@.ecx, 22)),
    {
        match self.version_information {
            Some(d) => d.movbe(),
            None => false,
        }
    }

    /// Whether `popcnt` is reported; false when its leaf is not supported.
    pub fn popcnt(&self) -> (r: bool)
        ensures
            r == (self@.version_information matches Some(d) && bit_set(d@.ecx, 23)),
    {
        match self.version_information {
            Some(d) => d.popcnt(),
            None => false,
        }
    }

    /// Whether `tsc_deadline` is reported; false when its leaf is not supported.
    pub fn tsc_deadline(&self) -> (r: bool)
        ensures
            r == (self@.version_information matches Some(d) && bit_set(d@.ecx, 24)),
    {
        match self.version_information {
            Some(d) => d.tsc_deadline(),
            None => false,
        }
    }

    /// Whether `aesni` is reported; false when its leaf is not supported.
    pub fn aesni(&self) -> (r: bool)
        ensures
            r == (self@.version_information matches Some(d) && bit_set(d@.ecx, 25)),
    {
        match self.version_information {
            Some(d) => d.aesni(),
            None => false,
        }
    }

    /// Whether `xsave` is reported; false when its leaf is not supported.
    pub fn xsave(&self) -> (r: bool)
        ensures
            r == (self@.version_information matches Some(d) && bit_set(d@.ecx, 26)),
    {
        match self.version_information {
            Some(d) => d.xsave(),
            None => false,
        }
    }

    /// Whether `osxsave` is reported; false when its leaf is not supported.
    pub fn osxsave(&self) -> (r: bool)
        ensures
            r == (self@.version_information matches Some(d) && bit_set(d@.ecx, 27)),
    {
        match self.version_information {
            Some(d) => d.osxsave(),
            None => false,
        }
    }

    /// Whether `avx` is reported; false when its leaf is not supported.
    pub fn avx(&self) -> (r: bool)
        ensures
            r == (self@.version_information matches Some(d) && bit_set(d@.ecx, 28)),
    {
        match self.version_information {
            Some(d) => d.avx(),
            None => false,
        }
    }

    /// Whether `f16c` is reported; false when its leaf is not supported.
    pub fn f16c(&self) -> (r: bool)
        ensures
            r == (self@.version_information matches Some(d) && bit_set(d@.ecx, 29)),
    {
        match self.version_information {
            Some(d) => d.f16c(),
            None => false,
        }
    }

    /// Whether `rdrand` is reported; false when its leaf is not supported.
    pub fn rdrand(&self) -> (r: bool)
        ensures
            r == (self@.version_information matches Some(d) && bit_set(d@.ecx, 30)),
    {
        match self.version_information {
            Some(d) => d.rdrand(),
            None => false,
        }
    }

    /// Whether `fpu` is reported; false when its leaf is not supported.
    pub fn fpu(&self) -> (r: bool)
        ensures
            r == (self@.version_information matches Some(d) && bit_set(d@.edx, 0)),
    {
        match self.version_information {
            Some(d) => d.fpu(),
            None => false,
        }
    }

    /// Whether `vme` is reported; false when its leaf is not supported.
    pub fn vme(&self) -> (r: bool)
        ensures
            r == (self@.version_information matches Some(d) && bit_set(d@.edx, 1)),
    {
        match self.version_information {
            Some(d) => d.vme(),
            None => false,
        }
    }

    /// Whether `de` is reported; false when its leaf is not supported.
    pub fn de(&self) -> (r: bool)
        ensures
            r == (self@.version_information matches Some(d) && bit_set(d@.edx, 2)),
    {
        match self.version_information {
            Some(d) => d.de(),
            None => false,
        }
    }

    /// Whether `pse` is reported; false when its leaf is not supported.
    pub fn pse(&self) -> (r: bool)
        ensures
            r == (self@.version_information matches Some(d) && bit_set(d@.edx, 3)),
    {
        match self.version_information {
            Some(d) => d.pse(),
            None => false,
        }
    }

    /// Whether `tsc` is reported; false when its leaf is not supported.
    pub fn tsc(&self) -> (r: bool)
        ensures
            r == (self@.version_information matches Some(d) && bit_set(d@.edx, 4)),
    {
        match self.version_information {
            Some(d) => d.tsc(),
            None => false,
        }
    }

    /// Whether `msr` is reported; false when its leaf is not supported.
    pub fn msr(&self) -> (r: bool)
        ensures
            r == (self@.version_information matches Some(d) && bit_set(d@.edx, 5)),
    {
        match self.version_information {
            Some(d) => d.msr(),
            None => false,
        }
    }

    /// Whether `pae` is reported; false when its leaf is not supported.
    pub fn pae(&self) -> (r: bool)
        ensures
            r == (self@.version_information matches Some(d) && bit_set(d@.edx, 6)),
    {
        match self.version_information {
            Some(d) => d.pae(),
            None => false,
        }
    }

    /// Whether `mce` is reported; false when its leaf is not supported.
    pub fn mce(&self) -> (r: bool)
        ensures
            r == (self@.version_information matches Some(d) && bit_set(d@.edx, 7)),
    {
        match self.version_information {
            Some(d) => d.mce(),
            None => false,
        }
    }

    /// Whether `cx8` is reported; false when its leaf is not supported.
    pub fn cx8(&self) -> (r: bool)
        ensures
            r == (self@.version_information matches Some(d) && bit_set(d@.edx, 8)),
    {
        match self.version_information {
            Some(d) => d.cx8(),
            None => false,
        }
    }

    /// Whether `apic` is reported; false when its leaf is not supported.
    pub fn apic(&self) -> (r: bool)
        ensures
            r == (self@.version_information matches Some(d) && bit_set(d@.edx, 9)),
    {
        match self.version_information {
            Some(d) => d.apic(),
            None => false,
        }
    }

    /// Whether `sep` is reported; false when its leaf is not supported.
    pub fn sep(&self) -> (r: bool)
        ensures
            r == (self@.version_information matches Some(d) && bit_set(d@.edx, 11)),
    {
        match self.version_information {
            Some(d) => d.sep(),
            None => false,
        }
    }

    /// Whether `mtrr` is reported; false when its leaf is not supported.
    pub fn mtrr(&self) -> (r: bool)
        ensures
            r == (self@.version_information matches Some(d) && bit_set(d@.edx, 12)),
    {
        match self.version_information {
            Some(d) => d.mtrr(),
            None => false,
        }
    }

    /// Whether `pge` is reported; false when its leaf is not supported.
    pub fn pge(&self) -> (r: bool)
        ensures
            r == (self@.version_information matches Some(d) && bit_set(d@.edx, 13)),
    {
        match self.version_information {
            Some(d) => d.pge(),
            None => false,
        }
    }

    /// Whether `mca` is reported; false when its leaf is not supported.
    pub fn mca(&self) -> (r: bool)
        ensures
            r == (self@.version_information matches Some(d) && bit_set(d@.edx, 14)),
    {
        match self.version_information {
            Some(d) => d.mca(),
            None => false,
        }
    }

    /// Whether `cmov` is reported; false when its leaf is not supported.
    pub fn cmov(&self) -> (r: bool)
        ensures
            r == (self@.version_information matches Some(d) && bit_set(d@.edx, 15)),
    {
        match self.version_information {
            Some(d) => d.cmov(),
            None => false,
        }
    }

    /// Whether `pat` is reported; false when its leaf is not supported.
    pub fn pat(&self) -> (r: bool)
        ensures
            r == (self@.version_information matches Some(d) && bit_set(d@.edx, 16)),
    {
        match self.version_information {
            Some(d) => d.pat(),
            None => false,
        }
    }

    /// Whether `pse_36` is reported; false when its leaf is not supported.
    pub fn pse_36(&self) -> (r: bool)
        ensures
            r == (self@.version_information matches Some(d) && bit_set(d@.edx, 17)),
    {
        match self.version_information {
            Some(d) => d.pse_36(),
            None => false,
        }
    }

    /// Whether `psn` is reported; false when its leaf is not supported.
    pub fn psn(&self) -> (r: bool)
        ensures
            r == (self@.version_information matches Some(d) && bit_set(d@.edx, 18)),
    {
        match self.version_information {
            Some(d) => d.psn(),
            None => false,
        }
    }

    /// Whether `clfsh` is reported; false when its leaf is not supported.
    pub fn clfsh(&self) -> (r: bool)
        ensures
            r == (self@.version_information matches Some(d) && bit_set(d@.edx, 19)),
    {
        match self.version_information {
            Some(d) => d.clfsh(),
            None => false,
        }
    }

    /// Whether `ds` is reported; false when its leaf is not supported.
    pub fn ds(&self) -> (r: bool)
        ensures
            r == (self@.version_information matches Some(d) && bit_set(d@.edx, 21)),
    {
        match self.version_information {
            Some(d) => d.ds(),
            None => false,
        }
    }

    /// Whether `acpi` is reported; false when its leaf is not supported.
    pub fn acpi(&self) -> (r: bool)
        ensures
            r == (self@.version_information matches Some(d) && bit_set(d@.edx, 22)),
    {
        match self.version_information {
            Some(d) => d.acpi(),
            None => false,
        }
    }

    /// Whether `mmx` is reported; false when its leaf is not supported.
    pub fn mmx(&self) -> (r: bool)
        ensures
            r == (self@.version_information matches Some(d) && bit_set(d@.edx, 23)),
    {
        match self.version_information {
            Some(d) => d.mmx(),
            None => false,
        }
    }

    /// Whether `fxsr` is reported; false when its leaf is not supported.
    pub fn fxsr(&self) -> (r: bool)
        ensures
            r == (self@.version_information matches Some(d) && bit_set(d@.edx, 24)),
    {
        match self.version_information {
            Some(d) => d.fxsr(),
            None => false,
        }
    }

    /// Whether `sse` is reported; false when its leaf is not supported.
    pub fn sse(&self) -> (r: bool)
        ensures
            r == (self@.version_information matches Some(d) && bit_set(d@.edx, 25)),
    {
        match self.version_information {
            Some(d) => d.sse(),
            None => false,
        }
    }

    /// Whether `sse2` is reported; false when its leaf is not supported.
    pub fn sse2(&self) -> (r: bool)
        ensures
            r == (self@.version_information matches Some(d) && bit_set(d@.edx, 26)),
    {
        match self.version_information {
            Some(d) => d.sse2(),
            None => false,
        }
    }

    /// Whether `ss` is reported; false when its leaf is not supported.
    pub fn ss(&self) -> (r: bool)
        ensures
            r == (self@.version_information matches Some(d) && bit_set(d@.edx, 27)),
    {
        match self.version_information {
            Some(d) => d.ss(),
            None => false,
        }
    }

    /// Whether `htt` is reported; false when its leaf is not supported.
    pub fn htt(&self) -> (r: bool)
        ensures
            r == (self@.version_information matches Some(d) && bit_set(d@.edx, 28)),
    {
        match self.version_information {
            Some(d) => d.htt(),
            None => false,
        }
    }

    /// Whether `tm` is reported; false when its leaf is not supported.
    pub fn tm(&self) -> (r: bool)
        ensures
            r == (self@.version_information matches Some(d) && bit_set(d@.edx, 29)),
    {
        match self.version_information {
            Some(d) => d.tm(),
            None => false,
        }
    }

    /// Whether `pbe` is reported; false when its leaf is not supported.
    pub fn pbe(&self) -> (r: bool)
        ensures
            r == (self@.version_information matches Some(d) && bit_set(d@.edx, 31)),
    {
        match self.version_information {
            Some(d) => d.pbe(),
            None => false,
        }
    }

    /// Whether `digital_temperature_sensor` is reported; false when its leaf is not supported.
    pub fn digital_temperature_sensor(&self) -> (r: bool)
        ensures
            r == (self@.thermal_power_management_information matches Some(d) && bit_set(d@.eax, 0)),
    {
        match self.thermal_power_management_information {
            Some(d) => d.digital_temperature_sensor(),
            None => false,
        }
    }

    /// Whether `intel_turbo_boost` is reported; false when its leaf is not supported.
    pub fn intel_turbo_boost(&self) -> (r: bool)
        ensures
            r == (self@.thermal_power_management_information matches Some(d) && bit_set(d@.eax, 1)),
    {
        match self.thermal_power_management_information {
            Some(d) => d.intel_turbo_boost(),
            None => false,
        }
    }

    /// Whether `arat` is reported; false when its leaf is not supported.
    pub fn arat(&self) -> (r: bool)
        ensures
            r == (self@.thermal_power_management_information matches Some(d) && bit_set(d@.eax, 2)),
    {
        match self.thermal_power_management_information {
            Some(d) => d.arat(),
            None => false,
        }
    }

    /// Whether `pln` is reported; false when its leaf is not supported.
    pub fn pln(&self) -> (r: bool)
        ensures
            r == (self@.thermal_power_management_information matches Some(d) && bit_set(d@.eax, 4)),
    {
        match self.thermal_power_management_information {
            Some(d) => d.pln(),
            None => false,
        }
    }

    /// Whether `ecmd` is reported; false when its leaf is not supported.
    pub fn ecmd(&self) -> (r: bool)
        ensures
            r == (self@.thermal_power_management_information matches Some(d) && bit_set(d@.eax, 5)),
    {
        match self.thermal_power_management_information {
            Some(d) => d.ecmd(),
            None => false,
        }
    }

    /// Whether `ptm` is reported; false when its leaf is not supported.
    pub fn ptm(&self) -> (r: bool)
        ensures
            r == (self@.thermal_power_management_information matches Some(d) && bit_set(d@.eax, 6)),
    {
        match self.thermal_power_management_information {
            Some(d) => d.ptm(),
            None => false,
        }
    }

    /// Whether `hwp` is reported; false when its leaf is not supported.
    pub fn hwp(&self) -> (r: bool)
        ensures
            r == (self@.thermal_power_management_information matches Some(d) && bit_set(d@.eax, 7)),
    {
        match self.thermal_power_management_information {
            Some(d) => d.hwp(),
            None => false,
        }
    }

    /// Whether `hwp_notification` is reported; false when its leaf is not supported.
    pub fn hwp_notification(&self) -> (r: bool)
        ensures
            r == (self@.thermal_power_management_information matches Some(d) && bit_set(d@.eax, 8)),
    {
        match self.thermal_power_management_information {
            Some(d) => d.hwp_notification(),
            None => false,
        }
    }

    /// Whether `hwp_activity_window` is reported; false when its leaf is not supported.
    pub fn hwp_activity_window(&self) -> (r: bool)
        ensures
            r == (self@.thermal_power_management_information matches Some(d) && bit_set(d@.eax, 9)),
    {
        match self.thermal_power_management_information {
            Some(d) => d.hwp_activity_window(),
            None => false,
        }
    }

    /// Whether `hwp_energy_performance_preference` is reported; false when its leaf is not supported.
    pub fn hwp_energy_performance_preference(&self) -> (r: bool)
        ensures
            r == (self@.thermal_power_management_information matches Some(d) && bit_set(d@.eax, 10)),
    {
        match self.thermal_power_management_information {
            Some(d) => d.hwp_energy_performance_preference(),
            None => false,
        }
    }

    /// Whether `hdc` is reported; false when its leaf is not supported.
    pub fn hdc(&self) -> (r: bool)
        ensures
            r == (self@.thermal_power_management_information matches Some(d) && bit_set(d@.eax, 13)),
    {
        match self.thermal_power_management_information {
            Some(d) => d.hdc(),
            None => false,
        }
    }

    /// Whether `hardware_coordination_feedback` is reported; false when its leaf is not supported.
    pub fn hardware_coordination_feedback(&self) -> (r: bool)
        ensures
            r == (self@.thermal_power_management_information matches Some(d) && bit_set(d@.ecx, 0)),
    {
        match self.thermal_power_management_information {
            Some(d) => d.hardware_coordination_feedback(),
            None => false,
        }
    }

    /// Whether `performance_energy_bias` is reported; false when its leaf is not supported.
    pub fn performance_energy_bias(&self) -> (r: bool)
        ensures
            r == (self@.thermal_power_management_information matches Some(d) && bit_set(d@.ecx, 3)),
    {
        match self.thermal_power_management_information {
            Some(d) => d.performance_energy_bias(),
            None => false,
        }
    }

    /// Whether `fsgsbase` is reported; false when its leaf is not supported.
    pub fn fsgsbase(&self) -> (r: bool)
        ensures
            r == (self@.structured_extended_information matches Some(d) && bit_set(d@.ebx, 0)),
    {
        match self.structured_extended_information {
            Some(d) => d.fsgsbase(),
            None => false,
        }
    }

    /// Whether `ia32_tsc_adjust_msr` is reported; false when its leaf is not supported.
    pub fn ia32_tsc_adjust_msr(&self) -> (r: bool)
        ensures
            r == (self@.structured_extended_information matches Some(d) && bit_set(d@.ebx, 1)),
    {
        match self.structured_extended_information {
            Some(d) => d.ia32_tsc_adjust_msr(),
            None => false,
        }
    }

    /// Whether `bmi1` is reported; false when its leaf is not supported.
    pub fn bmi1(&self) -> (r: bool)
        ensures
            r == (self@.structured_extended_information matches Some(d) && bit_set(d@.ebx, 3)),
    {
        match self.structured_extended_information {
            Some(d) => d.bmi1(),
            None => false,
        }
    }

    /// Whether `hle` is reported; false when its leaf is not supported.
    pub fn hle(&self) -> (r: bool)
        ensures
            r == (self@.structured_extended_information matches Some(d) && bit_set(d@.ebx, 4)),
    {
        match self.structured_extended_information {
            Some(d) => d.hle(),
            None => false,
        }
    }

    /// Whether `avx2` is reported; false when its leaf is not supported.
    pub fn avx2(&self) -> (r: bool)
        ensures
            r == (self@.structured_extended_information matches Some(d) && bit_set(d@.ebx, 5)),
    {
        match self.structured_extended_information {
            Some(d) => d.avx2(),
            None => false,
        }
    }

    /// Whether `smep` is reported; false when its leaf is not supported.
    pub fn smep(&self) -> (r: bool)
        ensures
            r == (self@.structured_extended_information matches Some(d) && bit_set(d@.ebx, 7)),
    {
        match self.structured_extended_information {
            Some(d) => d.smep(),
            None => false,
        }
    }

    /// Whether `bmi2` is reported; false when its leaf is not supported.
    pub fn bmi2(&self) -> (r: bool)
        ensures
            r == (self@.structured_extended_information matches Some(d) && bit_set(d@.ebx, 8)),
    {
        match self.structured_extended_information {
            Some(d) => d.bmi2(),
            None => false,
        }
    }

    /// Whether `enhanced_rep_movsb_stosb` is reported; false when its leaf is not supported.
    pub fn enhanced_rep_movsb_stosb(&self) -> (r: bool)
        ensures
            r == (self@.structured_extended_information matches Some(d) && bit_set(d@.ebx, 9)),
    {
        match self.structured_extended_information {
            Some(d) => d.enhanced_rep_movsb_stosb(),
            None => false,
        }
    }

    /// Whether `invpcid` is reported; false when its leaf is not supported.
    pub fn invpcid(&self) -> (r: bool)
        ensures
            r == (self@.structured_extended_information matches Some(d) && bit_set(d@.ebx, 10)),
    {
        match self.structured_extended_information {
            Some(d) => d.invpcid(),
            None => false,
        }
    }

    /// Whether `rtm` is reported; false when its leaf is not supported.
    pub fn rtm(&self) -> (r: bool)
        ensures
            r == (self@.structured_extended_information matches Some(d) && bit_set(d@.ebx, 11)),
    {
        match self.structured_extended_information {
            Some(d) => d.rtm(),
            None => false,
        }
    }

    /// Whether `pqm` is reported; false when its leaf is not supported.
    pub fn pqm(&self) -> (r: bool)
        ensures
            r == (self@.structured_extended_information matches Some(d) && bit_set(d@.ebx, 12)),
    {
        match self.structured_extended_information {
            Some(d) => d.pqm(),
            None => false,
        }
    }

    /// Whether `deprecates_fpu_cs_ds` is reported; false when its leaf is not supported.
    pub fn deprecates_fpu_cs_ds(&self) -> (r: bool)
        ensures
            r == (self@.structured_extended_information matches Some(d) && bit_set(d@.ebx, 13)),
    {
        match self.structured_extended_information {
            Some(d) => d.deprecates_fpu_cs_ds(),
            None => false,
        }
    }

    /// Whether `pqe` is reported; false when its leaf is not supported.
    pub fn pqe(&self) -> (r: bool)
        ensures
            r == (self@.structured_extended_information matches Some(d) && bit_set(d@.ebx, 15)),
    {
        match self.structured_extended_information {
            Some(d) => d.pqe(),
            None => false,
        }
    }

    /// Whether `rdseed` is reported; false when its leaf is not supported.
    pub fn rdseed(&self) -> (r: bool)
        ensures
            r == (self@.structured_extended_information matches Some(d) && bit_set(d@.ebx, 18)),
    {
        match self.structured_extended_information {
            Some(d) => d.rdseed(),
            None => false,
        }
    }

    /// Whether `adx` is reported; false when its leaf is not supported.
    pub fn adx(&self) -> (r: bool)
        ensures
            r == (self@.structured_extended_information matches Some(d) && bit_set(d@.ebx, 19)),
    {
        match self.structured_extended_information {
            Some(d) => d.adx(),
            None => false,
        }
    }

    /// Whether `smap` is reported; false when its leaf is not supported.
    pub fn smap(&self) -> (r: bool)
        ensures
            r == (self@.structured_extended_information matches Some(d) && bit_set(d@.ebx, 20)),
    {
        match self.structured_extended_information {
            Some(d) => d.smap(),
            None => false,
        }
    }

    /// Whether `intel_processor_trace` is reported; false when its leaf is not supported.
    pub fn intel_processor_trace(&self) -> (r: bool)
        ensures
            r == (self@.structured_extended_information matches Some(d) && bit_set(d@.ebx, 25)),
    {
        match self.structured_extended_information {
            Some(d) => d.intel_processor_trace(),
            None => false,
        }
    }

    /// Whether `prefetchwt1` is reported; false when its leaf is not supported.
    pub fn prefetchwt1(&self) -> (r: bool)
        ensures
            r == (self@.structured_extended_information matches Some(d) && bit_set(d@.ecx, 0)),
    {
        match self.structured_extended_information {
            Some(d) => d.prefetchwt1(),
            None => false,
        }
    }

    /// Whether `lahf_sahf_in_64_bit` is reported; false when its leaf is not supported.
    pub fn lahf_sahf_in_64_bit(&self) -> (r: bool)
        ensures
            r == (self@.extended_processor_signature matches Some(d) && bit_set(d@.ecx, 0)),
    {
        match self.extended_processor_signature {
            Some(d) => d.lahf_sahf_in_64_bit(),
            None => false,
        }
    }

    /// Whether `lzcnt` is reported; false when its leaf is not supported.
    pub fn lzcnt(&self) -> (r: bool)
        ensures
            r == (self@.extended_processor_signature matches Some(d) && bit_set(d@.ecx, 5)),
    {
        match self.extended_processor_signature {
            Some(d) => d.lzcnt(),
            None => false,
        }
    }

    /// Whether `prefetchw` is reported; false when its leaf is not supported.
    pub fn prefetchw(&self) -> (r: bool)
        ensures
            r == (self@.extended_processor_signature matches Some(d) && bit_set(d@.ecx, 8)),
    {
        match self.extended_processor_signature {
            Some(d) => d.prefetchw(),
            None => false,
        }
    }

    /// Whether `syscall_sysret_in_64_bit` is reported; false when its leaf is not supported.
    pub fn syscall_sysret_in_64_bit(&self) -> (r: bool)
        ensures
            r == (self@.extended_processor_signature matches Some(d) && bit_set(d@.edx, 11)),
    {
        match self.extended_processor_signature {
            Some(d) => d.syscall_sysret_in_64_bit(),
            None => false,
        }
    }

    /// Whether `execute_disable` is reported; false when its leaf is not supported.
    pub fn execute_disable(&self) -> (r: bool)
        ensures
            r == (self@.extended_processor_signature matches Some(d) && bit_set(d@.edx, 20)),
    {
        match self.extended_processor_signature {
            Some(d) => d.execute_disable(),
            None => false,
        }
    }

    /// Whether `gigabyte_pages` is reported; false when its leaf is not supported.
    pub fn gigabyte_pages(&self) -> (r: bool)
        ensures
            r == (self@.extended_processor_signature matches Some(d) && bit_set(d@.edx, 26)),
    {
        match self.extended_processor_signature {
            Some(d) => d.gigabyte_pages(),
            None => false,
        }
    }

    /// Whether `rdtscp_and_ia32_tsc_aux` is reported; false when its leaf is not supported.
    pub fn rdtscp_and_ia32_tsc_aux(&self) -> (r: bool)
        ensures
            r == (self@.extended_processor_signature matches Some(d) && bit_set(d@.edx, 27)),
    {
        match self.extended_processor_signature {
            Some(d) => d.rdtscp_and_ia32_tsc_aux(),
            None => false,
        }
    }

    /// Whether `intel_64_bit_architecture` is reported; false when its leaf is not supported.
    pub fn intel_64_bit_architecture(&self) -> (r: bool)
        ensures
            r == (self@.extended_processor_signature matches Some(d) && bit_set(d@.edx, 29)),
    {
        match self.extended_processor_signature {
            Some(d) => d.intel_64_bit_architecture(),
            None => false,
        }
    }

    /// Whether `invariant_tsc` is reported; false when its leaf is not supported.
    pub fn invariant_tsc(&self) -> (r: bool)
        ensures
            r == (self@.time_stamp_counter matches Some(d) && bit_set(d@.edx, 8)),
    {
        match self.time_stamp_counter {
            Some(d) => d.invariant_tsc(),
            None => false,
        }
    }

    /// Takes a snapshot from `cpu`: reads the highest basic leaf, queries the basic
    /// leaves within it, reads the highest extended leaf, and queries the extended
    /// leaves within that. No leaf outside its range is queried.
    pub fn probe<S: CpuidSource>(cpu: &mut S) -> (m: Master)
        ensures
            m@.gated(),
            leaves_of(since(final(cpu).log(), old(cpu).log().len() as int)) == query_plan(
                m@.max_basic_leaf,
                m@.max_extended_leaf,
            ),
            m@.decoded_from(since(final(cpu).log(), old(cpu).log().len() as int)),
    {
        let ghost start = old(cpu).log().len() as int;
        assert(since(cpu.log(), start) =~= Seq::empty());
        assert(leaves_of(Seq::empty()) =~= Seq::empty());
        let basic = ask(cpu, BASIC_INFORMATION, Ghost(start));
        let max_basic = basic.eax;
        let version_information = match ask_if(cpu, max_basic, VERSION_INFORMATION, Ghost(start)) {
            Some(r) => Some(VersionInformation::new(r)),
            None => None,
        };
        let thermal_power_management_information = match ask_if(
            cpu,
            max_basic,
            THERMAL_POWER_MANAGEMENT_INFORMATION,
            Ghost(start),
        ) {
            Some(r) => Some(ThermalPowerManagementInformation::new(r)),
            None => None,
        };
        let structured_extended_information = match ask_if(
            cpu,
            max_basic,
            STRUCTURED_EXTENDED_INFORMATION,
            Ghost(start),
        ) {
            Some(r) => Some(StructuredExtendedInformation::new(r)),
            None => None,
        };
        let extended = ask(cpu, EXTENDED_FUNCTION_INFORMATION, Ghost(start));
        let max_extended = extended.eax;
        let extended_processor_signature = match ask_if(
            cpu,
            max_extended,
            EXTENDED_PROCESSOR_SIGNATURE,
            Ghost(start),
        ) {
            Some(r) => Some(ExtendedProcessorSignature::new(r)),
            None => None,
        };
        let brand_string = if max_extended >= BRAND_STRING_3 {
            let first = ask(cpu, BRAND_STRING_1, Ghost(start));
            let second = ask(cpu, BRAND_STRING_2, Ghost(start));
            let third = ask(cpu, BRAND_STRING_3, Ghost(start));
            Some(BrandString::new(first, second, third))
        } else {
            None
        };
        let cache_line = match ask_if(cpu, max_extended, CACHE_LINE, Ghost(start)) {
            Some(r) => Some(CacheLine::new(r)),
            None => None,
        };
        let time_stamp_counter = match ask_if(cpu, max_extended, TIME_STAMP_COUNTER, Ghost(start)) {
            Some(r) => Some(TimeStampCounter::new(r)),
            None => None,
        };
        let physical_address_size = match ask_if(
            cpu,
            max_extended,
            PHYSICAL_ADDRESS_SIZE,
            Ghost(start),
        ) {
            Some(r) => Some(PhysicalAddressSize::new(r)),
            None => None,
        };
        let m = Master {
            max_basic_leaf: max_basic,
            max_extended_leaf: max_extended,
            version_information,
            thermal_power_management_information,
            structured_extended_information,
            extended_processor_signature,
            brand_string,
            cache_line,
            time_stamp_counter,
            physical_address_size,
        };
        m
    }
}

/// Takes a snapshot of the processor this code runs on.
pub fn master() -> (m: Master)
    ensures
        m@.gated(),
        exists|log: Seq<(u32, Registers)>|
            leaves_of(log) == query_plan(m@.max_basic_leaf, m@.max_extended_leaf)
                && m@.decoded_from(log),
{
    Master::new()
}

/// A leaf above the reported maximum of its range is never queried, and its
/// decoder is absent, so every flag delegated from it reads false.
pub proof fn lemma_unsupported_leaf_absent(m: MasterView)
    requires
        m.gated(),
    ensures
        m.max_basic_leaf < VERSION_INFORMATION ==> m.version_information is None
            && !query_plan(m.max_basic_leaf, m.max_extended_leaf).contains(VERSION_INFORMATION),
        m.max_basic_leaf < THERMAL_POWER_MANAGEMENT_INFORMATION
            ==> m.thermal_power_management_information is None && !query_plan(
            m.max_basic_leaf,
            m.max_extended_leaf,
        ).contains(THERMAL_POWER_MANAGEMENT_INFORMATION),
        m.max_basic_leaf < STRUCTURED_EXTENDED_INFORMATION
            ==> m.structured_extended_information is None && !query_plan(
            m.max_basic_leaf,
            m.max_extended_leaf,
        ).contains(STRUCTURED_EXTENDED_INFORMATION),
        m.max_extended_leaf < EXTENDED_PROCESSOR_SIGNATURE
            ==> m.extended_processor_signature is None && !query_plan(
            m.max_basic_leaf,
            m.max_extended_leaf,
        ).contains(EXTENDED_PROCESSOR_SIGNATURE),
        m.max_extended_leaf < BRAND_STRING_3 ==> m.brand_string is None && !query_plan(
            m.max_basic_leaf,
            m.max_extended_leaf,
        ).contains(BRAND_STRING_3),
        m.max_extended_leaf < CACHE_LINE ==> m.cache_line is None && !query_plan(
            m.max_basic_leaf,
            m.max_extended_leaf,
        ).contains(CACHE_LINE),
        m.max_extended_leaf < TIME_STAMP_COUNTER ==> m.time_stamp_counter is None && !query_plan(
            m.max_basic_leaf,
            m.max_extended_leaf,
        ).contains(TIME_STAMP_COUNTER),
        m.max_extended_leaf < PHYSICAL_ADDRESS_SIZE ==> m.physical_address_size is None
            && !query_plan(m.max_basic_leaf, m.max_extended_leaf).contains(
            PHYSICAL_ADDRESS_SIZE,
        ),
{
}

} // verus!
