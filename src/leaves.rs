use vstd::prelude::*;

use crate::bits::{bit_set, bits_of, field_of, flag};
use crate::query::Registers;

verus! {

/// The model number implied by a version-information eax: the base model, widened
/// by the extended model for families 0x06 and 0x0F.
pub open spec fn model_of(eax: u32) -> int {
    let family = family_of(eax);
    let base = field_of(eax, 4, 7) as int;
    if family == 0x06 || family == 0x0F {
        field_of(eax, 16, 19) as int * 16 + base
    } else {
        base
    }
}

/// The family number implied by a version-information eax: the base family, plus
/// the extended family when the base family is 0x0F.
pub open spec fn family_of(eax: u32) -> int {
    let base = field_of(eax, 8, 11) as int;
    if base != 0x0F {
        base
    } else {
        base + field_of(eax, 20, 27) as int
    }
}

/// The marketing name that a brand index stands for, given the processor
/// signature; `None` where the table has no entry.
pub open spec fn brand_name(index: u32, signature: u32) -> Option<Seq<char>> {
    if index == 0x01 {
        Some("Intel(R) Celeron(R)"@)
    } else if index == 0x02 {
        Some("Intel(R) Pentium(R) III"@)
    } else if index == 0x03 {
        if signature == 0x06B1 {
            Some("Intel(R) Celeron(R)"@)
        } else {
            Some("Intel(R) Pentium(R) III Xeon(R)"@)
        }
    } else if index == 0x04 {
        Some("Intel(R) Pentium(R) III"@)
    } else if index == 0x06 {
        Some("Mobile Intel(R) Pentium(R) III-M"@)
    } else if index == 0x07 {
        Some("Mobile Intel(R) Celeron(R)"@)
    } else if index == 0x08 {
        Some("Intel(R) Pentium(R) 4"@)
    } else if index == 0x09 {
        Some("Intel(R) Pentium(R) 4"@)
    } else if index == 0x0A {
        Some("Intel(R) Celeron(R)"@)
    } else if index == 0x0B {
        if signature == 0x0F13 {
            Some("Intel(R) Xeon(R) MP"@)
        } else {
            Some("Intel(R) Xeon(R)"@)
        }
    } else if index == 0x0C {
        Some("Intel(R) Xeon(R) MP"@)
    } else if index == 0x0E {
        if signature == 0x0F13 {
            Some("Intel(R) Xeon(R)"@)
        } else {
            Some("Mobile Intel(R) Pentium(R) 4-M"@)
        }
    } else if index == 0x0F {
        Some("Mobile Intel(R) Celeron(R)"@)
    } else if index == 0x11 {
        Some("Mobile Genuine Intel(R)"@)
    } else if index == 0x12 {
        Some("Intel(R) Celeron(R) M"@)
    } else if index == 0x13 {
        Some("Mobile Intel(R) Celeron(R)"@)
    } else if index == 0x14 {
        Some("Intel(R) Celeron(R)"@)
    } else if index == 0x15 {
        Some("Mobile Genuine Intel(R)"@)
    } else if index == 0x16 {
        Some("Intel(R) Pentium(R) M"@)
    } else if index == 0x17 {
        Some("Mobile Intel(R) Celeron(R)"@)
    } else {
        None
    }
}

/// Version information: signature, family, model, stepping, brand index and the
/// basic feature flags. Method names match the feature mnemonics of the Intel
/// instruction set reference.
#[derive(Clone, Copy, Debug)]
pub struct VersionInformation {
    eax: u32,
    ebx: u32,
    ecx: u32,
    edx: u32,
}

impl View for VersionInformation {
    type V = Registers;

    closed spec fn view(&self) -> Registers {
        Registers { eax: self.eax, ebx: self.ebx, ecx: self.ecx, edx: self.edx }
    }
}

impl VersionInformation {
    /// Decodes the registers of the version information leaf.
    pub fn new(r: Registers) -> (d: VersionInformation)
        ensures
            d@ == r,
    {
        VersionInformation { eax: r.eax, ebx: r.ebx, ecx: r.ecx, edx: r.edx }
    }

    /// The family number, widened by the extended family for base family 0x0F.
    pub fn family_id(self) -> (r: u32)
        ensures
            r as int == family_of(self@.eax),
    {
        let family_id = bits_of(self.eax, 8, 11);
        let extended_family_id = bits_of(self.eax, 20, 27);
        let eax = self.eax;
        assert(field_of(eax, 8, 11) <= 15 && field_of(eax, 20, 27) <= 255) by (bit_vector);
        if family_id != 0x0F {
            family_id
        } else {
            extended_family_id + family_id
        }
    }

    /// The model number, widened by the extended model for families 0x06 and 0x0F.
    pub fn model_id(self) -> (r: u32)
        ensures
            r as int == model_of(self@.eax),
    {
        let family_id = self.family_id();
        let model_id = bits_of(self.eax, 4, 7);
        let extended_model_id = bits_of(self.eax, 16, 19);
        let eax = self.eax;
        assert(field_of(eax, 4, 7) <= 15 && field_of(eax, 16, 19) <= 15) by (bit_vector);
        if family_id == 0x06 || family_id == 0x0F {
            extended_model_id * 16 + model_id
        } else {
            model_id
        }
    }

    /// The stepping: bits 0 to 3 of eax.
    pub fn stepping(self) -> (r: u32)
        ensures
            r == field_of(self@.eax, 0, 3),
    {
        bits_of(self.eax, 0, 3)
    }

    /// The processor signature: the whole of eax.
    pub fn processor_signature(self) -> (r: u32)
        ensures
            r == self@.eax,
    {
        self.eax
    }

    /// The marketing name that the brand index (bits 0 to 7 of ebx) stands for;
    /// `None` where the table has no entry.
    pub fn brand_string(self) -> (r: Option<&'static str>)
        ensures
            match r {
                Some(s) => brand_name(field_of(self@.ebx, 0, 7), self@.eax) == Some(s@),
                None => brand_name(field_of(self@.ebx, 0, 7), self@.eax) is None,
            },
    {
        let brand_index = bits_of(self.ebx, 0, 7);
        let processor_signature = self.processor_signature();
        if brand_index == 0x01 {
            Some("Intel(R) Celeron(R)")
        } else if brand_index == 0x02 {
            Some("Intel(R) Pentium(R) III")
        } else if brand_index == 0x03 {
            if processor_signature == 0x06B1 {
                Some("Intel(R) Celeron(R)")
            } else {
                Some("Intel(R) Pentium(R) III Xeon(R)")
            }
        } else if brand_index == 0x04 {
            Some("Intel(R) Pentium(R) III")
        } else if brand_index == 0x06 {
            Some("Mobile Intel(R) Pentium(R) III-M")
        } else if brand_index == 0x07 {
            Some("Mobile Intel(R) Celeron(R)")
        } else if brand_index == 0x08 {
            Some("Intel(R) Pentium(R) 4")
        } else if brand_index == 0x09 {
            Some("Intel(R) Pentium(R) 4")
        } else if brand_index == 0x0A {
            Some("Intel(R) Celeron(R)")
        } else if brand_index == 0x0B {
            if processor_signature == 0x0F13 {
                Some("Intel(R) Xeon(R) MP")
            } else {
                Some("Intel(R) Xeon(R)")
            }
        } else if brand_index == 0x0C {
            Some("Intel(R) Xeon(R) MP")
        } else if brand_index == 0x0E {
            if processor_signature == 0x0F13 {
                Some("Intel(R) Xeon(R)")
            } else {
                Some("Mobile Intel(R) Pentium(R) 4-M")
            }
        } else if brand_index == 0x0F {
            Some("Mobile Intel(R) Celeron(R)")
        } else if brand_index == 0x11 {
            Some("Mobile Genuine Intel(R)")
        } else if brand_index == 0x12 {
            Some("Intel(R) Celeron(R) M")
        } else if brand_index == 0x13 {
            Some("Mobile Intel(R) Celeron(R)")
        } else if brand_index == 0x14 {
            Some("Intel(R) Celeron(R)")
        } else if brand_index == 0x15 {
            Some("Mobile Genuine Intel(R)")
        } else if brand_index == 0x16 {
            Some("Intel(R) Pentium(R) M")
        } else if brand_index == 0x17 {
            Some("Mobile Intel(R) Celeron(R)")
        } else {
            None
        }
    }

    /// Whether `sse3` is reported: bit 0 of ecx.
    pub fn sse3(self) -> (r: bool)
        ensures
            r == bit_set(self@.ecx, 0),
    {
        flag(self.ecx, 0)
    }

    /// Whether `pclmulqdq` is reported: bit 1 of ecx.
    pub fn pclmulqdq(self) -> (r: bool)
        ensures
            r == bit_set(self@.ecx, 1),
    {
        flag(self.ecx, 1)
    }

    /// Whether `dtes64` is reported: bit 2 of ecx.
    pub fn dtes64(self) -> (r: bool)
        ensures
            r == bit_set(self@.ecx, 2),
    {
        flag(self.ecx, 2)
    }

    /// Whether `monitor` is reported: bit 3 of ecx.
    pub fn monitor(self) -> (r: bool)
        ensures
            r == bit_set(self@.ecx, 3),
    {
        flag(self.ecx, 3)
    }

    /// Whether `ds_cpl` is reported: bit 4 of ecx.
    pub fn ds_cpl(self) -> (r: bool)
        ensures
            r == bit_set(self@.ecx, 4),
    {
        flag(self.ecx, 4)
    }

    /// Whether `vmx` is reported: bit 5 of ecx.
    pub fn vmx(self) -> (r: bool)
        ensures
            r == bit_set(self@.ecx, 5),
    {
        flag(self.ecx, 5)
    }

    /// Whether `smx` is reported: bit 6 of ecx.
    pub fn smx(self) -> (r: bool)
        ensures
            r == bit_set(self@.ecx, 6),
    {
        flag(self.ecx, 6)
    }

    /// Whether `eist` is reported: bit 7 of ecx.
    pub fn eist(self) -> (r: bool)
        ensures
            r == bit_set(self@.ecx, 7),
    {
        flag(self.ecx, 7)
    }

    /// Whether `tm2` is reported: bit 8 of ecx.
    pub fn tm2(self) -> (r: bool)
        ensures
            r == bit_set(self@.ecx, 8),
    {
        flag(self.ecx, 8)
    }

    /// Whether `ssse3` is reported: bit 9 of ecx.
    pub fn ssse3(self) -> (r: bool)
        ensures
            r == bit_set(self@.ecx, 9),
    {
        flag(self.ecx, 9)
    }

    /// Whether `cnxt_id` is reported: bit 10 of ecx.
    pub fn cnxt_id(self) -> (r: bool)
        ensures
            r == bit_set(self@.ecx, 10),
    {
        flag(self.ecx, 10)
    }

    /// Whether `sdbg` is reported: bit 11 of ecx.
    pub fn sdbg(self) -> (r: bool)
        ensures
            r == bit_set(self@.ecx, 11),
    {
        flag(self.ecx, 11)
    }

    /// Whether `fma` is reported: bit 12 of ecx.
    pub fn fma(self) -> (r: bool)
        ensures
            r == bit_set(self@.ecx, 12),
    {
        flag(self.ecx, 12)
    }

    /// Whether `cmpxchg16b` is reported: bit 13 of ecx.
    pub fn cmpxchg16b(self) -> (r: bool)
        ensures
            r == bit_set(self@.ecx, 13),
    {
        flag(self.ecx, 13)
    }

    /// Whether `xtpr_update_control` is reported: bit 14 of ecx.
    pub fn xtpr_update_control(self) -> (r: bool)
        ensures
            r == bit_set(self@.ecx, 14),
    {
        flag(self.ecx, 14)
    }

    /// Whether `pdcm` is reported: bit 15 of ecx.
    pub fn pdcm(self) -> (r: bool)
        ensures
            r == bit_set(self@.ecx, 15),
    {
        flag(self.ecx, 15)
    }

    /// Whether `pcid` is reported: bit 17 of ecx.
    pub fn pcid(self) -> (r: bool)
        ensures
            r == bit_set(self@.ecx, 17),
    {
        flag(self.ecx, 17)
    }

    /// Whether `dca` is reported: bit 18 of ecx.
    pub fn dca(self) -> (r: bool)
        ensures
            r == bit_set(self@.ecx, 18),
    {
        flag(self.ecx, 18)
    }

    /// Whether `sse4_1` is reported: bit 19 of ecx.
    pub fn sse4_1(self) -> (r: bool)
        ensures
            r == bit_set(self@.ecx, 19),
    {
        flag(self.ecx, 19)
    }

    /// Whether `sse4_2` is reported: bit 20 of ecx.
    pub fn sse4_2(self) -> (r: bool)
        ensures
            r == bit_set(self@.ecx, 20),
    {
        flag(self.ecx, 20)
    }

    /// Whether `x2apic` is reported: bit 21 of ecx.
    pub fn x2apic(self) -> (r: bool)
        ensures
            r == bit_set(self@.ecx, 21),
    {
        flag(self.ecx, 21)
    }

    /// Whether `movbe` is reported: bit 22 of ecx.
    pub fn movbe(self) -> (r: bool)
        ensures
            r == bit_set(self@.ecx, 22),
    {
        flag(self.ecx, 22)
    }

    /// Whether `popcnt` is reported: bit 23 of ecx.
    pub fn popcnt(self) -> (r: bool)
        ensures
            r == bit_set(self@.ecx, 23),
    {
        flag(self.ecx, 23)
    }

    /// Whether `tsc_deadline` is reported: bit 24 of ecx.
    pub fn tsc_deadline(self) -> (r: bool)
        ensures
            r == bit_set(self@.ecx, 24),
    {
        flag(self.ecx, 24)
    }

    /// Whether `aesni` is reported: bit 25 of ecx.
    pub fn aesni(self) -> (r: bool)
        ensures
            r == bit_set(self@.ecx, 25),
    {
        flag(self.ecx, 25)
    }

    /// Whether `xsave` is reported: bit 26 of ecx.
    pub fn xsave(self) -> (r: bool)
        ensures
            r == bit_set(self@.ecx, 26),
    {
        flag(self.ecx, 26)
    }

    /// Whether `osxsave` is reported: bit 27 of ecx.
    pub fn osxsave(self) -> (r: bool)
        ensures
            r == bit_set(self@.ecx, 27),
    {
        flag(self.ecx, 27)
    }

    /// Whether `avx` is reported: bit 28 of ecx.
    pub fn avx(self) -> (r: bool)
        ensures
            r == bit_set(self@.ecx, 28),
    {
        flag(self.ecx, 28)
    }

    /// Whether `f16c` is reported: bit 29 of ecx.
    pub fn f16c(self) -> (r: bool)
        ensures
            r == bit_set(self@.ecx, 29),
    {
        flag(self.ecx, 29)
    }

    /// Whether `rdrand` is reported: bit 30 of ecx.
    pub fn rdrand(self) -> (r: bool)
        ensures
            r == bit_set(self@.ecx, 30),
    {
        flag(self.ecx, 30)
    }

    /// Whether `fpu` is reported: bit 0 of edx.
    pub fn fpu(self) -> (r: bool)
        ensures
            r == bit_set(self@.edx, 0),
    {
        flag(self.edx, 0)
    }

    /// Whether `vme` is reported: bit 1 of edx.
    pub fn vme(self) -> (r: bool)
        ensures
            r == bit_set(self@.edx, 1),
    {
        flag(self.edx, 1)
    }

    /// Whether `de` is reported: bit 2 of edx.
    pub fn de(self) -> (r: bool)
        ensures
            r == bit_set(self@.edx, 2),
    {
        flag(self.edx, 2)
    }

    /// Whether `pse` is reported: bit 3 of edx.
    pub fn pse(self) -> (r: bool)
        ensures
            r == bit_set(self@.edx, 3),
    {
        flag(self.edx, 3)
    }

    /// Whether `tsc` is reported: bit 4 of edx.
    pub fn tsc(self) -> (r: bool)
        ensures
            r == bit_set(self@.edx, 4),
    {
        flag(self.edx, 4)
    }

    /// Whether `msr` is reported: bit 5 of edx.
    pub fn msr(self) -> (r: bool)
        ensures
            r == bit_set(self@.edx, 5),
    {
        flag(self.edx, 5)
    }

    /// Whether `pae` is reported: bit 6 of edx.
    pub fn pae(self) -> (r: bool)
        ensures
            r == bit_set(self@.edx, 6),
    {
        flag(self.edx, 6)
    }

    /// Whether `mce` is reported: bit 7 of edx.
    pub fn mce(self) -> (r: bool)
        ensures
            r == bit_set(self@.edx, 7),
    {
        flag(self.edx, 7)
    }

    /// Whether `cx8` is reported: bit 8 of edx.
    pub fn cx8(self) -> (r: bool)
        ensures
            r == bit_set(self@.edx, 8),
    {
        flag(self.edx, 8)
    }

    /// Whether `apic` is reported: bit 9 of edx.
    pub fn apic(self) -> (r: bool)
        ensures
            r == bit_set(self@.edx, 9),
    {
        flag(self.edx, 9)
    }

    /// Whether `sep` is reported: bit 11 of edx.
    pub fn sep(self) -> (r: bool)
        ensures
            r == bit_set(self@.edx, 11),
    {
        flag(self.edx, 11)
    }

    /// Whether `mtrr` is reported: bit 12 of edx.
    pub fn mtrr(self) -> (r: bool)
        ensures
            r == bit_set(self@.edx, 12),
    {
        flag(self.edx, 12)
    }

    /// Whether `pge` is reported: bit 13 of edx.
    pub fn pge(self) -> (r: bool)
        ensures
            r == bit_set(self@.edx, 13),
    {
        flag(self.edx, 13)
    }

    /// Whether `mca` is reported: bit 14 of edx.
    pub fn mca(self) -> (r: bool)
        ensures
            r == bit_set(self@.edx, 14),
    {
        flag(self.edx, 14)
    }

    /// Whether `cmov` is reported: bit 15 of edx.
    pub fn cmov(self) -> (r: bool)
        ensures
            r == bit_set(self@.edx, 15),
    {
        flag(self.edx, 15)
    }

    /// Whether `pat` is reported: bit 16 of edx.
    pub fn pat(self) -> (r: bool)
        ensures
            r == bit_set(self@.edx, 16),
    {
        flag(self.edx, 16)
    }

    /// Whether `pse_36` is reported: bit 17 of edx.
    pub fn pse_36(self) -> (r: bool)
        ensures
            r == bit_set(self@.edx, 17),
    {
        flag(self.edx, 17)
    }

    /// Whether `psn` is reported: bit 18 of edx.
    pub fn psn(self) -> (r: bool)
        ensures
            r == bit_set(self@.edx, 18),
    {
        flag(self.edx, 18)
    }

    /// Whether `clfsh` is reported: bit 19 of edx.
    pub fn clfsh(self) -> (r: bool)
        ensures
            r == bit_set(self@.edx, 19),
    {
        flag(self.edx, 19)
    }

    /// Whether `ds` is reported: bit 21 of edx.
    pub fn ds(self) -> (r: bool)
        ensures
            r == bit_set(self@.edx, 21),
    {
        flag(self.edx, 21)
    }

    /// Whether `acpi` is reported: bit 22 of edx.
    pub fn acpi(self) -> (r: bool)
        ensures
            r == bit_set(self@.edx, 22),
    {
        flag(self.edx, 22)
    }

    /// Whether `mmx` is reported: bit 23 of edx.
    pub fn mmx(self) -> (r: bool)
        ensures
            r == bit_set(self@.edx, 23),
    {
        flag(self.edx, 23)
    }

    /// Whether `fxsr` is reported: bit 24 of edx.
    pub fn fxsr(self) -> (r: bool)
        ensures
            r == bit_set(self@.edx, 24),
    {
        flag(self.edx, 24)
    }

    /// Whether `sse` is reported: bit 25 of edx.
    pub fn sse(self) -> (r: bool)
        ensures
            r == bit_set(self@.edx, 25),
    {
        flag(self.edx, 25)
    }

    /// Whether `sse2` is reported: bit 26 of edx.
    pub fn sse2(self) -> (r: bool)
        ensures
            r == bit_set(self@.edx, 26),
    {
        flag(self.edx, 26)
    }

    /// Whether `ss` is reported: bit 27 of edx.
    pub fn ss(self) -> (r: bool)
        ensures
            r == bit_set(self@.edx, 27),
    {
        flag(self.edx, 27)
    }

    /// Whether `htt` is reported: bit 28 of edx.
    pub fn htt(self) -> (r: bool)
        ensures
            r == bit_set(self@.edx, 28),
    {
        flag(self.edx, 28)
    }

    /// Whether `tm` is reported: bit 29 of edx.
    pub fn tm(self) -> (r: bool)
        ensures
            r == bit_set(self@.edx, 29),
    {
        flag(self.edx, 29)
    }

    /// Whether `pbe` is reported: bit 31 of edx.
    pub fn pbe(self) -> (r: bool)
        ensures
            r == bit_set(self@.edx, 31),
    {
        flag(self.edx, 31)
    }

}

/// Thermal and power management features.
#[derive(Clone, Copy, Debug)]
pub struct ThermalPowerManagementInformation {
    eax: u32,
    ebx: u32,
    ecx: u32,
}

impl View for ThermalPowerManagementInformation {
    type V = Registers;

    /// The words this leaf keeps (eax, ebx, ecx); the others read as zero.
    closed spec fn view(&self) -> Registers {
        Registers { eax: self.eax, ebx: self.ebx, ecx: self.ecx, edx: 0 }
    }
}

impl ThermalPowerManagementInformation {
    /// The words of `r` that this leaf keeps (eax, ebx, ecx); the others zero.
    pub open spec fn kept(r: Registers) -> Registers {
        Registers { eax: r.eax, ebx: r.ebx, ecx: r.ecx, edx: 0 }
    }

    /// Decodes the registers of its leaf, keeping eax, ebx, ecx.
    pub fn new(r: Registers) -> (d: ThermalPowerManagementInformation)
        ensures
            d@ == Self::kept(r),
    {
        ThermalPowerManagementInformation { eax: r.eax, ebx: r.ebx, ecx: r.ecx }
    }

    /// The number of interrupt thresholds of the digital thermal sensor: bits 0
    /// to 3 of ebx.
    pub fn number_of_interrupt_thresholds(self) -> (r: u32)
        ensures
            r == field_of(self@.ebx, 0, 3),
    {
        bits_of(self.ebx, 0, 3)
    }

    /// Whether `digital_temperature_sensor` is reported: bit 0 of eax.
    pub fn digital_temperature_sensor(self) -> (r: bool)
        ensures
            r == bit_set(self@.eax, 0),
    {
        flag(self.eax, 0)
    }

    /// Whether `intel_turbo_boost` is reported: bit 1 of eax.
    pub fn intel_turbo_boost(self) -> (r: bool)
        ensures
            r == bit_set(self@.eax, 1),
    {
        flag(self.eax, 1)
    }

    /// Whether `arat` is reported: bit 2 of eax.
    pub fn arat(self) -> (r: bool)
        ensures
            r == bit_set(self@.eax, 2),
    {
        flag(self.eax, 2)
    }

    /// Whether `pln` is reported: bit 4 of eax.
    pub fn pln(self) -> (r: bool)
        ensures
            r == bit_set(self@.eax, 4),
    {
        flag(self.eax, 4)
    }

    /// Whether `ecmd` is reported: bit 5 of eax.
    pub fn ecmd(self) -> (r: bool)
        ensures
            r == bit_set(self@.eax, 5),
    {
        flag(self.eax, 5)
    }

    /// Whether `ptm` is reported: bit 6 of eax.
    pub fn ptm(self) -> (r: bool)
        ensures
            r == bit_set(self@.eax, 6),
    {
        flag(self.eax, 6)
    }

    /// Whether `hwp` is reported: bit 7 of eax.
    pub fn hwp(self) -> (r: bool)
        ensures
            r == bit_set(self@.eax, 7),
    {
        flag(self.eax, 7)
    }

    /// Whether `hwp_notification` is reported: bit 8 of eax.
    pub fn hwp_notification(self) -> (r: bool)
        ensures
            r == bit_set(self@.eax, 8),
    {
        flag(self.eax, 8)
    }

    /// Whether `hwp_activity_window` is reported: bit 9 of eax.
    pub fn hwp_activity_window(self) -> (r: bool)
        ensures
            r == bit_set(self@.eax, 9),
    {
        flag(self.eax, 9)
    }

    /// Whether `hwp_energy_performance_preference` is reported: bit 10 of eax.
    pub fn hwp_energy_performance_preference(self) -> (r: bool)
        ensures
            r == bit_set(self@.eax, 10),
    {
        flag(self.eax, 10)
    }

    /// Whether `hdc` is reported: bit 13 of eax.
    pub fn hdc(self) -> (r: bool)
        ensures
            r == bit_set(self@.eax, 13),
    {
        flag(self.eax, 13)
    }
    /// Whether `hardware_coordination_feedback` is reported: bit 0 of ecx.
    pub fn hardware_coordination_feedback(self) -> (r: bool)
        ensures
            r == bit_set(self@.ecx, 0),
    {
        flag(self.ecx, 0)
    }

    /// Whether `performance_energy_bias` is reported: bit 3 of ecx.
    pub fn performance_energy_bias(self) -> (r: bool)
        ensures
            r == bit_set(self@.ecx, 3),
    {
        flag(self.ecx, 3)
    }
}

/// Structured extended feature flags (sub-leaf 0).
#[derive(Clone, Copy, Debug)]
pub struct StructuredExtendedInformation {
    ebx: u32,
    ecx: u32,
}

impl View for StructuredExtendedInformation {
    type V = Registers;

    /// The words this leaf keeps (ebx, ecx); the others read as zero.
    closed spec fn view(&self) -> Registers {
        Registers { eax: 0, ebx: self.ebx, ecx: self.ecx, edx: 0 }
    }
}

impl StructuredExtendedInformation {
    /// The words of `r` that this leaf keeps (ebx, ecx); the others zero.
    pub open spec fn kept(r: Registers) -> Registers {
        Registers { eax: 0, ebx: r.ebx, ecx: r.ecx, edx: 0 }
    }

    /// Decodes the registers of its leaf, keeping ebx, ecx.
    pub fn new(r: Registers) -> (d: StructuredExtendedInformation)
        ensures
            d@ == Self::kept(r),
    {
        StructuredExtendedInformation { ebx: r.ebx, ecx: r.ecx }
    }

    /// Whether `fsgsbase` is reported: bit 0 of ebx.
    pub fn fsgsbase(self) -> (r: bool)
        ensures
            r == bit_set(self@.ebx, 0),
    {
        flag(self.ebx, 0)
    }

    /// Whether `ia32_tsc_adjust_msr` is reported: bit 1 of ebx.
    pub fn ia32_tsc_adjust_msr(self) -> (r: bool)
        ensures
            r == bit_set(self@.ebx, 1),
    {
        flag(self.ebx, 1)
    }

    /// Whether `bmi1` is reported: bit 3 of ebx.
    pub fn bmi1(self) -> (r: bool)
        ensures
            r == bit_set(self@.ebx, 3),
    {
        flag(self.ebx, 3)
    }

    /// Whether `hle` is reported: bit 4 of ebx.
    pub fn hle(self) -> (r: bool)
        ensures
            r == bit_set(self@.ebx, 4),
    {
        flag(self.ebx, 4)
    }

    /// Whether `avx2` is reported: bit 5 of ebx.
    pub fn avx2(self) -> (r: bool)
        ensures
            r == bit_set(self@.ebx, 5),
    {
        flag(self.ebx, 5)
    }

    /// Whether `smep` is reported: bit 7 of ebx.
    pub fn smep(self) -> (r: bool)
        ensures
            r == bit_set(self@.ebx, 7),
    {
        flag(self.ebx, 7)
    }

    /// Whether `bmi2` is reported: bit 8 of ebx.
    pub fn bmi2(self) -> (r: bool)
        ensures
            r == bit_set(self@.ebx, 8),
    {
        flag(self.ebx, 8)
    }

    /// Whether `enhanced_rep_movsb_stosb` is reported: bit 9 of ebx.
    pub fn enhanced_rep_movsb_stosb(self) -> (r: bool)
        ensures
            r == bit_set(self@.ebx, 9),
    {
        flag(self.ebx, 9)
    }

    /// Whether `invpcid` is reported: bit 10 of ebx.
    pub fn invpcid(self) -> (r: bool)
        ensures
            r == bit_set(self@.ebx, 10),
    {
        flag(self.ebx, 10)
    }

    /// Whether `rtm` is reported: bit 11 of ebx.
    pub fn rtm(self) -> (r: bool)
        ensures
            r == bit_set(self@.ebx, 11),
    {
        flag(self.ebx, 11)
    }

    /// Whether `pqm` is reported: bit 12 of ebx.
    pub fn pqm(self) -> (r: bool)
        ensures
            r == bit_set(self@.ebx, 12),
    {
        flag(self.ebx, 12)
    }

    /// Whether `deprecates_fpu_cs_ds` is reported: bit 13 of ebx.
    pub fn deprecates_fpu_cs_ds(self) -> (r: bool)
        ensures
            r == bit_set(self@.ebx, 13),
    {
        flag(self.ebx, 13)
    }

    /// Whether `pqe` is reported: bit 15 of ebx.
    pub fn pqe(self) -> (r: bool)
        ensures
            r == bit_set(self@.ebx, 15),
    {
        flag(self.ebx, 15)
    }

    /// Whether `rdseed` is reported: bit 18 of ebx.
    pub fn rdseed(self) -> (r: bool)
        ensures
            r == bit_set(self@.ebx, 18),
    {
        flag(self.ebx, 18)
    }

    /// Whether `adx` is reported: bit 19 of ebx.
    pub fn adx(self) -> (r: bool)
        ensures
            r == bit_set(self@.ebx, 19),
    {
        flag(self.ebx, 19)
    }

    /// Whether `smap` is reported: bit 20 of ebx.
    pub fn smap(self) -> (r: bool)
        ensures
            r == bit_set(self@.ebx, 20),
    {
        flag(self.ebx, 20)
    }

    /// Whether `intel_processor_trace` is reported: bit 25 of ebx.
    pub fn intel_processor_trace(self) -> (r: bool)
        ensures
            r == bit_set(self@.ebx, 25),
    {
        flag(self.ebx, 25)
    }

    /// Whether `prefetchwt1` is reported: bit 0 of ecx.
    pub fn prefetchwt1(self) -> (r: bool)
        ensures
            r == bit_set(self@.ecx, 0),
    {
        flag(self.ecx, 0)
    }
}

/// Extended processor signature and feature flags.
#[derive(Clone, Copy, Debug)]
pub struct ExtendedProcessorSignature {
    ecx: u32,
    edx: u32,
}

impl View for ExtendedProcessorSignature {
    type V = Registers;

    /// The words this leaf keeps (ecx, edx); the others read as zero.
    closed spec fn view(&self) -> Registers {
        Registers { eax: 0, ebx: 0, ecx: self.ecx, edx: self.edx }
    }
}

impl ExtendedProcessorSignature {
    /// The words of `r` that this leaf keeps (ecx, edx); the others zero.
    pub open spec fn kept(r: Registers) -> Registers {
        Registers { eax: 0, ebx: 0, ecx: r.ecx, edx: r.edx }
    }

    /// Decodes the registers of its leaf, keeping ecx, edx.
    pub fn new(r: Registers) -> (d: ExtendedProcessorSignature)
        ensures
            d@ == Self::kept(r),
    {
        ExtendedProcessorSignature { ecx: r.ecx, edx: r.edx }
    }

    /// Whether `lahf_sahf_in_64_bit` is reported: bit 0 of ecx.
    pub fn lahf_sahf_in_64_bit(self) -> (r: bool)
        ensures
            r == bit_set(self@.ecx, 0),
    {
        flag(self.ecx, 0)
    }

    /// Whether `lzcnt` is reported: bit 5 of ecx.
    pub fn lzcnt(self) -> (r: bool)
        ensures
            r == bit_set(self@.ecx, 5),
    {
        flag(self.ecx, 5)
    }

    /// Whether `prefetchw` is reported: bit 8 of ecx.
    pub fn prefetchw(self) -> (r: bool)
        ensures
            r == bit_set(self@.ecx, 8),
    {
        flag(self.ecx, 8)
    }

    /// Whether `syscall_sysret_in_64_bit` is reported: bit 11 of edx.
    pub fn syscall_sysret_in_64_bit(self) -> (r: bool)
        ensures
            r == bit_set(self@.edx, 11),
    {
        flag(self.edx, 11)
    }

    /// Whether `execute_disable` is reported: bit 20 of edx.
    pub fn execute_disable(self) -> (r: bool)
        ensures
            r == bit_set(self@.edx, 20),
    {
        flag(self.edx, 20)
    }

    /// Whether `gigabyte_pages` is reported: bit 26 of edx.
    pub fn gigabyte_pages(self) -> (r: bool)
        ensures
            r == bit_set(self@.edx, 26),
    {
        flag(self.edx, 26)
    }

    /// Whether `rdtscp_and_ia32_tsc_aux` is reported: bit 27 of edx.
    pub fn rdtscp_and_ia32_tsc_aux(self) -> (r: bool)
        ensures
            r == bit_set(self@.edx, 27),
    {
        flag(self.edx, 27)
    }

    /// Whether `intel_64_bit_architecture` is reported: bit 29 of edx.
    pub fn intel_64_bit_architecture(self) -> (r: bool)
        ensures
            r == bit_set(self@.edx, 29),
    {
        flag(self.edx, 29)
    }
}

/// The associativity of the second-level cache.
#[derive(Clone, Copy, Debug, PartialEq, Eq, Structural)]
pub enum CacheLineAssociativity {
    Disabled,
    DirectMapped,
    TwoWay,
    FourWay,
    EightWay,
    SixteenWay,
    Full,
}

/// The associativity that a 4-bit code stands for; `None` for a code with no
/// entry.
pub open spec fn associativity_of(code: u32) -> Option<CacheLineAssociativity> {
    if code == 0x00 {
        Some(CacheLineAssociativity::Disabled)
    } else if code == 0x01 {
        Some(CacheLineAssociativity::DirectMapped)
    } else if code == 0x02 {
        Some(CacheLineAssociativity::TwoWay)
    } else if code == 0x04 {
        Some(CacheLineAssociativity::FourWay)
    } else if code == 0x06 {
        Some(CacheLineAssociativity::EightWay)
    } else if code == 0x08 {
        Some(CacheLineAssociativity::SixteenWay)
    } else if code == 0x0F {
        Some(CacheLineAssociativity::Full)
    } else {
        None
    }
}

/// The associativity that a 4-bit code stands for; `None` for a code with no
/// entry.
pub fn associativity(code: u32) -> (r: Option<CacheLineAssociativity>)
    ensures
        r == associativity_of(code),
{
    if code == 0x00 {
        Some(CacheLineAssociativity::Disabled)
    } else if code == 0x01 {
        Some(CacheLineAssociativity::DirectMapped)
    } else if code == 0x02 {
        Some(CacheLineAssociativity::TwoWay)
    } else if code == 0x04 {
        Some(CacheLineAssociativity::FourWay)
    } else if code == 0x06 {
        Some(CacheLineAssociativity::EightWay)
    } else if code == 0x08 {
        Some(CacheLineAssociativity::SixteenWay)
    } else if code == 0x0F {
        Some(CacheLineAssociativity::Full)
    } else {
        None
    }
}

/// The second-level cache descriptor.
#[derive(Clone, Copy, Debug)]
pub struct CacheLine(u32);

impl View for CacheLine {
    type V = Registers;

    /// The words this leaf keeps (ecx); the others read as zero.
    closed spec fn view(&self) -> Registers {
        Registers { eax: 0, ebx: 0, ecx: self.0, edx: 0 }
    }
}

impl CacheLine {
    /// The words of `r` that this leaf keeps (ecx); the others zero.
    pub open spec fn kept(r: Registers) -> Registers {
        Registers { eax: 0, ebx: 0, ecx: r.ecx, edx: 0 }
    }

    /// Decodes the registers of its leaf, keeping ecx.
    pub fn new(r: Registers) -> (d: CacheLine)
        ensures
            d@ == Self::kept(r),
    {
        CacheLine(r.ecx)
    }

    /// The cache line size in bytes: bits 0 to 7.
    pub fn cache_line_size(self) -> (r: u32)
        ensures
            r == field_of(self@.ecx, 0, 7),
    {
        bits_of(self.0, 0, 7)
    }

    /// The associativity: the code in bits 12 to 15, or `None` for a code with no
    /// entry.
    pub fn l2_associativity(self) -> (r: Option<CacheLineAssociativity>)
        ensures
            r == associativity_of(field_of(self@.ecx, 12, 15)),
    {
        associativity(bits_of(self.0, 12, 15))
    }

    /// The cache size in units of 1 KiB: bits 16 to 31.
    pub fn cache_size(self) -> (r: u32)
        ensures
            r == field_of(self@.ecx, 16, 31),
    {
        bits_of(self.0, 16, 31)
    }
}

/// The time stamp counter descriptor.
#[derive(Clone, Copy, Debug)]
pub struct TimeStampCounter {
    edx: u32,
}

impl View for TimeStampCounter {
    type V = Registers;

    /// The words this leaf keeps (edx); the others read as zero.
    closed spec fn view(&self) -> Registers {
        Registers { eax: 0, ebx: 0, ecx: 0, edx: self.edx }
    }
}

impl TimeStampCounter {
    /// The words of `r` that this leaf keeps (edx); the others zero.
    pub open spec fn kept(r: Registers) -> Registers {
        Registers { eax: 0, ebx: 0, ecx: 0, edx: r.edx }
    }

    /// Decodes the registers of its leaf, keeping edx.
    pub fn new(r: Registers) -> (d: TimeStampCounter)
        ensures
            d@ == Self::kept(r),
    {
        TimeStampCounter { edx: r.edx }
    }

    /// Whether `invariant_tsc` is reported: bit 8 of edx.
    pub fn invariant_tsc(self) -> (r: bool)
        ensures
            r == bit_set(self@.edx, 8),
    {
        flag(self.edx, 8)
    }
}

/// Physical and linear address widths.
#[derive(Clone, Copy, Debug)]
pub struct PhysicalAddressSize(u32);

impl View for PhysicalAddressSize {
    type V = Registers;

    /// The words this leaf keeps (eax); the others read as zero.
    closed spec fn view(&self) -> Registers {
        Registers { eax: self.0, ebx: 0, ecx: 0, edx: 0 }
    }
}

impl PhysicalAddressSize {
    /// The words of `r` that this leaf keeps (eax); the others zero.
    pub open spec fn kept(r: Registers) -> Registers {
        Registers { eax: r.eax, ebx: 0, ecx: 0, edx: 0 }
    }

    /// Decodes the registers of its leaf, keeping eax.
    pub fn new(r: Registers) -> (d: PhysicalAddressSize)
        ensures
            d@ == Self::kept(r),
    {
        PhysicalAddressSize(r.eax)
    }

    /// The number of physical address bits: bits 0 to 7.
    pub fn physical_address_bits(self) -> (r: u32)
        ensures
            r == field_of(self@.eax, 0, 7),
    {
        bits_of(self.0, 0, 7)
    }

    /// The number of linear address bits: bits 8 to 15.
    pub fn linear_address_bits(self) -> (r: u32)
        ensures
            r == field_of(self@.eax, 8, 15),
    {
        bits_of(self.0, 8, 15)
    }
}

} // verus!
