use cpuid::bits::bits_of;
use cpuid::brand::{bytes_before_nul, BrandString};
use cpuid::leaves::associativity;
use cpuid::master::Master;
use cpuid::query::{
    extended_leaf, vendor_id, ScriptedCpu, BASIC_INFORMATION, BRAND_STRING_1, BRAND_STRING_2, BRAND_STRING_3,
    CACHE_LINE, EXTENDED_FUNCTION_INFORMATION, EXTENDED_PROCESSOR_SIGNATURE,
    PHYSICAL_ADDRESS_SIZE, STRUCTURED_EXTENDED_INFORMATION,
    THERMAL_POWER_MANAGEMENT_INFORMATION, TIME_STAMP_COUNTER, VERSION_INFORMATION,
};
use cpuid::{
    CacheLine, CacheLineAssociativity, ExtendedProcessorSignature, PhysicalAddressSize,
    Registers, StructuredExtendedInformation, ThermalPowerManagementInformation,
    TimeStampCounter, VersionInformation,
};

fn word(b: &[u8; 4]) -> u32 {
    u32::from_le_bytes(*b)
}

fn regs(eax: u32, ebx: u32, ecx: u32, edx: u32) -> Registers {
    Registers { eax, ebx, ecx, edx }
}

fn chunk(s: &[u8; 16]) -> Registers {
    regs(
        word(&[s[0], s[1], s[2], s[3]]),
        word(&[s[4], s[5], s[6], s[7]]),
        word(&[s[8], s[9], s[10], s[11]]),
        word(&[s[12], s[13], s[14], s[15]]),
    )
}

#[test]
fn bits_full_range_is_identity() {
    for v in [0u32, 1, 0xDEAD_BEEF, u32::MAX, 0x8000_0000] {
        assert_eq!(bits_of(v, 0, 31), v);
    }
}

#[test]
fn bits_single_bit_is_zero_or_one() {
    let v = 0xA5A5_0F0Fu32;
    for i in 0u8..32 {
        let b = bits_of(v, i, i);
        assert!(b <= 1);
        assert_eq!(b, (v >> i) & 1);
    }
}

#[test]
fn bits_field_reconstructs_range() {
    let v = 0x1234_5678u32;
    assert_eq!(bits_of(v, 8, 11), 0x6);
    assert_eq!(bits_of(v, 4, 15), 0x567);
    assert_eq!(bits_of(v, 16, 31), 0x1234);
    assert_eq!(bits_of(v, 28, 31), 0x1);
    assert_eq!(bits_of(v, 0, 7) << 0, v & 0xFF);
    assert_eq!(bits_of(v, 12, 19) << 12, v & 0x000F_F000);
}

#[test]
fn family_model_with_extended_model() {
    // base family 0x06, extended model 0x3, base model 0x5, stepping 0x9
    let eax = (0x3 << 16) | (0x06 << 8) | (0x5 << 4) | 0x9;
    let vi = VersionInformation::new(regs(eax, 0, 0, 0));
    assert_eq!(vi.family_id(), 0x06);
    assert_eq!(vi.model_id(), 0x35);
    assert_eq!(vi.stepping(), 0x9);
    assert_eq!(vi.processor_signature(), eax);
}

#[test]
fn family_with_extended_family() {
    let eax = (0x02 << 20) | (0x0F << 8) | (0x3 << 4);
    let vi = VersionInformation::new(regs(eax, 0, 0, 0));
    assert_eq!(vi.family_id(), 0x11);
    // family 0x11 is neither 0x06 nor 0x0F: the base model stands alone
    assert_eq!(vi.model_id(), 0x3);
}

#[test]
fn model_without_extension_for_other_families() {
    let eax = (0x7 << 16) | (0x05 << 8) | (0x2 << 4);
    let vi = VersionInformation::new(regs(eax, 0, 0, 0));
    assert_eq!(vi.family_id(), 0x05);
    assert_eq!(vi.model_id(), 0x2);
}

#[test]
fn brand_index_table() {
    assert_eq!(VersionInformation::new(regs(0, 0x00, 0, 0)).brand_string(), None);
    assert_eq!(
        VersionInformation::new(regs(0x06B1, 0x03, 0, 0)).brand_string(),
        Some("Intel(R) Celeron(R)")
    );
    assert_eq!(
        VersionInformation::new(regs(0x06B2, 0x03, 0, 0)).brand_string(),
        Some("Intel(R) Pentium(R) III Xeon(R)")
    );
    assert_eq!(
        VersionInformation::new(regs(0x0F13, 0x0E, 0, 0)).brand_string(),
        Some("Intel(R) Xeon(R)")
    );
    assert_eq!(
        VersionInformation::new(regs(0, 0x0E, 0, 0)).brand_string(),
        Some("Mobile Intel(R) Pentium(R) 4-M")
    );
    assert_eq!(
        VersionInformation::new(regs(0x0F13, 0x0B, 0, 0)).brand_string(),
        Some("Intel(R) Xeon(R) MP")
    );
    assert_eq!(VersionInformation::new(regs(0, 0x05, 0, 0)).brand_string(), None);
    assert_eq!(VersionInformation::new(regs(0, 0x10, 0, 0)).brand_string(), None);
    assert_eq!(VersionInformation::new(regs(0, 0x18, 0, 0)).brand_string(), None);
    // only bits 0 to 7 of ebx form the index
    assert_eq!(
        VersionInformation::new(regs(0, 0xFF16, 0, 0)).brand_string(),
        Some("Intel(R) Pentium(R) M")
    );
}

#[test]
fn brand_string_truncates_at_nul_and_trims() {
    let b = BrandString::new(
        chunk(b"  GenuineIntel  "),
        chunk(b"\0garbage after n"),
        chunk(b"ul byte ........"),
    );
    assert_eq!(b.as_str(), "GenuineIntel");
    assert_eq!(b.raw_bytes().len(), 48);
    assert_eq!(&b.raw_bytes()[0..4], b"  Ge");
}

#[test]
fn brand_string_without_nul_is_empty() {
    let b = BrandString::new(
        chunk(b"Intel(R) Core(TM"),
        chunk(b") i7 CPU 920 @ 2"),
        chunk(b".67GHz Full buff"),
    );
    assert_eq!(b.as_str(), "");
}

#[test]
fn brand_string_is_deterministic() {
    let a = chunk(b"      Intel(R) X");
    let c = chunk(b"eon(R) Processor");
    let d = chunk(b"\0\0\0\0\0\0\0\0\0\0\0\0\0\0\0\0");
    let x = BrandString::new(a, c, d);
    let y = BrandString::new(a, c, d);
    assert_eq!(x.as_str(), y.as_str());
    assert_eq!(x.as_str(), "Intel(R) Xeon(R) Processor");
    assert_eq!(x.clone().as_str(), "Intel(R) Xeon(R) Processor");
}

#[test]
fn bytes_before_nul_cuts_at_first_nul() {
    let raw = b"\t\n hi there \r\x0b\x0c\0rest\0".to_vec();
    assert_eq!(bytes_before_nul(&raw), b"\t\n hi there \r\x0b\x0c".to_vec());
    let no_nul = b"    abc".to_vec();
    assert_eq!(bytes_before_nul(&no_nul), Vec::<u8>::new());
    let leading_nul = b"\0abc".to_vec();
    assert_eq!(bytes_before_nul(&leading_nul), Vec::<u8>::new());
}

#[test]
fn brand_string_trims_ascii_whitespace() {
    let b = BrandString::new(chunk(b"\t\n hi there  \r\x0b\x0c"), chunk(b"\x0c\0rest.........."), chunk(&[0; 16]));
    assert_eq!(b.as_str(), "hi there");
}

#[test]
fn brand_string_trims_unicode_whitespace() {
    // U+00A0 before, U+3000 after
    let b = BrandString::new(
        chunk(b"\xc2\xa0Xeon\xe3\x80\x80\0\0\0\0\0\0\0"),
        chunk(&[0; 16]),
        chunk(&[0; 16]),
    );
    assert_eq!(b.as_str(), "Xeon");
    let all_space = BrandString::new(chunk(b"   \xc2\xa0    \0      "), chunk(&[0; 16]), chunk(&[0; 16]));
    assert_eq!(all_space.as_str(), "");
}

#[test]
fn brand_string_invalid_utf8_is_replaced() {
    let b = BrandString::new(chunk(b"ab\xffcd\0          "), chunk(&[0; 16]), chunk(&[0; 16]));
    assert_eq!(b.as_str(), "ab\u{FFFD}cd");
}

#[test]
fn associativity_lookup() {
    assert_eq!(associativity(0x06), Some(CacheLineAssociativity::EightWay));
    assert_eq!(associativity(0x03), None);
    assert_eq!(associativity(0x00), Some(CacheLineAssociativity::Disabled));
    assert_eq!(associativity(0x0F), Some(CacheLineAssociativity::Full));
    let cl = CacheLine::new(regs(0, 0, (0x0100 << 16) | (0x6 << 12) | 0x40, 0));
    assert_eq!(cl.l2_associativity(), Some(CacheLineAssociativity::EightWay));
    assert_eq!(cl.cache_line_size(), 0x40);
    assert_eq!(cl.cache_size(), 0x0100);
    let unknown = CacheLine::new(regs(0, 0, 0x3 << 12, 0));
    assert_eq!(unknown.l2_associativity(), None);
}

#[test]
fn leaf_flags_decode_their_bits() {
    let vi = VersionInformation::new(regs(0, 0, (1 << 25) | (1 << 30), (1 << 26) | 1));
    assert!(vi.aesni());
    assert!(vi.rdrand());
    assert!(!vi.avx());
    assert!(vi.sse2());
    assert!(vi.fpu());
    assert!(!vi.sse());

    let tpm = ThermalPowerManagementInformation::new(regs(1 << 13, 0x0000_00F7, 1 << 3, 0));
    assert!(tpm.hdc());
    assert!(!tpm.arat());
    assert_eq!(tpm.number_of_interrupt_thresholds(), 0x7);
    assert!(tpm.performance_energy_bias());

    let sei = StructuredExtendedInformation::new(regs(0, 1 << 5, 1, 0));
    assert!(sei.avx2());
    assert!(sei.prefetchwt1());
    assert!(!sei.bmi2());

    let eps = ExtendedProcessorSignature::new(regs(0, 0, 1 << 5, (1 << 29) | (1 << 11)));
    assert!(eps.lzcnt());
    assert!(eps.intel_64_bit_architecture());
    assert!(eps.syscall_sysret_in_64_bit());
    assert!(!eps.execute_disable());

    let tsc = TimeStampCounter::new(regs(0, 0, 0, 1 << 8));
    assert!(tsc.invariant_tsc());

    let pas = PhysicalAddressSize::new(regs(0x3027, 0, 0, 0));
    assert_eq!(pas.physical_address_bits(), 0x27);
    assert_eq!(pas.linear_address_bits(), 0x30);
}

#[test]
fn vendor_id_spells_genuine_intel() {
    let basic = regs(0x16, word(b"Genu"), word(b"ntel"), word(b"ineI"));
    assert_eq!(vendor_id(basic), b"GenuineIntel".to_vec());
    let mut cpu = ScriptedCpu::new();
    cpu.set(BASIC_INFORMATION, basic);
    let m = Master::probe(&mut cpu);
    assert_eq!(m.max_basic_leaf(), 0x16);
    assert_eq!(vendor_id(cpu.answer(BASIC_INFORMATION)), b"GenuineIntel".to_vec());
}

#[test]
fn unsupported_basic_leaves_are_not_queried() {
    let mut cpu = ScriptedCpu::new();
    cpu.set(BASIC_INFORMATION, regs(0, 0, 0, 0));
    cpu.set(VERSION_INFORMATION, regs(0x0306A9, 0x03, u32::MAX, u32::MAX));
    cpu.set(STRUCTURED_EXTENDED_INFORMATION, regs(0, u32::MAX, u32::MAX, 0));
    cpu.set(EXTENDED_FUNCTION_INFORMATION, regs(0, 0, 0, 0));
    let m = Master::probe(&mut cpu);
    assert_eq!(cpu.asked(), vec![BASIC_INFORMATION, EXTENDED_FUNCTION_INFORMATION]);
    assert!(!m.sse3());
    assert!(!m.aesni());
    assert!(!m.fpu());
    assert!(!m.avx2());
    assert!(!m.digital_temperature_sensor());
    assert!(!m.lzcnt());
    assert!(!m.invariant_tsc());
    assert!(m.version_information().is_none());
    assert!(m.physical_address_size().is_none());
    assert_eq!(m.brand_string(), None);
    assert_eq!(m.family_id(), None);
    assert_eq!(m.model_id(), None);
    assert_eq!(m.stepping(), None);
}

#[test]
fn partial_support_queries_only_leaves_in_range() {
    let mut cpu = ScriptedCpu::new();
    cpu.set(BASIC_INFORMATION, regs(6, 0, 0, 0));
    cpu.set(VERSION_INFORMATION, regs(0x06B1, 0x03, 1 << 20, 1));
    cpu.set(THERMAL_POWER_MANAGEMENT_INFORMATION, regs(1, 0, 0, 0));
    cpu.set(STRUCTURED_EXTENDED_INFORMATION, regs(0, u32::MAX, u32::MAX, 0));
    cpu.set(EXTENDED_FUNCTION_INFORMATION, regs(0x8000_0001, 0, 0, 0));
    cpu.set(EXTENDED_PROCESSOR_SIGNATURE, regs(0, 0, 1, 1 << 20));
    let m = Master::probe(&mut cpu);
    assert_eq!(
        cpu.asked(),
        vec![
            BASIC_INFORMATION,
            VERSION_INFORMATION,
            THERMAL_POWER_MANAGEMENT_INFORMATION,
            EXTENDED_FUNCTION_INFORMATION,
            EXTENDED_PROCESSOR_SIGNATURE,
        ]
    );
    assert!(m.sse4_2());
    assert!(m.fpu());
    assert!(!m.sse3());
    assert!(m.digital_temperature_sensor());
    assert!(!m.avx2());
    assert!(!m.prefetchwt1());
    assert!(m.lahf_sahf_in_64_bit());
    assert!(m.execute_disable());
    assert!(!m.invariant_tsc());
    // no brand string leaves: the brand index table answers
    assert_eq!(m.brand_string(), Some("Intel(R) Celeron(R)"));
    assert_eq!(m.max_basic_leaf(), 6);
    assert_eq!(m.max_extended_leaf(), 0x8000_0001);
}

#[test]
fn full_support_decodes_every_leaf() {
    let mut cpu = ScriptedCpu::new();
    cpu.set(BASIC_INFORMATION, regs(0x0D, word(b"Genu"), word(b"ntel"), word(b"ineI")));
    cpu.set(VERSION_INFORMATION, regs(0x0003_06A9, 0x01, 1 << 28, 1 << 25));
    cpu.set(STRUCTURED_EXTENDED_INFORMATION, regs(0, 1 << 18, 0, 0));
    cpu.set(EXTENDED_FUNCTION_INFORMATION, regs(0x8000_0008, 0, 0, 0));
    cpu.set(BRAND_STRING_1, chunk(b"       Intel(R) "));
    cpu.set(BRAND_STRING_2, chunk(b"Core(TM) i7-3770"));
    cpu.set(BRAND_STRING_3, chunk(b" CPU @ 3.40GHz\0\0"));
    cpu.set(CACHE_LINE, regs(0, 0, (256 << 16) | (0x6 << 12) | 64, 0));
    cpu.set(TIME_STAMP_COUNTER, regs(0, 0, 0, 1 << 8));
    cpu.set(PHYSICAL_ADDRESS_SIZE, regs(0x3024, 0, 0, 0));
    let m = Master::probe(&mut cpu);
    assert_eq!(cpu.asked().len(), 12);
    assert_eq!(m.brand_string(), Some("Intel(R) Core(TM) i7-3770 CPU @ 3.40GHz"));
    assert_eq!(m.family_id(), Some(6));
    assert_eq!(m.model_id(), Some(0x3A));
    assert_eq!(m.stepping(), Some(9));
    assert!(m.avx());
    assert!(m.sse());
    assert!(m.rdseed());
    assert!(m.invariant_tsc());
    let cl = m.cache_line().unwrap();
    assert_eq!(cl.cache_line_size(), 64);
    assert_eq!(cl.l2_associativity(), Some(CacheLineAssociativity::EightWay));
    let pas = m.physical_address_size().unwrap();
    assert_eq!(pas.physical_address_bits(), 36);
    assert_eq!(pas.linear_address_bits(), 48);
}

#[test]
fn brand_leaves_need_the_last_brand_leaf_in_range() {
    let mut cpu = ScriptedCpu::new();
    cpu.set(BASIC_INFORMATION, regs(1, 0, 0, 0));
    cpu.set(VERSION_INFORMATION, regs(0, 0, 0, 0));
    cpu.set(EXTENDED_FUNCTION_INFORMATION, regs(BRAND_STRING_2, 0, 0, 0));
    cpu.set(BRAND_STRING_1, chunk(b"Should not show\0"));
    let m = Master::probe(&mut cpu);
    assert!(!cpu.asked().contains(&BRAND_STRING_1));
    assert_eq!(m.brand_string(), None);
}

#[test]
fn scripted_cpu_answers_first_entry_or_zero() {
    let mut cpu = ScriptedCpu::new();
    cpu.set(7, regs(1, 2, 3, 4));
    cpu.set(7, regs(5, 6, 7, 8));
    assert_eq!(cpu.answer(7), regs(1, 2, 3, 4));
    assert_eq!(cpu.answer(8), regs(0, 0, 0, 0));
    assert!(cpu.asked().is_empty());
}

#[test]
fn extended_range_check() {
    assert!(!extended_leaf(BASIC_INFORMATION));
    assert!(!extended_leaf(STRUCTURED_EXTENDED_INFORMATION));
    assert!(extended_leaf(EXTENDED_FUNCTION_INFORMATION));
    assert!(extended_leaf(PHYSICAL_ADDRESS_SIZE));
    assert!(!extended_leaf(0x7FFF_FFFF));
}

#[test]
fn brand_string_genuine_intel_words_with_nul() {
    let first = regs(word(b"Genu"), word(b"ineI"), word(b"ntel"), word(b" \0xy"));
    let b = BrandString::new(first, chunk(b"zzzzzzzzzzzzzzzz"), chunk(b"zzzzzzzzzzzzzzzz"));
    assert_eq!(b.as_str(), "GenuineIntel");
}
