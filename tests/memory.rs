use gb_core::cpu::CpuOutputPins;
use gb_core::memory::Memory;

#[test]
fn ram_ranges_and_round_trip() {
    let mut m = Memory::new();
    assert!(m.chip_select(0xC000));
    assert!(m.chip_select(0xDFFF));
    assert!(m.chip_select(0xFF80));
    assert!(m.chip_select(0xFFFE));
    assert!(!m.chip_select(0xE000));
    assert!(!m.chip_select(0xFFFF));
    assert!(!m.chip_select(0xFF7F));
    m.clock(CpuOutputPins::Write { addr: 0xC123, data: 0x5A });
    m.clock(CpuOutputPins::Write { addr: 0xD000, data: 0x11 });
    m.clock(CpuOutputPins::Write { addr: 0xFFFE, data: 0x22 });
    assert_eq!(m.clock(CpuOutputPins::Read { addr: 0xC123 }).data, 0x5A);
    assert_eq!(m.index(0xD000), 0x11);
    assert_eq!(m.index(0xFFFE), 0x22);
    assert_eq!(m.index(0xCFFF), 0);
}
