//! Addressing-mode resolution: wraparound, the indirect-jump hardware
//! quirk, and page-crossing detection.

use mos6502::addressing::{
    Absolute, AddressingMode, AddressingModes, Fetched, Immediate, Implied, IndirectY, ZeroPageX,
};
use mos6502::cpu::Cpu;

fn cpu_at(pc: u16) -> Cpu {
    let mut cpu = Cpu::new();
    cpu.pc = pc;
    cpu
}

#[test]
fn zero_page_x_wraps_inside_zero_page() {
    let mut cpu = cpu_at(0x0200);
    cpu.write_u8(0x0200, 0xFF);
    cpu.x = 0x05;
    let addr = cpu.addr_zero_page_x();
    assert_eq!(addr, 0x0004);
    assert_eq!(cpu.pc, 0x0201);
}

#[test]
fn zero_page_y_wraps_inside_zero_page() {
    let mut cpu = cpu_at(0x0200);
    cpu.write_u8(0x0200, 0x80);
    cpu.y = 0xFF;
    let addr = cpu.addr_zero_page_y();
    assert_eq!(addr, 0x007F);
}

#[test]
fn zero_page_x_never_leaves_page_for_many_pairs() {
    for base in [0x00u8, 0x01, 0x7F, 0x80, 0xFE, 0xFF] {
        for idx in [0x00u8, 0x01, 0x7F, 0x80, 0xFE, 0xFF] {
            let mut cpu = cpu_at(0x0300);
            cpu.write_u8(0x0300, base);
            cpu.x = idx;
            let addr = cpu.addr_zero_page_x();
            assert!(addr <= 0x00FF);
            assert_eq!(addr, (base.wrapping_add(idx)) as u16);
        }
    }
}

#[test]
fn absolute_reads_little_endian() {
    let mut cpu = cpu_at(0x0200);
    cpu.write_u8(0x0200, 0x34);
    cpu.write_u8(0x0201, 0x12);
    let addr = cpu.addr_absolute();
    assert_eq!(addr, 0x1234);
    assert_eq!(cpu.pc, 0x0202);
}

#[test]
fn indirect_page_boundary_quirk() {
    // Pointer 0x02FF: its low byte is 0xFF, so the high byte of the
    // target must come from the start of the pointer's own page (0x0200),
    // never from the next page (0x0300).
    let mut cpu = cpu_at(0x0400);
    cpu.write_u8(0x0400, 0xFF);
    cpu.write_u8(0x0401, 0x02);
    cpu.write_u8(0x02FF, 0x34); // target low byte
    cpu.write_u8(0x0200, 0x12); // target high byte, same page
    cpu.write_u8(0x0300, 0x99); // next page: must not be used
    let addr = cpu.addr_indirect();
    assert_eq!(addr, 0x1234);
}

#[test]
fn indirect_without_quirk_reads_next_byte() {
    let mut cpu = cpu_at(0x0200);
    cpu.write_u8(0x0200, 0xFE);
    cpu.write_u8(0x0201, 0x02);
    cpu.write_u8(0x02FE, 0x78);
    cpu.write_u8(0x02FF, 0x56);
    let addr = cpu.addr_indirect();
    assert_eq!(addr, 0x5678);
}

#[test]
fn absolute_x_page_cross_flag_iff_high_byte_changes() {
    // 0x10F0 + 0x05 stays inside page 0x10: no extra cycle.
    let mut cpu = cpu_at(0x0200);
    cpu.write_u8(0x0200, 0xF0);
    cpu.write_u8(0x0201, 0x10);
    cpu.x = 0x05;
    let (addr, crossed) = cpu.addr_absolute_x();
    assert_eq!(addr, 0x10F5);
    assert!(!crossed);

    // 0x10FF + 0x05 reaches page 0x11: extra cycle owed.
    let mut cpu = cpu_at(0x0200);
    cpu.write_u8(0x0200, 0xFF);
    cpu.write_u8(0x0201, 0x10);
    cpu.x = 0x05;
    let (addr, crossed) = cpu.addr_absolute_x();
    assert_eq!(addr, 0x1104);
    assert!(crossed);
}

#[test]
fn absolute_y_page_cross_flag_iff_high_byte_changes() {
    let mut cpu = cpu_at(0x0200);
    cpu.write_u8(0x0200, 0xF0);
    cpu.write_u8(0x0201, 0x10);
    cpu.y = 0x05;
    let (_, crossed) = cpu.addr_absolute_y();
    assert!(!crossed);

    let mut cpu = cpu_at(0x0200);
    cpu.write_u8(0x0200, 0xFF);
    cpu.write_u8(0x0201, 0x10);
    cpu.y = 0x05;
    let (addr, crossed) = cpu.addr_absolute_y();
    assert_eq!(addr, 0x1104);
    assert!(crossed);
}

#[test]
fn indirect_y_page_cross_flag_iff_high_byte_changes() {
    let mut cpu = cpu_at(0x0200);
    cpu.write_u8(0x0200, 0x40);
    cpu.write_u8(0x0040, 0xF0);
    cpu.write_u8(0x0041, 0x10);
    cpu.y = 0x05;
    let (addr, crossed) = cpu.addr_indirect_y();
    assert_eq!(addr, 0x10F5);
    assert!(!crossed);

    let mut cpu = cpu_at(0x0200);
    cpu.write_u8(0x0200, 0x40);
    cpu.write_u8(0x0040, 0xFF);
    cpu.write_u8(0x0041, 0x10);
    cpu.y = 0x05;
    let (addr, crossed) = cpu.addr_indirect_y();
    assert_eq!(addr, 0x1104);
    assert!(crossed);
}

#[test]
fn indirect_x_wraps_pointer_in_zero_page() {
    let mut cpu = cpu_at(0x0200);
    cpu.write_u8(0x0200, 0xFE);
    cpu.x = 0x01; // zero-page location 0xFF, high byte wraps to 0x00
    cpu.write_u8(0x00FF, 0xCD);
    cpu.write_u8(0x0000, 0xAB);
    let addr = cpu.addr_indirect_x();
    assert_eq!(addr, 0xABCD);
}

#[test]
fn relative_offsets_are_twos_complement() {
    // Positive offset.
    let mut cpu = cpu_at(0x0200);
    cpu.write_u8(0x0200, 0x10);
    let t = cpu.addr_relative();
    assert_eq!(t, 0x0211); // 0x0201 + 0x10

    // Negative offset: 0xFB is -5.
    let mut cpu = cpu_at(0x0200);
    cpu.write_u8(0x0200, 0xFB);
    let t = cpu.addr_relative();
    assert_eq!(t, 0x01FC); // 0x0201 - 5
}

#[test]
fn immediate_yields_operand_location() {
    let mut cpu = cpu_at(0x0200);
    let addr = cpu.addr_immediate();
    assert_eq!(addr, 0x0200);
    assert_eq!(cpu.pc, 0x0201);
}

#[test]
fn fetch_through_mode_strategies() {
    let mut cpu = cpu_at(0x0200);
    cpu.write_u8(0x0200, 0x34);
    cpu.write_u8(0x0201, 0x12);
    cpu.write_u8(0x1234, 0x77);
    let f = Absolute.fetch(&mut cpu);
    assert_eq!(f.value(), Some(0x77));
    assert!(!f.add_cycle());

    let mut cpu = cpu_at(0x0200);
    cpu.write_u8(0x0200, 0x55);
    let f = Immediate.fetch(&mut cpu);
    assert_eq!(f.value(), Some(0x55));

    let mut cpu = cpu_at(0x0200);
    let f = Implied.fetch(&mut cpu);
    assert!(f.is_none());

    // Indirect,Y crossing a page reports the extra cycle through Fetched.
    let mut cpu = cpu_at(0x0200);
    cpu.write_u8(0x0200, 0x40);
    cpu.write_u8(0x0040, 0xFF);
    cpu.write_u8(0x0041, 0x10);
    cpu.y = 0x05;
    cpu.write_u8(0x1104, 0x21);
    let f = IndirectY.fetch(&mut cpu);
    assert_eq!(f.value(), Some(0x21));
    assert!(f.add_cycle());

    let mut cpu = cpu_at(0x0200);
    cpu.write_u8(0x0200, 0xFF);
    cpu.x = 0x05;
    cpu.write_u8(0x0004, 0x99);
    let f = ZeroPageX.fetch(&mut cpu);
    assert_eq!(f.value(), Some(0x99));
}

#[test]
fn fetched_constructors_and_getters() {
    let f = Fetched::some(0x12, true);
    assert_eq!(f.value(), Some(0x12));
    assert!(f.add_cycle());
    assert!(f.is_some());
    assert!(!f.is_none());

    let f = Fetched::no_cycle(0x34);
    assert_eq!(f.value(), Some(0x34));
    assert!(!f.add_cycle());

    let f = Fetched::none();
    assert_eq!(f.value(), None);
    assert!(!f.add_cycle());
    assert!(f.is_none());
}

#[test]
fn resolve_dispatch_matches_direct_resolvers() {
    let mut a = cpu_at(0x0200);
    a.write_u8(0x0200, 0x34);
    a.write_u8(0x0201, 0x12);
    let (addr, crossed) = a.resolve(AddressingModes::Absolute);
    assert_eq!(addr, Some(0x1234));
    assert!(!crossed);

    let mut b = cpu_at(0x0200);
    let (addr, crossed) = b.resolve(AddressingModes::Implied);
    assert_eq!(addr, None);
    assert!(!crossed);
}
