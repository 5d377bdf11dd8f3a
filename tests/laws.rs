use nes_core::bus::Bus;
use nes_core::cartridge::Cartridge;
use nes_core::ppu::Ppu;
use nes_core::Nes;

fn chr_ram_cart() -> Cartridge {
    let mut data = vec![0u8; 16 + 16384];
    data[0..4].copy_from_slice(b"NES\x1A");
    data[4] = 1;
    Cartridge::new(&data)
}

#[test]
fn ppu_dots_track_cpu_cycles() {
    let mut bus = Bus::new();
    for i in 0..1000u16 {
        bus.write_byte(i % 0x800, i as u8);
        let _ = bus.read_byte(0x2002);
        bus.tick();
    }
    assert_eq!(bus.cycles, 3000);
    assert_eq!(bus.apu.cycles, 3000);
    let ppu = &bus.ppu;
    let dots = ppu.frame() * 89342 + ppu.scanline() as u64 * 341 + ppu.cycle() as u64;
    assert_eq!(dots, 9000);
}

#[test]
fn nes_step_keeps_clocks_coupled() {
    let mut nes = Nes::new();
    for _ in 0..500 {
        nes.step().unwrap();
    }
    let ppu = nes.ppu_state();
    let dots = ppu.frame() * 89342 + ppu.scanline() as u64 * 341 + ppu.cycle() as u64;
    assert_eq!(dots, 3 * nes.cycles());
}

#[test]
fn ram_mirrors_read_alike() {
    let mut bus = Bus::new();
    bus.write_byte(0x1A33, 0x5C);
    for base in [0x0233u16, 0x0A33, 0x1233, 0x1A33] {
        assert_eq!(bus.read_byte(base), 0x5C);
    }
}

#[test]
fn buffered_ppudata_reads() {
    let mut ppu = Ppu::new();
    ppu.set_cartridge(chr_ram_cart());
    for (i, v) in [0x11u8, 0x22, 0x33, 0x44].iter().enumerate() {
        ppu.write_vram(0x2100 + i as u16, *v);
    }
    ppu.registers.data_buffer = 0x99;
    let _ = ppu.read_register(0x2002);
    ppu.write_register(0x2006, 0x21);
    ppu.write_register(0x2006, 0x00);
    let reads: Vec<u8> = (0..4).map(|_| ppu.read_register(0x2007)).collect();
    assert_eq!(reads, vec![0x99, 0x11, 0x22, 0x33]);
}

#[test]
fn palette_reads_are_unbuffered() {
    let mut ppu = Ppu::new();
    ppu.write_vram(0x3F05, 0x2A);
    ppu.write_register(0x2006, 0x3F);
    ppu.write_register(0x2006, 0x05);
    assert_eq!(ppu.read_register(0x2007), 0x2A);
}

#[test]
fn palette_mirror_entries() {
    let mut ppu = Ppu::new();
    for (k, v) in [0x0Fu8, 0x16, 0x27, 0x38].iter().enumerate() {
        ppu.write_vram(0x3F10 + 4 * k as u16, *v);
        assert_eq!(ppu.read_vram(0x3F00 + 4 * k as u16), *v);
        assert_eq!(ppu.read_vram(0x3F10 + 4 * k as u16), *v);
    }
    ppu.write_vram(0x3F04, 0x01);
    assert_eq!(ppu.read_vram(0x3F14), 0x01);
    ppu.write_vram(0x3F11, 0x05);
    assert_eq!(ppu.read_vram(0x3F01), 0x00);
}

#[test]
fn nametable_mirroring_horizontal() {
    let mut ppu = Ppu::new();
    ppu.set_cartridge(chr_ram_cart());
    ppu.write_vram(0x2005, 0xAB);
    assert_eq!(ppu.read_vram(0x2405), 0xAB);
    assert_eq!(ppu.read_vram(0x2805), 0x00);
    ppu.write_vram(0x2C05, 0xCD);
    assert_eq!(ppu.read_vram(0x2805), 0xCD);
}

#[test]
fn ines_payload_copied_exactly() {
    let mut data = vec![0u8; 16 + 2 * 16384 + 8192];
    data[0..4].copy_from_slice(b"NES\x1A");
    data[4] = 2;
    data[5] = 1;
    for (i, b) in data[16..].iter_mut().enumerate() {
        *b = (i * 7 % 251) as u8;
    }
    let cart = Cartridge::from_ines(&data).unwrap();
    for off in [0usize, 1, 16383, 16384, 32767] {
        assert_eq!(cart.read_prg_byte(0x8000 + off as u16), data[16 + off]);
    }
    for off in [0usize, 100, 8191] {
        assert_eq!(cart.read_chr_byte(off as u16), data[16 + 32768 + off]);
    }
}

#[test]
fn ram_poke_then_peek() {
    let mut nes = Nes::new();
    for addr in [0x0000u16, 0x0123, 0x07FF] {
        nes.poke_memory(addr, (addr % 251) as u8 + 1);
        assert_eq!(nes.peek_memory(addr), (addr % 251) as u8 + 1);
    }
    nes.write_ram(0x0810, 0x3C);
    assert_eq!(nes.peek_memory(0x0010), 0x3C);
    assert_eq!(nes.read_ram()[0x10], 0x3C);
}

#[test]
fn jmp_indirect_wraps_in_page() {
    let mut nes = Nes::new();
    nes.write_ram_range(0x0200, &[0x6C, 0xFF, 0x10]);
    nes.write_ram(0x10FF, 0x34);
    nes.write_ram(0x1000, 0x12);
    nes.write_ram(0x1100, 0x56);
    nes.cpu_state_mut().set_pc(0x0200);
    nes.step().unwrap();
    assert_eq!(nes.cpu_state().pc(), 0x1234);
}

#[test]
fn branch_page_cross_costs_one_more() {
    let mut nes = Nes::new();
    // BNE +$10 at $0200 stays on page 2.
    nes.write_ram_range(0x0200, &[0xD0, 0x10]);
    nes.cpu_state_mut().set_pc(0x0200);
    assert_eq!(nes.step().unwrap(), 3);
    assert_eq!(nes.cpu_state().pc(), 0x0212);
    // BNE +$20 at $02F0 lands on page 3.
    nes.write_ram_range(0x02F0, &[0xD0, 0x20]);
    nes.cpu_state_mut().set_pc(0x02F0);
    assert_eq!(nes.step().unwrap(), 4);
    assert_eq!(nes.cpu_state().pc(), 0x0312);
    // BNE -$10 at $0300 goes back to page 2.
    nes.write_ram_range(0x0300, &[0xD0, 0xF0]);
    nes.cpu_state_mut().set_pc(0x0300);
    assert_eq!(nes.step().unwrap(), 4);
    assert_eq!(nes.cpu_state().pc(), 0x02F2);
    // BEQ not taken.
    nes.write_ram_range(0x0400, &[0xF0, 0x20]);
    nes.cpu_state_mut().set_pc(0x0400);
    assert_eq!(nes.step().unwrap(), 2);
    assert_eq!(nes.cpu_state().pc(), 0x0402);
}

#[test]
fn adc_and_sbc_flags() {
    let mut nes = Nes::new();
    // LDA #$50; ADC #$50 -> $A0, V set, N set, C clear
    nes.write_ram_range(0x0200, &[0xA9, 0x50, 0x69, 0x50, 0x38, 0xE9, 0xF0]);
    nes.cpu_state_mut().set_pc(0x0200);
    nes.step().unwrap();
    nes.step().unwrap();
    assert_eq!(nes.cpu_state().a, 0xA0);
    assert_eq!(nes.cpu_state().status() & 0xC3, 0xC0);
    // SEC; SBC #$F0 -> $B0, borrow (C clear), N set
    nes.step().unwrap();
    nes.step().unwrap();
    assert_eq!(nes.cpu_state().a, 0xB0);
    assert_eq!(nes.cpu_state().status() & 0x83, 0x80);
}

#[test]
fn unknown_opcode_runs_as_nop() {
    let mut nes = Nes::new();
    nes.write_ram_range(0x0200, &[0x02, 0xEA]);
    nes.cpu_state_mut().set_pc(0x0200);
    assert_eq!(nes.step().unwrap(), 2);
    assert_eq!(nes.cpu_state().pc(), 0x0201);
}

#[test]
fn jsr_rts_round_trip() {
    let mut nes = Nes::new();
    nes.cpu_state_mut().sp = 0xFD;
    nes.write_ram_range(0x0200, &[0x20, 0x00, 0x03]);
    nes.write_ram_range(0x0300, &[0x60]);
    nes.cpu_state_mut().set_pc(0x0200);
    assert_eq!(nes.step().unwrap(), 6);
    assert_eq!(nes.cpu_state().pc(), 0x0300);
    assert_eq!(nes.read_ram()[0x1FD], 0x02);
    assert_eq!(nes.read_ram()[0x1FC], 0x02);
    assert_eq!(nes.step().unwrap(), 6);
    assert_eq!(nes.cpu_state().pc(), 0x0203);
    assert_eq!(nes.cpu_state().sp(), 0xFD);
}
