use nes_core::apu::Apu;
use nes_core::bus::Bus;
use nes_core::cartridge::{Cartridge, Mirroring};
use nes_core::controller::{Button, Controller};
use nes_core::ppu::{Ppu, FRAME_BYTES};
use nes_core::{Nes, NesError};

/// An iNES image: `prg_banks` 16 KiB banks whose bytes are the bank index,
/// then `chr_banks` 8 KiB banks of zeros.
fn image(mapper: u8, prg_banks: u8, chr_banks: u8) -> Vec<u8> {
    let mut data = vec![0u8; 16];
    data[0..4].copy_from_slice(b"NES\x1A");
    data[4] = prg_banks;
    data[5] = chr_banks;
    data[6] = (mapper & 0x0F) << 4;
    data[7] = mapper & 0xF0;
    for bank in 0..prg_banks {
        data.extend(std::iter::repeat(bank).take(16384));
    }
    data.extend(std::iter::repeat(0u8).take(chr_banks as usize * 8192));
    data
}

/// NROM image whose 32 KiB of PRG is `program` at $8000, with the given
/// reset and NMI vectors.
fn program_image(program: &[u8], reset: u16, nmi: u16) -> Vec<u8> {
    let mut data = image(0, 2, 0);
    for b in data[16..].iter_mut() {
        *b = 0xEA;
    }
    data[16..16 + program.len()].copy_from_slice(program);
    let vectors = 16 + 0x7FFA;
    data[vectors] = (nmi & 0xFF) as u8;
    data[vectors + 1] = (nmi >> 8) as u8;
    data[vectors + 2] = (reset & 0xFF) as u8;
    data[vectors + 3] = (reset >> 8) as u8;
    data[vectors + 4] = 0x00;
    data[vectors + 5] = 0x80;
    data
}

#[test]
fn controller_shift_a_and_right() {
    let mut c = Controller::new();
    c.press(Button::A);
    c.press(Button::Right);
    c.write(1);
    c.write(0);
    let bits: Vec<u8> = (0..8).map(|_| c.read() & 1).collect();
    assert_eq!(bits, vec![1, 0, 0, 0, 0, 0, 0, 1]);
}

#[test]
fn controller_round_trip_any_mask() {
    let mut c = Controller::new();
    for b in [Button::A, Button::Select, Button::Down, Button::Right] {
        c.press(b);
    }
    let mask = c.buttons();
    assert_eq!(mask, 0b1010_0101);
    c.write(1);
    c.write(0);
    for i in 0..8 {
        assert_eq!(c.read(), ((mask >> i) & 1) | 0x40);
    }
    assert_eq!(c.read() & 1, 1);
}

#[test]
fn controller_reports_a_while_strobed() {
    let mut c = Controller::new();
    c.set_button(Button::A, true);
    c.write(1);
    assert_eq!(c.read(), 0x41);
    assert_eq!(c.read(), 0x41);
    c.set_button(Button::A, false);
    assert_eq!(c.read(), 0x40);
}

#[test]
fn nmi_edge_over_one_frame() {
    // LDA #$80; STA $2000; JMP $8005
    let program = [0xA9, 0x80, 0x8D, 0x00, 0x20, 0x4C, 0x05, 0x80];
    let mut handler = program_image(&program, 0x8000, 0x9000);
    handler[16 + 0x1000] = 0x40; // RTI at $9000
    let mut nes = Nes::new();
    nes.load_rom(&handler).unwrap();
    let start = nes.cycles();
    let mut saw_vblank = false;
    let mut cleared_after = false;
    let mut reached_handler = false;
    while nes.cycles() < start + 2 * 29781 {
        nes.step().unwrap();
        let status = nes.ppu_state().registers.status;
        if status & 0x80 != 0 {
            saw_vblank = true;
        } else if saw_vblank {
            cleared_after = true;
        }
        if nes.cpu_state().pc() == 0x9000 {
            reached_handler = true;
            assert!(!nes.ppu_state().nmi);
        }
    }
    assert!(saw_vblank);
    assert!(cleared_after);
    assert!(reached_handler);
}

#[test]
fn oam_dma_stalls_513_or_514_cycles() {
    // LDA #$02; STA $4014; NOP ...
    let program = [0xA9, 0x02, 0x8D, 0x14, 0x40, 0xEA, 0xEA];
    let rom = program_image(&program, 0x8000, 0x8000);
    let mut nes = Nes::new();
    nes.load_rom(&rom).unwrap();
    nes.write_ram(0x0200, 0x99);
    nes.step().unwrap();
    nes.step().unwrap();
    let after_store = nes.cycles();
    let stall = 513 + after_store % 2;
    let elapsed = nes.step().unwrap();
    assert_eq!(elapsed, 2);
    assert_eq!(nes.cycles() - after_store, stall + 2);
    assert_eq!(nes.read_oam()[0], 0x99);
}

#[test]
fn oam_dma_on_bus_books_stall_by_parity() {
    let mut bus = Bus::new();
    bus.write_byte(0x4014, 0x02);
    assert_eq!(bus.cycles, 1);
    assert_eq!(bus.reset_cpu_stall_cycles(), 514);
    bus.write_byte(0x4014, 0x02);
    assert_eq!(bus.cycles, 2);
    assert_eq!(bus.reset_cpu_stall_cycles(), 513);
    assert_eq!(bus.reset_cpu_stall_cycles(), 0);
}

#[test]
fn oam_dma_stalls_add_up_and_copy_the_page() {
    let mut bus = Bus::new();
    for i in 0..256u16 {
        bus.write_byte(0x0200 + i, i as u8 ^ 0x5A);
    }
    let c = bus.cycles;
    bus.write_byte(0x4014, 0x02);
    bus.write_byte(0x4014, 0x02);
    let first = 513 + (c + 1) % 2;
    let second = 513 + (c + 2) % 2;
    assert_eq!(bus.reset_cpu_stall_cycles(), first + second);
    for i in 0..256usize {
        assert_eq!(bus.ppu.renderer.oam[i], i as u8 ^ 0x5A);
    }
}

#[test]
fn mmc1_control_selects_mirroring() {
    let expected = [
        Mirroring::SingleScreenLower,
        Mirroring::SingleScreenUpper,
        Mirroring::Vertical,
        Mirroring::Horizontal,
    ];
    for (m, want) in expected.iter().enumerate() {
        let mut cart = Cartridge::new(&image(1, 2, 1));
        for k in 0..5 {
            cart.write_prg_byte(0x8000, ((0x0C | m as u8) >> k) & 1);
        }
        assert_eq!(cart.mirroring(), *want);
    }
}

#[test]
fn palette_poke_writes_both_copies() {
    let mut nes = Nes::new();
    nes.write_palette(0x10, 0x21);
    assert_eq!(nes.read_palette()[0x00], 0x21);
    assert_eq!(nes.read_palette()[0x10], 0x21);
    assert_eq!(nes.ppu_state().read_vram(0x3F10), 0x21);
    nes.write_palette(0x04, 0x17);
    assert_eq!(nes.read_palette()[0x14], 0x17);
    nes.write_palette(0x11, 0x05);
    assert_eq!(nes.read_palette()[0x01], 0x00);
}

#[test]
fn uxrom_bank_switch() {
    let mut cart = Cartridge::new(&image(2, 4, 0));
    assert_eq!(cart.read_prg_byte(0x8000), 0);
    assert_eq!(cart.read_prg_byte(0xC000), 3);
    cart.write_prg_byte(0x8000, 0x01);
    for addr in [0x8000u16, 0x9234, 0xBFFF] {
        assert_eq!(cart.read_prg_byte(addr), 1);
    }
    for addr in [0xC000u16, 0xE000, 0xFFFF] {
        assert_eq!(cart.read_prg_byte(addr), 3);
    }
}

#[test]
fn apu_length_counter() {
    let mut apu = Apu::new();
    apu.write_register(0x4015, 0x01);
    apu.write_register(0x4003, 0x08);
    assert_eq!(apu.pulse1.length_counter, 254);
    for _ in 0..4 * 7457 {
        apu.tick();
    }
    assert_eq!(apu.pulse1.length_counter, 252);
    assert_eq!(apu.read_register(0x4015) & 0x01, 0x01);
    apu.write_register(0x4015, 0x00);
    assert_eq!(apu.pulse1.length_counter, 0);
    assert_eq!(apu.read_register(0x4015) & 0x01, 0);
}

#[test]
fn apu_length_not_loaded_while_disabled() {
    let mut apu = Apu::new();
    apu.write_register(0x4003, 0x08);
    assert_eq!(apu.pulse1.length_counter, 0);
}

#[test]
fn apu_frame_irq_in_four_step_mode() {
    let mut apu = Apu::new();
    for _ in 0..4 {
        apu.clock_frame_counter();
    }
    assert!(apu.irq_pending());
    assert_eq!(apu.read_register(0x4015) & 0x40, 0x40);
    assert!(!apu.irq_pending());
    apu.write_register(0x4017, 0x40);
    for _ in 0..4 {
        apu.clock_frame_counter();
    }
    assert!(!apu.irq_pending());
}

#[test]
fn apu_emits_samples_at_host_rate() {
    let mut apu = Apu::new();
    for _ in 0..29781 {
        apu.tick();
    }
    let samples = apu.get_samples();
    assert_eq!(samples.len(), 29781 * 44100 / 1789773);
    assert!(apu.get_samples().is_empty());
}

#[test]
fn invalid_rom_is_rejected_without_change() {
    let mut nes = Nes::new();
    let r = nes.load_rom(&[0x4E, 0x45, 0x53]);
    assert!(matches!(r, Err(NesError::InvalidRom(_))));
    let mut short = image(0, 1, 1);
    short.truncate(100);
    assert!(matches!(nes.load_rom(&short), Err(NesError::InvalidRom(_))));
    let mut bad_magic = image(0, 1, 1);
    bad_magic[3] = 0;
    assert!(nes.load_rom(&bad_magic).is_err());
    assert_eq!(nes.cycles(), 0);
}

#[test]
fn trainer_is_skipped_and_payload_copied() {
    let mut data = image(0, 1, 1);
    data[6] |= 0x04 | 0x01;
    let mut with_trainer = data[..16].to_vec();
    with_trainer.extend(std::iter::repeat(0xEEu8).take(512));
    let mut payload = data[16..].to_vec();
    payload[5] = 0x77;
    payload[16384 + 3] = 0x55;
    with_trainer.extend(payload);
    let cart = Cartridge::from_ines(&with_trainer).unwrap();
    assert_eq!(cart.mirroring(), Mirroring::Vertical);
    assert!(cart.vertical_mirroring());
    assert_eq!(cart.read_prg_byte(0x8005), 0x77);
    assert_eq!(cart.read_prg_byte(0xC005), 0x77);
    assert_eq!(cart.read_chr_byte(0x0003), 0x55);
}

#[test]
fn mapper_id_from_both_flag_bytes() {
    let cart = Cartridge::new(&image(66, 2, 1));
    assert_eq!(cart.mapper(), 66);
}

#[test]
fn mmc1_serial_writes_select_prg_bank() {
    let mut cart = Cartridge::new(&image(1, 4, 0));
    // control defaults to PRG mode 3: last bank fixed at $C000
    assert_eq!(cart.read_prg_byte(0xC000), 3);
    for bit in [0u8, 1, 0, 0, 0] {
        cart.write_prg_byte(0xE000, bit);
    }
    assert_eq!(cart.read_prg_byte(0x8000), 2);
    assert_eq!(cart.read_prg_byte(0xC000), 3);
}

#[test]
fn mmc3_irq_counts_scanlines() {
    let mut cart = Cartridge::new(&image(4, 2, 1));
    cart.write_prg_byte(0xC000, 2);
    cart.write_prg_byte(0xC001, 0);
    cart.write_prg_byte(0xE001, 0);
    cart.clock_irq();
    assert!(!cart.irq_pending());
    cart.clock_irq();
    cart.clock_irq();
    assert!(cart.irq_pending());
    cart.acknowledge_irq();
    assert!(!cart.irq_pending());
}

#[test]
fn axrom_selects_single_screen() {
    let mut cart = Cartridge::new(&image(7, 2, 0));
    cart.write_prg_byte(0x8000, 0x10);
    assert_eq!(cart.mirroring(), Mirroring::SingleScreenUpper);
    cart.write_prg_byte(0x8000, 0x00);
    assert_eq!(cart.mirroring(), Mirroring::SingleScreenLower);
}

#[test]
fn hidden_sprites_draw_nothing() {
    let mut ppu = Ppu::new();
    ppu.set_cartridge(Cartridge::new(&image(0, 1, 0)));
    for a in 0..16u16 {
        ppu.write_vram(a, 0xFF);
    }
    ppu.write_vram(0x3F11, 0x30);
    for i in 0..64u8 {
        ppu.write_register(0x2003, i * 4);
        ppu.write_register(0x2004, 0xEF);
    }
    let mut fb = vec![7u8; FRAME_BYTES];
    ppu.render_sprites(&mut fb);
    assert!(fb.iter().all(|&b| b == 7));

    ppu.write_register(0x2003, 0);
    ppu.write_register(0x2004, 0xEE);
    ppu.render_sprites(&mut fb);
    assert!(fb.iter().any(|&b| b != 7));
    let last_row = 239 * 256 * 4;
    assert!(fb[..last_row].iter().all(|&b| b == 7));
}

#[test]
fn step_frame_runs_one_frame() {
    let program = [0x4C, 0x00, 0x80];
    let rom = program_image(&program, 0x8000, 0x8000);
    let mut nes = Nes::new();
    nes.load_rom(&rom).unwrap();
    let before = nes.cycles();
    let len = nes.step_frame().unwrap().len();
    assert_eq!(len, FRAME_BYTES);
    let after = nes.cycles();
    assert!(after >= before + 29781);
    assert!(after < before + 29781 + 560);
    let fb = nes.ppu_state().frame_buffer();
    assert!(fb.chunks(4).all(|px| px[3] == 255));
}

#[test]
fn unsupported_mapper_reads_zero() {
    let mut cart = Cartridge::new(&image(5, 1, 1));
    assert_eq!(cart.read_prg_byte(0x8000), 0);
    assert_eq!(cart.read_chr_byte(0x0000), 0);
    cart.write_prg_byte(0x8000, 0x12);
    assert_eq!(cart.read_prg_byte(0x8000), 0);
}

#[test]
fn reset_loads_vector_and_keeps_ram() {
    let program = [0xEA];
    let rom = program_image(&program, 0x8123, 0x8000);
    let mut nes = Nes::new();
    nes.load_rom(&rom).unwrap();
    assert_eq!(nes.cpu_state().pc(), 0x8123);
    assert_eq!(nes.cpu_state().sp(), 0xFD);
    nes.write_ram(0x0042, 0x24);
    nes.reset();
    assert_eq!(nes.cpu_state().pc(), 0x8123);
    assert_eq!(nes.peek_memory(0x0042), 0x24);
}
