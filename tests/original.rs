use nes_core::bus::Bus;
use nes_core::cartridge::Cartridge;
use nes_core::controller::{Button, Controller};
use nes_core::ppu::Ppu;
use nes_core::Nes;

#[test]
fn test_invalid_rom() {
    let data = vec![0; 10];
    assert!(Cartridge::from_ines(&data).is_err());
}

#[test]
fn test_valid_ines_header() {
    let mut data = vec![0; 16 + 16384 + 8192];
    data[0..4].copy_from_slice(b"NES\x1A");
    data[4] = 1;
    data[5] = 1;
    data[6] = 0;

    let cartridge = Cartridge::from_ines(&data).unwrap();
    assert_eq!(cartridge.mapper(), 0);
    assert!(!cartridge.vertical_mirroring());
}

#[test]
fn test_button_press() {
    let mut controller = Controller::new();
    controller.press(Button::A);
    assert_ne!(controller.buttons & 0b0000_0001, 0);
}

#[test]
fn test_button_release() {
    let mut controller = Controller::new();
    controller.press(Button::A);
    controller.release(Button::A);
    assert_eq!(controller.buttons & 0b0000_0001, 0);
}

#[test]
fn test_ppu_creation() {
    let ppu = Ppu::new();
    assert_eq!(ppu.scanline(), 0);
    assert_eq!(ppu.cycle(), 0);
}

#[test]
fn test_ppu_step() {
    let mut ppu = Ppu::new();
    for _ in 0..341 {
        ppu.tick();
    }
    assert_eq!(ppu.scanline(), 1);
    assert_eq!(ppu.cycle(), 0);
}

#[test]
fn test_nes_creation() {
    let nes = Nes::new();
    assert_eq!(nes.cpu_state().pc(), 0);
}

#[test]
fn test_ram_access() {
    let mut bus = Bus::new();
    bus.write_byte(0x0000, 0x42);
    assert_eq!(bus.read_byte(0x0000), 0x42);
}

#[test]
fn test_ram_mirroring() {
    let mut bus = Bus::new();
    bus.write_byte(0x0000, 0x42);
    assert_eq!(bus.read_byte(0x0800), 0x42);
    assert_eq!(bus.read_byte(0x1000), 0x42);
    assert_eq!(bus.read_byte(0x1800), 0x42);
}
