use nes_core::memory_editor::{CheatCode, MemoryEditor, MemoryRegion, SearchCondition};
use nes_core::Nes;

#[test]
fn search_and_filter() {
    let mut ed = MemoryEditor::new();
    let mem = [5u8, 1, 5, 9];
    ed.start_search(MemoryRegion::Ram, &mem);
    let hits: Vec<u16> = ed.search(SearchCondition::Equal(5), &mem).iter().map(|r| r.address).collect();
    assert_eq!(hits, vec![0, 2]);
    let mem2 = [6u8, 1, 5, 9];
    let kept = ed.filter_search(SearchCondition::Increased, &mem2).to_vec();
    assert_eq!(kept.len(), 1);
    assert_eq!(kept[0].address, 0);
    assert_eq!(kept[0].value, 6);
    assert_eq!(kept[0].previous_value, Some(5));
    assert_eq!(ed.get_search_results().len(), 1);
    let between: Vec<u16> = ed.search(SearchCondition::Between(2, 6), &mem2).iter().map(|r| r.address).collect();
    assert_eq!(between, vec![0, 2]);
    ed.reset_search();
    assert!(ed.get_search_results().is_empty());
    let changed = ed.search(SearchCondition::Changed, &mem2).len();
    assert_eq!(changed, 0);
}

#[test]
fn watchpoints_add_remove_update() {
    let mut ed = MemoryEditor::new();
    let a = ed.add_watchpoint(MemoryRegion::Ram, 0x0010, "lives");
    let b = ed.add_watchpoint(MemoryRegion::Vram, 0x0020, "tile");
    assert_eq!((a, b), (1, 2));
    ed.update_watchpoint(b, 7);
    assert!(ed.remove_watchpoint(a));
    assert!(!ed.remove_watchpoint(a));
    let w = ed.get_watchpoints();
    assert_eq!(w.len(), 1);
    assert_eq!(w[0].id, 2);
    assert_eq!(w[0].last_value, 7);
    assert_eq!(w[0].label, "tile");
}

#[test]
fn hex_dump_format() {
    let mut mem = vec![0x48u8, 0x69, 0x00, 0xFF];
    mem.extend(0x41u8..0x41 + 14);
    let dump = MemoryEditor::hex_dump(&mem, 0, 18);
    assert_eq!(
        dump,
        "0000: 48 69 00 FF 41 42 43 44  45 46 47 48 49 4A 4B 4C  |Hi..ABCDEFGHIJKL|\n0010: 4D 4E                                             |MN|\n"
    );
    assert_eq!(MemoryEditor::hex_dump(&mem, 20, 5), "");
}

#[test]
fn disassemble_lines() {
    let mem = [0xA9u8, 0x10, 0x8D, 0x00, 0x20, 0xEA, 0x02, 0x4C];
    let lines = MemoryEditor::disassemble(&mem, 0, 10);
    let expected: Vec<(u16, String)> = vec![
        (0, "LDA # $10".to_string()),
        (2, "STA $2000".to_string()),
        (5, "NOP".to_string()),
        (6, "???".to_string()),
        (7, "JMP ????".to_string()),
    ];
    assert_eq!(lines, expected);
}

#[test]
fn nes_disassembles_ram() {
    let mut nes = Nes::new();
    nes.write_ram_range(0x0300, &[0xA2, 0x05, 0xCA, 0xD0, 0xFD]);
    let lines = nes.disassemble(0x0300, 3);
    assert_eq!(lines[0], (0x0300, "LDX # $05".to_string()));
    assert_eq!(lines[1], (0x0302, "DEX".to_string()));
    assert_eq!(lines[2], (0x0303, "BNE $FD".to_string()));
    let dump = nes.hex_dump(0x0300, 2);
    assert_eq!(dump, "0000: A2 05                                             |..|\n");
}

#[test]
fn game_genie_six_and_eight() {
    let c = CheatCode::from_game_genie("SXIOPO").unwrap();
    assert_eq!((c.address, c.value, c.compare), (0x91D9, 0xAD, None));
    assert_eq!(c.description, "SXIOPO");
    let c = CheatCode::from_game_genie("AAEAULPA").unwrap();
    assert_eq!((c.address, c.value, c.compare), (0x8B03, 0x00, Some(0x01)));
    let c = CheatCode::from_game_genie("gzsu-ltvz").unwrap();
    assert_eq!((c.address, c.value, c.compare), (0xB65B, 0x24, Some(0xA6)));
    assert_eq!(c.description, "GZSULTVZ");
    assert!(c.enabled);
    assert!(CheatCode::from_game_genie("SXIOP").is_none());
    assert!(CheatCode::from_game_genie("SXIOPB").is_none());
    assert!(CheatCode::decode_game_genie("sxiopo").is_none());
}

#[test]
fn raw_codes() {
    let c = CheatCode::from_raw("C000:FF").unwrap();
    assert_eq!((c.address, c.value, c.compare), (0xC000, 0xFF, None));
    assert_eq!(c.description, "C000:FF");
    let c = CheatCode::from_raw("+1f:0a").unwrap();
    assert_eq!((c.address, c.value), (0x001F, 0x0A));
    assert!(CheatCode::from_raw("12345:00").is_none());
    assert!(CheatCode::from_raw("10:100").is_none());
    assert!(CheatCode::from_raw("GG:00").is_none());
    assert!(CheatCode::from_raw("1:2:3").is_none());
    assert!(CheatCode::from_raw(":00").is_none());
    assert!(CheatCode::from_raw("0010").is_none());
}

#[test]
fn sprite_table_views() {
    let mut nes = Nes::new();
    nes.write_oam(4, 0x20);
    nes.write_oam(5, 0x01);
    nes.write_oam(6, 0x42);
    nes.write_oam(7, 0x80);
    assert_eq!(nes.get_sprite_info(1), (0x20, 0x01, 0x42, 0x80));
    let all = nes.get_all_sprites();
    assert_eq!(all.len(), 64);
    assert_eq!(all[1], (1, 0x20, 0x01, 0x42, 0x80));
    nes.write_ram(0x0005, 0x77);
    nes.write_ram(0x0100, 0x77);
    let found: Vec<u16> = nes.search_memory(0x77);
    assert_eq!(found, vec![0x0005, 0x0100]);
}
