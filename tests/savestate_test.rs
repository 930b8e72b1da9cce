use ccnes_core::cartridge::Cartridge;
use ccnes_core::savestate::{SaveState, SaveStateError, STATE_LEN};
use ccnes_core::test_rom::create_test_rom;
use ccnes_core::Nes;

fn console() -> Nes {
    let cart = Cartridge::from_ines(&create_test_rom()).unwrap();
    Nes::new(cart)
}

#[test]
fn save_then_load_replays_identically() {
    let mut a = console();
    for _ in 0..3000 {
        a.step();
    }
    let bytes = a.save_state_to_vec();
    assert_eq!(bytes.len(), STATE_LEN);
    assert_eq!(&bytes[0..4], b"CCNS");
    let mut b = console();
    b.load_state_from_slice(&bytes).unwrap();
    for _ in 0..5000 {
        let (ca, la) = a.step();
        let (cb, lb) = b.step();
        assert_eq!(ca, cb);
        assert_eq!(la, lb);
        assert_eq!(a.cpu.pc, b.cpu.pc);
        assert_eq!(a.cpu.a, b.cpu.a);
    }
    assert_eq!(a.bus.ram.bytes, b.bus.ram.bytes);
    assert_eq!(a.bus.ppu.vram, b.bus.ppu.vram);
    assert_eq!(a.save_state_to_vec()[8..], b.save_state_to_vec()[8..]);
}

#[test]
fn load_rejects_bad_magic_and_version() {
    let a = console();
    let bytes = a.save_state_to_vec();
    let mut bad = bytes.clone();
    bad[0] = b'X';
    assert_eq!(SaveState::load_state_from_slice(&bad).err(), Some(SaveStateError::InvalidVersion));
    let mut old = bytes.clone();
    old[4] = 2;
    assert_eq!(SaveState::load_state_from_slice(&old).err(), Some(SaveStateError::InvalidVersion));
}

#[test]
fn load_rejects_truncated_data() {
    let a = console();
    let mut bytes = a.save_state_to_vec();
    bytes.pop();
    let mut b = console();
    assert_eq!(b.load_state_from_slice(&bytes).err(), Some(SaveStateError::Truncated));
    assert_eq!(SaveState::load_state_from_slice(&Vec::new()).err(), Some(SaveStateError::Truncated));
}

#[test]
fn load_rejects_other_mapper() {
    let a = console();
    let bytes = a.save_state_to_vec();
    let mut data = vec![0x4E, 0x45, 0x53, 0x1A, 1, 0, 0x10, 0];
    data.resize(16 + 0x4000, 0);
    let mut b = Nes::new(Cartridge::from_ines(&data).unwrap());
    assert_eq!(b.load_state_from_slice(&bytes).err(), Some(SaveStateError::WrongCartridge));
}
