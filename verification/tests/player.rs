use rock_wire::PlayerKey;

#[test]
fn pack_puts_generation_high_and_slot_low() {
    let key = PlayerKey { slot_idx: 5, generation: 3 };
    assert_eq!(key.pack(), (3u64 << 32) | 5);
    assert_eq!(key.pack(), 12_884_901_893);
}

#[test]
fn unpack_splits_halves() {
    let key = PlayerKey::unpack(0x0000_0007_0000_0009);
    assert_eq!(key, PlayerKey { slot_idx: 9, generation: 7 });
    let max = PlayerKey::unpack(u64::MAX);
    assert_eq!(max, PlayerKey { slot_idx: u32::MAX, generation: u32::MAX });
    assert_eq!(PlayerKey::unpack(0), PlayerKey { slot_idx: 0, generation: 0 });
}

#[test]
fn unpack_undoes_pack() {
    for (slot_idx, generation) in [(0u32, 0u32), (1, 0), (0, 1), (u32::MAX, 0), (0, u32::MAX), (123_456, 789), (u32::MAX, u32::MAX)] {
        let key = PlayerKey { slot_idx, generation };
        assert_eq!(PlayerKey::unpack(key.pack()), key);
    }
}

#[test]
fn pack_undoes_unpack() {
    for id in [0u64, 1, 0xFFFF_FFFF, 0x1_0000_0000, 0xDEAD_BEEF_0BAD_F00D, u64::MAX] {
        assert_eq!(PlayerKey::unpack(id).pack(), id);
    }
}
