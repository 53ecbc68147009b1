use rock_wire::{ObjectId, TileKind};

#[test]
fn tile_and_object_codes() {
    assert_eq!(TileKind::BASE.code(), 0);
    assert_eq!(TileKind::SNOW.code(), 1);
    assert_eq!(ObjectId::NONE.code(), 0);
    assert_eq!(ObjectId::TREE.code(), 1);
    assert_eq!(TileKind::from_code(1), Some(TileKind::SNOW));
    assert_eq!(TileKind::from_code(2), None);
    assert_eq!(ObjectId::from_code(0), Some(ObjectId::NONE));
    assert_eq!(ObjectId::from_code(255), None);
    for k in [TileKind::BASE, TileKind::SNOW] {
        assert_eq!(TileKind::from_code(k.code()), Some(k));
    }
}
