use vstd::prelude::*;

verus! {

/// Packed identifier of a player: the key's generation in the high 32 bits,
/// its slot index in the low 32 bits.
pub type PlayerId = u64;

/// Slot of a player in the player pool, with the generation that tells apart
/// successive occupants of one slot.
#[derive(Debug, Copy, Clone, Eq, PartialEq, Hash, Structural)]
pub struct PlayerKey {
    pub slot_idx: u32,
    pub generation: u32,
}

/// 2^32: the weight of the generation in a packed identifier.
pub open spec fn generation_weight() -> nat {
    0x1_0000_0000
}

/// The identifier a key packs to, as a number.
pub open spec fn packed_id(key: PlayerKey) -> nat {
    key.generation as nat * generation_weight() + key.slot_idx as nat
}

/// The key an identifier unpacks to: the quotient and remainder by 2^32.
pub open spec fn unpacked_key(id: u64) -> PlayerKey {
    PlayerKey {
        slot_idx: (id as nat % generation_weight()) as u32,
        generation: (id as nat / generation_weight()) as u32,
    }
}

impl PlayerKey {
    /// Packs the key into one identifier.
    pub fn pack(&self) -> (id: PlayerId)
        ensures
            id as nat == packed_id(*self),
    {
        let generation: u64 = self.generation as u64;
        let slot: u64 = self.slot_idx as u64;
        let id: u64 = (generation << 32u64) | slot;
        assert(id == generation * 0x1_0000_0000u64 + slot) by (bit_vector)
            requires
                id == (generation << 32u64) | slot,
                generation < 0x1_0000_0000u64,
                slot < 0x1_0000_0000u64,
        ;
        id
    }

    /// Splits an identifier back into slot index and generation.
    pub fn unpack(id: PlayerId) -> (key: Self)
        ensures
            key == unpacked_key(id),
    {
        let low: u64 = id & 0xFFFF_FFFFu64;
        let high: u64 = id >> 32u64;
        assert(low == id % 0x1_0000_0000u64 && high == id / 0x1_0000_0000u64) by (bit_vector)
            requires
                low == id & 0xFFFF_FFFFu64,
                high == id >> 32u64,
        ;
        let slot_idx: u32 = low as u32;
        let generation: u32 = high as u32;
        PlayerKey { slot_idx, generation }
    }
}

/// Unpacking a packed key gives the key back.
pub proof fn lemma_unpack_pack(key: PlayerKey)
    ensures
        packed_id(key) <= u64::MAX,
        unpacked_key(packed_id(key) as u64) == key,
{
    let g = key.generation as nat;
    let s = key.slot_idx as nat;
    assert(g * 0x1_0000_0000 + s <= u64::MAX) by (nonlinear_arith)
        requires g < 0x1_0000_0000, s < 0x1_0000_0000;
    vstd::arithmetic::div_mod::lemma_fundamental_div_mod_converse(
        (g * 0x1_0000_0000 + s) as int, 0x1_0000_0000, g as int, s as int);
}

/// Packing an unpacked identifier gives the identifier back.
pub proof fn lemma_pack_unpack(id: u64)
    ensures
        packed_id(unpacked_key(id)) == id,
{
    vstd::arithmetic::div_mod::lemma_fundamental_div_mod(id as int, 0x1_0000_0000);
    assert(id as nat / generation_weight() < 0x1_0000_0000) by {
        vstd::arithmetic::div_mod::lemma_div_is_ordered(id as int, u64::MAX as int, 0x1_0000_0000);
    }
}

/// Distinct keys pack to distinct identifiers.
pub proof fn lemma_pack_injective(a: PlayerKey, b: PlayerKey)
    requires
        packed_id(a) == packed_id(b),
    ensures
        a == b,
{
    lemma_unpack_pack(a);
    lemma_unpack_pack(b);
}

} // verus!
