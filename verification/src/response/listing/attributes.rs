//! Attributes of listed items: particles, textures and strange parts.

use vstd::prelude::*;
use tf2_enum::{Rarity, StrangePart};

verus! {

#[verifier::external_type_specification]
#[verifier::external_body]
pub struct ExStrangePart(StrangePart);

#[verifier::external_type_specification]
#[verifier::external_body]
pub struct ExRarity(Rarity);

/// A score type that no strange part counts: `number` is the byte that was
/// looked up.
#[derive(PartialEq, Eq, Clone, Copy, Debug, Structural)]
pub struct UnknownStrangePart {
    pub number: u8,
}

/// An unusual particle effect.
#[derive(PartialEq, Clone, Debug)]
pub struct ParticleAttribute {
    pub id: u32,
    pub name: String,
    pub short_name: String,
    pub image_url: String,
    /// The effect's type (`type` in responses).
    pub particle_type: String,
}

/// A war paint texture.
#[derive(PartialEq, Debug)]
pub struct TextureAttribute {
    pub id: u32,
    pub item_defindex: Option<u32>,
    pub rarity: Rarity,
    pub name: String,
}

/// The kind of score that a strange part counts.
#[derive(PartialEq, Clone, Debug)]
pub struct KillEaterTypeAttribute {
    pub id: Option<u32>,
    pub name: String,
}

/// A strange part's score.
#[derive(PartialEq, Clone, Debug)]
pub struct KillEaterAttribute {
    pub score: u64,
    pub kill_eater: KillEaterTypeAttribute,
}

/// The discriminants of `tf2_enum::StrangePart` (its `kill_eater_score_type`
/// values).
pub open spec fn strange_part_ids() -> Set<u8> {
    set![
        10u8, 11, 12, 13, 14, 15, 16, 17, 18, 19, 20, 21, 22, 23, 27, 28, 30, 31, 32, 33, 34, 36,
        37, 38, 39, 40, 44, 45, 46, 47, 48, 49, 61, 62, 67, 68, 74, 77, 78, 79, 80, 81, 82, 83, 84,
        85, 87, 88, 89, 93, 94, 95,
    ]
}

/// The strange part whose discriminant is `id`, where there is one: what
/// `<StrangePart as TryFrom<u8>>::try_from(id)` gives back. The derived
/// conversion is a match on `id` alone.
pub uninterp spec fn strange_part_of(id: u8) -> StrangePart;

/// `<StrangePart as TryFrom<u8>>::try_from`, which num_enum's
/// `TryFromPrimitive` derive writes as a match on the discriminants; its
/// error, `TryFromPrimitiveError { number }`, is handed on as
/// `UnknownStrangePart { number }`. The contract states when it succeeds,
/// that the part it gives is `strange_part_of(id)`, and the number that the
/// error carries.
#[verifier::external_body]
fn strange_part_try_from(id: u8) -> (r: Result<StrangePart, UnknownStrangePart>)
    ensures
        r is Ok <==> strange_part_ids().contains(id),
        r matches Ok(p) ==> p == strange_part_of(id),
        r matches Err(e) ==> e.number == id,
{
    match StrangePart::try_from(id) {
        Ok(part) => Ok(part),
        Err(e) => Err(UnknownStrangePart { number: e.number }),
    }
}

impl KillEaterAttribute {
    /// The score type that the strange part is looked up by: the kill-eater
    /// id, 0 where there is none, cut to its low byte.
    pub open spec fn score_type_byte(&self) -> u8 {
        (match self.kill_eater.id {
            Some(id) => id,
            None => 0u32,
        } % 256) as u8
    }

    /// The score type byte is the kill-eater id's remainder modulo 256, and
    /// 0 where there is no id.
    pub proof fn law_score_type_byte(&self)
        ensures
            self.kill_eater.id matches Some(id) ==> self.score_type_byte() as int == id as int % 256,
            self.kill_eater.id is None ==> self.score_type_byte() == 0,
    {
    }

    /// The strange part that counts this score.
    pub fn try_into_strange_part(&self) -> (r: Result<StrangePart, UnknownStrangePart>)
        ensures
            r is Ok <==> strange_part_ids().contains(self.score_type_byte()),
            r matches Ok(p) ==> p == strange_part_of(self.score_type_byte()),
            r matches Err(e) ==> e.number == self.score_type_byte(),
    {
        let id: u32 = self.kill_eater.id.unwrap_or_default();
        let byte: u8 = id as u8;
        assert(byte == (id % 256) as u8) by (bit_vector)
            requires
                byte == id as u8,
        ;
        strange_part_try_from(byte)
    }
}

} // verus!
