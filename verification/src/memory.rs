use vstd::prelude::*;

use crate::globals::{spec_address_offset, spec_base_address, Facing, MemoryAddress, Player};

verus! {

/// Where and during what a memory read went wrong.
#[derive(Clone, Debug, PartialEq)]
pub struct MemoryReadDiagnostics {
    memory_address: usize,
    method_name: String,
}

impl MemoryReadDiagnostics {
    pub closed spec fn spec_memory_address(&self) -> usize {
        self.memory_address
    }

    pub closed spec fn spec_method_name(&self) -> Seq<char> {
        self.method_name@
    }

    pub fn new(memory_address: usize, method_name: String) -> (r: Self)
        ensures
            r.spec_memory_address() == memory_address,
            r.spec_method_name() == method_name@,
    {
        MemoryReadDiagnostics { memory_address, method_name }
    }
}

/// A read that returned a value no decoding accepts.
#[derive(Clone, Debug, PartialEq)]
pub enum MemoryReadErrors {
    FacingTheVoid(Player, MemoryReadDiagnostics),
}

/// The little-endian value of the first two bytes.
pub open spec fn spec_le_u16(b: Seq<u8>) -> u16
    recommends
        b.len() >= 2,
{
    (b[0] + 256 * b[1]) as u16
}

/// The little-endian value of the first four bytes.
pub open spec fn spec_le_u32(b: Seq<u8>) -> u32
    recommends
        b.len() >= 4,
{
    (b[0] + 256 * b[1] + 65536 * b[2] + 16777216 * b[3]) as u32
}

/// Relies on byteorder's `LittleEndian::read_u16`: the first two bytes of
/// the buffer read as one little-endian unsigned integer. It panics on a
/// shorter buffer, so that case is excluded here.
#[verifier::external_body]
fn le_read_u16(buf: &[u8]) -> (r: u16)
    requires
        buf@.len() >= 2,
    ensures
        r == spec_le_u16(buf@),
{
    <byteorder::LittleEndian as byteorder::ByteOrder>::read_u16(buf)
}

/// Relies on byteorder's `LittleEndian::read_u32`: the first four bytes of
/// the buffer read as one little-endian unsigned integer. It panics on a
/// shorter buffer, so that case is excluded here.
#[verifier::external_body]
fn le_read_u32(buf: &[u8]) -> (r: u32)
    requires
        buf@.len() >= 4,
    ensures
        r == spec_le_u32(buf@),
{
    <byteorder::LittleEndian as byteorder::ByteOrder>::read_u32(buf)
}

/// Decodes a raw field read as a little-endian `u16`; a read too short to
/// hold one is a failed read.
pub fn parse_u16_le(bytes: &[u8]) -> (r: Option<u16>)
    ensures
        bytes@.len() >= 2 ==> r == Some(spec_le_u16(bytes@)),
        bytes@.len() < 2 ==> r is None,
{
    if bytes.len() >= 2 {
        Some(le_read_u16(bytes))
    } else {
        None
    }
}

/// Decodes a raw field read as a little-endian `u32`; a read too short to
/// hold one is a failed read.
pub fn parse_u32_le(bytes: &[u8]) -> (r: Option<u32>)
    ensures
        bytes@.len() >= 4 ==> r == Some(spec_le_u32(bytes@)),
        bytes@.len() < 4 ==> r is None,
{
    if bytes.len() >= 4 {
        Some(le_read_u32(bytes))
    } else {
        None
    }
}

/// Decodes a raw field read as its first byte; an empty read is a failed
/// read.
pub fn parse_u8(bytes: &[u8]) -> (r: Option<u8>)
    ensures
        bytes@.len() >= 1 ==> r == Some(bytes@[0]),
        bytes@.len() == 0 ==> r is None,
{
    if bytes.len() >= 1 {
        Some(bytes[0])
    } else {
        None
    }
}

/// Absolute address of a per-player field: module base, player base, field
/// offset.
pub open spec fn spec_player_field_address(player: Player, field: MemoryAddress) -> int {
    spec_address_offset(MemoryAddress::GameAddress) + spec_base_address(player)
        + spec_address_offset(field)
}

pub fn player_field_address(player: Player, field: MemoryAddress) -> (r: u64)
    ensures
        r == spec_player_field_address(player, field),
{
    MemoryAddress::GameAddress.offset() + player.base_address() as u64 + field.offset()
}

/// Absolute address of a global counter: module base plus its offset.
pub open spec fn spec_global_address(field: MemoryAddress) -> int {
    spec_address_offset(MemoryAddress::GameAddress) + spec_address_offset(field)
}

pub fn global_address(field: MemoryAddress) -> (r: u64)
    ensures
        r == spec_global_address(field),
{
    MemoryAddress::GameAddress.offset() + field.offset()
}

/// Absolute address of the facing flag, one per player.
pub open spec fn spec_facing_address(player: Player) -> int {
    match player {
        Player::One => spec_global_address(MemoryAddress::PlayerOneFacing),
        Player::Two => spec_global_address(MemoryAddress::PlayerTwoFacing),
    }
}

pub fn facing_address(player: Player) -> (r: u64)
    ensures
        r == spec_facing_address(player),
{
    match player {
        Player::One => global_address(MemoryAddress::PlayerOneFacing),
        Player::Two => global_address(MemoryAddress::PlayerTwoFacing),
    }
}

/// Decodes the facing flag. Only 0 (left) and 1 (right) are defined; any
/// other value is reported with the player and the address it was read
/// from.
pub fn decode_facing(raw: u8, player: Player, memory_address: usize, method_name: String) -> (r:
    Result<Facing, MemoryReadErrors>)
    ensures
        raw == 0 ==> r == Ok::<Facing, MemoryReadErrors>(Facing::Left),
        raw == 1 ==> r == Ok::<Facing, MemoryReadErrors>(Facing::Right),
        raw >= 2 ==> (r matches Err(MemoryReadErrors::FacingTheVoid(p, d)) && p == player
            && d.spec_memory_address() == memory_address && d.spec_method_name() == method_name@),
{
    match raw {
        0 => Ok(Facing::Left),
        1 => Ok(Facing::Right),
        _ => Err(
            MemoryReadErrors::FacingTheVoid(
                player,
                MemoryReadDiagnostics::new(memory_address, method_name),
            ),
        ),
    }
}

} // verus!
