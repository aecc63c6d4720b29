use vstd::prelude::*;

verus! {

/// Grid index (0..15) → USB slot bus: path 1 `0..7 → 0x01..0x08`, path 2 `8..15 → 0x0b..0x12`.
pub open spec fn kempline_index_to_slot_bus_spec(slot_index: int) -> Option<u8> {
    if 0 <= slot_index < 8 {
        Some((slot_index + 1) as u8)
    } else if 8 <= slot_index < 16 {
        Some((slot_index + 3) as u8)
    } else {
        None
    }
}

/// USB slot bus → grid index (0..15).
pub open spec fn slot_bus_to_kempline_index_spec(slot_bus: u8) -> Option<usize> {
    if 0x01 <= slot_bus <= 0x08 {
        Some((slot_bus - 1) as usize)
    } else if 0x0b <= slot_bus <= 0x12 {
        Some((slot_bus - 3) as usize)
    } else {
        None
    }
}

/// Structural blocks (Input/Output/Split/Merge).
pub open spec fn is_special_slot_bus_spec(slot_bus: u8) -> bool {
    slot_bus == 0x00 || slot_bus == 0x09 || slot_bus == 0x0a || slot_bus == 0x13
}

/// Maps a grid index (0..15) to the USB slot bus.
pub fn kempline_index_to_slot_bus(slot_index: usize) -> (r: Option<u8>)
    ensures
        r == kempline_index_to_slot_bus_spec(slot_index as int),
{
    if slot_index >= 16 {
        return None;
    }
    let i = slot_index as u8;
    if i < 8 {
        Some(i + 1)
    } else {
        Some(i + 3)
    }
}

/// Cache key of an ED03 echo: `(slot_bus, route_pp, param_selector)`.
pub fn echo_model_cache_key(slot_bus: u8, route_pp: u8, param_selector: u8) -> (r: (u8, u8, u8))
    ensures
        r == (slot_bus, route_pp, param_selector),
{
    (slot_bus, route_pp, param_selector)
}

/// Maps a USB slot bus to the grid index (0..15).
pub fn slot_bus_to_kempline_index(slot_bus: u8) -> (r: Option<usize>)
    ensures
        r == slot_bus_to_kempline_index_spec(slot_bus),
{
    if 0x01 <= slot_bus && slot_bus <= 0x08 {
        Some((slot_bus - 1) as usize)
    } else if 0x0b <= slot_bus && slot_bus <= 0x12 {
        Some((slot_bus - 3) as usize)
    } else {
        None
    }
}

/// `true` when the bus is a structural block (Input/Output/Split/Merge).
pub fn is_special_slot_bus(slot_bus: u8) -> (r: bool)
    ensures
        r == is_special_slot_bus_spec(slot_bus),
{
    slot_bus == 0x00 || slot_bus == 0x09 || slot_bus == 0x0a || slot_bus == 0x13
}

/// Every grid index has a bus, and the bus maps back to the same index.
pub proof fn lemma_slot_bus_round_trip(slot_index: usize)
    requires
        slot_index < 16,
    ensures
        kempline_index_to_slot_bus_spec(slot_index as int) matches Some(bus)
            && slot_bus_to_kempline_index_spec(bus) == Some(slot_index)
            && !is_special_slot_bus_spec(bus),
{
}

/// Every effect bus maps to a grid index that maps back to the same bus; no bus is both
/// an effect slot and a structural block.
pub proof fn lemma_slot_index_round_trip(slot_bus: u8)
    ensures
        slot_bus_to_kempline_index_spec(slot_bus) matches Some(i) ==> (i < 16
            && kempline_index_to_slot_bus_spec(i as int) == Some(slot_bus)
            && !is_special_slot_bus_spec(slot_bus)),
{
}

} // verus!
