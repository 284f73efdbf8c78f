//! The fixed board: which tiles can be owned, their prices, base rents,
//! colour groups and building costs.
use vstd::prelude::*;

verus! {

/// Number of tiles around the board.
pub const BOARD_SIZE: usize = 40;

/// Number of ownable tiles on the board.
pub const PROPERTY_COUNT: usize = 28;

/// Colour group (or category) of an ownable tile.
#[derive(Clone, Copy, Debug, PartialEq, Eq, Structural)]
pub enum PropertyGroup {
    Brown,
    LightBlue,
    Pink,
    Orange,
    Red,
    Yellow,
    Green,
    DarkBlue,
    Railroad,
    Utility,
}

/// Static data of one ownable tile.
#[derive(Clone, Copy, Debug)]
pub struct PropertyInfo {
    pub id: usize,
    pub name: &'static str,
    pub price: i32,
    pub rent: i32,
    pub group: PropertyGroup,
}

/// Tile id of the property stored at `slot` of the game's property list.
pub open spec fn slot_tile(slot: int) -> usize {
    if slot == 0 { 1 }
    else if slot == 1 { 3 }
    else if slot == 2 { 5 }
    else if slot == 3 { 15 }
    else if slot == 4 { 25 }
    else if slot == 5 { 35 }
    else if slot == 6 { 6 }
    else if slot == 7 { 8 }
    else if slot == 8 { 9 }
    else if slot == 9 { 11 }
    else if slot == 10 { 13 }
    else if slot == 11 { 14 }
    else if slot == 12 { 12 }
    else if slot == 13 { 28 }
    else if slot == 14 { 16 }
    else if slot == 15 { 18 }
    else if slot == 16 { 19 }
    else if slot == 17 { 21 }
    else if slot == 18 { 23 }
    else if slot == 19 { 24 }
    else if slot == 20 { 26 }
    else if slot == 21 { 27 }
    else if slot == 22 { 29 }
    else if slot == 23 { 31 }
    else if slot == 24 { 32 }
    else if slot == 25 { 34 }
    else if slot == 26 { 37 }
    else { 39 }
}

/// Slot (index in the property list) of the ownable tile `id`, if any.
pub open spec fn tile_slot(id: usize) -> Option<int> {
    if id == 1 { Some(0) }
    else if id == 3 { Some(1) }
    else if id == 5 { Some(2) }
    else if id == 15 { Some(3) }
    else if id == 25 { Some(4) }
    else if id == 35 { Some(5) }
    else if id == 6 { Some(6) }
    else if id == 8 { Some(7) }
    else if id == 9 { Some(8) }
    else if id == 11 { Some(9) }
    else if id == 13 { Some(10) }
    else if id == 14 { Some(11) }
    else if id == 12 { Some(12) }
    else if id == 28 { Some(13) }
    else if id == 16 { Some(14) }
    else if id == 18 { Some(15) }
    else if id == 19 { Some(16) }
    else if id == 21 { Some(17) }
    else if id == 23 { Some(18) }
    else if id == 24 { Some(19) }
    else if id == 26 { Some(20) }
    else if id == 27 { Some(21) }
    else if id == 29 { Some(22) }
    else if id == 31 { Some(23) }
    else if id == 32 { Some(24) }
    else if id == 34 { Some(25) }
    else if id == 37 { Some(26) }
    else if id == 39 { Some(27) }
    else { None }
}

/// Group of the property at `slot`: every group is a run of consecutive slots.
pub open spec fn slot_group(slot: int) -> PropertyGroup {
    if slot < 2 { PropertyGroup::Brown }
    else if slot < 6 { PropertyGroup::Railroad }
    else if slot < 9 { PropertyGroup::LightBlue }
    else if slot < 12 { PropertyGroup::Pink }
    else if slot < 14 { PropertyGroup::Utility }
    else if slot < 17 { PropertyGroup::Orange }
    else if slot < 20 { PropertyGroup::Red }
    else if slot < 23 { PropertyGroup::Yellow }
    else if slot < 26 { PropertyGroup::Green }
    else { PropertyGroup::DarkBlue }
}

/// First slot of a group.
pub open spec fn group_start(g: PropertyGroup) -> int {
    match g {
        PropertyGroup::Brown => 0,
        PropertyGroup::Railroad => 2,
        PropertyGroup::LightBlue => 6,
        PropertyGroup::Pink => 9,
        PropertyGroup::Utility => 12,
        PropertyGroup::Orange => 14,
        PropertyGroup::Red => 17,
        PropertyGroup::Yellow => 20,
        PropertyGroup::Green => 23,
        PropertyGroup::DarkBlue => 26,
    }
}

/// One past the last slot of a group.
pub open spec fn group_end(g: PropertyGroup) -> int {
    match g {
        PropertyGroup::Brown => 2,
        PropertyGroup::Railroad => 6,
        PropertyGroup::LightBlue => 9,
        PropertyGroup::Pink => 12,
        PropertyGroup::Utility => 14,
        PropertyGroup::Orange => 17,
        PropertyGroup::Red => 20,
        PropertyGroup::Yellow => 23,
        PropertyGroup::Green => 26,
        PropertyGroup::DarkBlue => 28,
    }
}

/// Listed price of the property at `slot`.
pub open spec fn slot_price(slot: int) -> i32 {
    let id = slot_tile(slot);
    if id == 1 || id == 3 { 60_000 }
    else if id == 5 || id == 15 || id == 25 || id == 35 { 200_000 }
    else if id == 6 || id == 8 { 100_000 }
    else if id == 9 { 120_000 }
    else if id == 11 || id == 13 { 140_000 }
    else if id == 14 { 160_000 }
    else if id == 12 || id == 28 { 150_000 }
    else if id == 16 || id == 18 { 180_000 }
    else if id == 19 { 200_000 }
    else if id == 21 || id == 23 { 220_000 }
    else if id == 24 { 240_000 }
    else if id == 26 || id == 27 { 260_000 }
    else if id == 29 { 280_000 }
    else if id == 31 || id == 32 { 300_000 }
    else if id == 34 { 320_000 }
    else if id == 37 { 350_000 }
    else { 400_000 }
}

/// Base rent of the property at `slot`.
pub open spec fn slot_rent(slot: int) -> i32 {
    let id = slot_tile(slot);
    if id == 1 { 2_000 }
    else if id == 3 { 4_000 }
    else if id == 5 || id == 15 || id == 25 || id == 35 { 25_000 }
    else if id == 6 || id == 8 { 6_000 }
    else if id == 9 { 8_000 }
    else if id == 11 || id == 13 { 10_000 }
    else if id == 14 { 12_000 }
    else if id == 12 || id == 28 { 0 }
    else if id == 16 || id == 18 { 14_000 }
    else if id == 19 { 16_000 }
    else if id == 21 || id == 23 { 18_000 }
    else if id == 24 { 20_000 }
    else if id == 26 || id == 27 { 22_000 }
    else if id == 29 { 24_000 }
    else if id == 31 || id == 32 { 26_000 }
    else if id == 34 { 28_000 }
    else if id == 37 { 35_000 }
    else { 50_000 }
}

/// Cost of one building level on tile `id` (zero where nothing can be built).
pub open spec fn spec_building_cost(id: usize) -> i32 {
    if id == 1 || id == 3 || id == 6 || id == 8 || id == 9 { 50_000 }
    else if id == 11 || id == 13 || id == 14 || id == 16 || id == 18 || id == 19 { 100_000 }
    else if id == 21 || id == 23 || id == 24 || id == 26 || id == 27 || id == 29 { 150_000 }
    else if id == 31 || id == 32 || id == 34 || id == 37 || id == 39 { 200_000 }
    else { 0 }
}

/// A tile that has a slot is the tile of that slot.
pub proof fn lemma_tile_slot_inverse(id: usize)
    ensures
        tile_slot(id) is Some ==> {
            let s = tile_slot(id)->0;
            0 <= s < PROPERTY_COUNT && slot_tile(s) == id
        },
{
}

/// Slot of a group member lies inside the group's run, and the runs cover the list.
pub proof fn lemma_group_range(slot: int)
    requires
        0 <= slot < PROPERTY_COUNT,
    ensures
        group_start(slot_group(slot)) <= slot < group_end(slot_group(slot)),
{
}

/// Static data of the ownable tile at `slot`.
pub fn property_at(slot: usize) -> (r: PropertyInfo)
    requires
        slot < PROPERTY_COUNT,
    ensures
        r.id == slot_tile(slot as int),
        r.price == slot_price(slot as int),
        r.rent == slot_rent(slot as int),
        r.group == slot_group(slot as int),
{
    let (id, name, price, rent, group) = match slot {
        0 => (1, "Matematika", 60_000, 2_000, PropertyGroup::Brown),
        1 => (3, "Fisika", 60_000, 4_000, PropertyGroup::Brown),
        2 => (5, "Stasiun UI", 200_000, 25_000, PropertyGroup::Railroad),
        3 => (15, "Bikun", 200_000, 25_000, PropertyGroup::Railroad),
        4 => (25, "Gerbang Utama", 200_000, 25_000, PropertyGroup::Railroad),
        5 => (35, "Balairung", 200_000, 25_000, PropertyGroup::Railroad),
        6 => (6, "Sastra Inggris", 100_000, 6_000, PropertyGroup::LightBlue),
        7 => (8, "Arkeologi", 100_000, 6_000, PropertyGroup::LightBlue),
        8 => (9, "Filsafat", 120_000, 8_000, PropertyGroup::LightBlue),
        9 => (11, "Ilmu Komunikasi", 140_000, 10_000, PropertyGroup::Pink),
        10 => (13, "Hubungan Internasional", 140_000, 10_000, PropertyGroup::Pink),
        11 => (14, "Sosiologi", 160_000, 12_000, PropertyGroup::Pink),
        12 => (12, "Perpustakaan UI", 150_000, 0, PropertyGroup::Utility),
        13 => (28, "Danau UI", 150_000, 0, PropertyGroup::Utility),
        14 => (16, "Hukum Perdata", 180_000, 14_000, PropertyGroup::Orange),
        15 => (18, "Hukum Pidana", 180_000, 14_000, PropertyGroup::Orange),
        16 => (19, "Hukum Tata Negara", 200_000, 16_000, PropertyGroup::Orange),
        17 => (21, "Akuntansi", 220_000, 18_000, PropertyGroup::Red),
        18 => (23, "Manajemen", 220_000, 18_000, PropertyGroup::Red),
        19 => (24, "Ilmu Ekonomi", 240_000, 20_000, PropertyGroup::Red),
        20 => (26, "Ilmu Komputer", 260_000, 22_000, PropertyGroup::Yellow),
        21 => (27, "Sistem Informasi", 260_000, 22_000, PropertyGroup::Yellow),
        22 => (29, "Teknologi Informasi", 280_000, 24_000, PropertyGroup::Yellow),
        23 => (31, "Teknik Sipil", 300_000, 26_000, PropertyGroup::Green),
        24 => (32, "Teknik Elektro", 300_000, 26_000, PropertyGroup::Green),
        25 => (34, "Teknik Mesin", 320_000, 28_000, PropertyGroup::Green),
        26 => (37, "Kedokteran Gigi", 350_000, 35_000, PropertyGroup::DarkBlue),
        _ => (39, "Kedokteran", 400_000, 50_000, PropertyGroup::DarkBlue),
    };
    PropertyInfo { id, name, price, rent, group }
}

/// Slot of the ownable tile `id` in the property list, if the tile can be owned.
pub fn tile_slot_of(id: usize) -> (r: Option<usize>)
    ensures
        r matches Some(s) ==> tile_slot(id) == Some(s as int),
        r is None ==> tile_slot(id) is None,
{
    match id {
        1 => Some(0),
        3 => Some(1),
        5 => Some(2),
        15 => Some(3),
        25 => Some(4),
        35 => Some(5),
        6 => Some(6),
        8 => Some(7),
        9 => Some(8),
        11 => Some(9),
        13 => Some(10),
        14 => Some(11),
        12 => Some(12),
        28 => Some(13),
        16 => Some(14),
        18 => Some(15),
        19 => Some(16),
        21 => Some(17),
        23 => Some(18),
        24 => Some(19),
        26 => Some(20),
        27 => Some(21),
        29 => Some(22),
        31 => Some(23),
        32 => Some(24),
        34 => Some(25),
        37 => Some(26),
        39 => Some(27),
        _ => None,
    }
}

/// Static data of tile `id`, or `None` where the tile cannot be owned.
pub fn get_property(id: usize) -> (r: Option<PropertyInfo>)
    ensures
        r is None <==> tile_slot(id) is None,
        r matches Some(info) ==> {
            let s = tile_slot(id)->0;
            &&& info.id == id
            &&& info.price == slot_price(s)
            &&& info.rent == slot_rent(s)
            &&& info.group == slot_group(s)
        },
{
    match tile_slot_of(id) {
        Some(s) => {
            proof { lemma_tile_slot_inverse(id); }
            Some(property_at(s))
        },
        None => None,
    }
}

/// Cost of one building level on tile `id`; a sale refunds half of it.
pub fn building_cost(id: usize) -> (r: i32)
    ensures
        r == spec_building_cost(id),
{
    match id {
        1 | 3 | 6 | 8 | 9 => 50_000,
        11 | 13 | 14 | 16 | 18 | 19 => 100_000,
        21 | 23 | 24 | 26 | 27 | 29 => 150_000,
        31 | 32 | 34 | 37 | 39 => 200_000,
        _ => 0,
    }
}

} // verus!
