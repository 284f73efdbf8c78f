//! Rent, monopolies and buildings.
use vstd::prelude::*;
use crate::board::{
    PropertyGroup, slot_group, slot_rent, slot_tile, tile_slot, group_start, group_end, lemma_group_range,
    lemma_tile_slot_inverse, property_at, building_cost, spec_building_cost, slot_price,
    PROPERTY_COUNT,
};
use crate::error::GameError;
use crate::messages::ServerMessage;
use crate::state::{
    GameState, GamePhase, PlayerState, PropertyState, owned_by, has_player, properties_wf, houses_built, hotels_built,
    level_houses, level_hotels, lemma_buildings_update, lemma_buildings_bounds, lemma_cash_update, is_owned_by,
    cash_total, player_index, player_wf, owners_present, BANK_HOUSES, BANK_HOTELS,
};
use crate::turn::paid;

verus! {

/// Whether `who` owns every property of group `g`.
pub open spec fn monopoly(props: Seq<PropertyState>, who: Seq<char>, g: PropertyGroup) -> bool {
    forall|i: int| group_start(g) <= i < group_end(g) ==> owned_by(#[trigger] props[i], who)
}

/// Number of properties among slots `lo..hi` that `who` owns.
pub open spec fn count_owned(props: Seq<PropertyState>, who: Seq<char>, lo: int, hi: int) -> int
    decreases hi - lo,
{
    if hi <= lo {
        0
    } else {
        count_owned(props, who, lo, hi - 1) + if owned_by(props[hi - 1], who) { 1int } else { 0 }
    }
}

/// Rent for railroads, by how many of them the owner holds.
pub open spec fn railroad_rent(count: int) -> int {
    if count == 1 { 25_000 } else if count == 2 { 50_000 } else if count == 3 { 100_000 } else if count == 4 { 200_000 } else { 0 }
}

/// Rent owed on tile `id` for a dice sum of `dice`; zero where the tile
/// cannot be owned or has no owner.
pub open spec fn rent_due(props: Seq<PropertyState>, id: usize, dice: int) -> int {
    match tile_slot(id) {
        None => 0,
        Some(k) => match props[k].owner_id {
            None => 0,
            Some(o) => {
                let g = slot_group(k);
                let lv = props[k].houses;
                if g == PropertyGroup::Utility {
                    if count_owned(props, o@, group_start(g), group_end(g)) == 2 { dice * 10_000 } else { dice * 4_000 }
                } else if g == PropertyGroup::Railroad {
                    railroad_rent(count_owned(props, o@, group_start(g), group_end(g)))
                } else if monopoly(props, o@, g) && lv == 0 {
                    slot_rent(k) * 2
                } else if lv > 0 {
                    slot_rent(k) * (1 + 4 * lv)
                } else {
                    slot_rent(k) as int
                }
            },
        },
    }
}

/// Lowest building level in slots `lo..hi`.
pub open spec fn min_level(props: Seq<PropertyState>, lo: int, hi: int) -> int
    decreases hi - lo,
{
    if hi <= lo + 1 {
        props[lo].houses as int
    } else {
        let m = min_level(props, lo, hi - 1);
        if (props[hi - 1].houses as int) < m { props[hi - 1].houses as int } else { m }
    }
}

/// Highest building level in slots `lo..hi`.
pub open spec fn max_level(props: Seq<PropertyState>, lo: int, hi: int) -> int
    decreases hi - lo,
{
    if hi <= lo + 1 {
        props[lo].houses as int
    } else {
        let m = max_level(props, lo, hi - 1);
        if (props[hi - 1].houses as int) > m { props[hi - 1].houses as int } else { m }
    }
}

/// No two properties of group `g` differ by more than one building level.
pub open spec fn evenly_built(props: Seq<PropertyState>, g: PropertyGroup) -> bool {
    forall|i: int, j: int|
        group_start(g) <= i < group_end(g) && group_start(g) <= j < group_end(g) ==> #[trigger] props[i].houses
            <= #[trigger] props[j].houses + 1
}

/// The minimum is attained in the range and bounds every level in it.
pub proof fn lemma_min_level(props: Seq<PropertyState>, lo: int, hi: int)
    requires
        0 <= lo < hi <= props.len(),
    ensures
        forall|i: int| lo <= i < hi ==> min_level(props, lo, hi) <= #[trigger] props[i].houses,
        exists|i: int| lo <= i < hi && min_level(props, lo, hi) == #[trigger] props[i].houses,
    decreases hi - lo,
{
    if hi > lo + 1 {
        lemma_min_level(props, lo, hi - 1);
    } else {
        assert(min_level(props, lo, hi) == props[lo].houses);
    }
}

/// The maximum is attained in the range and bounds every level in it.
pub proof fn lemma_max_level(props: Seq<PropertyState>, lo: int, hi: int)
    requires
        0 <= lo < hi <= props.len(),
    ensures
        forall|i: int| lo <= i < hi ==> #[trigger] props[i].houses <= max_level(props, lo, hi),
        exists|i: int| lo <= i < hi && max_level(props, lo, hi) == #[trigger] props[i].houses,
    decreases hi - lo,
{
    if hi > lo + 1 {
        lemma_max_level(props, lo, hi - 1);
    } else {
        assert(max_level(props, lo, hi) == props[lo].houses);
    }
}

/// Property `p` with its building level set to `lv`.
pub open spec fn with_level(p: PropertyState, lv: int) -> PropertyState {
    PropertyState { houses: lv as u8, ..p }
}

/// Why `who` cannot add a building level to tile `id`, if they can.
pub open spec fn build_error(s: GameState, who: Seq<char>, id: usize) -> Option<GameError> {
    match s.gate(who, GamePhase::EndTurn) {
        Some(e) => Some(e),
        None => match tile_slot(id) {
            None => Some(GameError::PropertyNotFound),
            Some(k) => {
                let props = s.properties@;
                let g = slot_group(k);
                let lv = props[k].houses;
                if !owned_by(props[k], who) {
                    Some(GameError::NotOwner)
                } else if g == PropertyGroup::Railroad || g == PropertyGroup::Utility {
                    Some(GameError::CannotBuildHere)
                } else if !monopoly(props, who, g) {
                    Some(GameError::NoMonopoly)
                } else if lv == 5 {
                    Some(GameError::MaxLevel)
                } else if lv > min_level(props, group_start(g), group_end(g)) {
                    Some(GameError::BuildUnevenly)
                } else if lv == 4 && s.total_hotels == 0 {
                    Some(GameError::NoHotelsLeft)
                } else if lv < 4 && s.total_houses == 0 {
                    Some(GameError::NoHousesLeft)
                } else if s.players@[player_index(s.players@, who)].money < spec_building_cost(id) {
                    Some(GameError::NotEnoughMoney)
                } else {
                    None
                }
            },
        },
    }
}

/// Why `who` cannot sell a building level of tile `id`, if they can.
pub open spec fn sell_error(s: GameState, who: Seq<char>, id: usize) -> Option<GameError> {
    match s.gate(who, GamePhase::EndTurn) {
        Some(e) => Some(e),
        None => match tile_slot(id) {
            None => Some(GameError::PropertyNotFound),
            Some(k) => {
                let props = s.properties@;
                let g = slot_group(k);
                let lv = props[k].houses;
                if !owned_by(props[k], who) {
                    Some(GameError::NotOwner)
                } else if lv == 0 {
                    Some(GameError::NoBuildings)
                } else if lv < max_level(props, group_start(g), group_end(g)) {
                    Some(GameError::SellUnevenly)
                } else if lv == 5 && s.total_houses < 4 {
                    Some(GameError::NoHousesForDowngrade)
                } else {
                    None
                }
            },
        },
    }
}

/// Cash a property of price `price` raises when mortgaged.
pub open spec fn mortgage_value(price: int) -> int {
    price / 2
}

/// Cash it takes to lift the mortgage of a property of price `price`.
pub open spec fn unmortgage_cost(price: int) -> int {
    mortgage_value(price) + mortgage_value(price) / 10
}

/// Why `who` cannot mortgage (`lift` false) or lift the mortgage of
/// (`lift` true) tile `id`, if they can.
pub open spec fn mortgage_error(s: GameState, who: Seq<char>, id: usize, lift: bool) -> Option<GameError> {
    match s.gate(who, GamePhase::EndTurn) {
        Some(e) => Some(e),
        None => match tile_slot(id) {
            None => Some(GameError::PropertyNotFound),
            Some(k) => {
                let p = s.properties@[k];
                if !owned_by(p, who) {
                    Some(GameError::NotOwner)
                } else if !lift && p.is_mortgaged {
                    Some(GameError::AlreadyMortgaged)
                } else if !lift && p.houses > 0 {
                    Some(GameError::HasBuildings)
                } else if lift && !p.is_mortgaged {
                    Some(GameError::NotMortgaged)
                } else if lift && s.players@[player_index(s.players@, who)].money < unmortgage_cost(slot_price(k) as int) {
                    Some(GameError::NotEnoughMoney)
                } else {
                    None
                }
            },
        },
    }
}

/// `t` is `s` with the mortgage flag of slot `k` set to `flag` and player
/// `j` paid `delta`.
pub open spec fn mortgage_changed(s: GameState, t: GameState, k: int, flag: bool, j: int, delta: int) -> bool {
    &&& t.properties@ == s.properties@.update(k, PropertyState { is_mortgaged: flag, ..s.properties@[k] })
    &&& t.players@ == s.players@.update(j, paid(s.players@[j], delta))
    &&& t.total_cash() == s.total_cash() + delta
    &&& t == (GameState { players: t.players, properties: t.properties, ..s })
}

/// `t` is `s` with the building level of slot `k` changed by `step`, the
/// bank's inventory adjusted and player `j` paid `delta`.
pub open spec fn level_changed(s: GameState, t: GameState, k: int, step: int, j: int, delta: int) -> bool {
    let lv = s.properties@[k].houses as int;
    &&& t.properties@ == s.properties@.update(k, with_level(s.properties@[k], lv + step))
    &&& t.players@ == s.players@.update(j, paid(s.players@[j], delta))
    &&& t.total_houses == s.total_houses + level_houses(s.properties@[k].houses) - level_houses((lv + step) as u8)
    &&& t.total_hotels == s.total_hotels + level_hotels(s.properties@[k].houses) - level_hotels((lv + step) as u8)
    &&& t.total_cash() == s.total_cash() + delta
    &&& t == GameState { players: t.players, properties: t.properties, total_houses: t.total_houses, total_hotels: t.total_hotels, ..s }
}

/// `t` is `s` after `who` adds a building level to tile `id`.
pub open spec fn building_bought(s: GameState, t: GameState, who: Seq<char>, id: usize) -> bool {
    let k = tile_slot(id)->0;
    let g = slot_group(k);
    &&& level_changed(s, t, k, 1, player_index(s.players@, who), -spec_building_cost(id))
    &&& evenly_built(s.properties@, g) ==> evenly_built(t.properties@, g)
}

/// `t` is `s` after `who` sells a building level of tile `id`.
pub open spec fn building_sold(s: GameState, t: GameState, who: Seq<char>, id: usize) -> bool {
    let k = tile_slot(id)->0;
    let g = slot_group(k);
    &&& level_changed(s, t, k, -1, player_index(s.players@, who), spec_building_cost(id) / 2)
    &&& evenly_built(s.properties@, g) ==> evenly_built(t.properties@, g)
}

/// `t` is `s` after `who` mortgages (`lift` false) or lifts the mortgage of
/// (`lift` true) tile `id`.
pub open spec fn mortgage_set(s: GameState, t: GameState, who: Seq<char>, id: usize, lift: bool) -> bool {
    let k = tile_slot(id)->0;
    mortgage_changed(s, t, k, !lift, player_index(s.players@, who),
        if lift { -unmortgage_cost(slot_price(k) as int) } else { mortgage_value(slot_price(k) as int) })
}

impl GameState {
    /// Whether `owner_id` owns every property of `group`.
    pub fn check_monopoly(&self, owner_id: &str, group: PropertyGroup) -> (r: bool)
        requires
            properties_wf(self.properties@),
        ensures
            r == monopoly(self.properties@, owner_id@, group),
    {
        let (lo, hi) = group_slots(group);
        let mut k = lo;
        while k < hi
            invariant
                properties_wf(self.properties@),
                lo == group_start(group),
                hi == group_end(group),
                lo <= k <= hi,
                forall|i: int| lo <= i < k ==> owned_by(#[trigger] self.properties@[i], owner_id@),
            decreases hi - k,
        {
            if !is_owned_by(&self.properties[k], owner_id) {
                return false;
            }
            k += 1;
        }
        true
    }

    /// Number of properties of `group` that `who` owns.
    fn count_in_group(&self, who: &str, group: PropertyGroup) -> (r: usize)
        requires
            properties_wf(self.properties@),
        ensures
            r == count_owned(self.properties@, who@, group_start(group), group_end(group)),
            r <= 4,
    {
        let (lo, hi) = group_slots(group);
        let mut k = lo;
        let mut count: usize = 0;
        while k < hi
            invariant
                properties_wf(self.properties@),
                lo == group_start(group),
                hi == group_end(group),
                hi - lo <= 4,
                lo <= k <= hi,
                count == count_owned(self.properties@, who@, lo as int, k as int),
                count <= k - lo,
            decreases hi - k,
        {
            if is_owned_by(&self.properties[k], who) {
                count += 1;
            }
            k += 1;
        }
        count
    }

    /// Rent owed on tile `property_id` for a dice sum of `dice_roll`.
    pub fn calculate_rent(&self, property_id: usize, dice_roll: u8) -> (r: i32)
        requires
            properties_wf(self.properties@),
            owners_present(self.properties@, self.players@),
        ensures
            r == rent_due(self.properties@, property_id, dice_roll as int),
            0 <= r <= 2_550_000,
    {
        let k = match self.property_slot(property_id) {
            Some(k) => k,
            None => return 0,
        };
        proof { lemma_tile_slot_inverse(property_id); }
        let owner = match &self.properties[k].owner_id {
            Some(o) => o,
            None => return 0,
        };
        let info = property_at(k);
        let group = info.group;
        let lv = self.properties[k].houses;
        if group == PropertyGroup::Utility {
            let count = self.count_in_group(owner.as_str(), group);
            if count == 2 {
                return dice_roll as i32 * 10_000;
            } else {
                return dice_roll as i32 * 4_000;
            }
        }
        if group == PropertyGroup::Railroad {
            let count = self.count_in_group(owner.as_str(), group);
            return if count == 1 {
                25_000
            } else if count == 2 {
                50_000
            } else if count == 3 {
                100_000
            } else if count == 4 {
                200_000
            } else {
                0
            };
        }
        if self.check_monopoly(owner.as_str(), group) && lv == 0 {
            return info.rent * 2;
        }
        if lv > 0 {
            assert(0 <= info.rent * (1 + lv * 4) <= 50_000 * 21) by (nonlinear_arith)
                requires
                    0 <= info.rent <= 50_000,
                    1 <= lv <= 5,
            ;
            return info.rent * (1 + lv as i32 * 4);
        }
        info.rent
    }

    /// Adds one building level to tile `property_id` of `player_id`: a
    /// house, or a hotel in place of four houses.
    pub fn handle_buy_building(&mut self, player_id: String, property_id: usize) -> (r: Result<Vec<ServerMessage>, GameError>)
        requires
            old(self).wf(),
        ensures
            final(self).wf(),
            match build_error(*old(self), player_id@, property_id) {
                Some(e) => r == Err::<Vec<ServerMessage>, GameError>(e) && *final(self) == *old(self),
                None => r is Ok && building_bought(*old(self), *final(self), player_id@, property_id),
            },
            r matches Ok(events) ==> events@.len() == 2 && events@[1] == (ServerMessage::BuildingBought {
                property_id,
                houses: final(self).properties@[tile_slot(property_id)->0].houses,
            }),
    {
        let who = player_id.as_str();
        match self.check_gate(who, GamePhase::EndTurn) {
            Err(e) => return Err(e),
            Ok(()) => {},
        }
        let k = match self.property_slot(property_id) {
            Some(k) => k,
            None => return Err(GameError::PropertyNotFound),
        };
        proof { lemma_tile_slot_inverse(property_id); }
        if !is_owned_by(&self.properties[k], who) {
            return Err(GameError::NotOwner);
        }
        let group = property_at(k).group;
        if group == PropertyGroup::Railroad || group == PropertyGroup::Utility {
            return Err(GameError::CannotBuildHere);
        }
        if !self.check_monopoly(who, group) {
            return Err(GameError::NoMonopoly);
        }
        let min = self.group_min_level(group);
        let lv = self.properties[k].houses;
        if lv == 5 {
            return Err(GameError::MaxLevel);
        }
        if lv > min {
            return Err(GameError::BuildUnevenly);
        }
        if lv == 4 {
            if self.total_hotels == 0 {
                return Err(GameError::NoHotelsLeft);
            }
        } else {
            if self.total_houses == 0 {
                return Err(GameError::NoHousesLeft);
            }
        }
        let cost = building_cost(property_id);
        proof {
            assert(has_player(self.players@, who@));
        }
        let j = match self.find_player(who) {
            Some(j) => j,
            None => return Err(GameError::PlayerNotFound),
        };
        proof {
            let jj = player_index(self.players@, who@);
            assert(self.players@[jj].id@ == who@);
            assert(jj == j);
        }
        if self.players[j].money < cost {
            return Err(GameError::NotEnoughMoney);
        }
        let ghost s = *self;
        proof {
            lemma_buildings_bounds(s.properties@);
            lemma_min_level(s.properties@, group_start(group), group_end(group));
        }
        self.players[j].money = self.players[j].money - cost;
        if lv == 4 {
            self.total_houses = self.total_houses + 4;
            self.total_hotels = self.total_hotels - 1;
        } else {
            self.total_houses = self.total_houses - 1;
        }
        self.properties[k].houses = lv + 1;
        proof {
            let q = with_level(s.properties@[k as int], lv + 1);
            assert(self.properties@ =~= s.properties@.update(k as int, q));
            assert(self.players@ =~= s.players@.update(j as int, paid(s.players@[j as int], -cost)));
            lemma_buildings_update(s.properties@, k as int, q);
            lemma_cash_update(s.players@, j as int, paid(s.players@[j as int], -cost));
            lemma_players_same(s, *self);
            lemma_group_range(k as int);
        }
        let new_level = self.properties[k].houses;
        let mut events: Vec<ServerMessage> = Vec::new();
        events.push(ServerMessage::GameStateUpdate { state: self.clone() });
        events.push(ServerMessage::BuildingBought { property_id, houses: new_level });
        Ok(events)
    }

    /// Removes one building level from tile `property_id` of `player_id`
    /// for half its cost; a hotel gives way to four houses from the bank.
    pub fn handle_sell_building(&mut self, player_id: String, property_id: usize) -> (r: Result<Vec<ServerMessage>, GameError>)
        requires
            old(self).wf(),
            old(self).cash_in_range(),
        ensures
            final(self).wf(),
            match sell_error(*old(self), player_id@, property_id) {
                Some(e) => r == Err::<Vec<ServerMessage>, GameError>(e) && *final(self) == *old(self),
                None => r is Ok && building_sold(*old(self), *final(self), player_id@, property_id),
            },
            r matches Ok(events) ==> events@.len() == 2 && events@[1] == (ServerMessage::BuildingSold {
                property_id,
                houses: final(self).properties@[tile_slot(property_id)->0].houses,
            }),
    {
        let who = player_id.as_str();
        match self.check_gate(who, GamePhase::EndTurn) {
            Err(e) => return Err(e),
            Ok(()) => {},
        }
        let k = match self.property_slot(property_id) {
            Some(k) => k,
            None => return Err(GameError::PropertyNotFound),
        };
        proof { lemma_tile_slot_inverse(property_id); }
        if !is_owned_by(&self.properties[k], who) {
            return Err(GameError::NotOwner);
        }
        let lv = self.properties[k].houses;
        if lv == 0 {
            return Err(GameError::NoBuildings);
        }
        let group = property_at(k).group;
        let max = self.group_max_level(group);
        if lv < max {
            return Err(GameError::SellUnevenly);
        }
        if lv == 5 && self.total_houses < 4 {
            return Err(GameError::NoHousesForDowngrade);
        }
        let refund = building_cost(property_id) / 2;
        proof {
            assert(has_player(self.players@, who@));
        }
        let j = match self.find_player(who) {
            Some(j) => j,
            None => return Err(GameError::PlayerNotFound),
        };
        proof {
            let jj = player_index(self.players@, who@);
            assert(self.players@[jj].id@ == who@);
            assert(jj == j);
        }
        let ghost s = *self;
        proof {
            lemma_buildings_bounds(s.properties@);
            lemma_max_level(s.properties@, group_start(group), group_end(group));
        }
        self.players[j].money = self.players[j].money + refund;
        if lv == 5 {
            self.total_hotels = self.total_hotels + 1;
            self.total_houses = self.total_houses - 4;
        } else {
            self.total_houses = self.total_houses + 1;
        }
        self.properties[k].houses = lv - 1;
        proof {
            let q = with_level(s.properties@[k as int], lv - 1);
            assert(self.properties@ =~= s.properties@.update(k as int, q));
            assert(self.players@ =~= s.players@.update(j as int, paid(s.players@[j as int], refund as int)));
            lemma_buildings_update(s.properties@, k as int, q);
            lemma_cash_update(s.players@, j as int, paid(s.players@[j as int], refund as int));
            lemma_players_same(s, *self);
            lemma_group_range(k as int);
        }
        let new_level = self.properties[k].houses;
        let mut events: Vec<ServerMessage> = Vec::new();
        events.push(ServerMessage::GameStateUpdate { state: self.clone() });
        events.push(ServerMessage::BuildingSold { property_id, houses: new_level });
        Ok(events)
    }

    /// Mortgages unbuilt tile `property_id` of `player_id` for half its price.
    pub fn handle_mortgage_property(&mut self, player_id: String, property_id: usize) -> (r: Result<Vec<ServerMessage>, GameError>)
        requires
            old(self).wf(),
            old(self).cash_in_range(),
        ensures
            final(self).wf(),
            match mortgage_error(*old(self), player_id@, property_id, false) {
                Some(e) => r == Err::<Vec<ServerMessage>, GameError>(e) && *final(self) == *old(self),
                None => r is Ok && mortgage_set(*old(self), *final(self), player_id@, property_id, false),
            },
            r matches Ok(events) ==> events@ == seq![(ServerMessage::PropertyMortgaged {
                property_id,
                mortgage_value: mortgage_value(slot_price(tile_slot(property_id)->0) as int) as i32,
            })],
    {
        self.change_mortgage(player_id, property_id, false)
    }

    /// Lifts the mortgage of tile `property_id` of `player_id` for its
    /// mortgage value plus a tenth.
    pub fn handle_unmortgage_property(&mut self, player_id: String, property_id: usize) -> (r: Result<Vec<ServerMessage>, GameError>)
        requires
            old(self).wf(),
            old(self).cash_in_range(),
        ensures
            final(self).wf(),
            match mortgage_error(*old(self), player_id@, property_id, true) {
                Some(e) => r == Err::<Vec<ServerMessage>, GameError>(e) && *final(self) == *old(self),
                None => r is Ok && mortgage_set(*old(self), *final(self), player_id@, property_id, true),
            },
            r matches Ok(events) ==> events@ == seq![(ServerMessage::PropertyUnmortgaged {
                property_id,
                cost: unmortgage_cost(slot_price(tile_slot(property_id)->0) as int) as i32,
            })],
    {
        self.change_mortgage(player_id, property_id, true)
    }

    /// Mortgages (`lift` false) or lifts the mortgage of (`lift` true) a tile.
    fn change_mortgage(&mut self, player_id: String, property_id: usize, lift: bool) -> (r: Result<Vec<ServerMessage>, GameError>)
        requires
            old(self).wf(),
            old(self).cash_in_range(),
        ensures
            final(self).wf(),
            match mortgage_error(*old(self), player_id@, property_id, lift) {
                Some(e) => r == Err::<Vec<ServerMessage>, GameError>(e) && *final(self) == *old(self),
                None => r is Ok && mortgage_set(*old(self), *final(self), player_id@, property_id, lift),
            },
            r matches Ok(events) ==> events@ == if lift {
                seq![(ServerMessage::PropertyUnmortgaged {
                    property_id,
                    cost: unmortgage_cost(slot_price(tile_slot(property_id)->0) as int) as i32,
                })]
            } else {
                seq![(ServerMessage::PropertyMortgaged {
                    property_id,
                    mortgage_value: mortgage_value(slot_price(tile_slot(property_id)->0) as int) as i32,
                })]
            },
    {
        let who = player_id.as_str();
        match self.check_gate(who, GamePhase::EndTurn) {
            Err(e) => return Err(e),
            Ok(()) => {},
        }
        let k = match self.property_slot(property_id) {
            Some(k) => k,
            None => return Err(GameError::PropertyNotFound),
        };
        proof { lemma_tile_slot_inverse(property_id); }
        if !is_owned_by(&self.properties[k], who) {
            return Err(GameError::NotOwner);
        }
        if !lift && self.properties[k].is_mortgaged {
            return Err(GameError::AlreadyMortgaged);
        }
        if !lift && self.properties[k].houses > 0 {
            return Err(GameError::HasBuildings);
        }
        if lift && !self.properties[k].is_mortgaged {
            return Err(GameError::NotMortgaged);
        }
        proof {
            assert(has_player(self.players@, who@));
        }
        let j = match self.find_player(who) {
            Some(j) => j,
            None => return Err(GameError::PlayerNotFound),
        };
        proof {
            let jj = player_index(self.players@, who@);
            assert(self.players@[jj].id@ == who@);
            assert(jj == j);
        }
        let value = property_at(k).price / 2;
        let cost = value + value / 10;
        if lift && self.players[j].money < cost {
            return Err(GameError::NotEnoughMoney);
        }
        let ghost s = *self;
        let delta: i32 = if lift { -cost } else { value };
        self.players[j].money = self.players[j].money + delta;
        self.properties[k].is_mortgaged = !lift;
        proof {
            let q = PropertyState { is_mortgaged: !lift, ..s.properties@[k as int] };
            assert(self.properties@ =~= s.properties@.update(k as int, q));
            assert(self.players@ =~= s.players@.update(j as int, paid(s.players@[j as int], delta as int)));
            lemma_buildings_update(s.properties@, k as int, q);
            lemma_cash_update(s.players@, j as int, paid(s.players@[j as int], delta as int));
            lemma_players_same(s, *self);
        }
        let mut events: Vec<ServerMessage> = Vec::new();
        if lift {
            events.push(ServerMessage::PropertyUnmortgaged { property_id, cost });
            assert(events@ =~= seq![ServerMessage::PropertyUnmortgaged { property_id, cost }]);
        } else {
            events.push(ServerMessage::PropertyMortgaged { property_id, mortgage_value: value });
            assert(events@ =~= seq![ServerMessage::PropertyMortgaged { property_id, mortgage_value: value }]);
        }
        Ok(events)
    }

    /// Lowest building level of `group`.
    fn group_min_level(&self, group: PropertyGroup) -> (r: u8)
        requires
            properties_wf(self.properties@),
        ensures
            r == min_level(self.properties@, group_start(group), group_end(group)),
    {
        let (lo, hi) = group_slots(group);
        let mut m = self.properties[lo].houses;
        let mut k = lo + 1;
        while k < hi
            invariant
                properties_wf(self.properties@),
                lo == group_start(group),
                hi == group_end(group),
                lo < k <= hi,
                m == min_level(self.properties@, lo as int, k as int),
            decreases hi - k,
        {
            if self.properties[k].houses < m {
                m = self.properties[k].houses;
            }
            k += 1;
        }
        m
    }

    /// Highest building level of `group`.
    fn group_max_level(&self, group: PropertyGroup) -> (r: u8)
        requires
            properties_wf(self.properties@),
        ensures
            r == max_level(self.properties@, group_start(group), group_end(group)),
    {
        let (lo, hi) = group_slots(group);
        let mut m = self.properties[lo].houses;
        let mut k = lo + 1;
        while k < hi
            invariant
                properties_wf(self.properties@),
                lo == group_start(group),
                hi == group_end(group),
                lo < k <= hi,
                m == max_level(self.properties@, lo as int, k as int),
            decreases hi - k,
        {
            if self.properties[k].houses > m {
                m = self.properties[k].houses;
            }
            k += 1;
        }
        m
    }
}

/// A change of one player's cash keeps ids, presence and player validity.
pub proof fn lemma_players_same(s: GameState, t: GameState)
    requires
        s.players@.len() == t.players@.len(),
        forall|x: int| 0 <= x < s.players@.len() ==> #[trigger] t.players@[x] == (PlayerState { money: t.players@[x].money, ..s.players@[x] }),
        forall|x: int| 0 <= x < s.players@.len() ==> player_wf(#[trigger] s.players@[x]),
    ensures
        forall|x: int| 0 <= x < t.players@.len() ==> player_wf(#[trigger] t.players@[x]),
        forall|o: Seq<char>| has_player(s.players@, o) ==> #[trigger] has_player(t.players@, o),
        crate::state::ids_distinct(s.players@) ==> crate::state::ids_distinct(t.players@),
{
    assert forall|x: int| 0 <= x < t.players@.len() implies player_wf(#[trigger] t.players@[x]) by {
        assert(player_wf(s.players@[x]));
    }
    assert forall|o: Seq<char>| has_player(s.players@, o) implies #[trigger] has_player(t.players@, o) by {
        let w = choose|w: int| 0 <= w < s.players@.len() && #[trigger] s.players@[w].id@ == o;
        assert(t.players@[w].id@ == o);
    }
    if crate::state::ids_distinct(s.players@) {
        assert forall|a: int, b: int| 0 <= a < t.players@.len() && 0 <= b < t.players@.len() && a != b implies
            #[trigger] t.players@[a].id@ != #[trigger] t.players@[b].id@ by {
            assert(t.players@[a].id == s.players@[a].id);
            assert(t.players@[b].id == s.players@[b].id);
        }
    }
}

/// First and one-past-last slot of `group`.
pub fn group_slots(group: PropertyGroup) -> (r: (usize, usize))
    ensures
        r.0 == group_start(group),
        r.1 == group_end(group),
        r.0 < r.1 <= PROPERTY_COUNT,
        r.1 - r.0 <= 4,
{
    match group {
        PropertyGroup::Brown => (0, 2),
        PropertyGroup::Railroad => (2, 6),
        PropertyGroup::LightBlue => (6, 9),
        PropertyGroup::Pink => (9, 12),
        PropertyGroup::Utility => (12, 14),
        PropertyGroup::Orange => (14, 17),
        PropertyGroup::Red => (17, 20),
        PropertyGroup::Yellow => (20, 23),
        PropertyGroup::Green => (23, 26),
        PropertyGroup::DarkBlue => (26, 28),
    }
}

} // verus!
