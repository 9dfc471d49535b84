//! Villagers: what they are, what they eat, what they trade and what they lay claim
//! to.

use vstd::prelude::*;

use self::data::{
    food_points, get_food_points, type_of_biome, villager_type_from_biome_id, Item, VarInt,
    VillagerData, VillagerProfession, BREEDING_FOOD_THRESHOLD,
};
use self::poi::HeldTickets;
use crate::data::position::BlockPos;
use crate::data::rank::{Rank32, Rank64};
use crate::entity::ai::pathfinder::Navigator;
use crate::random::{draw_some, drawn_from};

pub mod data;
pub mod poi;

verus! {

/// How many stacks a villager carries.
pub const INVENTORY_SIZE: usize = 8;

/// How many stacks lie in the trading screen of a villager.
pub const MERCHANT_INVENTORY_SIZE: usize = 3;

/// How fast (0.5) a villager goes about.
pub const WALKING_SPEED: Rank64 = 0x3FE0_0000_0000_0000;

/// A stack of items, empty where its count is 0.
#[derive(Clone, Copy, Debug, PartialEq, Eq, Structural)]
pub struct Stack {
    pub item: Item,
    pub count: u8,
}

/// An amount of an item in a trade.
#[derive(Clone, Copy, Debug, PartialEq, Eq, Structural)]
pub struct TradeItem {
    pub item: u16,
    pub count: i32,
}

/// A trade that villagers of a profession offer.
#[derive(Clone, Copy, Debug, PartialEq, Eq, Structural)]
pub struct Trade {
    pub wants: TradeItem,
    pub wants_b: Option<TradeItem>,
    pub gives: TradeItem,
    pub max_uses: i32,
    pub xp: i32,
    pub price_multiplier: Rank32,
}

/// The trades of a profession at a level, and how many of them a villager offers.
pub struct TradeSet {
    pub trades: Vec<Trade>,
    pub amount: usize,
}

/// A stack in an offer.
#[derive(Clone, Copy, Debug, PartialEq, Eq, Structural)]
pub struct OfferStack {
    pub item: u16,
    pub count: u8,
}

/// An offer of a villager.
#[derive(Clone, Copy, Debug, PartialEq, Eq, Structural)]
pub struct MerchantOffer {
    pub base_cost_a: OfferStack,
    pub output: OfferStack,
    pub cost_b: Option<OfferStack>,
    pub is_disabled: bool,
    pub uses: i32,
    pub max_uses: i32,
    pub xp: i32,
    pub special_price: i32,
    pub price_multiplier: Rank32,
    pub demand: i32,
}

/// What a player is sent when it opens a trading screen.
pub struct TradingScreen {
    pub window_id: i32,
    pub offers: Vec<MerchantOffer>,
    pub level: i32,
    pub xp: i32,
    pub shows_progress: bool,
    pub can_restock: bool,
}

/// What a villager has been told of someone: of which kind, and how much of it.
#[derive(Clone, Copy, Debug, PartialEq, Eq, Structural)]
pub struct Gossip {
    pub about: u128,
    pub kind: u8,
    pub value: i32,
}

/// A villager.
pub struct VillagerEntity {
    pub villager_data: VillagerData,
    pub food_level: i32,
    pub xp: i32,
    pub last_restock_time: i64,
    pub restocks_today: i32,
    /// What the villager has been told of others.
    pub gossips: Vec<Gossip>,
    pub inventory: Vec<Stack>,
    /// What lies in its trading screen.
    pub merchant_inventory: Vec<Stack>,
    pub offers: Vec<MerchantOffer>,
    pub job_site: Option<BlockPos>,
    pub home_pos: Option<BlockPos>,
    pub held_tickets: HeldTickets,
    /// What keeps the villager on its way.
    pub navigator: Navigator,
}

/// Whom a villager keeps away from.
#[derive(Clone, Copy, Debug, PartialEq, Eq, Structural)]
pub enum Threat {
    Zombie,
    ZombieVillager,
    Husk,
    Drowned,
    Pillager,
    Vindicator,
    Evoker,
    Ravager,
    Vex,
}

/// The goals of a villager.
#[derive(Clone, Copy, Debug, PartialEq, Eq, Structural)]
pub enum VillagerGoal {
    Swim,
    /// Runs from danger with the speed.
    EscapeDanger { speed: Rank64 },
    /// Keeps away from a threat that is within some blocks.
    Avoid { threat: Threat, blocks: i32, walk_speed: Rank64, sprint_speed: Rank64 },
    /// Opens doors, and closes them behind it or not.
    OpenDoors { closes: bool },
    /// Goes where it belongs at this time of day, with the speed.
    FollowSchedule { speed: Rank64 },
    /// Roams with the speed.
    WanderAround { speed: Rank64 },
    /// Looks at players that are within some blocks.
    LookAtPlayers { blocks: i32 },
    /// Looks at villagers that are within some blocks.
    LookAtVillagers { blocks: i32 },
    RandomLookAround,
}

/// An empty stack.
pub open spec fn empty_stack() -> Stack {
    Stack { item: Item::Other(0), count: 0 }
}

/// As many empty stacks.
pub open spec fn empty_stacks(count: nat) -> Seq<Stack> {
    Seq::new(count, |i: int| empty_stack())
}

/// As many empty stacks.
fn make_empty_stacks(count: usize) -> (r: Vec<Stack>)
    ensures
        r@ == empty_stacks(count as nat),
{
    let mut stacks: Vec<Stack> = Vec::new();
    let mut i: usize = 0;
    assert(stacks@ =~= empty_stacks(0));
    while i < count
        invariant
            i <= count,
            stacks@ == empty_stacks(i as nat),
        decreases count - i,
    {
        stacks.push(Stack { item: Item::Other(0), count: 0 });
        i = i + 1;
        assert(stacks@ =~= empty_stacks(i as nat));
    }
    stacks
}

/// The food in a stack.
pub open spec fn food_in(stack: Stack) -> int {
    food_points(stack.item) * stack.count
}

/// The food in all the stacks.
pub open spec fn food_in_all(stacks: Seq<Stack>) -> int
    decreases stacks.len(),
{
    if stacks.len() == 0 {
        0
    } else {
        food_in_all(stacks.drop_last()) + food_in(stacks.last())
    }
}

/// How many items of a stack a villager eats: as many as it takes, or all.
pub open spec fn eaten_of(count: int, points: int, level: int) -> int
    decreases count,
{
    if count > 0 && level < BREEDING_FOOD_THRESHOLD {
        1 + eaten_of(count - 1, points, level + points)
    } else {
        0
    }
}

/// A stack after a villager with the food level has eaten of it.
pub open spec fn eaten_stack(stack: Stack, level: int) -> Stack {
    let points = food_points(stack.item) as int;
    if stack.count == 0 || points == 0 || level >= BREEDING_FOOD_THRESHOLD {
        stack
    } else {
        let left = stack.count - eaten_of(stack.count as int, points, level);
        if left == 0 {
            empty_stack()
        } else {
            Stack { count: left as u8, ..stack }
        }
    }
}

/// The food level after a villager has eaten of a stack.
pub open spec fn eaten_level(stack: Stack, level: int) -> int {
    let points = food_points(stack.item) as int;
    if stack.count == 0 || points == 0 || level >= BREEDING_FOOD_THRESHOLD {
        level
    } else {
        level + points * eaten_of(stack.count as int, points, level)
    }
}

/// The food level after a villager has eaten of all the stacks in turn.
pub open spec fn level_after(stacks: Seq<Stack>, level: int) -> int
    decreases stacks.len(),
{
    if stacks.len() == 0 {
        level
    } else {
        eaten_level(stacks.last(), level_after(stacks.drop_last(), level))
    }
}

/// The stacks after a villager has eaten of all of them in turn.
pub open spec fn stacks_after(stacks: Seq<Stack>, level: int) -> Seq<Stack> {
    Seq::new(
        stacks.len(),
        |i: int| eaten_stack(stacks[i], level_after(stacks.take(i), level)),
    )
}

/// The goal to keep away from a threat that is within some blocks.
pub open spec fn avoiding(threat: Threat, blocks: i32) -> VillagerGoal {
    VillagerGoal::Avoid {
        threat,
        blocks,
        walk_speed: WALKING_SPEED,
        sprint_speed: WALKING_SPEED,
    }
}

/// The goal to keep away from a threat that is within some blocks.
fn keep_away(threat: Threat, blocks: i32) -> (r: VillagerGoal)
    ensures
        r == avoiding(threat, blocks),
{
    VillagerGoal::Avoid {
        threat,
        blocks,
        walk_speed: WALKING_SPEED,
        sprint_speed: WALKING_SPEED,
    }
}

/// The offer of a trade.
pub open spec fn offer_of(trade: Trade) -> MerchantOffer {
    MerchantOffer {
        base_cost_a: OfferStack { item: trade.wants.item, count: trade.wants.count as u8 },
        output: OfferStack { item: trade.gives.item, count: trade.gives.count as u8 },
        cost_b: match trade.wants_b {
            Some(wants) => Some(OfferStack { item: wants.item, count: wants.count as u8 }),
            None => None,
        },
        is_disabled: false,
        uses: 0,
        max_uses: trade.max_uses,
        xp: trade.xp,
        special_price: 0,
        price_multiplier: trade.price_multiplier,
        demand: 0,
    }
}

/// A stack in an offer, of whose count the lower 8 bits count.
fn offer_stack(item: &TradeItem) -> (r: OfferStack)
    ensures
        r == (OfferStack { item: item.item, count: item.count as u8 }),
{
    OfferStack { item: item.item, count: #[verifier::truncate] (item.count as u8) }
}

/// The offer of a trade.
pub fn make_offer(trade: &Trade) -> (r: MerchantOffer)
    ensures
        r == offer_of(*trade),
{
    MerchantOffer {
        base_cost_a: offer_stack(&trade.wants),
        output: offer_stack(&trade.gives),
        cost_b: match &trade.wants_b {
            Some(wants) => Some(offer_stack(wants)),
            None => None,
        },
        is_disabled: false,
        uses: 0,
        max_uses: trade.max_uses,
        xp: trade.xp,
        special_price: 0,
        price_multiplier: trade.price_multiplier,
        demand: 0,
    }
}

impl VillagerEntity {
    /// A villager as it comes into the world in the biome: without a profession, in the
    /// clothes of the land, with empty hands, on no way, and able to open doors.
    pub fn new(biome: &str) -> (r: Self)
        ensures
            r.villager_data == (VillagerData {
                villager_type: VarInt(type_of_biome(biome@).spec_number()),
                profession: VarInt(VillagerProfession::Unemployed.spec_number()),
                level: VarInt(1),
            }),
            r.inventory@ == empty_stacks(INVENTORY_SIZE as nat),
            r.merchant_inventory@ == empty_stacks(MERCHANT_INVENTORY_SIZE as nat),
            r.gossips@ == Seq::<Gossip>::empty(),
            r.offers@ == Seq::<MerchantOffer>::empty(),
            !r.held_tickets.spec_home(),
            !r.held_tickets.spec_job_site(),
            r.navigator.can_open_doors == Some(true),
            r.navigator.is_new(),
            r == (VillagerEntity {
                villager_data: r.villager_data,
                food_level: 0,
                xp: 0,
                last_restock_time: 0,
                restocks_today: 0,
                gossips: r.gossips,
                inventory: r.inventory,
                merchant_inventory: r.merchant_inventory,
                offers: r.offers,
                job_site: None,
                home_pos: None,
                held_tickets: r.held_tickets,
                navigator: r.navigator,
            }),
    {
        let villager_data: VillagerData = VillagerData::new(
            villager_type_from_biome_id(biome),
            VillagerProfession::Unemployed,
            1,
        );
        let inventory: Vec<Stack> = make_empty_stacks(INVENTORY_SIZE);
        let merchant_inventory: Vec<Stack> = make_empty_stacks(MERCHANT_INVENTORY_SIZE);
        let mut navigator: Navigator = Navigator::default();
        navigator.set_can_open_doors(true);
        VillagerEntity {
            villager_data,
            food_level: 0,
            xp: 0,
            last_restock_time: 0,
            restocks_today: 0,
            gossips: Vec::new(),
            inventory,
            merchant_inventory,
            offers: Vec::new(),
            job_site: None,
            home_pos: None,
            held_tickets: HeldTickets::default(),
            navigator,
        }
    }

    /// What a villager does, the more pressing first: it keeps away from zombies and their
    /// like within 8 blocks and from illagers and their like within 12.
    pub fn goals() -> (r: Vec<(u8, VillagerGoal)>)
        ensures
            r@ == seq![
                (0u8, VillagerGoal::Swim),
                (0u8, VillagerGoal::EscapeDanger { speed: WALKING_SPEED }),
                (1u8, avoiding(Threat::Zombie, 8)),
                (1u8, avoiding(Threat::ZombieVillager, 8)),
                (1u8, avoiding(Threat::Husk, 8)),
                (1u8, avoiding(Threat::Drowned, 8)),
                (1u8, avoiding(Threat::Pillager, 12)),
                (1u8, avoiding(Threat::Vindicator, 12)),
                (1u8, avoiding(Threat::Evoker, 12)),
                (1u8, avoiding(Threat::Ravager, 12)),
                (1u8, avoiding(Threat::Vex, 12)),
                (2u8, VillagerGoal::OpenDoors { closes: true }),
                (2u8, VillagerGoal::FollowSchedule { speed: WALKING_SPEED }),
                (2u8, VillagerGoal::WanderAround { speed: WALKING_SPEED }),
                (3u8, VillagerGoal::LookAtPlayers { blocks: 8 }),
                (4u8, VillagerGoal::LookAtVillagers { blocks: 8 }),
                (5u8, VillagerGoal::RandomLookAround),
            ],
    {
        let mut goals: Vec<(u8, VillagerGoal)> = Vec::new();
        goals.push((0, VillagerGoal::Swim));
        goals.push((0, VillagerGoal::EscapeDanger { speed: WALKING_SPEED }));
        goals.push((1, keep_away(Threat::Zombie, 8)));
        goals.push((1, keep_away(Threat::ZombieVillager, 8)));
        goals.push((1, keep_away(Threat::Husk, 8)));
        goals.push((1, keep_away(Threat::Drowned, 8)));
        goals.push((1, keep_away(Threat::Pillager, 12)));
        goals.push((1, keep_away(Threat::Vindicator, 12)));
        goals.push((1, keep_away(Threat::Evoker, 12)));
        goals.push((1, keep_away(Threat::Ravager, 12)));
        goals.push((1, keep_away(Threat::Vex, 12)));
        goals.push((2, VillagerGoal::OpenDoors { closes: true }));
        goals.push((2, VillagerGoal::FollowSchedule { speed: WALKING_SPEED }));
        goals.push((2, VillagerGoal::WanderAround { speed: WALKING_SPEED }));
        goals.push((3, VillagerGoal::LookAtPlayers { blocks: 8 }));
        goals.push((4, VillagerGoal::LookAtVillagers { blocks: 8 }));
        goals.push((5, VillagerGoal::RandomLookAround));
        goals
    }

    /// The food that the villager carries.
    pub fn count_food_points_in_inventory(&self) -> (r: i32)
        requires
            food_in_all(self.inventory@) <= i32::MAX,
        ensures
            r == food_in_all(self.inventory@),
    {
        let mut total: i32 = 0;
        let mut i: usize = 0;
        while i < self.inventory.len()
            invariant
                i <= self.inventory@.len(),
                total == food_in_all(self.inventory@.take(i as int)),
                food_in_all(self.inventory@) <= i32::MAX,
                0 <= total,
            decreases self.inventory.len() - i,
        {
            let stack: Stack = self.inventory[i];
            proof {
                assert(self.inventory@.take(i as int + 1).drop_last() =~= self.inventory@.take(
                    i as int,
                ));
                lemma_food_in_prefix(self.inventory@, i as int + 1);
                if stack.count == 0 {
                    lemma_no_food(stack);
                }
                assert(0 <= food_points(stack.item) * stack.count <= 4 * 255) by (nonlinear_arith)
                    requires
                        0 <= food_points(stack.item) <= 4,
                        0 <= stack.count <= 255,
                ;
            }
            if stack.count > 0 {
                let points: i32 = get_food_points(&stack.item);
                total = total + points * stack.count as i32;
            }
            i = i + 1;
        }
        assert(self.inventory@.take(i as int) =~= self.inventory@);
        total
    }

    /// Lets the villager eat what it carries, stack by stack, until it has enough to breed.
    pub fn eat_until_full(&mut self)
        ensures
            final(self).food_level == level_after(
                old(self).inventory@,
                old(self).food_level as int,
            ),
            final(self).inventory@ == stacks_after(
                old(self).inventory@,
                old(self).food_level as int,
            ),
            *final(self) == (VillagerEntity {
                food_level: final(self).food_level,
                inventory: final(self).inventory,
                ..*old(self)
            }),
    {
        let ghost stacks = self.inventory@;
        let ghost start = self.food_level as int;
        let mut i: usize = 0;
        while i < self.inventory.len()
            invariant
                i <= stacks.len(),
                stacks == old(self).inventory@,
                start == old(self).food_level,
                self.inventory@.len() == stacks.len(),
                self.food_level == level_after(stacks.take(i as int), start),
                forall|j: int|
                    0 <= j < i ==> #[trigger] self.inventory@[j] == eaten_stack(
                        stacks[j],
                        level_after(stacks.take(j), start),
                    ),
                forall|j: int| i <= j < stacks.len() ==> #[trigger] self.inventory@[j] == stacks[j],
                *self == (VillagerEntity {
                    food_level: self.food_level,
                    inventory: self.inventory,
                    ..*old(self)
                }),
            decreases self.inventory.len() - i,
        {
            assert(stacks.take(i as int + 1).drop_last() =~= stacks.take(i as int));
            let mut stack: Stack = self.inventory[i];
            let points: i32 = get_food_points(&stack.item);
            let ghost level = self.food_level as int;
            let ghost count = stack.count as int;
            if stack.count > 0 && points > 0 && self.food_level < BREEDING_FOOD_THRESHOLD {
                let mut eaten: u8 = 0;
                while eaten < stack.count && self.food_level < BREEDING_FOOD_THRESHOLD
                    invariant
                        eaten <= stack.count,
                        count == stack.count,
                        1 <= points <= 4,
                        self.food_level == level + points * eaten,
                        eaten_of(count, points as int, level) == eaten + eaten_of(
                            count - eaten,
                            points as int,
                            self.food_level as int,
                        ),
                        *self == (VillagerEntity {
                            food_level: self.food_level,
                            inventory: self.inventory,
                            ..*old(self)
                        }),
                        self.inventory@.len() == stacks.len(),
                        forall|j: int|
                            0 <= j < i ==> #[trigger] self.inventory@[j] == eaten_stack(
                                stacks[j],
                                level_after(stacks.take(j), start),
                            ),
                        forall|j: int|
                            i <= j < stacks.len() ==> #[trigger] self.inventory@[j] == stacks[j],
                    decreases stack.count - eaten,
                {
                    assert(points * (eaten + 1) == points * eaten + points) by (nonlinear_arith);
                    self.food_level = self.food_level + points;
                    eaten = eaten + 1;
                }
                stack.count = stack.count - eaten;
                if stack.count == 0 {
                    stack = Stack { item: Item::Other(0), count: 0 };
                }
                self.inventory.set(i, stack);
            }
            i = i + 1;
        }
        assert(stacks.take(i as int) =~= stacks);
        assert(self.inventory@ =~= stacks_after(stacks, start));
    }

    /// Makes the villager another. Where it has another profession then, all its offers are
    /// made anew, from the trades of that profession at that level; returns whether that is
    /// so, and the villager is to be heard at its new work. `trade_set` gives the trades of a
    /// profession at a level.
    pub fn set_villager_data<F: Fn(VillagerProfession, i32) -> Option<TradeSet>>(
        &mut self,
        data: VillagerData,
        trade_set: &F,
    ) -> (r: bool)
        requires
            old(self).villager_data.profession != data.profession ==> call_requires(
                *trade_set,
                (data.spec_profession(), data.level.0),
            ),
        ensures
            r == (old(self).villager_data.profession != data.profession),
            *final(self) == (VillagerEntity {
                villager_data: data,
                offers: final(self).offers,
                ..*old(self)
            }),
            !r ==> final(self).offers == old(self).offers,
            r ==> offers_made(
                *trade_set,
                data.spec_profession(),
                data.level.0,
                Seq::empty(),
                final(self).offers@,
            ),
    {
        let changed: bool = self.villager_data.profession.0 != data.profession.0;
        self.villager_data = data;
        if changed {
            self.generate_trades(data.profession_enum(), data.level.0, trade_set);
        }
        changed
    }

    /// What a player is sent when it opens the trading screen of the villager.
    pub fn open_trading_screen(&self, sync_id: u8) -> (r: TradingScreen)
        ensures
            r.window_id == sync_id,
            r.offers@ == self.offers@,
            r.level == self.villager_data.level.0,
            r.xp == self.xp,
            r.shows_progress,
            r.can_restock,
    {
        let mut offers: Vec<MerchantOffer> = Vec::new();
        let mut i: usize = 0;
        while i < self.offers.len()
            invariant
                i <= self.offers@.len(),
                offers@ == self.offers@.take(i as int),
            decreases self.offers.len() - i,
        {
            offers.push(self.offers[i]);
            i = i + 1;
            assert(offers@ =~= self.offers@.take(i as int));
        }
        assert(offers@ =~= self.offers@);
        TradingScreen {
            window_id: sync_id as i32,
            offers,
            level: self.villager_data.level.0,
            xp: self.xp,
            shows_progress: true,
            can_restock: true,
        }
    }

    /// Adds the offers of the trades, in order.
    pub fn add_chosen_trades(&mut self, chosen: &Vec<Trade>)
        ensures
            final(self).offers@ == old(self).offers@ + chosen@.map_values(
                |trade: Trade| offer_of(trade),
            ),
            *final(self) == (VillagerEntity { offers: final(self).offers, ..*old(self) }),
    {
        let ghost before = self.offers@;
        let mut i: usize = 0;
        assert(self.offers@ =~= before + chosen@.take(0).map_values(|trade: Trade| offer_of(trade)));
        while i < chosen.len()
            invariant
                i <= chosen@.len(),
                self.offers@ == before + chosen@.take(i as int).map_values(
                    |trade: Trade| offer_of(trade),
                ),
                *self == (VillagerEntity { offers: self.offers, ..*old(self) }),
            decreases chosen.len() - i,
        {
            self.offers.push(make_offer(&chosen[i]));
            i = i + 1;
            assert(self.offers@ =~= before + chosen@.take(i as int).map_values(
                |trade: Trade| offer_of(trade),
            ));
        }
        assert(chosen@.take(i as int) =~= chosen@);
    }

    /// Adds offers for some of the trades of the profession at the level, drawn by lot: as many
    /// as the set says, or all where there are fewer. Where there is no set nothing is added.
    /// `trade_set` gives the trades of a profession at a level.
    pub fn add_trades<F: Fn(VillagerProfession, i32) -> Option<TradeSet>>(
        &mut self,
        profession: VillagerProfession,
        level: i32,
        trade_set: &F,
    )
        requires
            call_requires(*trade_set, (profession, level)),
        ensures
            *final(self) == (VillagerEntity { offers: final(self).offers, ..*old(self) }),
            offers_made(*trade_set, profession, level, old(self).offers@, final(self).offers@),
    {
        let found: Option<TradeSet> = trade_set(profession, level);
        assert(call_ensures(*trade_set, (profession, level), found));
        if let Some(set) = &found {
            let chosen: Vec<Trade> = draw_some(&set.trades, set.amount);
            let ghost before = self.offers@;
            self.add_chosen_trades(&chosen);
            assert(is_choice(chosen@, *set));
            assert(offers_added(before, self.offers@, *set));
        }
    }

    /// Makes all offers of the villager anew, from the trades of the profession at the level.
    pub fn generate_trades<F: Fn(VillagerProfession, i32) -> Option<TradeSet>>(
        &mut self,
        profession: VillagerProfession,
        level: i32,
        trade_set: &F,
    )
        requires
            call_requires(*trade_set, (profession, level)),
        ensures
            *final(self) == (VillagerEntity { offers: final(self).offers, ..*old(self) }),
            offers_made(*trade_set, profession, level, Seq::empty(), final(self).offers@),
    {
        self.offers = Vec::new();
        self.add_trades(profession, level, trade_set);
    }
}

/// The trades are a choice of the set: as many as it says, or all where there are fewer,
/// and none of them twice.
pub open spec fn is_choice(chosen: Seq<Trade>, set: TradeSet) -> bool {
    &&& chosen.len() == (if set.amount < set.trades@.len() {
        set.amount as nat
    } else {
        set.trades@.len()
    })
    &&& drawn_from(chosen, set.trades@)
}

/// The offers have grown by those of a choice of the set.
pub open spec fn offers_added(
    before: Seq<MerchantOffer>,
    after: Seq<MerchantOffer>,
    set: TradeSet,
) -> bool {
    exists|chosen: Seq<Trade>|
        #[trigger] is_choice(chosen, set) && after == before + chosen.map_values(
            |trade: Trade| offer_of(trade),
        )
}

/// The offers have grown by those of a choice of the trades of the profession at the level, and
/// not at all where there are none.
pub open spec fn offers_made<F: Fn(VillagerProfession, i32) -> Option<TradeSet>>(
    trade_set: F,
    profession: VillagerProfession,
    level: i32,
    before: Seq<MerchantOffer>,
    after: Seq<MerchantOffer>,
) -> bool {
    exists|found: Option<TradeSet>| #[trigger]
        call_ensures(trade_set, (profession, level), found) && match found {
            Some(set) => offers_added(before, after, set),
            None => after == before,
        }
}

/// Some of the stacks hold no more food than all.
proof fn lemma_food_in_prefix(stacks: Seq<Stack>, k: int)
    requires
        0 <= k <= stacks.len(),
    ensures
        food_in_all(stacks.take(k)) <= food_in_all(stacks),
    decreases stacks.len() - k,
{
    if k == stacks.len() {
        assert(stacks.take(k) =~= stacks);
    } else {
        lemma_food_in_prefix(stacks, k + 1);
        assert(stacks.take(k + 1).drop_last() =~= stacks.take(k));
        let stack = stacks[k];
        assert(food_points(stack.item) * stack.count >= 0) by (nonlinear_arith)
            requires
                food_points(stack.item) >= 0,
                stack.count >= 0,
        ;
    }
}

/// There is no food in a stack that is empty or holds none.
proof fn lemma_no_food(stack: Stack)
    requires
        stack.count == 0 || food_points(stack.item) == 0,
    ensures
        food_in(stack) == 0,
{
    let points = food_points(stack.item);
    assert(points * stack.count == 0) by (nonlinear_arith)
        requires
            stack.count == 0 || points == 0,
    ;
}

/// What is eaten of a stack is part of it, and stops at the threshold.
proof fn lemma_eaten_of(count: int, points: int, level: int)
    requires
        count >= 0,
        points > 0,
    ensures
        0 <= eaten_of(count, points, level) <= count,
        level + points * eaten_of(count, points, level) >= BREEDING_FOOD_THRESHOLD || eaten_of(
            count,
            points,
            level,
        ) == count,
        level < BREEDING_FOOD_THRESHOLD ==> level + points * eaten_of(count, points, level)
            < BREEDING_FOOD_THRESHOLD + points,
    decreases count,
{
    if count > 0 && level < BREEDING_FOOD_THRESHOLD {
        lemma_eaten_of(count - 1, points, level + points);
        let rest = eaten_of(count - 1, points, level + points);
        assert(points * (1 + rest) == points + points * rest) by (nonlinear_arith);
        if level + points >= BREEDING_FOOD_THRESHOLD {
            assert(rest == 0);
            assert(points * 0 == 0) by (nonlinear_arith);
        }
    } else {
        assert(points * 0 == 0) by (nonlinear_arith);
    }
}

/// Law: a villager that eats turns food that it carries into food that it has eaten, bit by
/// bit: nothing is lost, and nothing comes from nowhere.
pub proof fn law_eating_loses_no_food(stacks: Seq<Stack>, level: int)
    ensures
        level_after(stacks, level) + food_in_all(stacks_after(stacks, level)) == level
            + food_in_all(stacks),
    decreases stacks.len(),
{
    if stacks.len() > 0 {
        let rest = stacks.drop_last();
        let last = stacks.last();
        law_eating_loses_no_food(rest, level);
        let before = level_after(rest, level);
        let after = stacks_after(stacks, level);
        assert(after.drop_last() =~= stacks_after(rest, level)) by {
            assert forall|i: int| 0 <= i < rest.len() implies #[trigger] after[i] == stacks_after(
                rest,
                level,
            )[i] by {
                assert(stacks.take(i) =~= rest.take(i));
                assert(stacks[i] == rest[i]);
            }
        }
        assert(stacks.take(stacks.len() - 1) =~= rest);
        assert(after.last() == eaten_stack(last, before));
        let points = food_points(last.item) as int;
        if !(last.count == 0 || points == 0 || before >= BREEDING_FOOD_THRESHOLD) {
            let eaten = eaten_of(last.count as int, points, before);
            lemma_eaten_of(last.count as int, points, before);
            assert(points * (last.count - eaten) == points * last.count - points * eaten)
                by (nonlinear_arith);
            lemma_no_food(empty_stack());
        }
    }
}

/// Law: a villager eats until it has enough or carries no more food, and it does not eat on
/// after it has enough.
pub proof fn law_villager_eats_until_full(stacks: Seq<Stack>, level: int)
    ensures
        level_after(stacks, level) >= BREEDING_FOOD_THRESHOLD || food_in_all(
            stacks_after(stacks, level),
        ) == 0,
        level_after(stacks, level) >= level,
        level < BREEDING_FOOD_THRESHOLD ==> level_after(stacks, level) < BREEDING_FOOD_THRESHOLD + 4,
        level >= BREEDING_FOOD_THRESHOLD ==> level_after(stacks, level) == level,
    decreases stacks.len(),
{
    if stacks.len() > 0 {
        let rest = stacks.drop_last();
        let last = stacks.last();
        law_villager_eats_until_full(rest, level);
        let before = level_after(rest, level);
        let after = stacks_after(stacks, level);
        assert(after.drop_last() =~= stacks_after(rest, level)) by {
            assert forall|i: int| 0 <= i < rest.len() implies #[trigger] after[i] == stacks_after(
                rest,
                level,
            )[i] by {
                assert(stacks.take(i) =~= rest.take(i));
                assert(stacks[i] == rest[i]);
            }
        }
        assert(stacks.take(stacks.len() - 1) =~= rest);
        assert(after.last() == eaten_stack(last, before));
        let points = food_points(last.item) as int;
        if last.count == 0 || points == 0 {
            lemma_no_food(last);
        } else if before < BREEDING_FOOD_THRESHOLD {
            let eaten = eaten_of(last.count as int, points, before);
            lemma_eaten_of(last.count as int, points, before);
            assert(points * eaten >= 0) by (nonlinear_arith)
                requires
                    points > 0,
                    eaten >= 0,
            ;
            lemma_no_food(empty_stack());
        }
    }
}

/// Law: an offer asks for what its trade wants and gives what its trade gives. It asks for a
/// second item exactly when the trade does, and for the same one. Nothing has been bought of a
/// new offer, and its price is that of the trade.
pub proof fn law_offer_is_that_of_its_trade(trade: Trade, offer: MerchantOffer)
    requires
        call_ensures(make_offer, (&trade,), offer),
    ensures
        offer.base_cost_a.item == trade.wants.item,
        0 <= trade.wants.count <= 255 ==> offer.base_cost_a.count == trade.wants.count,
        offer.output.item == trade.gives.item,
        0 <= trade.gives.count <= 255 ==> offer.output.count == trade.gives.count,
        offer.cost_b is Some <==> trade.wants_b is Some,
        trade.wants_b is Some ==> offer.cost_b->0.item == trade.wants_b->0.item,
        trade.wants_b is Some && 0 <= trade.wants_b->0.count <= 255 ==> offer.cost_b->0.count
            == trade.wants_b->0.count,
        !offer.is_disabled,
        offer.uses == 0,
        offer.max_uses == trade.max_uses,
        offer.xp == trade.xp,
        offer.special_price == 0,
        offer.demand == 0,
        offer.price_multiplier == trade.price_multiplier,
{
}

/// Law: a new villager has no profession, at the first level, carries 8 empty stacks and lays 3 on
/// its trading screen, has eaten nothing, offers nothing and claims nothing.
pub proof fn law_new_villager_has_nothing(biome: &str, r: VillagerEntity)
    requires
        call_ensures(VillagerEntity::new, (biome,), r),
    ensures
        r.villager_data.profession.0 == 0,
        r.villager_data.level.0 == 1,
        r.inventory@.len() == 8,
        forall|i: int| 0 <= i < 8 ==> (#[trigger] r.inventory@[i]).count == 0,
        r.merchant_inventory@.len() == 3,
        forall|i: int| 0 <= i < 3 ==> (#[trigger] r.merchant_inventory@[i]).count == 0,
        r.offers@.len() == 0,
        r.food_level == 0,
        r.xp == 0,
        r.home_pos is None,
        r.job_site is None,
        r.navigator.can_open_doors == Some(true),
        biome@ == "desert"@ ==> r.villager_data.villager_type.0 == 0,
{
}

/// Law: a villager swims and flees before all else, then keeps away from zombies and their like
/// within 8 blocks and from illagers and theirs within 12, then opens doors and goes about its
/// day, and only then looks around. It goes about at half its speed.
pub proof fn law_villager_flees_first(r: Vec<(u8, VillagerGoal)>, i: int, j: int)
    requires
        call_ensures(VillagerEntity::goals, (), r),
        0 <= i < j < r@.len(),
    ensures
        r@.len() == 17,
        r@[i].0 <= r@[j].0,
        r@[i].1 is EscapeDanger || r@[i].1 == VillagerGoal::Swim <==> r@[i].0 == 0,
        r@[i].1 is Avoid <==> r@[i].0 == 1,
        r@[j].1 is Avoid <==> r@[j].0 == 1,
        r@[i].1 is Avoid ==> r@[i].1->walk_speed == 0x3FE0_0000_0000_0000 && r@[i].1->sprint_speed
            == 0x3FE0_0000_0000_0000,
        r@[i].1 is Avoid ==> r@[i].1->Avoid_blocks == (match r@[i].1->threat {
            Threat::Zombie | Threat::ZombieVillager | Threat::Husk | Threat::Drowned => 8int,
            _ => 12int,
        }),
        r@[i].1 is Avoid && r@[j].1 is Avoid ==> r@[i].1->threat != r@[j].1->threat,
        r@[i].1 is FollowSchedule ==> r@[i].0 == 2 && r@[i].1->FollowSchedule_speed
            == 0x3FE0_0000_0000_0000,
        r@[i].1 is WanderAround ==> r@[i].0 == 2 && r@[i].1->WanderAround_speed
            == 0x3FE0_0000_0000_0000,
        r@[i].1 is EscapeDanger ==> r@[i].1->EscapeDanger_speed == 0x3FE0_0000_0000_0000,
        r@[i].1 is LookAtPlayers ==> r@[i].0 == 3 && r@[i].1->LookAtPlayers_blocks == 8,
        r@[i].1 is LookAtVillagers ==> r@[i].0 == 4 && r@[i].1->LookAtVillagers_blocks == 8,
        r@[16].1 == VillagerGoal::RandomLookAround,
{
}

/// Law: the food that a villager carries is that of its stacks, each loaf counting for four and
/// each root for one.
pub proof fn law_carried_food_is_counted(
    villager: VillagerEntity,
    r: i32,
    more: VillagerEntity,
    of_more: i32,
    stack: Stack,
)
    requires
        call_ensures(VillagerEntity::count_food_points_in_inventory, (&villager,), r),
        call_ensures(VillagerEntity::count_food_points_in_inventory, (&more,), of_more),
        more.inventory@ == villager.inventory@.push(stack),
    ensures
        villager.inventory@.len() == 0 ==> r == 0,
        stack.item == Item::Bread ==> of_more == r + 4 * stack.count,
        stack.item == Item::Carrot || stack.item == Item::Potato || stack.item == Item::Beetroot
            ==> of_more == r + stack.count,
        stack.item is Other ==> of_more == r,
{
    assert(more.inventory@.drop_last() =~= villager.inventory@);
    assert(more.inventory@.last() == stack);
    let count = stack.count as int;
    assert(1 * count == count && 0 * count == 0) by (nonlinear_arith);
}

/// Law: a villager eats until it has 12 points of food or carries none, keeps what it does not
/// need, and loses none of it.
pub proof fn law_villager_eats_to_twelve(villager: &mut VillagerEntity)
    requires
        call_ensures(VillagerEntity::eat_until_full, (villager,), ()),
    ensures
        final(villager).food_level >= 12 || food_in_all(final(villager).inventory@) == 0,
        old(villager).food_level >= 12 ==> final(villager).food_level == old(villager).food_level,
        old(villager).food_level < 12 ==> final(villager).food_level < 16,
        final(villager).food_level + food_in_all(final(villager).inventory@) == old(villager).food_level + food_in_all(old(villager).inventory@),
        final(villager).inventory@.len() == old(villager).inventory@.len(),
        final(villager).offers == old(villager).offers,
{
    law_eating_loses_no_food(old(villager).inventory@, old(villager).food_level as int);
    law_villager_eats_until_full(old(villager).inventory@, old(villager).food_level as int);
}

/// Law: the offers of chosen trades come after those that are there, one for each trade, in order,
/// with what the trade wants and gives.
pub proof fn law_chosen_trades_are_offered(
    villager: &mut VillagerEntity,
    chosen: Vec<Trade>,
    i: int,
)
    requires
        call_ensures(VillagerEntity::add_chosen_trades, (villager, &chosen), ()),
    ensures
        final(villager).offers@.len() == old(villager).offers@.len() + chosen@.len(),
        0 <= i < old(villager).offers@.len() ==> final(villager).offers@[i] == old(villager).offers@[i],
        0 <= i < chosen@.len() ==> {
            let offer = final(villager).offers@[old(villager).offers@.len() + i];
            &&& offer.base_cost_a.item == chosen@[i].wants.item
            &&& offer.output.item == chosen@[i].gives.item
            &&& offer.cost_b is Some <==> chosen@[i].wants_b is Some
            &&& offer.max_uses == chosen@[i].max_uses
            &&& offer.xp == chosen@[i].xp
            &&& offer.uses == 0
        },
{
    if 0 <= i < old(villager).offers@.len() {
        assert(final(villager).offers@[i] == old(villager).offers@[i]);
    }
    if 0 <= i < chosen@.len() {
        assert(final(villager).offers@[old(villager).offers@.len() + i] == offer_of(chosen@[i]));
    }
}

/// Law: a villager whose profession changes gets other offers and is heard at its new work; one
/// that keeps it keeps its offers.
pub proof fn law_new_profession_new_offers<F: Fn(VillagerProfession, i32) -> Option<TradeSet>>(
    villager: &mut VillagerEntity,
    data: VillagerData,
    trade_set: F,
    r: bool,
)
    requires
        call_ensures(VillagerEntity::set_villager_data::<F>, (villager, data, &trade_set), r),
    ensures
        r <==> old(villager).villager_data.profession.0 != data.profession.0,
        final(villager).villager_data == data,
        !r ==> final(villager).offers@ == old(villager).offers@,
        final(villager).inventory == old(villager).inventory,
        final(villager).xp == old(villager).xp,
{
}

/// Law: the trading screen shows the offers, the level and the experience of the villager.
pub proof fn law_trading_screen_shows_the_offers(
    villager: VillagerEntity,
    sync_id: u8,
    r: TradingScreen,
)
    requires
        call_ensures(VillagerEntity::open_trading_screen, (&villager, sync_id), r),
    ensures
        r.window_id == sync_id,
        r.offers@.len() == villager.offers@.len(),
        forall|i: int| 0 <= i < r.offers@.len() ==> #[trigger] r.offers@[i] == villager.offers@[i],
        r.level == villager.villager_data.level.0,
        r.xp == villager.xp,
        r.shows_progress,
        r.can_restock,
{
}

/// Law: where there is one set of trades for a profession at a level, as many offers are added as it says,
/// or as there are trades, each of them that of one of its trades; those that were there stay. Where
/// there is none nothing is added. To make all offers anew is to add to none.
pub proof fn law_offers_come_from_the_set<F: Fn(VillagerProfession, i32) -> Option<TradeSet>>(
    villager: &mut VillagerEntity,
    renewed: &mut VillagerEntity,
    profession: VillagerProfession,
    level: i32,
    trade_set: F,
    set: Option<TradeSet>,
    i: int,
)
    requires
        call_ensures(
            VillagerEntity::add_trades::<F>,
            (villager, profession, level, &trade_set),
            (),
        ),
        call_ensures(
            VillagerEntity::generate_trades::<F>,
            (renewed, profession, level, &trade_set),
            (),
        ),
        forall|found: Option<TradeSet>| #[trigger]
            call_ensures(trade_set, (profession, level), found) ==> found == set,
    ensures
        set is None ==> final(villager).offers@ == old(villager).offers@ && final(renewed).offers@.len() == 0,
        set is Some ==> {
            let count = if set->0.amount < set->0.trades@.len() {
                set->0.amount as nat
            } else {
                set->0.trades@.len()
            };
            let there = old(villager).offers@.len();
            &&& final(villager).offers@.len() == there + count
            &&& final(renewed).offers@.len() == count
            &&& 0 <= i < there ==> final(villager).offers@[i] == old(villager).offers@[i]
            &&& there <= i < there + count ==> exists|k: int|
                0 <= k < set->0.trades@.len() && #[trigger] offer_of(set->0.trades@[k]) == final(villager).offers@[i]
            &&& 0 <= i < count ==> exists|k: int|
                0 <= k < set->0.trades@.len() && #[trigger] offer_of(set->0.trades@[k]) == final(renewed).offers@[i]
        },
        final(villager).villager_data == old(villager).villager_data,
        final(renewed).villager_data == old(renewed).villager_data,
{
    if let Some(set) = set {
        lemma_offers_added(old(villager).offers@, final(villager).offers@, set, i);
        lemma_offers_added(Seq::empty(), final(renewed).offers@, set, i);
    }
}

/// Offers that are added are those of trades of the set.
proof fn lemma_offers_added(
    before: Seq<MerchantOffer>,
    after: Seq<MerchantOffer>,
    set: TradeSet,
    i: int,
)
    requires
        offers_added(before, after, set),
    ensures
        after.len() == before.len() + (if set.amount < set.trades@.len() {
            set.amount as nat
        } else {
            set.trades@.len()
        }),
        0 <= i < before.len() ==> after[i] == before[i],
        before.len() <= i < after.len() ==> exists|k: int|
            0 <= k < set.trades@.len() && #[trigger] offer_of(set.trades@[k]) == after[i],
{
    let chosen = choose|chosen: Seq<Trade>| #[trigger]
        is_choice(chosen, set) && after == before + chosen.map_values(
            |trade: Trade| offer_of(trade),
        );
    let offers = chosen.map_values(|trade: Trade| offer_of(trade));
    let places = choose|places: Seq<int>|
        {
            &&& #[trigger] places.len() == chosen.len()
            &&& places.no_duplicates()
            &&& forall|j: int|
                0 <= j < places.len() ==> 0 <= #[trigger] places[j] < set.trades@.len()
                    && chosen[j] == set.trades@[places[j]]
        };
    if before.len() <= i < after.len() {
        let j = i - before.len();
        assert(after[i] == offers[j]);
        assert(offers[j] == offer_of(chosen[j]));
        assert(chosen[j] == set.trades@[places[j]]);
        assert(offer_of(set.trades@[places[j]]) == after[i]);
    }
}

/// Law: a villager keeps away from every kind of zombie and then from every illager and what goes with
/// them, closes the doors that it opens, and goes about its day before it wanders.
pub proof fn law_whom_a_villager_keeps_away_from(r: Vec<(u8, VillagerGoal)>)
    requires
        call_ensures(VillagerEntity::goals, (), r),
    ensures
        r@[0].1 == VillagerGoal::Swim,
        r@[1].1 is EscapeDanger,
        r@[2].1 is Avoid && r@[2].1->threat == Threat::Zombie,
        r@[3].1 is Avoid && r@[3].1->threat == Threat::ZombieVillager,
        r@[4].1 is Avoid && r@[4].1->threat == Threat::Husk,
        r@[5].1 is Avoid && r@[5].1->threat == Threat::Drowned,
        r@[6].1 is Avoid && r@[6].1->threat == Threat::Pillager,
        r@[7].1 is Avoid && r@[7].1->threat == Threat::Vindicator,
        r@[8].1 is Avoid && r@[8].1->threat == Threat::Evoker,
        r@[9].1 is Avoid && r@[9].1->threat == Threat::Ravager,
        r@[10].1 is Avoid && r@[10].1->threat == Threat::Vex,
        r@[11].1 == (VillagerGoal::OpenDoors { closes: true }),
        r@[12].1 is FollowSchedule,
        r@[13].1 is WanderAround,
        r@[14].1 is LookAtPlayers,
        r@[15].1 is LookAtVillagers,
        r@[16].0 == 5,
{
}

} // verus!
