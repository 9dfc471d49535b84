//! Where monsters come into the world.

use vstd::prelude::*;

use super::MobEntity;
use crate::data::entity_type::Difficulty;
use crate::random::draw_range;

verus! {

/// The greatest light of blocks in which patrols appear.
pub const PATROLLING_MONSTER_MAX_BLOCK_LIGHT: u8 = 8;

/// The light of the open sky.
pub const FULL_SKY_LIGHT: u8 = 15;

/// The light of the sky is set against a number drawn below this.
pub const SKY_LIGHT_ODDS: i32 = 32;

/// The light of blocks does not matter from this limit on.
pub const NO_BLOCK_LIGHT_LIMIT: u8 = 15;

/// How much a thunderstorm darkens the sky.
pub const THUNDER_DARKNESS: u8 = 10;

/// The light at a place.
#[derive(Clone, Copy, Debug, PartialEq, Eq, Structural)]
pub struct SpawnLight {
    pub sky_light: u8,
    pub block_light: Option<u8>,
    /// The greatest light of blocks in which monsters appear, in this world.
    pub block_light_limit: u8,
    /// How bright the place is, the time of day and the weather considered.
    pub brightness: u8,
    /// The greatest brightness in which a monster appears this time.
    pub brightness_limit: u8,
}

/// Whether the light of blocks is one in which patrols appear.
pub fn is_valid_patrolling_monster_block_light(block_light: Option<u8>) -> (r: bool)
    ensures
        r == (block_light matches Some(light) ==> light <= PATROLLING_MONSTER_MAX_BLOCK_LIGHT),
{
    match block_light {
        Some(light) => light <= PATROLLING_MONSTER_MAX_BLOCK_LIGHT,
        None => true,
    }
}

impl SpawnLight {
    /// The place is dark enough, but for the light of the sky.
    pub open spec fn spec_dark_below(self) -> bool {
        let block_light = match self.block_light {
            Some(light) => light,
            None => 0,
        };
        &&& self.block_light_limit < NO_BLOCK_LIGHT_LIMIT ==> block_light <= self.block_light_limit
        &&& self.brightness <= self.brightness_limit
    }

    /// The place is dark enough, with the number drawn for the light of the sky.
    pub open spec fn spec_is_dark(self, drawn: int) -> bool {
        self.sky_light <= drawn && self.spec_dark_below()
    }
}

impl MobEntity {
    /// How much darker than by day a place counts as, for monsters: a thunderstorm darkens it
    /// by a fixed amount, whatever the time of day.
    pub fn ambient_darkness(is_thundering: bool, sky_darken: u8) -> (r: u8)
        ensures
            r == (if is_thundering {
                THUNDER_DARKNESS
            } else {
                sky_darken
            }),
    {
        if is_thundering {
            THUNDER_DARKNESS
        } else {
            sky_darken
        }
    }

    /// Whether the place is dark enough for a monster, once a number below 32 has been
    /// drawn for the light of the sky.
    pub fn is_dark_enough_with_draw(light: &SpawnLight, drawn: i32) -> (r: bool)
        ensures
            r == light.spec_is_dark(drawn as int),
    {
        if light.sky_light as i32 > drawn {
            return false;
        }
        let block_light: u8 = match light.block_light {
            Some(block_light) => block_light,
            None => 0,
        };
        if light.block_light_limit < NO_BLOCK_LIGHT_LIMIT && block_light
            > light.block_light_limit {
            return false;
        }
        light.brightness <= light.brightness_limit
    }

    /// Whether the place is dark enough for a monster, drawing the number for the light of
    /// the sky. Where no light comes from the sky the draw does not matter.
    pub fn is_dark_enough_to_spawn(light: &SpawnLight) -> (r: bool)
        ensures
            exists|drawn: int|
                0 <= drawn < SKY_LIGHT_ODDS && r == #[trigger] light.spec_is_dark(drawn),
            light.sky_light == 0 ==> r == light.spec_dark_below(),
    {
        let drawn: i32 = draw_range(0, SKY_LIGHT_ODDS);
        Self::is_dark_enough_with_draw(light, drawn)
    }

    /// Whether a monster may appear: not in a peaceful game, and only in the dark.
    pub fn check_monster_spawn_rules(difficulty: Difficulty, light: &SpawnLight) -> (r: bool)
        ensures
            exists|drawn: int|
                0 <= drawn < SKY_LIGHT_ODDS && r == (difficulty != Difficulty::Peaceful
                    && #[trigger] light.spec_is_dark(drawn)),
            light.sky_light == 0 ==> r == (difficulty != Difficulty::Peaceful
                && light.spec_dark_below()),
    {
        if difficulty == Difficulty::Peaceful {
            proof {
                let dark = light.spec_is_dark(0);
                assert(0 <= 0 < SKY_LIGHT_ODDS && dark == light.spec_is_dark(0));
            }
            return false;
        }
        Self::is_dark_enough_to_spawn(light)
    }

    /// Whether a monster that does not mind light may appear: not in a peaceful game.
    pub fn check_any_light_monster_spawn_rules(difficulty: Difficulty) -> (r: bool)
        ensures
            r == (difficulty != Difficulty::Peaceful),
    {
        difficulty != Difficulty::Peaceful
    }

    /// Whether a patrol may appear: where blocks give little light, and not in a peaceful
    /// game.
    pub fn check_patrolling_monster_spawn_rules(
        difficulty: Difficulty,
        block_light: Option<u8>,
    ) -> (r: bool)
        ensures
            r == ((block_light matches Some(light) ==> light <= PATROLLING_MONSTER_MAX_BLOCK_LIGHT)
                && difficulty != Difficulty::Peaceful),
    {
        is_valid_patrolling_monster_block_light(block_light)
            && Self::check_any_light_monster_spawn_rules(difficulty)
    }

    /// Whether a monster of the open may appear: in the dark, under the open sky.
    pub fn check_surface_monster_spawn_rules(difficulty: Difficulty, light: &SpawnLight) -> (r: bool)
        ensures
            exists|drawn: int|
                0 <= drawn < SKY_LIGHT_ODDS && r == (difficulty != Difficulty::Peaceful
                    && #[trigger] light.spec_is_dark(drawn) && light.sky_light >= FULL_SKY_LIGHT),
    {
        proof {
            let dark = light.spec_is_dark(0);
            assert(0 <= 0 < SKY_LIGHT_ODDS && dark == light.spec_is_dark(0));
        }
        if !Self::check_monster_spawn_rules(difficulty, light) {
            return false;
        }
        light.sky_light >= FULL_SKY_LIGHT
    }

    /// Whether a monster of the open may appear, once the number for the light of the sky
    /// has been drawn.
    pub fn check_surface_monster_with_draw(
        difficulty: Difficulty,
        light: &SpawnLight,
        drawn: i32,
    ) -> (r: bool)
        ensures
            r == (difficulty != Difficulty::Peaceful && light.spec_is_dark(drawn as int)
                && light.sky_light >= FULL_SKY_LIGHT),
    {
        difficulty != Difficulty::Peaceful && Self::is_dark_enough_with_draw(light, drawn)
            && light.sky_light >= FULL_SKY_LIGHT
    }
}

/// Law: more light never makes a place fit for a monster that was not.
pub proof fn law_light_never_helps_monsters(darker: SpawnLight, brighter: SpawnLight, drawn: int)
    requires
        brighter.spec_is_dark(drawn),
        darker.sky_light <= brighter.sky_light,
        darker.brightness <= brighter.brightness,
        darker.block_light_limit == brighter.block_light_limit,
        darker.brightness_limit == brighter.brightness_limit,
        (match darker.block_light {
            Some(light) => light,
            None => 0,
        }) <= (match brighter.block_light {
            Some(light) => light,
            None => 0,
        }),
    ensures
        darker.spec_is_dark(drawn),
{
}

/// Law: a monster needs the dark: no more light of the sky than was drawn, no more light of blocks than
/// the world allows, unless that is all, and no more brightness than its limit. None appears in a
/// peaceful game.
pub proof fn law_monsters_need_the_dark(
    difficulty: Difficulty,
    light: SpawnLight,
    drawn: i32,
    dark: bool,
    surface: bool,
    any_light: bool,
)
    requires
        call_ensures(MobEntity::is_dark_enough_with_draw, (&light, drawn), dark),
        call_ensures(
            MobEntity::check_surface_monster_with_draw,
            (difficulty, &light, drawn),
            surface,
        ),
        call_ensures(MobEntity::check_any_light_monster_spawn_rules, (difficulty,), any_light),
    ensures
        dark ==> light.sky_light <= drawn && light.brightness <= light.brightness_limit,
        dark && light.block_light is Some && light.block_light_limit < 15 ==> light.block_light->0
            <= light.block_light_limit,
        light.sky_light <= drawn && light.brightness <= light.brightness_limit && (
        light.block_light is None || light.block_light_limit >= 15 || light.block_light->0
            <= light.block_light_limit) ==> dark,
        surface <==> dark && light.sky_light >= 15 && difficulty != Difficulty::Peaceful,
        any_light <==> difficulty != Difficulty::Peaceful,
{
}

/// Law: a patrol appears where blocks give no more light than 8, a thunderstorm darkens every place by
/// 10, and where no light comes from the sky the draw does not matter.
pub proof fn law_patrols_and_storms(
    difficulty: Difficulty,
    block_light: Option<u8>,
    valid: bool,
    patrol: bool,
    is_thundering: bool,
    sky_darken: u8,
    darkness: u8,
    light: SpawnLight,
    monster: bool,
)
    requires
        call_ensures(is_valid_patrolling_monster_block_light, (block_light,), valid),
        call_ensures(
            MobEntity::check_patrolling_monster_spawn_rules,
            (difficulty, block_light),
            patrol,
        ),
        call_ensures(MobEntity::ambient_darkness, (is_thundering, sky_darken), darkness),
        call_ensures(MobEntity::check_monster_spawn_rules, (difficulty, &light), monster),
    ensures
        valid <==> block_light is None || block_light->0 <= 8,
        patrol <==> valid && difficulty != Difficulty::Peaceful,
        is_thundering ==> darkness == 10,
        !is_thundering ==> darkness == sky_darken,
        difficulty == Difficulty::Peaceful ==> !monster,
        light.brightness > light.brightness_limit ==> !monster,
        light.sky_light == 0 && difficulty != Difficulty::Peaceful && light.brightness
            <= light.brightness_limit && light.block_light is None ==> monster,
        light.sky_light >= 32 ==> !monster,
{
}

/// Law: whatever is drawn, a place that blocks light up too much, or that is too bright, is not dark
/// enough; one without light of the sky is where neither holds, and light of the sky that no draw reaches
/// is too much. On the surface nothing appears below full light of the sky, nor in a peaceful game.
pub proof fn law_darkness_whatever_is_drawn(
    difficulty: Difficulty,
    light: SpawnLight,
    dark: bool,
    surface: bool,
)
    requires
        call_ensures(MobEntity::is_dark_enough_to_spawn, (&light,), dark),
        call_ensures(
            MobEntity::check_surface_monster_spawn_rules,
            (difficulty, &light),
            surface,
        ),
    ensures
        dark ==> light.brightness <= light.brightness_limit && light.sky_light < 32,
        dark && light.block_light is Some && light.block_light_limit < 15 ==> light.block_light->0
            <= light.block_light_limit,
        light.sky_light == 0 && light.brightness <= light.brightness_limit && (
        light.block_light is None || light.block_light_limit >= 15 || light.block_light->0
            <= light.block_light_limit) ==> dark,
        surface ==> difficulty != Difficulty::Peaceful && light.sky_light >= 15
            && light.sky_light < 32 && light.brightness <= light.brightness_limit,
{
}

} // verus!
