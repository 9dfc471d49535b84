//! What a warden hears.

use vstd::prelude::*;

use super::anger::{AngerLevel, WardenSound};
use super::{
    first_valid, Candidate, WardenEntity, WardenPose, DEFAULT_ANGER, PROJECTILE_ANGER,
    VIBRATION_COOLDOWN_TICKS,
};
use crate::data::position::BlockPos;
use crate::data::rank::Rank64;

verus! {

/// The square (900.0) of the distance within which a warden minds a shooter.
pub const PROJECTILE_ANGER_DISTANCE_SQ: Rank64 = 0x408C_2000_0000_0000;

/// The square (256.0) of the distance over which a warden hears.
pub const LISTENER_RANGE_SQ: Rank64 = 0x4070_0000_0000_0000;

/// The shooter of a projectile, as the world holds them.
#[derive(Clone, Copy, Debug, PartialEq, Eq, Structural)]
pub struct Shooter {
    pub candidate: Candidate,
    /// The square of the distance from the warden.
    pub distance_sq: Rank64,
    pub block: BlockPos,
    /// Whether the middle of that block is within the border.
    pub within_border: bool,
}

/// A vibration that reaches a warden.
#[derive(Clone, Copy, Debug, PartialEq, Eq, Structural)]
pub struct Noise {
    /// Where it came from.
    pub x: Rank64,
    pub z: Rank64,
    pub block: BlockPos,
    /// Whether the middle of that block is within the border.
    pub within_border: bool,
    /// Who made it.
    pub source: Option<u128>,
    /// Who made it, as the world holds them.
    pub source_candidate: Option<Candidate>,
    /// Who shot the projectile that made it.
    pub shooter: Option<u128>,
    /// Who shot it, as the world holds them.
    pub shooter_found: Option<Shooter>,
}

impl Noise {
    /// The shooter is near enough to be minded.
    pub open spec fn spec_near_shooter(self) -> Option<Shooter> {
        match self.shooter_found {
            Some(shooter) => if self.shooter is Some && shooter.distance_sq
                <= PROJECTILE_ANGER_DISTANCE_SQ {
                Some(shooter)
            } else {
                None
            },
            None => None,
        }
    }
}

impl WardenEntity {
    /// The warden hears: it is alive and awake, has not heard anything a moment ago, is
    /// not in the ground, and the noise came from within the border.
    pub open spec fn spec_hears(self, noise: Noise) -> bool {
        &&& !self.no_ai
        &&& self.alive
        &&& self.vibration_cooldown <= 0
        &&& self.pose != WardenPose::Digging
        &&& self.pose != WardenPose::Emerging
        &&& self.border.spec_contains(noise.x, noise.z)
    }

    /// Whether the warden hears the noise.
    pub fn can_receive_vibration(&self, noise: &Noise) -> (r: bool)
        ensures
            r == self.spec_hears(*noise),
    {
        if self.no_ai || !self.alive || self.vibration_cooldown > 0 {
            return false;
        }
        if self.pose == WardenPose::Digging || self.pose == WardenPose::Emerging {
            return false;
        }
        self.is_within_border(noise.x, noise.z)
    }

    /// The warden, which hears nothing else for a while.
    pub open spec fn spec_alerted(self) -> WardenEntity {
        WardenEntity { vibration_cooldown: VIBRATION_COOLDOWN_TICKS, ..self }
    }

    /// The warden grows angrier for the noise: a little at a shooter who is near, more at
    /// anyone else who made it.
    pub open spec fn spec_roused(self, after: WardenEntity, noise: Noise) -> bool {
        if noise.shooter is Some {
            match noise.spec_near_shooter() {
                Some(shooter) => self.spec_angered(
                    after,
                    noise.shooter->0,
                    PROJECTILE_ANGER,
                    Some(shooter.candidate),
                ),
                None => after == self,
            }
        } else {
            match noise.source {
                Some(uuid) => self.spec_angered(
                    after,
                    uuid,
                    DEFAULT_ANGER,
                    noise.source_candidate,
                ),
                None => after == self,
            }
        }
    }

    /// The sound of the warden as the noise rouses it.
    pub open spec fn spec_rousing_sound(self, after: WardenEntity, noise: Noise) -> Option<
        WardenSound,
    > {
        let noted = if noise.shooter is Some {
            match noise.spec_near_shooter() {
                Some(shooter) => self.spec_notes(Some(shooter.candidate)),
                None => false,
            }
        } else {
            noise.source is Some && self.spec_notes(noise.source_candidate)
        };
        if noted {
            after.spec_listening_sound()
        } else {
            None
        }
    }

    /// The warden goes to look into the noise: it is not truly angry yet, and the noise is
    /// that of a projectile, or no one else is suspected.
    pub open spec fn spec_looks_into(self, noise: Noise, valid: Seq<u128>) -> bool {
        let top = first_valid(self.anger_management.order(), valid);
        self.spec_level() != AngerLevel::Angry && (noise.shooter is Some || top is None || top
            == noise.source)
    }

    /// Where the warden goes to look: to a shooter whom it may strike, or else to where the
    /// noise came from.
    pub open spec fn spec_suspicious(self, noise: Noise) -> (BlockPos, bool) {
        match noise.spec_near_shooter() {
            Some(shooter) => if self.spec_can_target(shooter.candidate) {
                (shooter.block, shooter.within_border)
            } else {
                (noise.block, noise.within_border)
            },
            None => (noise.block, noise.within_border),
        }
    }

    /// The warden after it has heard the noise.
    pub open spec fn spec_heard(
        self,
        after: WardenEntity,
        noise: Noise,
        valid: Seq<u128>,
        sound: Option<WardenSound>,
    ) -> bool {
        exists|roused: WardenEntity|
            {
                &&& #[trigger] self.spec_roused(roused, noise)
                &&& sound == self.spec_rousing_sound(roused, noise)
                &&& after == (if roused.spec_looks_into(noise, valid) {
                    roused.spec_disturbed(
                        self.spec_suspicious(noise).0,
                        self.spec_suspicious(noise).1,
                    )
                } else {
                    roused
                })
            }
    }

    /// Lets the warden hear a noise. Returns whether it did, and the sound that it makes
    /// as it grows angrier. `valid` holds everyone whom the warden may strike.
    pub fn on_receive_vibration(&mut self, noise: &Noise, valid: &Vec<u128>) -> (r: (
        bool,
        Option<WardenSound>,
    ))
        requires
            old(self).wf(),
        ensures
            final(self).wf(),
            r.0 == old(self).spec_hears(*noise),
            !r.0 ==> *final(self) == *old(self) && r.1 is None,
            r.0 ==> old(self).spec_alerted().spec_heard(*final(self), *noise, valid@, r.1),
    {
        if !self.can_receive_vibration(noise) {
            return (false, None);
        }
        self.vibration_cooldown = VIBRATION_COOLDOWN_TICKS;
        let ghost alerted = *self;
        let mut block: BlockPos = noise.block;
        let mut within_border: bool = noise.within_border;
        let mut sound: Option<WardenSound> = None;
        if let Some(uuid) = noise.shooter {
            if let Some(shooter) = noise.shooter_found {
                if shooter.distance_sq <= PROJECTILE_ANGER_DISTANCE_SQ {
                    if self.can_target_entity(&shooter.candidate) {
                        block = shooter.block;
                        within_border = shooter.within_border;
                    }
                    sound = self.increase_anger_at_uuid(
                        uuid,
                        PROJECTILE_ANGER,
                        true,
                        Some(shooter.candidate),
                    );
                }
            }
        } else if let Some(uuid) = noise.source {
            sound = self.increase_anger_at_uuid(uuid, DEFAULT_ANGER, true, noise.source_candidate);
        }
        let ghost roused = *self;
        assert(alerted.spec_roused(roused, *noise));
        assert(sound == alerted.spec_rousing_sound(roused, *noise));
        if self.anger_level().is_angry() {
            return (true, sound);
        }
        let top: Option<u128> = self.first_suspect(valid);
        let looks: bool = noise.shooter.is_some() || match top {
            Some(suspect) => match noise.source {
                Some(source) => suspect == source,
                None => false,
            },
            None => true,
        };
        if looks {
            self.set_disturbance_location(block, within_border);
        }
        (true, sound)
    }

    /// Whether a vibration is passed on to an entity: it can be heard at all, and the
    /// entity is a warden near enough.
    pub fn hears_vibration(frequency: i32, is_warden: bool, distance_sq: Rank64) -> (r: bool)
        ensures
            r == (frequency != 0 && is_warden && distance_sq <= LISTENER_RANGE_SQ),
    {
        frequency != 0 && is_warden && distance_sq <= LISTENER_RANGE_SQ
    }

    /// The entities, by their places in the list, that a vibration is passed on to. Of
    /// each it is known whether it is a warden, and the square of its distance.
    pub fn dispatch_vibration(frequency: i32, entities: &Vec<(bool, Rank64)>) -> (r: Vec<usize>)
        ensures
            r@ == hearing_places(frequency, entities@),
    {
        let mut places: Vec<usize> = Vec::new();
        let mut i: usize = 0;
        while i < entities.len()
            invariant
                i <= entities@.len(),
                places@ == hearing_places(frequency, entities@.take(i as int)),
            decreases entities.len() - i,
        {
            assert(entities@.take(i as int + 1).drop_last() =~= entities@.take(i as int));
            let (is_warden, distance_sq): (bool, Rank64) = entities[i];
            if Self::hears_vibration(frequency, is_warden, distance_sq) {
                places.push(i);
            }
            i = i + 1;
        }
        assert(entities@.take(i as int) =~= entities@);
        places
    }
}

/// The places of the entities that a vibration is passed on to.
pub open spec fn hearing_places(frequency: i32, entities: Seq<(bool, Rank64)>) -> Seq<usize>
    decreases entities.len(),
{
    if entities.len() == 0 {
        Seq::empty()
    } else {
        let rest = hearing_places(frequency, entities.drop_last());
        if frequency != 0 && entities.last().0 && entities.last().1 <= LISTENER_RANGE_SQ {
            rest.push((entities.len() - 1) as usize)
        } else {
            rest
        }
    }
}

/// Law: a warden that has just heard something hears nothing else until its cooldown is
/// over.
pub proof fn law_warden_hears_one_noise_at_a_time(warden: WardenEntity, noise: Noise)
    ensures
        !warden.spec_alerted().spec_hears(noise),
{
}

/// Law: a warden hears what comes from within its border, while it is alive, awake and above ground,
/// and not within 40 ticks of the last noise. What it does not hear changes nothing.
pub proof fn law_when_a_warden_hears(
    warden: &mut WardenEntity,
    noise: Noise,
    valid: Vec<u128>,
    r: (bool, Option<WardenSound>),
    can: bool,
)
    requires
        call_ensures(WardenEntity::on_receive_vibration, (warden, &noise, &valid), r),
        call_ensures(WardenEntity::can_receive_vibration, (&*old(warden), &noise), can),
    ensures
        r.0 == can,
        can <==> !old(warden).no_ai && old(warden).alive && old(warden).vibration_cooldown <= 0
            && old(warden).pose != WardenPose::Digging && old(warden).pose != WardenPose::Emerging
            && old(warden).border.min_x <= noise.x && noise.x < old(warden).border.max_x && old(warden).border.min_z <= noise.z && noise.z < old(warden).border.max_z,
        !can ==> *final(warden) == *old(warden) && r.1 is None,
        can ==> final(warden).vibration_cooldown == 40,
{
    if can {
        let alerted = old(warden).spec_alerted();
        let roused = choose|roused: WardenEntity|
            {
                &&& #[trigger] alerted.spec_roused(roused, noise)
                &&& r.1 == alerted.spec_rousing_sound(roused, noise)
                &&& *final(warden) == (if roused.spec_looks_into(noise, valid@) {
                    roused.spec_disturbed(
                        alerted.spec_suspicious(noise).0,
                        alerted.spec_suspicious(noise).1,
                    )
                } else {
                    roused
                })
            };
        assert(roused.vibration_cooldown == alerted.vibration_cooldown);
    }
}

/// Law: a noise makes a warden 35 angrier at whoever made it. That of a projectile makes it 10 angrier
/// at the shooter instead, where the shooter is within 30 blocks, and at no one where it is not.
pub proof fn law_noise_makes_angry(
    warden: &mut WardenEntity,
    noise: Noise,
    valid: Vec<u128>,
    r: (bool, Option<WardenSound>),
    may: bool,
)
    requires
        call_ensures(WardenEntity::on_receive_vibration, (warden, &noise, &valid), r),
        r.0,
        noise.shooter is Some && noise.shooter_found is Some ==> call_ensures(
            WardenEntity::can_target_entity,
            (&*old(warden), &noise.shooter_found->0.candidate),
            may,
        ),
        noise.shooter is None && noise.source_candidate is Some ==> call_ensures(
            WardenEntity::can_target_entity,
            (&*old(warden), &noise.source_candidate->0),
            may,
        ),
    ensures
        ({
            let before = old(warden).anger_management.anger();
            let after = final(warden).anger_management.anger();
            let near = noise.shooter is Some && noise.shooter_found is Some
                && noise.shooter_found->0.distance_sq <= 0x408C_2000_0000_0000 && may;
            let made = noise.shooter is None && noise.source is Some
                && noise.source_candidate is Some && may;
            let blamed = if near {
                noise.shooter->0
            } else {
                noise.source->0
            };
            let had = if before.contains_key(blamed) {
                before[blamed] as int
            } else {
                0
            };
            let amount = if near {
                10int
            } else {
                35
            };
            &&& !near && !made ==> after == before && r.1 is None
            &&& near || made ==> after.contains_key(blamed)
            &&& (near || made) && had + amount <= 150 ==> after[blamed] == had + amount
            &&& (near || made) && had + amount > 150 ==> after[blamed] == 150
            &&& forall|other: u128|
                other != blamed && #[trigger] before.contains_key(other) ==> after.contains_key(
                    other,
                ) && after[other] == before[other]
        }),
{
    let alerted = old(warden).spec_alerted();
    assert(alerted.border == old(warden).border);
    let roused = choose|roused: WardenEntity|
        {
            &&& #[trigger] alerted.spec_roused(roused, noise)
            &&& r.1 == alerted.spec_rousing_sound(roused, noise)
            &&& *final(warden) == (if roused.spec_looks_into(noise, valid@) {
                roused.spec_disturbed(
                    alerted.spec_suspicious(noise).0,
                    alerted.spec_suspicious(noise).1,
                )
            } else {
                roused
            })
        };
    assert(final(warden).anger_management == roused.anger_management);
}

/// The places that a vibration is passed on to are those of wardens within hearing.
proof fn lemma_hearing_places(frequency: i32, entities: Seq<(bool, Rank64)>, i: usize)
    requires
        entities.len() <= usize::MAX,
    ensures
        hearing_places(frequency, entities).contains(i) <==> i < entities.len() && frequency != 0
            && entities[i as int].0 && entities[i as int].1 <= LISTENER_RANGE_SQ,
    decreases entities.len(),
{
    if entities.len() > 0 {
        let before = entities.drop_last();
        let rest = hearing_places(frequency, before);
        let all = hearing_places(frequency, entities);
        lemma_hearing_places(frequency, before, i);
        if i < before.len() {
            assert(before[i as int] == entities[i as int]);
        }
        if rest.contains(i) {
            let k = choose|k: int| 0 <= k < rest.len() && rest[k] == i;
            assert(all[k] == i);
        }
        if all.contains(i) {
            let k = choose|k: int| 0 <= k < all.len() && all[k] == i;
            if k < rest.len() {
                assert(rest[k] == i);
            }
        }
        if all.len() > rest.len() {
            assert(all[rest.len() as int] == (entities.len() - 1) as usize);
        }
    }
}

/// Law: a vibration that can be heard at all reaches every warden within 16 blocks, and nothing else.
pub proof fn law_wardens_within_hearing_hear(
    frequency: i32,
    entities: Vec<(bool, Rank64)>,
    r: Vec<usize>,
    i: usize,
    is_warden: bool,
    distance_sq: Rank64,
    one: bool,
)
    requires
        call_ensures(WardenEntity::dispatch_vibration, (frequency, &entities), r),
        call_ensures(WardenEntity::hears_vibration, (frequency, is_warden, distance_sq), one),
        entities@.len() <= usize::MAX,
    ensures
        r@.contains(i) <==> i < entities@.len() && frequency != 0 && entities@[i as int].0
            && entities@[i as int].1 <= 0x4070_0000_0000_0000,
        one <==> frequency != 0 && is_warden && distance_sq <= 0x4070_0000_0000_0000,
{
    lemma_hearing_places(frequency, entities@, i);
}

} // verus!
