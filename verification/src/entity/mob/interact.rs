//! What players do to mobs by hand.

use vstd::prelude::*;
use vstd::string::*;

use super::{MobEntity, UNBOUND};
use crate::entity::ai::goal::Control;

verus! {

/// What came of a player's use of an item on a mob.
#[derive(Clone, Copy, Debug, PartialEq, Eq, Structural)]
pub enum Interaction {
    /// Nothing.
    Ignored,
    /// The mob was let off the leash; the lead drops, or it does not.
    Unleashed { drops_lead: bool },
    /// The mob was put on the leash; the lead is used up, or it is not.
    Leashed { takes_lead: bool },
}

/// The item is a lead.
pub open spec fn spec_is_lead(registry_key: Seq<char>) -> bool {
    registry_key == "lead"@ || registry_key == "minecraft:lead"@
}

/// Whether the item is a lead.
pub fn is_lead(registry_key: &String) -> (r: bool)
    ensures
        r == spec_is_lead(registry_key@),
{
    *registry_key == String::from_str("lead") || *registry_key == String::from_str("minecraft:lead")
}

impl MobEntity {
    /// Lets a player use an item on the mob: the one who holds its leash takes it off, and
    /// one who is near with a lead puts it on. In creative mode no lead changes hands.
    pub fn mob_interact(
        &mut self,
        player_id: i32,
        creative: bool,
        registry_key: &String,
        within_leash: bool,
    ) -> (r: Interaction)
        ensures
            r == (if old(self).leashed_to == Some(player_id) {
                Interaction::Unleashed { drops_lead: !creative }
            } else if spec_is_lead(registry_key@) && within_leash {
                Interaction::Leashed { takes_lead: !creative }
            } else {
                Interaction::Ignored
            }),
            *final(self) == (match r {
                Interaction::Ignored => *old(self),
                Interaction::Unleashed { .. } => MobEntity {
                    leashed_to: None,
                    position_target_range: UNBOUND,
                    ..*old(self)
                },
                Interaction::Leashed { .. } => MobEntity {
                    leashed_to: Some(player_id),
                    ..*old(self)
                },
            }),
    {
        let held: bool = match self.leashed_to {
            Some(holder) => holder == player_id,
            None => false,
        };
        if held {
            self.leashed_to = None;
            self.position_target_range = UNBOUND;
            return Interaction::Unleashed { drops_lead: !creative };
        }
        if is_lead(registry_key) && within_leash {
            self.leashed_to = Some(player_id);
            return Interaction::Leashed { takes_lead: !creative };
        }
        Interaction::Ignored
    }

    /// What losing a leash does: a mob on no other one is no longer bound to a place.
    pub fn on_leash_removed(&mut self)
        ensures
            *final(self) == (MobEntity {
                position_target_range: if old(self).leashed_to is None {
                    UNBOUND
                } else {
                    old(self).position_target_range
                },
                ..*old(self)
            }),
    {
        if self.leashed_to.is_none() {
            self.position_target_range = UNBOUND;
        }
    }

    /// What a leash that snaps does: it is off, and the mob does not move by itself until
    /// its controls are updated.
    pub fn leash_too_far_behaviour(&mut self)
        ensures
            final(self).leashed_to is None,
            final(self).goals_selector.disabled_controls == old(
                self,
            ).goals_selector.disabled_controls.with(Control::Move, true),
            final(self).goals_selector.goals == old(self).goals_selector.goals,
            final(self).goals_selector.goals_by_control == old(
                self,
            ).goals_selector.goals_by_control,
            *final(self) == (MobEntity {
                leashed_to: None,
                goals_selector: final(self).goals_selector,
                ..*old(self)
            }),
    {
        self.leashed_to = None;
        self.goals_selector.disable_control(Control::Move);
    }

    /// What mounting something does: a mob on a leash comes off it. Returns whether it did.
    pub fn on_start_riding(&mut self) -> (dropped: bool)
        ensures
            dropped == old(self).leashed_to is Some,
            *final(self) == (MobEntity { leashed_to: None, ..*old(self) }),
    {
        let leashed: bool = self.leashed_to.is_some();
        self.leashed_to = None;
        leashed
    }
}

/// Law: whoever holds the leash of a mob takes it off, and the mob is then bound to no place. Anyone
/// else who is near puts it on with a lead, and with nothing else. A lead changes hands unless in
/// creative mode.
pub proof fn law_leashes_go_on_and_off(
    mob: &mut MobEntity,
    player_id: i32,
    creative: bool,
    registry_key: String,
    within_leash: bool,
    r: Interaction,
)
    requires
        call_ensures(
            MobEntity::mob_interact,
            (mob, player_id, creative, &registry_key, within_leash),
            r,
        ),
    ensures
        ({
            let lead = registry_key@ == "lead"@ || registry_key@ == "minecraft:lead"@;
            let holds = old(mob).leashed_to == Some(player_id);
            &&& r is Unleashed <==> holds
            &&& r is Unleashed ==> final(mob).leashed_to is None && final(mob).position_target_range
                == -1 && r->drops_lead == !creative
            &&& r is Leashed <==> !holds && lead && within_leash
            &&& r is Leashed ==> final(mob).leashed_to == Some(player_id) && r->takes_lead
                == !creative
            &&& r is Ignored ==> *final(mob) == *old(mob)
        }),
{
}

/// Law: a leash that is lost leaves a mob bound to no place, one that snaps keeps it from moving, and
/// one is off as soon as the mob mounts something.
pub proof fn law_lost_leashes(
    lost: &mut MobEntity,
    snapped: &mut MobEntity,
    rider: &mut MobEntity,
    dropped: bool,
)
    requires
        call_ensures(MobEntity::on_leash_removed, (lost,), ()),
        call_ensures(MobEntity::leash_too_far_behaviour, (snapped,), ()),
        call_ensures(MobEntity::on_start_riding, (rider,), dropped),
    ensures
        old(lost).leashed_to is None ==> final(lost).position_target_range == -1,
        old(lost).leashed_to is Some ==> *final(lost) == *old(lost),
        final(snapped).leashed_to is None,
        final(snapped).goals_selector.disabled_controls.moves,
        final(snapped).goals_selector.disabled_controls.looks == old(snapped).goals_selector.disabled_controls.looks,
        final(snapped).goals_selector.goals == old(snapped).goals_selector.goals,
        dropped <==> old(rider).leashed_to is Some,
        final(rider).leashed_to is None,
        final(rider).position_target_range == old(rider).position_target_range,
{
}

/// Law: a lead is known by its name, with or without the namespace of the game.
pub proof fn law_leads_are_known_by_name(registry_key: String, r: bool)
    requires
        call_ensures(is_lead, (&registry_key,), r),
    ensures
        registry_key@ == "lead"@ ==> r,
        registry_key@ == "minecraft:"@ + "lead"@ ==> r,
        r ==> registry_key@ == "lead"@ || registry_key@ == "minecraft:"@ + "lead"@,
{
    reveal_strlit("lead");
    reveal_strlit("minecraft:");
    reveal_strlit("minecraft:lead");
    assert("minecraft:"@ + "lead"@ =~= "minecraft:lead"@);
}

} // verus!
