//! How a player acts on the world around it.

use vstd::prelude::*;

use crate::data::entity_type::GameMode;
use crate::data::position::BlockPos;
use crate::data::rank::Rank32;
use crate::plan::{only_if, push_if};

verus! {

/// The number of the ability to fly.
pub const FLYING_ABILITY: i32 = 9;

/// The part of a block that is broken in one tick where it breaks at once: 1.
pub const WHOLE_BLOCK: Rank32 = 1065353216;

/// What takes the cracks from a block.
pub const NO_CRACKS: i32 = -1;

/// What a player does to a block or with what it holds.
#[derive(Clone, Copy, Debug, PartialEq, Eq, Structural)]
pub enum PlayerAction {
    StartBreak,
    AbortBreak,
    StopBreak,
    DropItem,
    CreativePlayerDestroyBlock,
    CrackBreak,
    PredictDestroyBlock,
    ContinueDestroyBlock,
    Other(i32),
}

/// An action, with the block that it is about.
#[derive(Clone, Copy, Debug, PartialEq, Eq, Structural)]
pub struct SPlayerAction {
    pub runtime_id: i32,
    pub action: PlayerAction,
    pub block_pos: BlockPos,
    pub result_pos: BlockPos,
    pub face: i32,
}

/// The origin of the world.
pub open spec fn origin() -> BlockPos {
    BlockPos { x: 0, y: 0, z: 0 }
}

/// The action that a client sends beside its moves. `action` is the action with the number
/// that the client sends, where there is one: any other number is passed over.
pub fn handle_player_block_action(
    action: Option<PlayerAction>,
    block_pos: BlockPos,
    face: i32,
) -> (r: Option<SPlayerAction>)
    ensures
        r == (match action {
            Some(action) => Some(
                SPlayerAction {
                    runtime_id: 0,
                    action,
                    block_pos,
                    result_pos: origin(),
                    face,
                },
            ),
            None => None,
        }),
{
    match action {
        Some(action) => Some(
            SPlayerAction {
                runtime_id: 0,
                action,
                block_pos,
                result_pos: BlockPos { x: 0, y: 0, z: 0 },
                face,
            },
        ),
        None => None,
    }
}

// ---------------------------------------------------------------------------
// Moves that others see.
// ---------------------------------------------------------------------------

/// A move that a client of this edition sends.
#[derive(Clone, Copy, Debug, PartialEq, Eq, Structural)]
pub enum AnimateAction {
    SwingArm,
    StopSleep,
    WakeUp,
    CriticalHit,
    MagicCriticalHit,
}

/// A move as clients of the other edition are shown it.
#[derive(Clone, Copy, Debug, PartialEq, Eq, Structural)]
pub enum Animation {
    SwingMainArm,
    LeaveBed,
    CriticalEffect,
    MagicCriticalEffect,
}

/// What everyone around is sent: one thing for each edition.
#[derive(Clone, Copy, Debug, PartialEq, Eq, Structural)]
pub struct AnimationShown {
    pub entity_id: i32,
    pub java: Animation,
    pub bedrock: AnimateAction,
    pub runtime_entity_id: u64,
}

/// How clients of the other edition are shown a move, where they are.
pub open spec fn java_animation(action: AnimateAction) -> Option<Animation> {
    match action {
        AnimateAction::SwingArm => Some(Animation::SwingMainArm),
        AnimateAction::WakeUp => Some(Animation::LeaveBed),
        AnimateAction::CriticalHit => Some(Animation::CriticalEffect),
        AnimateAction::MagicCriticalHit => Some(Animation::MagicCriticalEffect),
        AnimateAction::StopSleep => None,
    }
}

/// What everyone around is sent when a player moves, if anything: nothing as long as its
/// client is not ready.
pub fn handle_animate(client_loaded: bool, entity_id: i32, action: AnimateAction) -> (r: Option<
    AnimationShown,
>)
    ensures
        r == (if client_loaded && java_animation(action) is Some {
            Some(
                AnimationShown {
                    entity_id,
                    java: java_animation(action)->0,
                    bedrock: action,
                    runtime_entity_id: entity_id as u64,
                },
            )
        } else {
            None
        }),
{
    if !client_loaded {
        return None;
    }
    let java: Animation = match action {
        AnimateAction::SwingArm => Animation::SwingMainArm,
        AnimateAction::WakeUp => Animation::LeaveBed,
        AnimateAction::CriticalHit => Animation::CriticalEffect,
        AnimateAction::MagicCriticalHit => Animation::MagicCriticalEffect,
        AnimateAction::StopSleep => {
            return None;
        },
    };
    Some(
        AnimationShown {
            entity_id,
            java,
            bedrock: action,
            runtime_entity_id: #[verifier::truncate] (entity_id as u64),
        },
    )
}

/// What the others around are sent of an emote: one thing for each edition.
#[derive(Clone, Copy, Debug, PartialEq, Eq, Structural)]
pub struct EmoteShown {
    pub entity_id: i32,
    pub java: Animation,
    /// The flags of the emote.
    pub flags: u8,
}

/// What the others around are sent of an emote, if anything: it is marked as coming from the
/// server, by the flag for that, and the other edition sees an arm swing. Nothing is sent as
/// long as the client is not ready.
pub fn handle_emote(client_loaded: bool, entity_id: i32, flags: u8, server_side: u8) -> (r: Option<
    EmoteShown,
>)
    ensures
        r == (if client_loaded {
            Some(
                EmoteShown {
                    entity_id,
                    java: Animation::SwingMainArm,
                    flags: flags | server_side,
                },
            )
        } else {
            None
        }),
{
    if client_loaded {
        Some(EmoteShown { entity_id, java: Animation::SwingMainArm, flags: flags | server_side })
    } else {
        None
    }
}

/// Law: an emote that is sent on keeps its own flags and has that of the server.
pub proof fn law_emote_keeps_its_flags(flags: u8, server_side: u8)
    ensures
        (flags | server_side) & flags == flags,
        (flags | server_side) & server_side == server_side,
{
    assert((flags | server_side) & flags == flags) by (bit_vector);
    assert((flags | server_side) & server_side == server_side) by (bit_vector);
}

// ---------------------------------------------------------------------------
// Inventories and attacks.
// ---------------------------------------------------------------------------

/// What a client wants to do with what is in sight.
#[derive(Clone, Copy, Debug, PartialEq, Eq, Structural)]
pub enum InteractionAction {
    OpenInventory,
    Attack,
    Other(u8),
}

/// What an interaction asks for.
#[derive(Clone, Copy, Debug, PartialEq, Eq, Structural)]
pub enum InteractionStep {
    /// The client is told to open a screen.
    OpenContainer {
        container_id: u8,
        container_type: u8,
        position: BlockPos,
        target_entity_id: i64,
    },
    /// The entity is attacked, where it is there and in reach.
    AttackIfInReach { entity_id: i32 },
}

/// A client of this edition.
#[derive(Clone, Copy, Debug, PartialEq, Eq, Structural)]
pub struct BedrockClient {
    /// Whether the inventory of the player is open.
    pub inventory_opened: bool,
}

impl BedrockClient {
    /// What an interaction asks for, if anything.
    pub open spec fn spec_interaction(
        self,
        action: InteractionAction,
        target_runtime_id: u64,
    ) -> Option<InteractionStep> {
        match action {
            InteractionAction::OpenInventory => if self.inventory_opened {
                None
            } else {
                Some(
                    InteractionStep::OpenContainer {
                        container_id: 0,
                        container_type: 0xff,
                        position: origin(),
                        target_entity_id: -1i64,
                    },
                )
            },
            InteractionAction::Attack => Some(
                InteractionStep::AttackIfInReach { entity_id: target_runtime_id as i32 },
            ),
            InteractionAction::Other(_) => None,
        }
    }

    /// Takes up what a client wants to do. An inventory that is open is not opened again.
    pub fn handle_interaction(&mut self, action: InteractionAction, target_runtime_id: u64) -> (r:
        Option<InteractionStep>)
        ensures
            r == old(self).spec_interaction(action, target_runtime_id),
            final(self).inventory_opened == (old(self).inventory_opened || action
                == InteractionAction::OpenInventory),
    {
        match action {
            InteractionAction::OpenInventory => {
                if self.inventory_opened {
                    return None;
                }
                self.inventory_opened = true;
                Some(
                    InteractionStep::OpenContainer {
                        container_id: 0,
                        container_type: 0xff,
                        position: BlockPos { x: 0, y: 0, z: 0 },
                        target_entity_id: -1,
                    },
                )
            },
            InteractionAction::Attack => {
                let entity_id: i32 = #[verifier::truncate] (target_runtime_id as i32);
                Some(InteractionStep::AttackIfInReach { entity_id })
            },
            InteractionAction::Other(_) => None,
        }
    }
}

/// Whether an entity is attacked: it has to be there and in reach. `in_reach` says whether
/// the entity with the number is in reach, where there is one.
pub fn attacks(in_reach: Option<bool>) -> (r: bool)
    ensures
        r == (in_reach == Some(true)),
{
    match in_reach {
        Some(reached) => reached,
        None => false,
    }
}

/// Law: an inventory is opened once, however often the client asks.
pub proof fn law_inventory_opens_once(client: BedrockClient, target_runtime_id: u64)
    requires
        client.inventory_opened,
    ensures
        client.spec_interaction(InteractionAction::OpenInventory, target_runtime_id) is None,
{
}

// ---------------------------------------------------------------------------
// Breaking blocks.
// ---------------------------------------------------------------------------

/// What a player is doing to a block.
#[derive(Clone, Copy, Debug, PartialEq, Eq, Structural)]
pub struct Mining {
    pub mining: bool,
    pub mining_pos: BlockPos,
    /// How far the block is broken.
    pub current_block_destroy_stage: i32,
}

/// What is known when a player acts on a block.
#[derive(Clone, Copy, Debug, PartialEq, Eq, Structural)]
pub struct ActionView {
    /// Whether the client of the player is ready.
    pub client_loaded: bool,
    /// Whether the player reaches the block.
    pub in_reach: bool,
    pub gamemode: GameMode,
    /// Whether there is only air.
    pub is_air: bool,
    /// The part of the block that the player breaks in one tick.
    pub speed: Rank32,
    /// Ten times that part, rounded towards nothing.
    pub progress: i32,
    /// Whether the player gets what the block drops.
    pub harvests: bool,
}

/// What an action asks the world to do.
#[derive(Clone, Copy, Debug, PartialEq, Eq, Structural)]
pub enum ActionStep {
    /// The player was last seen to act now.
    UpdateLastActionTime,
    /// The block is broken, and its neighbours are told. Once it is, whatever follows from a
    /// broken block follows, and the tool may wear off.
    Break { pos: BlockPos, skips_drops: bool, wears_tool: bool },
    /// The block shows cracks, or no longer.
    ShowCracks { pos: BlockPos, stage: i32 },
    DropHeldItem,
}

/// What follows from breaking a block.
#[derive(Clone, Copy, Debug, PartialEq, Eq, Structural)]
pub enum BreakStep {
    /// Those who listen are told that the block is broken.
    NotifyBroken,
    WearTool,
}

/// The action begins or goes on breaking a block.
pub open spec fn is_breaking(action: PlayerAction) -> bool {
    ||| action == PlayerAction::StartBreak
    ||| action == PlayerAction::CreativePlayerDestroyBlock
    ||| action == PlayerAction::ContinueDestroyBlock
}

/// The action ends breaking a block.
pub open spec fn is_broken_through(action: PlayerAction) -> bool {
    action == PlayerAction::PredictDestroyBlock || action == PlayerAction::StopBreak
}

/// The block only cracks so far.
pub open spec fn only_cracks(packet: SPlayerAction, view: ActionView) -> bool {
    &&& is_breaking(packet.action)
    &&& view.in_reach
    &&& view.gamemode != GameMode::Creative
    &&& !view.is_air
    &&& view.speed < WHOLE_BLOCK
}

/// The block breaks, if anything, in the way that is given: whether its drops are left out
/// and whether the tool wears off.
pub open spec fn breaks(packet: SPlayerAction, view: ActionView) -> Option<(bool, bool)> {
    if !view.in_reach {
        None
    } else if is_breaking(packet.action) {
        if view.gamemode == GameMode::Creative {
            Some((true, false))
        } else if !view.is_air && view.speed >= WHOLE_BLOCK {
            Some((false, true))
        } else {
            None
        }
    } else if is_broken_through(packet.action) && view.gamemode != GameMode::Creative {
        Some((!view.harvests, true))
    } else {
        None
    }
}

/// The cracks are taken from the block.
pub open spec fn heals(packet: SPlayerAction, view: ActionView) -> bool {
    is_broken_through(packet.action) && view.in_reach || packet.action == PlayerAction::AbortBreak
}

/// What an action asks for, in order.
pub open spec fn action_steps(packet: SPlayerAction, view: ActionView) -> Seq<ActionStep> {
    let pos = packet.block_pos;
    if !view.client_loaded {
        Seq::empty()
    } else {
        seq![ActionStep::UpdateLastActionTime] + only_if(
            heals(packet, view),
            ActionStep::ShowCracks { pos, stage: NO_CRACKS },
        ) + only_if(
            breaks(packet, view) is Some,
            ActionStep::Break {
                pos,
                skips_drops: (breaks(packet, view)->0).0,
                wears_tool: (breaks(packet, view)->0).1,
            },
        ) + only_if(
            only_cracks(packet, view),
            ActionStep::ShowCracks { pos, stage: view.progress },
        ) + only_if(packet.action == PlayerAction::DropItem, ActionStep::DropHeldItem)
    }
}

impl Mining {
    /// What the player is doing after the action: it mines a block that cracks only, and no
    /// longer mines when it is through or gives up.
    pub open spec fn spec_after(self, packet: SPlayerAction, view: ActionView) -> Self {
        if !view.client_loaded {
            self
        } else if only_cracks(packet, view) {
            Mining {
                mining: true,
                mining_pos: packet.block_pos,
                current_block_destroy_stage: view.progress,
            }
        } else if heals(packet, view) {
            Mining { mining: false, ..self }
        } else {
            self
        }
    }

    /// Takes up an action of a player. In creative mode a block breaks at once and leaves
    /// nothing; otherwise it breaks at once only where the player is fast enough, and cracks
    /// until then.
    pub fn handle_player_action(&mut self, packet: &SPlayerAction, view: &ActionView) -> (r: Vec<
        ActionStep,
    >)
        ensures
            *final(self) == old(self).spec_after(*packet, *view),
            r@ == action_steps(*packet, *view),
    {
        let mut plan: Vec<ActionStep> = Vec::new();
        if !view.client_loaded {
            return plan;
        }
        let pos: BlockPos = packet.block_pos;
        plan.push(ActionStep::UpdateLastActionTime);
        match packet.action {
            PlayerAction::StartBreak
            | PlayerAction::CreativePlayerDestroyBlock
            | PlayerAction::ContinueDestroyBlock => {
                if view.in_reach {
                    if view.gamemode == GameMode::Creative {
                        plan.push(
                            ActionStep::Break { pos, skips_drops: true, wears_tool: false },
                        );
                    } else if !view.is_air {
                        if view.speed >= WHOLE_BLOCK {
                            plan.push(
                                ActionStep::Break { pos, skips_drops: false, wears_tool: true },
                            );
                        } else {
                            self.mining = true;
                            self.mining_pos = pos;
                            plan.push(ActionStep::ShowCracks { pos, stage: view.progress });
                            self.current_block_destroy_stage = view.progress;
                        }
                    }
                }
            },
            PlayerAction::PredictDestroyBlock | PlayerAction::StopBreak => {
                if view.in_reach {
                    self.mining = false;
                    plan.push(ActionStep::ShowCracks { pos, stage: NO_CRACKS });
                    if view.gamemode != GameMode::Creative {
                        plan.push(
                            ActionStep::Break {
                                pos,
                                skips_drops: !view.harvests,
                                wears_tool: true,
                            },
                        );
                    }
                }
            },
            PlayerAction::CrackBreak => {},
            PlayerAction::AbortBreak => {
                self.mining = false;
                plan.push(ActionStep::ShowCracks { pos, stage: NO_CRACKS });
            },
            PlayerAction::DropItem => {
                plan.push(ActionStep::DropHeldItem);
            },
            PlayerAction::Other(_) => {},
        }
        assert(plan@ =~= action_steps(*packet, *view));
        plan
    }
}

/// What follows from breaking a block, once the world says whether it is broken.
pub fn after_break(broken: bool, wears_tool: bool) -> (r: Vec<BreakStep>)
    ensures
        r@ == only_if(broken, BreakStep::NotifyBroken) + only_if(
            broken && wears_tool,
            BreakStep::WearTool,
        ),
{
    let mut plan: Vec<BreakStep> = Vec::new();
    push_if(&mut plan, broken, BreakStep::NotifyBroken);
    assert(plan@ =~= only_if(broken, BreakStep::NotifyBroken));
    push_if(&mut plan, broken && wears_tool, BreakStep::WearTool);
    plan
}

/// Law: whoever does not reach a block does not break it, and it does not crack either.
pub proof fn law_out_of_reach_breaks_nothing(packet: SPlayerAction, view: ActionView)
    requires
        !view.in_reach,
    ensures
        breaks(packet, view) is None,
        !only_cracks(packet, view),
{
}

/// Law: in creative mode no block drops anything that a player breaks, and no tool wears off.
pub proof fn law_creative_breaks_leave_nothing(packet: SPlayerAction, view: ActionView)
    requires
        view.gamemode == GameMode::Creative,
    ensures
        breaks(packet, view) matches Some(way) ==> way == (true, false),
{
}

// ---------------------------------------------------------------------------
// Abilities.
// ---------------------------------------------------------------------------

/// The value that a client wants an ability to have.
#[derive(Clone, Copy, Debug, PartialEq, Eq, Structural)]
pub enum AbilityValue {
    Bool(bool),
    Float(Rank32),
}

/// What a request for an ability asks for.
#[derive(Clone, Copy, Debug, PartialEq, Eq, Structural)]
pub enum AbilityStep {
    /// The player was last seen to act now.
    UpdateLastActionTime,
    /// The client is told what the player is able to do now.
    SendAbilities,
}

/// What a player is able to do.
#[derive(Clone, Copy, Debug, PartialEq, Eq, Structural)]
pub struct Abilities {
    pub allow_flying: bool,
    pub flying: bool,
}

impl Abilities {
    /// The client asks to fly or not to.
    pub open spec fn asks_to_fly(ability: i32, value: AbilityValue) -> Option<bool> {
        match value {
            AbilityValue::Bool(flying) => if ability == FLYING_ABILITY {
                Some(flying)
            } else {
                None
            },
            AbilityValue::Float(_) => None,
        }
    }

    /// What a player is able to do once the client has asked.
    pub open spec fn spec_after_request(self, ability: i32, value: AbilityValue) -> Abilities {
        match Self::asks_to_fly(ability, value) {
            Some(flying) => Abilities { flying: flying && self.allow_flying, ..self },
            None => self,
        }
    }

    /// Takes up what a client asks to be able to do: it flies only where it may. Whatever it
    /// asks, the player was seen to act; the client is told only of an answer on flying.
    pub fn handle_request_ability(&mut self, ability: i32, value: AbilityValue) -> (r: Vec<
        AbilityStep,
    >)
        ensures
            r@ == seq![AbilityStep::UpdateLastActionTime] + only_if(
                Self::asks_to_fly(ability, value) is Some,
                AbilityStep::SendAbilities,
            ),
            *final(self) == old(self).spec_after_request(ability, value),
    {
        let mut plan: Vec<AbilityStep> = Vec::new();
        plan.push(AbilityStep::UpdateLastActionTime);
        if ability == FLYING_ABILITY {
            if let AbilityValue::Bool(requested) = value {
                if self.allow_flying {
                    self.flying = requested;
                } else {
                    self.flying = false;
                }
                plan.push(AbilityStep::SendAbilities);
            }
        }
        assert(plan@ =~= seq![AbilityStep::UpdateLastActionTime] + only_if(
            Self::asks_to_fly(ability, value) is Some,
            AbilityStep::SendAbilities,
        ));
        plan
    }
}

/// Law: no request makes a player fly who may not, and none changes whether it may.
pub proof fn law_only_those_fly_who_may(abilities: Abilities, ability: i32, value: AbilityValue)
    requires
        abilities.flying ==> abilities.allow_flying,
    ensures
        abilities.spec_after_request(ability, value).flying ==> abilities.allow_flying,
        abilities.spec_after_request(ability, value).allow_flying == abilities.allow_flying,
{
}

/// Law: an action that has a number is passed on with the block and the face it is about, and nothing
/// else is.
pub proof fn law_block_actions_are_passed_on(
    action: Option<PlayerAction>,
    block_pos: BlockPos,
    face: i32,
    r: Option<SPlayerAction>,
)
    requires
        call_ensures(handle_player_block_action, (action, block_pos, face), r),
    ensures
        r is Some <==> action is Some,
        r is Some ==> {
            &&& r->0.action == action->0
            &&& r->0.block_pos == block_pos
            &&& r->0.face == face
            &&& r->0.runtime_id == 0
            &&& r->0.result_pos == (BlockPos { x: 0, y: 0, z: 0 })
        },
{
}

/// Law: every move that is shown is shown as what it is, to both editions and of the entity that moved.
/// All moves of a client that is ready are shown but the end of a sleep.
pub proof fn law_moves_are_shown_as_they_are(
    client_loaded: bool,
    entity_id: i32,
    action: AnimateAction,
    r: Option<AnimationShown>,
)
    requires
        call_ensures(handle_animate, (client_loaded, entity_id, action), r),
    ensures
        r is Some <==> client_loaded && action != AnimateAction::StopSleep,
        r is Some ==> {
            &&& r->0.entity_id == entity_id
            &&& r->0.bedrock == action
            &&& entity_id >= 0 ==> r->0.runtime_entity_id == entity_id
            &&& r->0.java == Animation::SwingMainArm <==> action == AnimateAction::SwingArm
            &&& r->0.java == Animation::LeaveBed <==> action == AnimateAction::WakeUp
            &&& r->0.java == Animation::CriticalEffect <==> action == AnimateAction::CriticalHit
            &&& r->0.java == Animation::MagicCriticalEffect <==> action
                == AnimateAction::MagicCriticalHit
        },
{
}

/// Law: an emote of a client that is ready is shown as a swing of the arm; it keeps its flags, has the
/// one of the server and has no other.
pub proof fn law_emotes_are_shown(
    client_loaded: bool,
    entity_id: i32,
    flags: u8,
    server_side: u8,
    r: Option<EmoteShown>,
)
    requires
        call_ensures(handle_emote, (client_loaded, entity_id, flags, server_side), r),
    ensures
        r is Some <==> client_loaded,
        r is Some ==> {
            &&& r->0.entity_id == entity_id
            &&& r->0.java == Animation::SwingMainArm
            &&& r->0.flags & flags == flags
            &&& r->0.flags & server_side == server_side
            &&& r->0.flags & !(flags | server_side) == 0
        },
{
    law_emote_keeps_its_flags(flags, server_side);
    assert((flags | server_side) & !(flags | server_side) == 0) by (bit_vector);
}

/// Law: a client that asks for its inventory gets its screen, the one of the player itself, and no
/// second one; one that attacks has the entity it names attacked, where that is in reach. Nothing else
/// has an effect.
pub proof fn law_what_interactions_ask_for(
    client: &mut BedrockClient,
    action: InteractionAction,
    target: u64,
    r: Option<InteractionStep>,
    in_reach: Option<bool>,
    attacked: bool,
)
    requires
        call_ensures(BedrockClient::handle_interaction, (client, action, target), r),
        call_ensures(attacks, (in_reach,), attacked),
    ensures
        action == InteractionAction::OpenInventory ==> final(client).inventory_opened,
        action == InteractionAction::OpenInventory ==> (r is Some <==> !old(client).inventory_opened),
        action == InteractionAction::OpenInventory && r is Some ==> r->0 == (
        InteractionStep::OpenContainer {
            container_id: 0,
            container_type: 255,
            position: BlockPos { x: 0, y: 0, z: 0 },
            target_entity_id: -1i64,
        }),
        action == InteractionAction::Attack ==> r is Some && r->0 is AttackIfInReach,
        action == InteractionAction::Attack && target <= i32::MAX ==> r->0->entity_id == target,
        action is Other ==> r is None,
        action != InteractionAction::OpenInventory ==> *final(client) == *old(client),
        attacked <==> in_reach is Some && in_reach->0,
{
}

/// Law: nothing follows from the action of a client that is not ready; any other counts as a sign of
/// life, first of all.
pub proof fn law_actions_are_signs_of_life(
    mining: &mut Mining,
    packet: SPlayerAction,
    view: ActionView,
    r: Vec<ActionStep>,
)
    requires
        call_ensures(Mining::handle_player_action, (mining, &packet, &view), r),
    ensures
        !view.client_loaded ==> r@.len() == 0 && *final(mining) == *old(mining),
        view.client_loaded ==> r@.len() >= 1 && r@[0] == ActionStep::UpdateLastActionTime,
        r@.contains(ActionStep::DropHeldItem) <==> view.client_loaded && packet.action
            == PlayerAction::DropItem,
        view.client_loaded && packet.action is Other ==> r@.len() == 1 && *final(mining) == *old(mining),
        view.client_loaded && packet.action == PlayerAction::CrackBreak ==> r@.len() == 1,
{
    broadcast use crate::plan::lemma_plan_contains;
    broadcast use crate::plan::lemma_only_if_contains;
    broadcast use crate::plan::lemma_single_contains;

}

/// Law: a block in reach that a player begins to break, or goes on with, breaks at once in creative
/// mode, with nothing left and no tool worn; in any other mode just where it is no air and breaks whole
/// in one tick, and else it shows how far it is.
pub proof fn law_blocks_break_or_crack(
    mining: &mut Mining,
    packet: SPlayerAction,
    view: ActionView,
    r: Vec<ActionStep>,
)
    requires
        call_ensures(Mining::handle_player_action, (mining, &packet, &view), r),
        view.client_loaded,
        packet.action == PlayerAction::StartBreak || packet.action
            == PlayerAction::ContinueDestroyBlock || packet.action
            == PlayerAction::CreativePlayerDestroyBlock,
    ensures
        !view.in_reach ==> r@.len() == 1 && *final(mining) == *old(mining),
        view.in_reach && view.gamemode == GameMode::Creative ==> r@.len() == 2 && r@[1] == (
        ActionStep::Break { pos: packet.block_pos, skips_drops: true, wears_tool: false }),
        view.in_reach && view.gamemode != GameMode::Creative && view.is_air ==> r@.len() == 1,
        view.in_reach && view.gamemode != GameMode::Creative && !view.is_air && view.speed
            >= 0x3f800000 ==> r@.len() == 2 && r@[1] == (ActionStep::Break {
            pos: packet.block_pos,
            skips_drops: false,
            wears_tool: true,
        }),
        view.in_reach && view.gamemode != GameMode::Creative && !view.is_air && view.speed
            < 0x3f800000 ==> {
            &&& r@.len() == 2
            &&& r@[1] == (ActionStep::ShowCracks {
                pos: packet.block_pos,
                stage: view.progress,
            })
            &&& final(mining).mining
            &&& final(mining).mining_pos == packet.block_pos
            &&& final(mining).current_block_destroy_stage == view.progress
        },
        view.in_reach && r@.len() == 2 && r@[1] is Break ==> *final(mining) == *old(mining),
{
}

/// Law: whoever is through with a block in reach takes the cracks from it and mines no longer, and it
/// breaks in every mode but the creative one: it drops what is got from it, and the tool wears.
/// Whoever gives up takes the cracks from it, in reach or not, and nothing breaks.
pub proof fn law_mining_ends(
    mining: &mut Mining,
    packet: SPlayerAction,
    view: ActionView,
    r: Vec<ActionStep>,
)
    requires
        call_ensures(Mining::handle_player_action, (mining, &packet, &view), r),
        view.client_loaded,
    ensures
        (packet.action == PlayerAction::StopBreak || packet.action
            == PlayerAction::PredictDestroyBlock) && !view.in_reach ==> r@.len() == 1
            && *final(mining) == *old(mining),
        (packet.action == PlayerAction::StopBreak || packet.action
            == PlayerAction::PredictDestroyBlock) && view.in_reach ==> {
            &&& !final(mining).mining
            &&& r@[1] == (ActionStep::ShowCracks { pos: packet.block_pos, stage: -1i32 })
            &&& view.gamemode == GameMode::Creative ==> r@.len() == 2
            &&& view.gamemode != GameMode::Creative ==> r@.len() == 3 && r@[2] == (
            ActionStep::Break {
                pos: packet.block_pos,
                skips_drops: !view.harvests,
                wears_tool: true,
            })
        },
        packet.action == PlayerAction::AbortBreak ==> {
            &&& !final(mining).mining
            &&& r@.len() == 2
            &&& r@[1] == (ActionStep::ShowCracks { pos: packet.block_pos, stage: -1i32 })
        },
{
}

/// Law: of a block that is broken those who listen are told, and then the tool wears where it does;
/// nothing follows from one that is not.
pub proof fn law_what_follows_from_a_break(broken: bool, wears_tool: bool, r: Vec<BreakStep>)
    requires
        call_ensures(after_break, (broken, wears_tool), r),
    ensures
        !broken ==> r@.len() == 0,
        broken ==> r@[0] == BreakStep::NotifyBroken,
        broken && wears_tool ==> r@.len() == 2 && r@[1] == BreakStep::WearTool,
        broken && !wears_tool ==> r@.len() == 1,
{
}

/// Law: a client that asks to fly does just where it may, and one that asks not to does not; it is told
/// of that. No other request changes or tells anything, and each counts as a sign of life.
pub proof fn law_requests_to_fly(
    abilities: &mut Abilities,
    ability: i32,
    value: AbilityValue,
    r: Vec<AbilityStep>,
)
    requires
        call_ensures(Abilities::handle_request_ability, (abilities, ability, value), r),
    ensures
        r@[0] == AbilityStep::UpdateLastActionTime,
        final(abilities).allow_flying == old(abilities).allow_flying,
        ability == 9 && value == AbilityValue::Bool(true) ==> final(abilities).flying == old(abilities).allow_flying,
        ability == 9 && value == AbilityValue::Bool(false) ==> !final(abilities).flying,
        ability == 9 && value is Bool ==> r@.len() == 2 && r@[1] == AbilityStep::SendAbilities,
        ability != 9 || value is Float ==> r@.len() == 1 && *final(abilities) == *old(abilities),
{
}

} // verus!
