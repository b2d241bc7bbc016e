//! Admission control: may this packet, or this action, touch the world now?

use vstd::prelude::*;

use crate::brain::tactical_frame::TacticalFrame;
use crate::character::{Capability, CapabilitySet};
use crate::execution::packet::{
    ActionPacket, TacticalAction, TacticalIntent, TacticalStyle,
};
use crate::text::{optional_text, same_optional_text};
use crate::world::{TilePosition, find_tile, tile_at};

verus! {

/// The facts a packet is judged against. `now_ms` is milliseconds since the Unix epoch.
pub struct ValidationContext<'a> {
    pub minimum_valid_frame_revision: u64,
    pub current_strategic_revision: u64,
    pub now_ms: i64,
    pub capabilities: &'a CapabilitySet,
    pub frame: &'a TacticalFrame,
}

/// Why a packet or one of its actions was refused.
#[derive(Debug, Clone, PartialEq, Eq)]
pub enum ActionRejected {
    StaleFrame { packet: u64, minimum: u64 },
    StaleStrategy { packet: u64, current: u64 },
    PlayerUnavailable,
    MissingCombatHealth,
    MissingCapability(Capability),
    UnknownTarget(String),
    UnknownDrop(String),
    UnavailableItem(String),
    UnavailableSkill(String),
    UnknownDestination { tile_x: i32, tile_y: i32 },
    BlockedDestination { tile_x: i32, tile_y: i32 },
    StrategicNavigationOwnsMovement,
    EmptyPacket,
    InvalidLifetime,
    Expired,
    SceneChanged { packet: Option<String>, current: Option<String> },
}

pub open spec fn rejection_code(rejection: ActionRejected) -> Seq<char> {
    match rejection {
        ActionRejected::StaleFrame { .. } => "stale_frame"@,
        ActionRejected::StaleStrategy { .. } => "stale_strategy"@,
        ActionRejected::PlayerUnavailable => "player_unavailable"@,
        ActionRejected::MissingCombatHealth => "missing_combat_health"@,
        ActionRejected::MissingCapability(_) => "missing_capability"@,
        ActionRejected::UnknownTarget(_) => "unknown_target"@,
        ActionRejected::UnknownDrop(_) => "unknown_drop"@,
        ActionRejected::UnavailableItem(_) => "unavailable_item"@,
        ActionRejected::UnavailableSkill(_) => "unavailable_skill"@,
        ActionRejected::UnknownDestination { .. } => "unknown_destination"@,
        ActionRejected::BlockedDestination { .. } => "blocked_destination"@,
        ActionRejected::StrategicNavigationOwnsMovement => "strategic_navigation_owns_movement"@,
        ActionRejected::EmptyPacket => "empty_packet"@,
        ActionRejected::InvalidLifetime => "invalid_lifetime"@,
        ActionRejected::Expired => "expired"@,
        ActionRejected::SceneChanged { .. } => "scene_changed"@,
    }
}

impl ActionRejected {
    /// The stable machine-readable reason.
    pub fn reason_code(&self) -> (code: &'static str)
        ensures
            code@ == rejection_code(*self),
    {
        match self {
            ActionRejected::StaleFrame { .. } => "stale_frame",
            ActionRejected::StaleStrategy { .. } => "stale_strategy",
            ActionRejected::PlayerUnavailable => "player_unavailable",
            ActionRejected::MissingCombatHealth => "missing_combat_health",
            ActionRejected::MissingCapability(_) => "missing_capability",
            ActionRejected::UnknownTarget(_) => "unknown_target",
            ActionRejected::UnknownDrop(_) => "unknown_drop",
            ActionRejected::UnavailableItem(_) => "unavailable_item",
            ActionRejected::UnavailableSkill(_) => "unavailable_skill",
            ActionRejected::UnknownDestination { .. } => "unknown_destination",
            ActionRejected::BlockedDestination { .. } => "blocked_destination",
            ActionRejected::StrategicNavigationOwnsMovement => "strategic_navigation_owns_movement",
            ActionRejected::EmptyPacket => "empty_packet",
            ActionRejected::InvalidLifetime => "invalid_lifetime",
            ActionRejected::Expired => "expired",
            ActionRejected::SceneChanged { .. } => "scene_changed",
        }
    }
}

/// Which kind of rejection this is, by the order the kinds are declared in.
pub open spec fn rejection_kind(rejection: ActionRejected) -> int {
    match rejection {
        ActionRejected::StaleFrame { .. } => 0,
        ActionRejected::StaleStrategy { .. } => 1,
        ActionRejected::PlayerUnavailable => 2,
        ActionRejected::MissingCombatHealth => 3,
        ActionRejected::MissingCapability(_) => 4,
        ActionRejected::UnknownTarget(_) => 5,
        ActionRejected::UnknownDrop(_) => 6,
        ActionRejected::UnavailableItem(_) => 7,
        ActionRejected::UnavailableSkill(_) => 8,
        ActionRejected::UnknownDestination { .. } => 9,
        ActionRejected::BlockedDestination { .. } => 10,
        ActionRejected::StrategicNavigationOwnsMovement => 11,
        ActionRejected::EmptyPacket => 12,
        ActionRejected::InvalidLifetime => 13,
        ActionRejected::Expired => 14,
        ActionRejected::SceneChanged { .. } => 15,
    }
}

/// The length and first character of each kind's code.
spec fn code_key(rejection: ActionRejected) -> (nat, char) {
    match rejection {
        ActionRejected::StaleFrame { .. } => (11, 's'),
        ActionRejected::StaleStrategy { .. } => (14, 's'),
        ActionRejected::PlayerUnavailable => (18, 'p'),
        ActionRejected::MissingCombatHealth => (21, 'm'),
        ActionRejected::MissingCapability(_) => (18, 'm'),
        ActionRejected::UnknownTarget(_) => (14, 'u'),
        ActionRejected::UnknownDrop(_) => (12, 'u'),
        ActionRejected::UnavailableItem(_) => (16, 'u'),
        ActionRejected::UnavailableSkill(_) => (17, 'u'),
        ActionRejected::UnknownDestination { .. } => (19, 'u'),
        ActionRejected::BlockedDestination { .. } => (19, 'b'),
        ActionRejected::StrategicNavigationOwnsMovement => (34, 's'),
        ActionRejected::EmptyPacket => (12, 'e'),
        ActionRejected::InvalidLifetime => (16, 'i'),
        ActionRejected::Expired => (7, 'e'),
        ActionRejected::SceneChanged { .. } => (13, 's'),
    }
}

proof fn lemma_code_key(rejection: ActionRejected)
    ensures
        rejection_code(rejection).len() == code_key(rejection).0,
        rejection_code(rejection)[0] == code_key(rejection).1,
{
    reveal_strlit("stale_frame");
    reveal_strlit("stale_strategy");
    reveal_strlit("player_unavailable");
    reveal_strlit("missing_combat_health");
    reveal_strlit("missing_capability");
    reveal_strlit("unknown_target");
    reveal_strlit("unknown_drop");
    reveal_strlit("unavailable_item");
    reveal_strlit("unavailable_skill");
    reveal_strlit("unknown_destination");
    reveal_strlit("blocked_destination");
    reveal_strlit("strategic_navigation_owns_movement");
    reveal_strlit("empty_packet");
    reveal_strlit("invalid_lifetime");
    reveal_strlit("expired");
    reveal_strlit("scene_changed");
}

/// A rejection's code names its kind alone: two rejections have the same
/// code exactly when they are of the same kind, whatever their fields hold.
pub proof fn law_reason_codes_name_the_kind(a: ActionRejected, b: ActionRejected)
    ensures
        rejection_code(a) == rejection_code(b) <==> rejection_kind(a) == rejection_kind(b),
{
    lemma_code_key(a);
    lemma_code_key(b);
    if rejection_code(a) == rejection_code(b) {
        assert(code_key(a) == code_key(b));
    }
}

/// How long ago, in milliseconds, the packet was created; never negative.
pub open spec fn packet_age_ms(now_ms: i64, created_at_ms: i64) -> int {
    if now_ms - created_at_ms > 0 {
        now_ms - created_at_ms
    } else {
        0
    }
}

/// The world explicitly reports the body dead or just died. Unknown is not death.
pub open spec fn frame_reports_death(frame: TacticalFrame) -> bool {
    frame.self_state.alive == Some(false) || frame.self_state.recently_died == Some(true)
}

/// The first header rule `packet` breaks under `context`, in checking order.
pub open spec fn header_rejection(packet: ActionPacket, context: ValidationContext) -> Option<
    ActionRejected,
> {
    if packet.frame_revision < context.minimum_valid_frame_revision {
        Some(
            ActionRejected::StaleFrame {
                packet: packet.frame_revision,
                minimum: context.minimum_valid_frame_revision,
            },
        )
    } else if packet.strategic_revision != context.current_strategic_revision {
        Some(
            ActionRejected::StaleStrategy {
                packet: packet.strategic_revision,
                current: context.current_strategic_revision,
            },
        )
    } else if packet.proposal.actions@.len() == 0 && packet.proposal.intent
        != TacticalIntent::Continue {
        Some(ActionRejected::EmptyPacket)
    } else if !(1 <= packet.proposal.valid_for_ms <= 10000) {
        Some(ActionRejected::InvalidLifetime)
    } else if packet_age_ms(context.now_ms, packet.created_at_ms) > packet.proposal.valid_for_ms {
        Some(ActionRejected::Expired)
    } else if optional_text(packet.scene) != optional_text(context.frame.self_state.scene) {
        Some(
            ActionRejected::SceneChanged {
                packet: packet.scene,
                current: context.frame.self_state.scene,
            },
        )
    } else if frame_reports_death(*context.frame) {
        Some(ActionRejected::PlayerUnavailable)
    } else {
        None
    }
}

pub open spec fn capability_rejection(context: ValidationContext, capability: Capability) -> Option<
    ActionRejected,
> {
    if context.capabilities@.contains(capability) {
        None
    } else {
        Some(ActionRejected::MissingCapability(capability))
    }
}

/// Active combat without authoritative health is blind combat.
pub open spec fn combat_health_rejection(context: ValidationContext) -> Option<ActionRejected> {
    if context.frame.combat.active == Some(true) && (context.frame.self_state.health.is_none()
        || context.frame.self_state.max_health.is_none()) {
        Some(ActionRejected::MissingCombatHealth)
    } else {
        None
    }
}

pub open spec fn hostile_target_visible(frame: TacticalFrame, target: Seq<char>) -> bool {
    exists|i: int|
        0 <= i < frame.nearby_entities@.len() && (#[trigger] frame.nearby_entities@[i]).id@
            == target && frame.nearby_entities@[i].hostile == Some(true)
}

pub open spec fn entity_visible(frame: TacticalFrame, target: Seq<char>) -> bool {
    exists|i: int|
        0 <= i < frame.nearby_entities@.len() && (#[trigger] frame.nearby_entities@[i]).id@
            == target
}

pub open spec fn skill_usable(frame: TacticalFrame, skill: Seq<char>) -> bool {
    exists|i: int|
        0 <= i < frame.self_state.combat_actions@.len()
            && (#[trigger] frame.self_state.combat_actions@[i]).id@ == skill
            && frame.self_state.combat_actions@[i].available != Some(false)
}

pub open spec fn item_usable(frame: TacticalFrame, item: Seq<char>) -> bool {
    exists|i: int|
        0 <= i < frame.self_state.inventory@.len() && (#[trigger] frame.self_state.inventory@[i]).id@
            == item && frame.self_state.inventory@[i].quantity > 0
            && frame.self_state.inventory@[i].usable != Some(false)
}

pub open spec fn drop_visible(frame: TacticalFrame, drop: Seq<char>) -> bool {
    exists|i: int|
        0 <= i < frame.nearby_drops@.len() && (#[trigger] frame.nearby_drops@[i]).id@ == drop
}

pub open spec fn exit_at(frame: TacticalFrame, tile: TilePosition) -> bool {
    exists|i: int| 0 <= i < frame.exits@.len() && (#[trigger] frame.exits@[i]).tile == tile
}

pub open spec fn move_rejection(tile_x: i32, tile_y: i32, context: ValidationContext) -> Option<
    ActionRejected,
> {
    let destination = TilePosition { x: tile_x, y: tile_y };
    if !context.capabilities@.contains(Capability::Walk) {
        Some(ActionRejected::MissingCapability(Capability::Walk))
    } else {
        match tile_at(context.frame.map.tiles@, destination) {
            None => Some(ActionRejected::UnknownDestination { tile_x, tile_y }),
            Some(tile) => if tile.walkable == Some(false) {
                Some(ActionRejected::BlockedDestination { tile_x, tile_y })
            } else if exit_at(*context.frame, destination) {
                capability_rejection(context, Capability::Doors)
            } else {
                None
            },
        }
    }
}

/// The first rule `action` breaks against the frame and capabilities of `context`.
pub open spec fn action_rejection(action: TacticalAction, context: ValidationContext) -> Option<
    ActionRejected,
> {
    match action {
        TacticalAction::MoveTo { tile_x, tile_y } => move_rejection(tile_x, tile_y, context),
        TacticalAction::Stop => capability_rejection(context, Capability::Walk),
        TacticalAction::Attack { target_id } => if combat_health_rejection(context).is_some() {
            combat_health_rejection(context)
        } else if capability_rejection(context, Capability::Fight).is_some() {
            capability_rejection(context, Capability::Fight)
        } else if hostile_target_visible(*context.frame, target_id@) {
            None
        } else {
            Some(ActionRejected::UnknownTarget(target_id))
        },
        TacticalAction::UseSkill { skill_id, target_id } => if combat_health_rejection(
            context,
        ).is_some() {
            combat_health_rejection(context)
        } else if capability_rejection(context, Capability::Fight).is_some() {
            capability_rejection(context, Capability::Fight)
        } else if !skill_usable(*context.frame, skill_id@) {
            Some(ActionRejected::UnavailableSkill(skill_id))
        } else {
            match target_id {
                Some(target) => if entity_visible(*context.frame, target@) {
                    None
                } else {
                    Some(ActionRejected::UnknownTarget(target))
                },
                None => None,
            }
        },
        TacticalAction::UseItem { item_id } => if item_usable(*context.frame, item_id@) {
            None
        } else {
            Some(ActionRejected::UnavailableItem(item_id))
        },
        TacticalAction::PickUp { drop_id } => if capability_rejection(
            context,
            Capability::Trade,
        ).is_some() {
            capability_rejection(context, Capability::Trade)
        } else if drop_visible(*context.frame, drop_id@) {
            None
        } else {
            Some(ActionRejected::UnknownDrop(drop_id))
        },
        TacticalAction::SetTactics { style, .. } => tactics_rejection(style, context),
    }
}

/// Setting tactics needs `Fight`; every style but fleeing also needs sighted combat.
pub open spec fn tactics_rejection(style: TacticalStyle, context: ValidationContext) -> Option<
    ActionRejected,
> {
    if capability_rejection(context, Capability::Fight).is_some() {
        capability_rejection(context, Capability::Fight)
    } else if style != TacticalStyle::Flee {
        combat_health_rejection(context)
    } else {
        None
    }
}

/// The rejection of the first action, in order, that is refused.
pub open spec fn first_action_rejection(
    actions: Seq<TacticalAction>,
    context: ValidationContext,
) -> Option<ActionRejected>
    decreases actions.len(),
{
    if actions.len() == 0 {
        None
    } else if action_rejection(actions[0], context).is_some() {
        action_rejection(actions[0], context)
    } else {
        first_action_rejection(actions.drop_first(), context)
    }
}

/// The rejection of a whole packet: its header first, then its actions in order.
pub open spec fn packet_rejection(packet: ActionPacket, context: ValidationContext) -> Option<
    ActionRejected,
> {
    if header_rejection(packet, context).is_some() {
        header_rejection(packet, context)
    } else {
        first_action_rejection(packet.proposal.actions@, context)
    }
}

pub open spec fn as_result(rejection: Option<ActionRejected>) -> Result<(), ActionRejected> {
    match rejection {
        None => Ok(()),
        Some(rejected) => Err(rejected),
    }
}

/// Validate packet freshness and every requested operation against one frame.
pub fn validate_packet(packet: &ActionPacket, context: &ValidationContext) -> (result: Result<
    (),
    ActionRejected,
>)
    ensures
        result == as_result(packet_rejection(*packet, *context)),
{
    validate_packet_header(packet, context)?;
    let actions = &packet.proposal.actions;
    let mut i: usize = 0;
    assert(actions@.skip(0) =~= actions@);
    while i < actions.len()
        invariant
            i <= actions@.len(),
            header_rejection(*packet, *context).is_none(),
            actions == &packet.proposal.actions,
            first_action_rejection(actions@, *context) == first_action_rejection(
                actions@.skip(i as int),
                *context,
            ),
        decreases actions@.len() - i,
    {
        assert(actions@.skip(i as int).drop_first() =~= actions@.skip(i + 1));
        validate_action(&actions[i], context)?;
        i = i + 1;
    }
    Ok(())
}

/// Validate the runtime-owned packet facts without revalidating past actions.
pub fn validate_packet_header(packet: &ActionPacket, context: &ValidationContext) -> (result: Result<
    (),
    ActionRejected,
>)
    ensures
        result == as_result(header_rejection(*packet, *context)),
{
    if packet.frame_revision < context.minimum_valid_frame_revision {
        return Err(
            ActionRejected::StaleFrame {
                packet: packet.frame_revision,
                minimum: context.minimum_valid_frame_revision,
            },
        );
    }
    if packet.strategic_revision != context.current_strategic_revision {
        return Err(
            ActionRejected::StaleStrategy {
                packet: packet.strategic_revision,
                current: context.current_strategic_revision,
            },
        );
    }
    if packet.proposal.actions.len() == 0 && packet.proposal.intent != TacticalIntent::Continue {
        return Err(ActionRejected::EmptyPacket);
    }
    if !(1 <= packet.proposal.valid_for_ms && packet.proposal.valid_for_ms <= 10_000) {
        return Err(ActionRejected::InvalidLifetime);
    }
    let age_ms: i128 = (context.now_ms as i128) - (packet.created_at_ms as i128);
    let age_ms: i128 = if age_ms > 0 {
        age_ms
    } else {
        0
    };
    if age_ms > packet.proposal.valid_for_ms as i128 {
        return Err(ActionRejected::Expired);
    }
    if !same_optional_text(&packet.scene, &context.frame.self_state.scene) {
        return Err(
            ActionRejected::SceneChanged {
                packet: packet.scene.clone(),
                current: context.frame.self_state.scene.clone(),
            },
        );
    }
    if context.frame.self_state.alive == Some(false) || context.frame.self_state.recently_died
        == Some(true) {
        return Err(ActionRejected::PlayerUnavailable);
    }
    Ok(())
}

/// Validate one action against the latest authoritative frame.
pub fn validate_action(action: &TacticalAction, context: &ValidationContext) -> (result: Result<
    (),
    ActionRejected,
>)
    ensures
        result == as_result(action_rejection(*action, *context)),
{
    match action {
        TacticalAction::MoveTo { tile_x, tile_y } => validate_move(*tile_x, *tile_y, context),
        TacticalAction::Stop => require(context, Capability::Walk),
        TacticalAction::Attack { target_id } => {
            require_combat_health(context)?;
            require(context, Capability::Fight)?;
            if hostile_target_in_view(context.frame, target_id) {
                Ok(())
            } else {
                Err(ActionRejected::UnknownTarget(target_id.clone()))
            }
        },
        TacticalAction::UseSkill { skill_id, target_id } => {
            require_combat_health(context)?;
            require(context, Capability::Fight)?;
            if !skill_in_hand(context.frame, skill_id) {
                return Err(ActionRejected::UnavailableSkill(skill_id.clone()));
            }
            match target_id {
                Some(target) => if entity_in_view(context.frame, target) {
                    Ok(())
                } else {
                    Err(ActionRejected::UnknownTarget(target.clone()))
                },
                None => Ok(()),
            }
        },
        TacticalAction::UseItem { item_id } => {
            if item_in_hand(context.frame, item_id) {
                Ok(())
            } else {
                Err(ActionRejected::UnavailableItem(item_id.clone()))
            }
        },
        TacticalAction::PickUp { drop_id } => {
            require(context, Capability::Trade)?;
            if drop_in_view(context.frame, drop_id) {
                Ok(())
            } else {
                Err(ActionRejected::UnknownDrop(drop_id.clone()))
            }
        },
        TacticalAction::SetTactics { style, .. } => validate_tactics(*style, context),
    }
}

fn validate_move(tile_x: i32, tile_y: i32, context: &ValidationContext) -> (result: Result<
    (),
    ActionRejected,
>)
    ensures
        result == as_result(move_rejection(tile_x, tile_y, *context)),
{
    require(context, Capability::Walk)?;
    let destination = TilePosition { x: tile_x, y: tile_y };
    let tile = match find_tile(&context.frame.map.tiles, destination) {
        Some(tile) => tile,
        None => {
            return Err(ActionRejected::UnknownDestination { tile_x, tile_y });
        },
    };
    if tile.walkable == Some(false) {
        return Err(ActionRejected::BlockedDestination { tile_x, tile_y });
    }
    if exit_in_view(context.frame, destination) {
        require(context, Capability::Doors)?;
    }
    Ok(())
}

fn validate_tactics(style: TacticalStyle, context: &ValidationContext) -> (result: Result<
    (),
    ActionRejected,
>)
    ensures
        result == as_result(tactics_rejection(style, *context)),
{
    require(context, Capability::Fight)?;
    if style != TacticalStyle::Flee {
        require_combat_health(context)?;
    }
    Ok(())
}

fn require_combat_health(context: &ValidationContext) -> (result: Result<(), ActionRejected>)
    ensures
        result == as_result(combat_health_rejection(*context)),
{
    if context.frame.combat.active == Some(true) && (context.frame.self_state.health.is_none()
        || context.frame.self_state.max_health.is_none()) {
        Err(ActionRejected::MissingCombatHealth)
    } else {
        Ok(())
    }
}

fn require(context: &ValidationContext, capability: Capability) -> (result: Result<
    (),
    ActionRejected,
>)
    ensures
        result == as_result(capability_rejection(*context, capability)),
{
    if context.capabilities.contains(capability) {
        Ok(())
    } else {
        Err(ActionRejected::MissingCapability(capability))
    }
}

fn hostile_target_in_view(frame: &TacticalFrame, target: &String) -> (found: bool)
    ensures
        found == hostile_target_visible(*frame, target@),
{
    let mut i: usize = 0;
    while i < frame.nearby_entities.len()
        invariant
            i <= frame.nearby_entities@.len(),
            forall|j: int|
                0 <= j < i ==> !((#[trigger] frame.nearby_entities@[j]).id@ == target@
                    && frame.nearby_entities@[j].hostile == Some(true)),
        decreases frame.nearby_entities@.len() - i,
    {
        let entity = &frame.nearby_entities[i];
        if entity.id == *target && entity.hostile == Some(true) {
            return true;
        }
        i = i + 1;
    }
    false
}

pub(crate) fn entity_in_view(frame: &TacticalFrame, target: &String) -> (found: bool)
    ensures
        found == entity_visible(*frame, target@),
{
    let mut i: usize = 0;
    while i < frame.nearby_entities.len()
        invariant
            i <= frame.nearby_entities@.len(),
            forall|j: int|
                0 <= j < i ==> (#[trigger] frame.nearby_entities@[j]).id@ != target@,
        decreases frame.nearby_entities@.len() - i,
    {
        if frame.nearby_entities[i].id == *target {
            return true;
        }
        i = i + 1;
    }
    false
}

pub(crate) fn skill_in_hand(frame: &TacticalFrame, skill: &String) -> (found: bool)
    ensures
        found == skill_usable(*frame, skill@),
{
    let actions = &frame.self_state.combat_actions;
    let mut i: usize = 0;
    while i < actions.len()
        invariant
            actions == &frame.self_state.combat_actions,
            i <= actions@.len(),
            forall|j: int|
                0 <= j < i ==> !((#[trigger] actions@[j]).id@ == skill@ && actions@[j].available
                    != Some(false)),
        decreases actions@.len() - i,
    {
        if actions[i].id == *skill && actions[i].available != Some(false) {
            return true;
        }
        i = i + 1;
    }
    false
}

pub(crate) fn item_in_hand(frame: &TacticalFrame, item: &String) -> (found: bool)
    ensures
        found == item_usable(*frame, item@),
{
    let inventory = &frame.self_state.inventory;
    let mut i: usize = 0;
    while i < inventory.len()
        invariant
            inventory == &frame.self_state.inventory,
            i <= inventory@.len(),
            forall|j: int|
                0 <= j < i ==> !((#[trigger] inventory@[j]).id@ == item@ && inventory@[j].quantity
                    > 0 && inventory@[j].usable != Some(false)),
        decreases inventory@.len() - i,
    {
        if inventory[i].id == *item && inventory[i].quantity > 0 && inventory[i].usable != Some(
            false,
        ) {
            return true;
        }
        i = i + 1;
    }
    false
}

pub(crate) fn drop_in_view(frame: &TacticalFrame, drop: &String) -> (found: bool)
    ensures
        found == drop_visible(*frame, drop@),
{
    let mut i: usize = 0;
    while i < frame.nearby_drops.len()
        invariant
            i <= frame.nearby_drops@.len(),
            forall|j: int| 0 <= j < i ==> (#[trigger] frame.nearby_drops@[j]).id@ != drop@,
        decreases frame.nearby_drops@.len() - i,
    {
        if frame.nearby_drops[i].id == *drop {
            return true;
        }
        i = i + 1;
    }
    false
}

pub(crate) fn exit_in_view(frame: &TacticalFrame, tile: TilePosition) -> (found: bool)
    ensures
        found == exit_at(*frame, tile),
{
    let mut i: usize = 0;
    while i < frame.exits.len()
        invariant
            i <= frame.exits@.len(),
            forall|j: int| 0 <= j < i ==> (#[trigger] frame.exits@[j]).tile != tile,
        decreases frame.exits@.len() - i,
    {
        if frame.exits[i].tile == tile {
            return true;
        }
        i = i + 1;
    }
    false
}

/// An attack is accepted only on an entity in view that the world reports
/// hostile: an accepted attack names such an entity; and with health known
/// (or no combat) and the Fight capability, an attack whose target is not a
/// visible hostile entity (absent, or visible but not hostile) is refused as
/// an unknown target.
pub proof fn law_attacks_only_visible_hostiles<'a>(target_id: String, context: ValidationContext<'a>)
    ensures
        action_rejection(TacticalAction::Attack { target_id }, context) is None ==> exists|i: int|
            0 <= i < context.frame.nearby_entities@.len() && (#[trigger] context.frame.nearby_entities@[i]).id@
                == target_id@ && context.frame.nearby_entities@[i].hostile == Some(true),
        ({
            &&& !(context.frame.combat.active == Some(true) && (context.frame.self_state.health.is_none()
                || context.frame.self_state.max_health.is_none()))
            &&& context.capabilities@.contains(Capability::Fight)
            &&& forall|i: int|
                0 <= i < context.frame.nearby_entities@.len() && (#[trigger] context.frame.nearby_entities@[i]).id@
                    == target_id@ ==> context.frame.nearby_entities@[i].hostile != Some(true)
        }) ==> action_rejection(TacticalAction::Attack { target_id }, context) == Some(
            ActionRejected::UnknownTarget(target_id),
        ),
{
}

proof fn lemma_accepted_actions<'a>(actions: Seq<TacticalAction>, context: ValidationContext<'a>, k: int)
    requires
        first_action_rejection(actions, context) is None,
        0 <= k < actions.len(),
    ensures
        action_rejection(actions[k], context) is None,
    decreases actions.len(),
{
    if k > 0 {
        lemma_accepted_actions(actions.drop_first(), context, k - 1);
        assert(actions.drop_first()[k - 1] == actions[k]);
    }
}

/// A packet is accepted only if every attack in it names an entity in view
/// that the world reports hostile.
pub proof fn law_accepted_packets_attack_only_visible_hostiles<'a>(
    packet: ActionPacket,
    context: ValidationContext<'a>,
    k: int,
)
    requires
        packet_rejection(packet, context) is None,
        0 <= k < packet.proposal.actions@.len(),
    ensures
        packet.proposal.actions@[k] matches TacticalAction::Attack { target_id } ==> exists|i: int|
            0 <= i < context.frame.nearby_entities@.len() && (#[trigger] context.frame.nearby_entities@[i]).id@
                == target_id@ && context.frame.nearby_entities@[i].hostile == Some(true),
{
    lemma_accepted_actions(packet.proposal.actions@, context, k);
    if let TacticalAction::Attack { target_id } = packet.proposal.actions@[k] {
        law_attacks_only_visible_hostiles(target_id, context);
    }
}

} // verus!
