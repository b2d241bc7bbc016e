//! Material invalidation: which accepted assumptions of a packet no longer hold.
//!
//! Revisions, timestamps, recent chat, recent actions and unrelated frame
//! changes are deliberately ignored. Unknown state never becomes evidence.

use vstd::prelude::*;

use crate::brain::strategic_intent::StrategicIntent;
use crate::brain::tactical_frame::TacticalFrame;
use crate::execution::movement::{MovementState, PathPreflightStatus};
use crate::execution::packet::{AbortCondition, ActionPacket, TacticalAction, action_destination};
use crate::execution::validator::{
    drop_visible, entity_visible, frame_reports_death, item_usable, skill_usable,
};
use crate::text::{
    insert_text_sorted, is_blank, lemma_sorted_is_canonical, lemma_sorted_with, list_holds_text,
    sorted_texts, sorted_with,
    strictly_sorted, text_views, trim, trimmed, blank,
};
use crate::world::{TilePosition, find_tile, tile_at};

verus! {

/// Execution facts that do not belong to a frame. `None` means the executor has no
/// authoritative fact.
#[derive(Debug, Clone, Copy, PartialEq, Eq, Structural)]
pub struct ExecutionValidityFacts {
    pub path_preflight: Option<PathPreflightStatus>,
    pub movement_state: Option<MovementState>,
}

impl Default for ExecutionValidityFacts {
    /// No execution fact known.
    fn default() -> (facts: ExecutionValidityFacts)
        ensures
            facts.path_preflight.is_none(),
            facts.movement_state.is_none(),
    {
        ExecutionValidityFacts { path_preflight: None, movement_state: None }
    }
}

/// Packet assumptions as accepted, and the state they are reconsidered against.
pub struct MaterialComparison<'a> {
    pub packet: &'a ActionPacket,
    pub accepted_frame: &'a TacticalFrame,
    pub accepted_intent: &'a StrategicIntent,
    pub current_frame: &'a TacticalFrame,
    pub current_intent: &'a StrategicIntent,
    pub health_critical_at_or_below: Option<i32>,
    pub execution: ExecutionValidityFacts,
}

#[derive(Debug, Clone, Copy, PartialEq, Eq, Structural)]
pub enum PathInvalidationEvidence {
    DestinationExplicitlyBlocked,
    PathPreflightUnreachable,
}

/// A material fact observed after a tactical packet was accepted.
#[derive(Debug, Clone, PartialEq, Eq)]
pub enum MaterialInvalidationFact {
    TargetUnavailable { target_id: String },
    TargetDead { target_id: String },
    SceneChanged { previous_scene: String, current_scene: String },
    PlayerDied,
    RequiredItemUnavailable { item_id: String },
    RequiredDropUnavailable { drop_id: String },
    RequiredSkillUnavailable { skill_id: String },
    PathInvalidated { destination: Option<TilePosition>, evidence: PathInvalidationEvidence },
    MovementInvalidated { state: MovementState },
    HealthBecameCritical { previous_health: i32, current_health: i32, threshold: i32 },
    NewHostile { entity_id: Option<String>, previous_count: usize, current_count: usize },
    StrategicHardConstraintsChanged {
        constraints_changed: bool,
        avoid_changed: bool,
        previous_constraint_count: usize,
        current_constraint_count: usize,
        previous_avoid_count: usize,
        current_avoid_count: usize,
    },
}

/// The content of a material fact, with its texts as character sequences.
pub enum MaterialFactView {
    TargetUnavailable { target_id: Seq<char> },
    TargetDead { target_id: Seq<char> },
    SceneChanged { previous_scene: Seq<char>, current_scene: Seq<char> },
    PlayerDied,
    RequiredItemUnavailable { item_id: Seq<char> },
    RequiredDropUnavailable { drop_id: Seq<char> },
    RequiredSkillUnavailable { skill_id: Seq<char> },
    PathInvalidated { destination: Option<TilePosition>, evidence: PathInvalidationEvidence },
    MovementInvalidated { state: MovementState },
    HealthBecameCritical { previous_health: i32, current_health: i32, threshold: i32 },
    NewHostile { entity_id: Option<Seq<char>>, previous_count: nat, current_count: nat },
    StrategicHardConstraintsChanged {
        constraints_changed: bool,
        avoid_changed: bool,
        previous_constraint_count: nat,
        current_constraint_count: nat,
        previous_avoid_count: nat,
        current_avoid_count: nat,
    },
}

impl View for MaterialInvalidationFact {
    type V = MaterialFactView;

    open spec fn view(&self) -> MaterialFactView {
        match *self {
            MaterialInvalidationFact::TargetUnavailable { target_id } => MaterialFactView::TargetUnavailable {
                target_id: target_id@,
            },
            MaterialInvalidationFact::TargetDead { target_id } => MaterialFactView::TargetDead {
                target_id: target_id@,
            },
            MaterialInvalidationFact::SceneChanged { previous_scene, current_scene } => MaterialFactView::SceneChanged {
                previous_scene: previous_scene@,
                current_scene: current_scene@,
            },
            MaterialInvalidationFact::PlayerDied => MaterialFactView::PlayerDied,
            MaterialInvalidationFact::RequiredItemUnavailable { item_id } => MaterialFactView::RequiredItemUnavailable {
                item_id: item_id@,
            },
            MaterialInvalidationFact::RequiredDropUnavailable { drop_id } => MaterialFactView::RequiredDropUnavailable {
                drop_id: drop_id@,
            },
            MaterialInvalidationFact::RequiredSkillUnavailable { skill_id } => MaterialFactView::RequiredSkillUnavailable {
                skill_id: skill_id@,
            },
            MaterialInvalidationFact::PathInvalidated { destination, evidence } => MaterialFactView::PathInvalidated {
                destination,
                evidence,
            },
            MaterialInvalidationFact::MovementInvalidated { state } => MaterialFactView::MovementInvalidated {
                state,
            },
            MaterialInvalidationFact::HealthBecameCritical {
                previous_health,
                current_health,
                threshold,
            } => MaterialFactView::HealthBecameCritical { previous_health, current_health, threshold },
            MaterialInvalidationFact::NewHostile { entity_id, previous_count, current_count } => MaterialFactView::NewHostile {
                entity_id: match entity_id {
                    Some(id) => Some(id@),
                    None => None,
                },
                previous_count: previous_count as nat,
                current_count: current_count as nat,
            },
            MaterialInvalidationFact::StrategicHardConstraintsChanged {
                constraints_changed,
                avoid_changed,
                previous_constraint_count,
                current_constraint_count,
                previous_avoid_count,
                current_avoid_count,
            } => MaterialFactView::StrategicHardConstraintsChanged {
                constraints_changed,
                avoid_changed,
                previous_constraint_count: previous_constraint_count as nat,
                current_constraint_count: current_constraint_count as nat,
                previous_avoid_count: previous_avoid_count as nat,
                current_avoid_count: current_avoid_count as nat,
            },
        }
    }
}

/// Facts observed since acceptance, and the abort conditions they trigger.
#[derive(Debug, Clone, PartialEq, Eq)]
pub struct InvalidationReport {
    pub facts: Vec<MaterialInvalidationFact>,
    pub triggered_abort_conditions: Vec<AbortCondition>,
}

pub open spec fn fact_views(facts: Seq<MaterialInvalidationFact>) -> Seq<MaterialFactView> {
    facts.map_values(|fact: MaterialInvalidationFact| fact@)
}

impl InvalidationReport {
    /// A report with no fact and no triggered condition.
    pub fn empty() -> (report: InvalidationReport)
        ensures
            report.facts@.len() == 0,
            report.triggered_abort_conditions@.len() == 0,
    {
        InvalidationReport { facts: Vec::new(), triggered_abort_conditions: Vec::new() }
    }

    pub fn has_material_invalidation(&self) -> (material: bool)
        ensures
            material == (self.facts@.len() > 0),
    {
        self.facts.len() > 0
    }

    pub fn abort_condition_triggered(&self, condition: AbortCondition) -> (triggered: bool)
        ensures
            triggered == self.triggered_abort_conditions@.contains(condition),
    {
        let conditions = &self.triggered_abort_conditions;
        let mut i: usize = 0;
        while i < conditions.len()
            invariant
                conditions == &self.triggered_abort_conditions,
                i <= conditions@.len(),
                forall|j: int| 0 <= j < i ==> conditions@[j] != condition,
            decreases conditions@.len() - i,
        {
            if conditions[i] == condition {
                assert(conditions@[i as int] == condition);
                return true;
            }
            i = i + 1;
        }
        false
    }
}

// ---------------------------------------------------------------------------
// Specification of the comparison
// ---------------------------------------------------------------------------

/// The targets an action depends on.
pub open spec fn action_target(action: TacticalAction) -> Option<Seq<char>> {
    match action {
        TacticalAction::Attack { target_id } => Some(target_id@),
        TacticalAction::UseSkill { target_id, .. } => match target_id {
            Some(target) => Some(target@),
            None => None,
        },
        _ => None,
    }
}

pub open spec fn action_item(action: TacticalAction) -> Option<Seq<char>> {
    match action {
        TacticalAction::UseItem { item_id } => Some(item_id@),
        _ => None,
    }
}

pub open spec fn action_drop(action: TacticalAction) -> Option<Seq<char>> {
    match action {
        TacticalAction::PickUp { drop_id } => Some(drop_id@),
        _ => None,
    }
}

pub open spec fn action_skill(action: TacticalAction) -> Option<Seq<char>> {
    match action {
        TacticalAction::UseSkill { skill_id, .. } => Some(skill_id@),
        _ => None,
    }
}

/// Which resource of an action a requirement names.
#[derive(Debug, Clone, Copy, PartialEq, Eq, Structural)]
pub enum Requirement {
    Target,
    Item,
    Drop,
    Skill,
}

pub open spec fn action_requirement(kind: Requirement, action: TacticalAction) -> Option<Seq<char>> {
    match kind {
        Requirement::Target => action_target(action),
        Requirement::Item => action_item(action),
        Requirement::Drop => action_drop(action),
        Requirement::Skill => action_skill(action),
    }
}

/// The distinct texts of kind `kind` that the actions require.
pub open spec fn required_texts(kind: Requirement, actions: Seq<TacticalAction>) -> Set<Seq<char>> {
    Set::new(
        |t: Seq<char>|
            exists|i: int|
                0 <= i < actions.len() && #[trigger] action_requirement(kind, actions[i]) == Some(t),
    )
}

/// Sequence concatenation of `f` over `list`, in list order.
pub open spec fn concat_map(list: Seq<Seq<char>>, f: spec_fn(Seq<char>) -> Seq<MaterialFactView>) -> Seq<
    MaterialFactView,
>
    decreases list.len(),
{
    if list.len() == 0 {
        Seq::empty()
    } else {
        concat_map(list.drop_last(), f) + f(list.last())
    }
}

pub open spec fn target_dead(frame: TacticalFrame, target: Seq<char>) -> bool {
    (exists|i: int|
        0 <= i < frame.nearby_entities@.len() && (#[trigger] frame.nearby_entities@[i]).id@
            == target && frame.nearby_entities@[i].alive == Some(false)) || (exists|i: int|
        0 <= i < frame.combat.enemy_health@.len() && (#[trigger] frame.combat.enemy_health@[i]).id@
            == target && (match frame.combat.enemy_health@[i].health {
            Some(health) => health <= 0,
            None => false,
        }))
}

pub open spec fn target_fact(c: MaterialComparison, target: Seq<char>) -> Seq<MaterialFactView> {
    if !entity_visible(*c.accepted_frame, target) {
        Seq::empty()
    } else if target_dead(*c.current_frame, target) {
        seq![MaterialFactView::TargetDead { target_id: target }]
    } else if !entity_visible(*c.current_frame, target) {
        seq![MaterialFactView::TargetUnavailable { target_id: target }]
    } else {
        Seq::empty()
    }
}

pub open spec fn item_fact(c: MaterialComparison, item: Seq<char>) -> Seq<MaterialFactView> {
    if item_usable(*c.accepted_frame, item) && !item_usable(*c.current_frame, item) {
        seq![MaterialFactView::RequiredItemUnavailable { item_id: item }]
    } else {
        Seq::empty()
    }
}

pub open spec fn drop_fact(c: MaterialComparison, drop: Seq<char>) -> Seq<MaterialFactView> {
    if drop_visible(*c.accepted_frame, drop) && !drop_visible(*c.current_frame, drop) {
        seq![MaterialFactView::RequiredDropUnavailable { drop_id: drop }]
    } else {
        Seq::empty()
    }
}

pub open spec fn skill_fact(c: MaterialComparison, skill: Seq<char>) -> Seq<MaterialFactView> {
    if skill_usable(*c.accepted_frame, skill) && !skill_usable(*c.current_frame, skill) {
        seq![MaterialFactView::RequiredSkillUnavailable { skill_id: skill }]
    } else {
        Seq::empty()
    }
}

pub open spec fn requirement_fact(kind: Requirement, c: MaterialComparison, t: Seq<char>) -> Seq<
    MaterialFactView,
> {
    match kind {
        Requirement::Target => target_fact(c, t),
        Requirement::Item => item_fact(c, t),
        Requirement::Drop => drop_fact(c, t),
        Requirement::Skill => skill_fact(c, t),
    }
}

pub open spec fn requirement_facts(kind: Requirement, c: MaterialComparison) -> Seq<MaterialFactView> {
    concat_map(
        sorted_texts(required_texts(kind, c.packet.proposal.actions@)),
        |t: Seq<char>| requirement_fact(kind, c, t),
    )
}

pub open spec fn scene_facts(c: MaterialComparison) -> Seq<MaterialFactView> {
    match (c.accepted_frame.self_state.scene, c.current_frame.self_state.scene) {
        (Some(previous), Some(current)) => if previous@ != current@ {
            seq![
                MaterialFactView::SceneChanged {
                    previous_scene: previous@,
                    current_scene: current@,
                },
            ]
        } else {
            Seq::empty()
        },
        _ => Seq::empty(),
    }
}

pub open spec fn death_facts(c: MaterialComparison) -> Seq<MaterialFactView> {
    if !frame_reports_death(*c.accepted_frame) && frame_reports_death(*c.current_frame) {
        seq![MaterialFactView::PlayerDied]
    } else {
        Seq::empty()
    }
}

/// The movement destinations of the actions, in action order.
pub open spec fn destinations(actions: Seq<TacticalAction>) -> Seq<TilePosition>
    decreases actions.len(),
{
    if actions.len() == 0 {
        Seq::empty()
    } else {
        let rest = destinations(actions.drop_last());
        match action_destination(actions.last()) {
            Some(tile) => rest.push(tile),
            None => rest,
        }
    }
}

pub open spec fn blocked_destination_facts(tiles: Seq<TilePosition>, frame: TacticalFrame) -> Seq<
    MaterialFactView,
>
    decreases tiles.len(),
{
    if tiles.len() == 0 {
        Seq::empty()
    } else {
        let rest = blocked_destination_facts(tiles.drop_last(), frame);
        match tile_at(frame.map.tiles@, tiles.last()) {
            Some(tile) => if tile.walkable == Some(false) {
                rest.push(
                    MaterialFactView::PathInvalidated {
                        destination: Some(tiles.last()),
                        evidence: PathInvalidationEvidence::DestinationExplicitlyBlocked,
                    },
                )
            } else {
                rest
            },
            None => rest,
        }
    }
}

pub open spec fn movement_invalidates(state: MovementState) -> bool {
    state == MovementState::Stalled || state == MovementState::Blocked || state
        == MovementState::Cancelled || state == MovementState::Interrupted
}

pub open spec fn path_facts(c: MaterialComparison) -> Seq<MaterialFactView> {
    let ds = destinations(c.packet.proposal.actions@);
    let blocked = blocked_destination_facts(ds, *c.current_frame);
    let preflight = if ds.len() > 0 && c.execution.path_preflight == Some(
        PathPreflightStatus::Unreachable,
    ) {
        seq![
            MaterialFactView::PathInvalidated {
                destination: Some(ds[0]),
                evidence: PathInvalidationEvidence::PathPreflightUnreachable,
            },
        ]
    } else {
        Seq::empty()
    };
    let movement = match c.execution.movement_state {
        Some(state) => if ds.len() > 0 && movement_invalidates(state) {
            seq![MaterialFactView::MovementInvalidated { state }]
        } else {
            Seq::empty()
        },
        None => Seq::empty(),
    };
    blocked + preflight + movement
}

pub open spec fn health_facts(c: MaterialComparison) -> Seq<MaterialFactView> {
    match (
        c.health_critical_at_or_below,
        c.accepted_frame.self_state.health,
        c.current_frame.self_state.health,
    ) {
        (Some(threshold), Some(previous), Some(current)) => if previous > threshold && current
            <= threshold {
            seq![
                MaterialFactView::HealthBecameCritical {
                    previous_health: previous,
                    current_health: current,
                    threshold,
                },
            ]
        } else {
            Seq::empty()
        },
        _ => Seq::empty(),
    }
}

/// Identifiers of hostile entities in view that are not reported dead.
pub open spec fn visible_hostiles(frame: TacticalFrame) -> Set<Seq<char>> {
    Set::new(
        |id: Seq<char>|
            exists|i: int|
                0 <= i < frame.nearby_entities@.len() && (#[trigger] frame.nearby_entities@[i]).id@
                    == id && frame.nearby_entities@[i].hostile == Some(true)
                    && frame.nearby_entities@[i].alive != Some(false),
    )
}

/// The hostile count: the larger of the reported count and the visible hostiles.
pub open spec fn hostile_count(frame: TacticalFrame) -> nat {
    let visible = visible_hostiles(frame).len();
    if frame.combat.current_hostiles >= visible {
        frame.combat.current_hostiles as nat
    } else {
        visible
    }
}

pub open spec fn new_hostile_fact(id: Seq<char>, previous_count: nat, current_count: nat) -> MaterialFactView {
    MaterialFactView::NewHostile { entity_id: Some(id), previous_count, current_count }
}

pub open spec fn hostile_facts(c: MaterialComparison) -> Seq<MaterialFactView> {
    let previous_count = hostile_count(*c.accepted_frame);
    let current_count = hostile_count(*c.current_frame);
    let appeared = sorted_texts(
        visible_hostiles(*c.current_frame).difference(visible_hostiles(*c.accepted_frame)),
    );
    if appeared.len() > 0 {
        appeared.map_values(|id: Seq<char>| new_hostile_fact(id, previous_count, current_count))
    } else if current_count > previous_count {
        seq![MaterialFactView::NewHostile { entity_id: None, previous_count, current_count }]
    } else {
        Seq::empty()
    }
}

/// The distinct non-blank texts of a list, each trimmed.
pub open spec fn normalized_texts(values: Seq<String>) -> Set<Seq<char>> {
    Set::new(
        |t: Seq<char>|
            t.len() > 0 && exists|i: int| 0 <= i < values.len() && trimmed(#[trigger] values[i]@) == t,
    )
}

pub open spec fn constraint_facts(c: MaterialComparison) -> Seq<MaterialFactView> {
    let previous_constraints = normalized_texts(c.accepted_intent.constraints@);
    let current_constraints = normalized_texts(c.current_intent.constraints@);
    let previous_avoid = normalized_texts(c.accepted_intent.avoid@);
    let current_avoid = normalized_texts(c.current_intent.avoid@);
    let constraints_changed = previous_constraints != current_constraints;
    let avoid_changed = previous_avoid != current_avoid;
    if constraints_changed || avoid_changed {
        seq![
            MaterialFactView::StrategicHardConstraintsChanged {
                constraints_changed,
                avoid_changed,
                previous_constraint_count: previous_constraints.len(),
                current_constraint_count: current_constraints.len(),
                previous_avoid_count: previous_avoid.len(),
                current_avoid_count: current_avoid.len(),
            },
        ]
    } else {
        Seq::empty()
    }
}

/// Every material fact, in the order the comparison records them.
pub open spec fn material_facts(c: MaterialComparison) -> Seq<MaterialFactView> {
    scene_facts(c) + death_facts(c) + requirement_facts(Requirement::Target, c) + requirement_facts(
        Requirement::Item,
        c,
    ) + requirement_facts(Requirement::Drop, c) + requirement_facts(Requirement::Skill, c)
        + path_facts(c) + health_facts(c) + hostile_facts(c) + constraint_facts(c)
}

/// Whether a fact is the kind of change `condition` names.
pub open spec fn fact_triggers(condition: AbortCondition, fact: MaterialFactView) -> bool {
    match condition {
        AbortCondition::HealthCritical => fact is HealthBecameCritical,
        AbortCondition::PathBlocked => fact is PathInvalidated || fact is MovementInvalidated,
        AbortCondition::NewHostile => fact is NewHostile,
        AbortCondition::StrategicIntentChanged => fact is StrategicHardConstraintsChanged,
        AbortCondition::TargetUnavailable => fact is TargetUnavailable || fact is TargetDead,
        AbortCondition::SceneChanged => fact is SceneChanged,
        AbortCondition::PlayerDied => fact is PlayerDied,
    }
}

pub open spec fn condition_matches(condition: AbortCondition, facts: Seq<MaterialFactView>) -> bool {
    exists|i: int| 0 <= i < facts.len() && #[trigger] fact_triggers(condition, facts[i])
}

/// The requested abort conditions that the facts trigger, each once, in request order.
pub open spec fn triggered_conditions(
    requested: Seq<AbortCondition>,
    facts: Seq<MaterialFactView>,
) -> Seq<AbortCondition>
    decreases requested.len(),
{
    if requested.len() == 0 {
        Seq::empty()
    } else {
        let earlier = triggered_conditions(requested.drop_last(), facts);
        let condition = requested.last();
        if condition_matches(condition, facts) && !earlier.contains(condition) {
            earlier.push(condition)
        } else {
            earlier
        }
    }
}


// ---------------------------------------------------------------------------
// The comparison
// ---------------------------------------------------------------------------

proof fn lemma_views_push(facts: Seq<MaterialInvalidationFact>, fact: MaterialInvalidationFact)
    ensures
        fact_views(facts.push(fact)) == fact_views(facts).push(fact@),
{
    assert(fact_views(facts.push(fact)) =~= fact_views(facts).push(fact@));
}

proof fn lemma_concat_map_step(
    list: Seq<Seq<char>>,
    i: int,
    f: spec_fn(Seq<char>) -> Seq<MaterialFactView>,
)
    requires
        0 <= i < list.len(),
    ensures
        concat_map(list.take(i + 1), f) == concat_map(list.take(i), f) + f(list[i]),
{
    assert(list.take(i + 1).drop_last() =~= list.take(i));
}

fn requirement_of(kind: Requirement, action: &TacticalAction) -> (required: Option<String>)
    ensures
        match required {
            Some(text) => action_requirement(kind, *action) == Some(text@),
            None => action_requirement(kind, *action).is_none(),
        },
{
    match (kind, action) {
        (Requirement::Target, TacticalAction::Attack { target_id }) => Some(target_id.clone()),
        (Requirement::Target, TacticalAction::UseSkill { target_id: Some(target), .. }) => Some(
            target.clone(),
        ),
        (Requirement::Item, TacticalAction::UseItem { item_id }) => Some(item_id.clone()),
        (Requirement::Drop, TacticalAction::PickUp { drop_id }) => Some(drop_id.clone()),
        (Requirement::Skill, TacticalAction::UseSkill { skill_id, .. }) => Some(skill_id.clone()),
        _ => None,
    }
}

/// The distinct required texts of one kind, strictly sorted.
fn required_list(kind: Requirement, actions: &Vec<TacticalAction>) -> (list: Vec<String>)
    ensures
        strictly_sorted(text_views(list@)),
        text_views(list@).to_set() == required_texts(kind, actions@),
{
    let mut list: Vec<String> = Vec::new();
    let mut i: usize = 0;
    assert(text_views(list@).to_set() =~= required_texts(kind, actions@.take(0)));
    while i < actions.len()
        invariant
            i <= actions@.len(),
            strictly_sorted(text_views(list@)),
            text_views(list@).to_set() == required_texts(kind, actions@.take(i as int)),
        decreases actions@.len() - i,
    {
        let ghost before = required_texts(kind, actions@.take(i as int));
        let required = requirement_of(kind, &actions[i]);
        match required {
            Some(text) => {
                let ghost t = text@;
                insert_text_sorted(&mut list, text);
                assert(required_texts(kind, actions@.take(i + 1)) =~= before.insert(t)) by {
                    assert(actions@.take(i + 1)[i as int] == actions@[i as int]);
                    assert forall|u: Seq<char>| required_texts(kind, actions@.take(i + 1)).contains(u)
                        implies before.insert(t).contains(u) by {
                        let j = choose|j: int|
                            0 <= j < i + 1 && #[trigger] action_requirement(
                                kind,
                                actions@.take(i + 1)[j],
                            ) == Some(u);
                        if j < i {
                            assert(actions@.take(i as int)[j] == actions@.take(i + 1)[j]);
                        }
                    }
                    assert forall|u: Seq<char>| before.insert(t).contains(u)
                        implies required_texts(kind, actions@.take(i + 1)).contains(u) by {
                        if u == t {
                            assert(action_requirement(kind, actions@.take(i + 1)[i as int]) == Some(u));
                        } else {
                            let j = choose|j: int|
                                0 <= j < i && #[trigger] action_requirement(
                                    kind,
                                    actions@.take(i as int)[j],
                                ) == Some(u);
                            assert(actions@.take(i as int)[j] == actions@.take(i + 1)[j]);
                        }
                    }
                }
            },
            None => {
                assert(required_texts(kind, actions@.take(i + 1)) =~= before) by {
                    assert forall|u: Seq<char>| required_texts(kind, actions@.take(i + 1)).contains(u)
                        implies before.contains(u) by {
                        let j = choose|j: int|
                            0 <= j < i + 1 && #[trigger] action_requirement(
                                kind,
                                actions@.take(i + 1)[j],
                            ) == Some(u);
                        assert(j != i);
                        assert(actions@.take(i as int)[j] == actions@.take(i + 1)[j]);
                    }
                    assert forall|u: Seq<char>| before.contains(u) implies required_texts(
                        kind,
                        actions@.take(i + 1),
                    ).contains(u) by {
                        let j = choose|j: int|
                            0 <= j < i && #[trigger] action_requirement(
                                kind,
                                actions@.take(i as int)[j],
                            ) == Some(u);
                        assert(actions@.take(i as int)[j] == actions@.take(i + 1)[j]);
                    }
                }
            },
        }
        i = i + 1;
    }
    assert(actions@.take(i as int) =~= actions@);
    list
}

fn target_is_dead(frame: &TacticalFrame, target: &String) -> (dead: bool)
    ensures
        dead == target_dead(*frame, target@),
{
    let mut i: usize = 0;
    while i < frame.nearby_entities.len()
        invariant
            i <= frame.nearby_entities@.len(),
            forall|j: int|
                0 <= j < i ==> !((#[trigger] frame.nearby_entities@[j]).id@ == target@
                    && frame.nearby_entities@[j].alive == Some(false)),
        decreases frame.nearby_entities@.len() - i,
    {
        if frame.nearby_entities[i].id == *target && frame.nearby_entities[i].alive == Some(false) {
            return true;
        }
        i = i + 1;
    }
    let enemies = &frame.combat.enemy_health;
    let mut k: usize = 0;
    while k < enemies.len()
        invariant
            enemies == &frame.combat.enemy_health,
            k <= enemies@.len(),
            forall|j: int|
                0 <= j < k ==> !((#[trigger] enemies@[j]).id@ == target@ && (match enemies@[j].health {
                    Some(health) => health <= 0,
                    None => false,
                })),
        decreases enemies@.len() - k,
    {
        let depleted = match enemies[k].health {
            Some(health) => health <= 0,
            None => false,
        };
        if enemies[k].id == *target && depleted {
            return true;
        }
        k = k + 1;
    }
    false
}

fn push_requirement_fact(
    kind: Requirement,
    c: &MaterialComparison,
    text: &String,
    facts: &mut Vec<MaterialInvalidationFact>,
)
    ensures
        fact_views(final(facts)@) == fact_views(old(facts)@) + requirement_fact(kind, *c, text@),
{
    let ghost start = fact_views(facts@);
    match kind {
        Requirement::Target => {
            if crate::execution::validator::entity_in_view(c.accepted_frame, text) {
                if target_is_dead(c.current_frame, text) {
                    facts.push(MaterialInvalidationFact::TargetDead { target_id: text.clone() });
                } else if !crate::execution::validator::entity_in_view(c.current_frame, text) {
                    facts.push(MaterialInvalidationFact::TargetUnavailable { target_id: text.clone() });
                }
            }
        },
        Requirement::Item => {
            if crate::execution::validator::item_in_hand(c.accepted_frame, text)
                && !crate::execution::validator::item_in_hand(c.current_frame, text) {
                facts.push(MaterialInvalidationFact::RequiredItemUnavailable { item_id: text.clone() });
            }
        },
        Requirement::Drop => {
            if crate::execution::validator::drop_in_view(c.accepted_frame, text)
                && !crate::execution::validator::drop_in_view(c.current_frame, text) {
                facts.push(MaterialInvalidationFact::RequiredDropUnavailable { drop_id: text.clone() });
            }
        },
        Requirement::Skill => {
            if crate::execution::validator::skill_in_hand(c.accepted_frame, text)
                && !crate::execution::validator::skill_in_hand(c.current_frame, text) {
                facts.push(MaterialInvalidationFact::RequiredSkillUnavailable { skill_id: text.clone() });
            }
        },
    }
    assert(fact_views(facts@) =~= start + requirement_fact(kind, *c, text@));
}

fn record_requirement_changes(
    kind: Requirement,
    c: &MaterialComparison,
    facts: &mut Vec<MaterialInvalidationFact>,
)
    ensures
        fact_views(final(facts)@) == fact_views(old(facts)@) + requirement_facts(kind, *c),
{
    let list = required_list(kind, &c.packet.proposal.actions);
    let ghost views = text_views(list@);
    let ghost f = |t: Seq<char>| requirement_fact(kind, *c, t);
    let ghost start = fact_views(facts@);
    proof {
        lemma_sorted_is_canonical(views);
        assert(views.take(0) =~= Seq::<Seq<char>>::empty());
    }
    let mut i: usize = 0;
    while i < list.len()
        invariant
            i <= list@.len(),
            views == text_views(list@),
            forall|t: Seq<char>| #[trigger] f(t) == requirement_fact(kind, *c, t),
            fact_views(facts@) == start + concat_map(views.take(i as int), f),
        decreases list@.len() - i,
    {
        push_requirement_fact(kind, c, &list[i], facts);
        proof {
            lemma_concat_map_step(views, i as int, f);
            assert(views[i as int] == list@[i as int]@);
        }
        assert(fact_views(facts@) =~= start + concat_map(views.take(i + 1), f));
        i = i + 1;
    }
    assert(views.take(i as int) =~= views);
}


/// The distinct non-blank texts of `values`, trimmed and strictly sorted.
pub fn normalized_set(values: &Vec<String>) -> (set: Vec<String>)
    ensures
        strictly_sorted(text_views(set@)),
        text_views(set@).to_set() == normalized_texts(values@),
{
    let mut set: Vec<String> = Vec::new();
    let mut i: usize = 0;
    assert(text_views(set@).to_set() =~= normalized_texts(values@.take(0)));
    while i < values.len()
        invariant
            i <= values@.len(),
            strictly_sorted(text_views(set@)),
            text_views(set@).to_set() == normalized_texts(values@.take(i as int)),
        decreases values@.len() - i,
    {
        let ghost before = normalized_texts(values@.take(i as int));
        let ghost after = normalized_texts(values@.take(i + 1));
        let trimmed_value = trim(values[i].as_str());
        let ghost t = trimmed_value@;
        proof {
            assert forall|u: Seq<char>| after.contains(u) <==> (before.contains(u) || (u == t
                && t.len() > 0)) by {
                if after.contains(u) {
                    let j = choose|j: int|
                        0 <= j < i + 1 && trimmed(#[trigger] values@.take(i + 1)[j]@) == u;
                    if j < i {
                        assert(values@.take(i as int)[j] == values@.take(i + 1)[j]);
                    }
                }
                if before.contains(u) {
                    let j = choose|j: int|
                        0 <= j < i && trimmed(#[trigger] values@.take(i as int)[j]@) == u;
                    assert(values@.take(i as int)[j] == values@.take(i + 1)[j]);
                }
                if u == t && t.len() > 0 {
                    assert(values@.take(i + 1)[i as int] == values@[i as int]);
                    assert(trimmed(values@.take(i + 1)[i as int]@) == u);
                }
            }
        }
        if !blank(trimmed_value.as_str()) {
            proof {
                if t.len() == 0 {
                    assert(t =~= Seq::<char>::empty());
                }
            }
            insert_text_sorted(&mut set, trimmed_value);
            assert(after =~= before.insert(t));
        } else {
            assert(t.len() == 0) by {
                if t.len() > 0 {
                    assert(crate::text::is_white_space(t[0]));
                    assert(trimmed(values@[i as int]@) == t);
                    trimmed_has_no_edge_space(values@[i as int]@);
                }
            }
            assert(after =~= before);
        }
        i = i + 1;
    }
    assert(values@.take(i as int) =~= values@);
    set
}

proof fn trimmed_has_no_edge_space(s: Seq<char>)
    ensures
        trimmed(s).len() > 0 ==> !crate::text::is_white_space(trimmed(s)[0]),
{
    crate::text::lemma_trimmed_edges(s);
}

/// Whether two lists hold the same set of texts.
fn same_text_set(left: &Vec<String>, right: &Vec<String>) -> (same: bool)
    ensures
        same == (text_views(left@).to_set() == text_views(right@).to_set()),
{
    let mut i: usize = 0;
    while i < left.len()
        invariant
            i <= left@.len(),
            forall|j: int|
                0 <= j < i ==> text_views(right@).contains(#[trigger] text_views(left@)[j]),
        decreases left@.len() - i,
    {
        if !list_holds_text(right, left[i].as_str()) {
            assert(text_views(left@)[i as int] == left@[i as int]@);
            assert(text_views(left@).contains(left@[i as int]@));
            assert(!text_views(right@).to_set().contains(left@[i as int]@));
            return false;
        }
        i = i + 1;
    }
    let mut k: usize = 0;
    while k < right.len()
        invariant
            k <= right@.len(),
            forall|j: int|
                0 <= j < left@.len() ==> text_views(right@).contains(#[trigger] text_views(left@)[j]),
            forall|j: int|
                0 <= j < k ==> text_views(left@).contains(#[trigger] text_views(right@)[j]),
        decreases right@.len() - k,
    {
        if !list_holds_text(left, right[k].as_str()) {
            assert(text_views(right@)[k as int] == right@[k as int]@);
            assert(text_views(right@).contains(right@[k as int]@));
            assert(!text_views(left@).to_set().contains(right@[k as int]@));
            return false;
        }
        k = k + 1;
    }
    assert(text_views(left@).to_set() =~= text_views(right@).to_set()) by {
        assert forall|t: Seq<char>| text_views(left@).to_set().contains(t) implies text_views(
            right@,
        ).to_set().contains(t) by {
            let j = choose|j: int| 0 <= j < text_views(left@).len() && text_views(left@)[j] == t;
        }
        assert forall|t: Seq<char>| text_views(right@).to_set().contains(t) implies text_views(
            left@,
        ).to_set().contains(t) by {
            let j = choose|j: int| 0 <= j < text_views(right@).len() && text_views(right@)[j] == t;
        }
    }
    true
}

/// Identifiers of hostile entities in view not reported dead, strictly sorted.
fn visible_hostile_list(frame: &TacticalFrame) -> (list: Vec<String>)
    ensures
        strictly_sorted(text_views(list@)),
        text_views(list@).to_set() == visible_hostiles(*frame),
{
    let entities = &frame.nearby_entities;
    let mut list: Vec<String> = Vec::new();
    let mut i: usize = 0;
    assert(text_views(list@).to_set() =~= Set::<Seq<char>>::empty());
    while i < entities.len()
        invariant
            entities == &frame.nearby_entities,
            i <= entities@.len(),
            strictly_sorted(text_views(list@)),
            forall|u: Seq<char>|
                text_views(list@).to_set().contains(u) <==> exists|j: int|
                    0 <= j < i && (#[trigger] entities@[j]).id@ == u && entities@[j].hostile == Some(
                        true,
                    ) && entities@[j].alive != Some(false),
        decreases entities@.len() - i,
    {
        let entity = &entities[i];
        if entity.hostile == Some(true) && entity.alive != Some(false) {
            let ghost before = text_views(list@).to_set();
            insert_text_sorted(&mut list, entity.id.clone());
            assert forall|u: Seq<char>|
                text_views(list@).to_set().contains(u) <==> exists|j: int|
                    0 <= j < i + 1 && (#[trigger] entities@[j]).id@ == u && entities@[j].hostile
                        == Some(true) && entities@[j].alive != Some(false) by {
                if u == entity.id@ {
                    assert(entities@[i as int].id@ == u);
                }
                if exists|j: int|
                    0 <= j < i + 1 && (#[trigger] entities@[j]).id@ == u && entities@[j].hostile
                        == Some(true) && entities@[j].alive != Some(false) {
                    let j = choose|j: int|
                        0 <= j < i + 1 && (#[trigger] entities@[j]).id@ == u && entities@[j].hostile
                            == Some(true) && entities@[j].alive != Some(false);
                    if j < i {
                        assert(before.contains(u));
                    }
                }
            }
        } else {
            assert forall|u: Seq<char>|
                text_views(list@).to_set().contains(u) <==> exists|j: int|
                    0 <= j < i + 1 && (#[trigger] entities@[j]).id@ == u && entities@[j].hostile
                        == Some(true) && entities@[j].alive != Some(false) by {
                if exists|j: int|
                    0 <= j < i + 1 && (#[trigger] entities@[j]).id@ == u && entities@[j].hostile
                        == Some(true) && entities@[j].alive != Some(false) {
                    let j = choose|j: int|
                        0 <= j < i + 1 && (#[trigger] entities@[j]).id@ == u && entities@[j].hostile
                            == Some(true) && entities@[j].alive != Some(false);
                    assert(j != i);
                }
            }
        }
        i = i + 1;
    }
    assert(text_views(list@).to_set() =~= visible_hostiles(*frame));
    list
}


fn record_scene_change(c: &MaterialComparison, facts: &mut Vec<MaterialInvalidationFact>)
    ensures
        fact_views(final(facts)@) == fact_views(old(facts)@) + scene_facts(*c),
{
    let ghost start = fact_views(facts@);
    match (&c.accepted_frame.self_state.scene, &c.current_frame.self_state.scene) {
        (Some(previous), Some(current)) => {
            if !(*previous == *current) {
                facts.push(
                    MaterialInvalidationFact::SceneChanged {
                        previous_scene: previous.clone(),
                        current_scene: current.clone(),
                    },
                );
            }
        },
        _ => {},
    }
    assert(fact_views(facts@) =~= start + scene_facts(*c));
}

fn record_player_death(c: &MaterialComparison, facts: &mut Vec<MaterialInvalidationFact>)
    ensures
        fact_views(final(facts)@) == fact_views(old(facts)@) + death_facts(*c),
{
    let ghost start = fact_views(facts@);
    let was_dead = c.accepted_frame.self_state.alive == Some(false)
        || c.accepted_frame.self_state.recently_died == Some(true);
    let is_dead = c.current_frame.self_state.alive == Some(false)
        || c.current_frame.self_state.recently_died == Some(true);
    if !was_dead && is_dead {
        facts.push(MaterialInvalidationFact::PlayerDied);
    }
    assert(fact_views(facts@) =~= start + death_facts(*c));
}

/// The movement destinations of the packet's actions, in action order.
fn required_destinations(actions: &Vec<TacticalAction>) -> (tiles: Vec<TilePosition>)
    ensures
        tiles@ == destinations(actions@),
{
    let mut tiles: Vec<TilePosition> = Vec::new();
    let mut i: usize = 0;
    assert(actions@.take(0) =~= Seq::<TacticalAction>::empty());
    while i < actions.len()
        invariant
            i <= actions@.len(),
            tiles@ == destinations(actions@.take(i as int)),
        decreases actions@.len() - i,
    {
        assert(actions@.take(i + 1).drop_last() =~= actions@.take(i as int));
        match actions[i].destination() {
            Some(tile) => tiles.push(tile),
            None => {},
        }
        i = i + 1;
    }
    assert(actions@.take(i as int) =~= actions@);
    tiles
}

fn record_path_and_movement_changes(
    c: &MaterialComparison,
    facts: &mut Vec<MaterialInvalidationFact>,
)
    ensures
        fact_views(final(facts)@) == fact_views(old(facts)@) + path_facts(*c),
{
    let ghost start = fact_views(facts@);
    let tiles = required_destinations(&c.packet.proposal.actions);
    let ghost ds = tiles@;
    let mut i: usize = 0;
    assert(ds.take(0) =~= Seq::<TilePosition>::empty());
    while i < tiles.len()
        invariant
            i <= tiles@.len(),
            ds == tiles@,
            fact_views(facts@) == start + blocked_destination_facts(ds.take(i as int), *c.current_frame),
        decreases tiles@.len() - i,
    {
        let destination = tiles[i];
        assert(ds.take(i + 1).drop_last() =~= ds.take(i as int));
        assert(ds.take(i + 1).last() == destination);
        let explicitly_blocked = match find_tile(&c.current_frame.map.tiles, destination) {
            Some(tile) => tile.walkable == Some(false),
            None => false,
        };
        let ghost before = facts@;
        let ghost prefix = blocked_destination_facts(ds.take(i as int), *c.current_frame);
        if explicitly_blocked {
            let fact = MaterialInvalidationFact::PathInvalidated {
                destination: Some(destination),
                evidence: PathInvalidationEvidence::DestinationExplicitlyBlocked,
            };
            proof {
                lemma_views_push(before, fact);
            }
            facts.push(fact);
            assert(blocked_destination_facts(ds.take(i + 1), *c.current_frame) == prefix.push(fact@));
            assert(fact_views(facts@) =~= start + blocked_destination_facts(
                ds.take(i + 1),
                *c.current_frame,
            ));
        } else {
            assert(blocked_destination_facts(ds.take(i + 1), *c.current_frame) == prefix);
        }
        i = i + 1;
    }
    assert(ds.take(i as int) =~= ds);
    let ghost blocked = blocked_destination_facts(ds, *c.current_frame);
    assert(fact_views(facts@) == start + blocked);
    let ghost preflight = if ds.len() > 0 && c.execution.path_preflight == Some(
        PathPreflightStatus::Unreachable,
    ) {
        seq![
            MaterialFactView::PathInvalidated {
                destination: Some(ds[0]),
                evidence: PathInvalidationEvidence::PathPreflightUnreachable,
            },
        ]
    } else {
        Seq::empty()
    };
    if tiles.len() > 0 && c.execution.path_preflight == Some(PathPreflightStatus::Unreachable) {
        let fact = MaterialInvalidationFact::PathInvalidated {
            destination: Some(tiles[0]),
            evidence: PathInvalidationEvidence::PathPreflightUnreachable,
        };
        proof {
            lemma_views_push(facts@, fact);
        }
        facts.push(fact);
    }
    assert(fact_views(facts@) =~= start + blocked + preflight);
    let ghost movement = match c.execution.movement_state {
        Some(state) => if ds.len() > 0 && movement_invalidates(state) {
            seq![MaterialFactView::MovementInvalidated { state }]
        } else {
            Seq::empty()
        },
        None => Seq::empty(),
    };
    if tiles.len() > 0 {
        match c.execution.movement_state {
            Some(state) => {
                if matches!(
                    state,
                    MovementState::Stalled | MovementState::Blocked | MovementState::Cancelled
                        | MovementState::Interrupted
                ) {
                    let fact = MaterialInvalidationFact::MovementInvalidated { state };
                    proof {
                        lemma_views_push(facts@, fact);
                    }
                    facts.push(fact);
                }
            },
            None => {},
        }
    }
    assert(fact_views(facts@) =~= start + blocked + preflight + movement);
    assert(path_facts(*c) == blocked + preflight + movement);
}

fn record_health_change(c: &MaterialComparison, facts: &mut Vec<MaterialInvalidationFact>)
    ensures
        fact_views(final(facts)@) == fact_views(old(facts)@) + health_facts(*c),
{
    let ghost start = fact_views(facts@);
    match (
        c.health_critical_at_or_below,
        c.accepted_frame.self_state.health,
        c.current_frame.self_state.health,
    ) {
        (Some(threshold), Some(previous_health), Some(current_health)) => {
            if previous_health > threshold && current_health <= threshold {
                facts.push(
                    MaterialInvalidationFact::HealthBecameCritical {
                        previous_health,
                        current_health,
                        threshold,
                    },
                );
            }
        },
        _ => {},
    }
    assert(fact_views(facts@) =~= start + health_facts(*c));
}

fn effective_hostile_count(frame: &TacticalFrame, visible: &Vec<String>) -> (count: usize)
    requires
        strictly_sorted(text_views(visible@)),
        text_views(visible@).to_set() == visible_hostiles(*frame),
    ensures
        count == hostile_count(*frame),
{
    proof {
        lemma_sorted_is_canonical(text_views(visible@));
    }
    if frame.combat.current_hostiles >= visible.len() {
        frame.combat.current_hostiles
    } else {
        visible.len()
    }
}

fn record_new_hostiles(c: &MaterialComparison, facts: &mut Vec<MaterialInvalidationFact>)
    ensures
        fact_views(final(facts)@) == fact_views(old(facts)@) + hostile_facts(*c),
{
    let ghost start = fact_views(facts@);
    let previous = visible_hostile_list(c.accepted_frame);
    let current = visible_hostile_list(c.current_frame);
    let previous_count = effective_hostile_count(c.accepted_frame, &previous);
    let current_count = effective_hostile_count(c.current_frame, &current);
    let ghost difference = visible_hostiles(*c.current_frame).difference(
        visible_hostiles(*c.accepted_frame),
    );
    let mut appeared: Vec<String> = Vec::new();
    let mut i: usize = 0;
    assert(text_views(appeared@).to_set() =~= Set::<Seq<char>>::empty());
    while i < current.len()
        invariant
            i <= current@.len(),
            strictly_sorted(text_views(appeared@)),
            text_views(previous@).to_set() == visible_hostiles(*c.accepted_frame),
            text_views(appeared@).to_set() == text_views(current@).take(i as int).to_set().difference(
                visible_hostiles(*c.accepted_frame),
            ),
        decreases current@.len() - i,
    {
        let ghost t = current@[i as int]@;
        let ghost seen = text_views(current@).take(i as int);
        let ghost prev_set = visible_hostiles(*c.accepted_frame);
        assert(text_views(current@)[i as int] == t);
        assert(text_views(current@).take(i + 1) =~= seen.push(t));
        proof {
            seen.lemma_push_to_set_commute(t);
        }
        let fresh = !list_holds_text(&previous, current[i].as_str());
        if fresh {
            insert_text_sorted(&mut appeared, current[i].clone());
            assert(!prev_set.contains(t));
            assert(text_views(appeared@).to_set() =~= seen.push(t).to_set().difference(prev_set));
        } else {
            assert(prev_set.contains(t));
            assert(text_views(appeared@).to_set() =~= seen.push(t).to_set().difference(prev_set));
        }
        i = i + 1;
    }
    assert(text_views(current@).take(i as int) =~= text_views(current@));
    assert(text_views(appeared@).to_set() =~= difference);
    proof {
        lemma_sorted_is_canonical(text_views(appeared@));
    }
    let ghost appeared_views = text_views(appeared@);
    let mut k: usize = 0;
    while k < appeared.len()
        invariant
            k <= appeared@.len(),
            appeared_views == text_views(appeared@),
            fact_views(facts@) == start + appeared_views.take(k as int).map_values(
                |id: Seq<char>| new_hostile_fact(id, previous_count as nat, current_count as nat),
            ),
        decreases appeared@.len() - k,
    {
        let fact = MaterialInvalidationFact::NewHostile {
            entity_id: Some(appeared[k].clone()),
            previous_count,
            current_count,
        };
        proof {
            lemma_views_push(facts@, fact);
        }
        facts.push(fact);
        assert(appeared_views[k as int] == appeared@[k as int]@);
        assert(appeared_views.take(k + 1).map_values(
            |id: Seq<char>| new_hostile_fact(id, previous_count as nat, current_count as nat),
        ) =~= appeared_views.take(k as int).map_values(
            |id: Seq<char>| new_hostile_fact(id, previous_count as nat, current_count as nat),
        ).push(new_hostile_fact(appeared_views[k as int], previous_count as nat, current_count as nat)));
        assert(fact_views(facts@) =~= start + appeared_views.take(k + 1).map_values(
            |id: Seq<char>| new_hostile_fact(id, previous_count as nat, current_count as nat),
        ));
        k = k + 1;
    }
    assert(appeared_views.take(k as int) =~= appeared_views);
    if appeared.len() == 0 && current_count > previous_count {
        facts.push(
            MaterialInvalidationFact::NewHostile { entity_id: None, previous_count, current_count },
        );
    }
    assert(fact_views(facts@) =~= start + hostile_facts(*c));
}

fn record_strategic_hard_constraint_change(
    c: &MaterialComparison,
    facts: &mut Vec<MaterialInvalidationFact>,
)
    ensures
        fact_views(final(facts)@) == fact_views(old(facts)@) + constraint_facts(*c),
{
    let ghost start = fact_views(facts@);
    let previous_constraints = normalized_set(&c.accepted_intent.constraints);
    let current_constraints = normalized_set(&c.current_intent.constraints);
    let previous_avoid = normalized_set(&c.accepted_intent.avoid);
    let current_avoid = normalized_set(&c.current_intent.avoid);
    let constraints_changed = !same_text_set(&previous_constraints, &current_constraints);
    let avoid_changed = !same_text_set(&previous_avoid, &current_avoid);
    proof {
        lemma_sorted_is_canonical(text_views(previous_constraints@));
        lemma_sorted_is_canonical(text_views(current_constraints@));
        lemma_sorted_is_canonical(text_views(previous_avoid@));
        lemma_sorted_is_canonical(text_views(current_avoid@));
    }
    if constraints_changed || avoid_changed {
        facts.push(
            MaterialInvalidationFact::StrategicHardConstraintsChanged {
                constraints_changed,
                avoid_changed,
                previous_constraint_count: previous_constraints.len(),
                current_constraint_count: current_constraints.len(),
                previous_avoid_count: previous_avoid.len(),
                current_avoid_count: current_avoid.len(),
            },
        );
    }
    assert(fact_views(facts@) =~= start + constraint_facts(*c));
}

fn fact_triggers_condition(condition: AbortCondition, fact: &MaterialInvalidationFact) -> (triggers: bool)
    ensures
        triggers == fact_triggers(condition, fact@),
{
    match condition {
        AbortCondition::HealthCritical => matches!(
            fact,
            MaterialInvalidationFact::HealthBecameCritical { .. }
        ),
        AbortCondition::PathBlocked => matches!(
            fact,
            MaterialInvalidationFact::PathInvalidated { .. }
                | MaterialInvalidationFact::MovementInvalidated { .. }
        ),
        AbortCondition::NewHostile => matches!(fact, MaterialInvalidationFact::NewHostile { .. }),
        AbortCondition::StrategicIntentChanged => matches!(
            fact,
            MaterialInvalidationFact::StrategicHardConstraintsChanged { .. }
        ),
        AbortCondition::TargetUnavailable => matches!(
            fact,
            MaterialInvalidationFact::TargetUnavailable { .. }
                | MaterialInvalidationFact::TargetDead { .. }
        ),
        AbortCondition::SceneChanged => matches!(fact, MaterialInvalidationFact::SceneChanged { .. }),
        AbortCondition::PlayerDied => matches!(fact, MaterialInvalidationFact::PlayerDied),
    }
}

/// Whether any fact is the kind of change `condition` names.
pub fn abort_condition_matches(condition: AbortCondition, facts: &Vec<MaterialInvalidationFact>) -> (matches: bool)
    ensures
        matches == condition_matches(condition, fact_views(facts@)),
{
    let mut i: usize = 0;
    while i < facts.len()
        invariant
            i <= facts@.len(),
            forall|j: int| 0 <= j < i ==> !#[trigger] fact_triggers(condition, fact_views(facts@)[j]),
        decreases facts@.len() - i,
    {
        if fact_triggers_condition(condition, &facts[i]) {
            assert(fact_triggers(condition, fact_views(facts@)[i as int]));
            return true;
        }
        i = i + 1;
    }
    false
}

fn condition_listed(conditions: &Vec<AbortCondition>, condition: AbortCondition) -> (listed: bool)
    ensures
        listed == conditions@.contains(condition),
{
    let mut i: usize = 0;
    while i < conditions.len()
        invariant
            i <= conditions@.len(),
            forall|j: int| 0 <= j < i ==> conditions@[j] != condition,
        decreases conditions@.len() - i,
    {
        if conditions[i] == condition {
            assert(conditions@[i as int] == condition);
            return true;
        }
        i = i + 1;
    }
    false
}

/// Compare accepted packet assumptions with the latest factual state.
///
/// A revision change alone is never a material invalidation.
pub fn compare_material_state(c: &MaterialComparison) -> (report: InvalidationReport)
    ensures
        fact_views(report.facts@) == material_facts(*c),
        report.triggered_abort_conditions@ == triggered_conditions(
            c.packet.proposal.abort_if@,
            material_facts(*c),
        ),
{
    let mut facts: Vec<MaterialInvalidationFact> = Vec::new();
    assert(fact_views(facts@) =~= Seq::<MaterialFactView>::empty());
    record_scene_change(c, &mut facts);
    record_player_death(c, &mut facts);
    record_requirement_changes(Requirement::Target, c, &mut facts);
    record_requirement_changes(Requirement::Item, c, &mut facts);
    record_requirement_changes(Requirement::Drop, c, &mut facts);
    record_requirement_changes(Requirement::Skill, c, &mut facts);
    record_path_and_movement_changes(c, &mut facts);
    record_health_change(c, &mut facts);
    record_new_hostiles(c, &mut facts);
    record_strategic_hard_constraint_change(c, &mut facts);
    assert(fact_views(facts@) =~= material_facts(*c));

    let requested = &c.packet.proposal.abort_if;
    let mut triggered: Vec<AbortCondition> = Vec::new();
    let mut i: usize = 0;
    assert(requested@.take(0) =~= Seq::<AbortCondition>::empty());
    while i < requested.len()
        invariant
            requested == &c.packet.proposal.abort_if,
            i <= requested@.len(),
            fact_views(facts@) == material_facts(*c),
            triggered@ == triggered_conditions(requested@.take(i as int), fact_views(facts@)),
        decreases requested@.len() - i,
    {
        let condition = requested[i];
        assert(requested@.take(i + 1).drop_last() =~= requested@.take(i as int));
        if abort_condition_matches(condition, &facts) && !condition_listed(&triggered, condition) {
            triggered.push(condition);
        }
        i = i + 1;
    }
    assert(requested@.take(i as int) =~= requested@);
    InvalidationReport { facts, triggered_abort_conditions: triggered }
}


// ---------------------------------------------------------------------------
// Laws
// ---------------------------------------------------------------------------

/// Two frames agree on every fact the comparison reads.
pub open spec fn same_material_state(a: TacticalFrame, b: TacticalFrame) -> bool {
    &&& a.self_state.scene == b.self_state.scene
    &&& a.self_state.alive == b.self_state.alive
    &&& a.self_state.recently_died == b.self_state.recently_died
    &&& a.self_state.health == b.self_state.health
    &&& a.self_state.inventory == b.self_state.inventory
    &&& a.self_state.combat_actions == b.self_state.combat_actions
    &&& a.nearby_entities == b.nearby_entities
    &&& a.nearby_drops == b.nearby_drops
    &&& a.combat.current_hostiles == b.combat.current_hostiles
    &&& a.combat.enemy_health == b.combat.enemy_health
    &&& a.map.tiles == b.map.tiles
}

/// The conditions reported as triggered are ones the packet asked for, each at most
/// once, and each is backed by a recorded fact.
pub proof fn law_triggered_conditions_are_requested_and_backed(
    requested: Seq<AbortCondition>,
    facts: Seq<MaterialFactView>,
)
    ensures
        triggered_conditions(requested, facts).no_duplicates(),
        forall|i: int|
            0 <= i < triggered_conditions(requested, facts).len() ==> requested.contains(
                #[trigger] triggered_conditions(requested, facts)[i],
            ) && condition_matches(triggered_conditions(requested, facts)[i], facts),
    decreases requested.len(),
{
    if requested.len() > 0 {
        let earlier = requested.drop_last();
        law_triggered_conditions_are_requested_and_backed(earlier, facts);
        assert forall|i: int|
            0 <= i < triggered_conditions(earlier, facts).len() implies requested.contains(
                #[trigger] triggered_conditions(earlier, facts)[i],
            ) by {
            let k = choose|k: int| 0 <= k < earlier.len() && earlier[k] == triggered_conditions(earlier, facts)[i];
            assert(requested[k] == earlier[k]);
        }
        assert(requested[requested.len() - 1] == requested.last());
    }
}

/// When nothing the packet depends on has changed, nothing is material: revisions,
/// timestamps and unrelated strategy fields alone never invalidate a packet.
///
/// A required target the accepted frame already reported dead is the one exception
/// the comparison still reports, so it is left out here.
pub proof fn law_unchanged_state_is_not_material(c: MaterialComparison)
    requires
        same_material_state(*c.accepted_frame, *c.current_frame),
        c.accepted_intent.constraints == c.current_intent.constraints,
        c.accepted_intent.avoid == c.current_intent.avoid,
        c.execution.path_preflight.is_none(),
        c.execution.movement_state.is_none(),
        forall|t: Seq<char>|
            #[trigger] required_texts(Requirement::Target, c.packet.proposal.actions@).contains(t)
                ==> !target_dead(*c.accepted_frame, t),
        forall|i: int|
            0 <= i < destinations(c.packet.proposal.actions@).len() ==> match tile_at(
                c.accepted_frame.map.tiles@,
                #[trigger] destinations(c.packet.proposal.actions@)[i],
            ) {
                Some(tile) => tile.walkable != Some(false),
                None => true,
            },
    ensures
        material_facts(c) == Seq::<MaterialFactView>::empty(),
        triggered_conditions(c.packet.proposal.abort_if@, material_facts(c)) == Seq::<
            AbortCondition,
        >::empty(),
{
    let actions = c.packet.proposal.actions@;
    assert(scene_facts(c) =~= Seq::<MaterialFactView>::empty());
    assert(death_facts(c) =~= Seq::<MaterialFactView>::empty());
    lemma_requirements_unchanged(Requirement::Target, c);
    lemma_requirements_unchanged(Requirement::Item, c);
    lemma_requirements_unchanged(Requirement::Drop, c);
    lemma_requirements_unchanged(Requirement::Skill, c);
    lemma_no_blocked_destinations(destinations(actions), *c.current_frame);
    assert(path_facts(c) =~= Seq::<MaterialFactView>::empty());
    assert(health_facts(c) =~= Seq::<MaterialFactView>::empty());
    assert(visible_hostiles(*c.current_frame) =~= visible_hostiles(*c.accepted_frame));
    assert(visible_hostiles(*c.current_frame).difference(visible_hostiles(*c.accepted_frame))
        =~= Set::<Seq<char>>::empty());
    let empty_list = Seq::<Seq<char>>::empty();
    assert(strictly_sorted(empty_list));
    lemma_sorted_is_canonical(empty_list);
    assert(empty_list.to_set() =~= Set::<Seq<char>>::empty());
    assert(hostile_facts(c) =~= Seq::<MaterialFactView>::empty());
    assert(constraint_facts(c) =~= Seq::<MaterialFactView>::empty());
    assert(material_facts(c) =~= Seq::<MaterialFactView>::empty());
    lemma_nothing_triggers(c.packet.proposal.abort_if@);
}

proof fn lemma_nothing_triggers(requested: Seq<AbortCondition>)
    ensures
        triggered_conditions(requested, Seq::<MaterialFactView>::empty()) == Seq::<
            AbortCondition,
        >::empty(),
    decreases requested.len(),
{
    if requested.len() > 0 {
        lemma_nothing_triggers(requested.drop_last());
    }
}

proof fn lemma_no_blocked_destinations(tiles: Seq<TilePosition>, frame: TacticalFrame)
    requires
        forall|i: int|
            0 <= i < tiles.len() ==> match tile_at(frame.map.tiles@, #[trigger] tiles[i]) {
                Some(tile) => tile.walkable != Some(false),
                None => true,
            },
    ensures
        blocked_destination_facts(tiles, frame) == Seq::<MaterialFactView>::empty(),
    decreases tiles.len(),
{
    if tiles.len() > 0 {
        let rest = tiles.drop_last();
        assert forall|i: int| 0 <= i < rest.len() implies match tile_at(
            frame.map.tiles@,
            #[trigger] rest[i],
        ) {
            Some(tile) => tile.walkable != Some(false),
            None => true,
        } by {
            assert(rest[i] == tiles[i]);
        }
        lemma_no_blocked_destinations(rest, frame);
        assert(tiles.last() == tiles[tiles.len() - 1]);
    }
}

proof fn lemma_requirements_unchanged(kind: Requirement, c: MaterialComparison)
    requires
        same_material_state(*c.accepted_frame, *c.current_frame),
        forall|t: Seq<char>|
            #[trigger] required_texts(Requirement::Target, c.packet.proposal.actions@).contains(t)
                ==> !target_dead(*c.accepted_frame, t),
    ensures
        requirement_facts(kind, c) == Seq::<MaterialFactView>::empty(),
{
    let required = required_texts(kind, c.packet.proposal.actions@);
    let list = sorted_texts(required);
    let f = |t: Seq<char>| requirement_fact(kind, c, t);
    lemma_required_texts_finite(kind, c.packet.proposal.actions@);
    assert(list.to_set() == required);
    assert forall|i: int| 0 <= i < list.len() implies #[trigger] f(list[i]) == Seq::<
        MaterialFactView,
    >::empty() by {
        assert(list.to_set().contains(list[i]));
        assert(required.contains(list[i]));
        if kind == Requirement::Target {
            assert(required_texts(Requirement::Target, c.packet.proposal.actions@).contains(list[i]));
        }
    }
    lemma_concat_map_empty(list, f);
}

proof fn lemma_concat_map_empty(list: Seq<Seq<char>>, f: spec_fn(Seq<char>) -> Seq<MaterialFactView>)
    requires
        forall|i: int| 0 <= i < list.len() ==> #[trigger] f(list[i]) == Seq::<MaterialFactView>::empty(),
    ensures
        concat_map(list, f) == Seq::<MaterialFactView>::empty(),
    decreases list.len(),
{
    if list.len() > 0 {
        let rest = list.drop_last();
        assert forall|i: int| 0 <= i < rest.len() implies #[trigger] f(rest[i]) == Seq::<MaterialFactView>::empty() by {
            assert(rest[i] == list[i]);
        }
        lemma_concat_map_empty(rest, f);
        assert(f(list[list.len() - 1]) == Seq::<MaterialFactView>::empty());
        assert(concat_map(list, f) =~= Seq::<MaterialFactView>::empty());
    }
}

proof fn lemma_required_texts_finite(kind: Requirement, actions: Seq<TacticalAction>)
    ensures
        exists|list: Seq<Seq<char>>|
            strictly_sorted(list) && list.to_set() == required_texts(kind, actions),
    decreases actions.len(),
{
    if actions.len() == 0 {
        let empty_list = Seq::<Seq<char>>::empty();
        assert(empty_list.to_set() =~= required_texts(kind, actions));
        assert(strictly_sorted(empty_list));
    } else {
        let rest = actions.drop_last();
        lemma_required_texts_finite(kind, rest);
        let list = choose|list: Seq<Seq<char>>|
            strictly_sorted(list) && list.to_set() == required_texts(kind, rest);
        match action_requirement(kind, actions.last()) {
            Some(t) => {
                lemma_sorted_with(list, t);
                let bigger = sorted_with(list, t);
                assert(required_texts(kind, actions) =~= required_texts(kind, rest).insert(t)) by {
                    assert forall|u: Seq<char>| required_texts(kind, actions).contains(u) implies required_texts(kind, rest).insert(t).contains(u) by {
                        let j = choose|j: int| 0 <= j < actions.len() && #[trigger] action_requirement(kind, actions[j]) == Some(u);
                        if j < actions.len() - 1 {
                            assert(rest[j] == actions[j]);
                        }
                    }
                    assert forall|u: Seq<char>| required_texts(kind, rest).insert(t).contains(u) implies required_texts(kind, actions).contains(u) by {
                        if u == t {
                            assert(action_requirement(kind, actions[actions.len() - 1]) == Some(u));
                        } else {
                            let j = choose|j: int| 0 <= j < rest.len() && #[trigger] action_requirement(kind, rest[j]) == Some(u);
                            assert(rest[j] == actions[j]);
                        }
                    }
                }
                assert(strictly_sorted(bigger) && bigger.to_set() == required_texts(kind, actions));
            },
            None => {
                assert(required_texts(kind, actions) =~= required_texts(kind, rest)) by {
                    assert forall|u: Seq<char>| required_texts(kind, actions).contains(u) implies required_texts(kind, rest).contains(u) by {
                        let j = choose|j: int| 0 <= j < actions.len() && #[trigger] action_requirement(kind, actions[j]) == Some(u);
                        assert(j != actions.len() - 1);
                        assert(rest[j] == actions[j]);
                    }
                    assert forall|u: Seq<char>| required_texts(kind, rest).contains(u) implies required_texts(kind, actions).contains(u) by {
                        let j = choose|j: int| 0 <= j < rest.len() && #[trigger] action_requirement(kind, rest[j]) == Some(u);
                        assert(rest[j] == actions[j]);
                    }
                }
            },
        }
    }
}

proof fn lemma_concat_map_holds(list: Seq<Seq<char>>, j: int, f: spec_fn(Seq<char>) -> Seq<MaterialFactView>, k: int)
    requires
        0 <= j < list.len(),
        0 <= k < f(list[j]).len(),
    ensures
        concat_map(list, f).contains(f(list[j])[k]),
    decreases list.len(),
{
    let rest = list.drop_last();
    if j < list.len() - 1 {
        lemma_concat_map_holds(rest, j, f, k);
        assert(rest[j] == list[j]);
        let w = choose|w: int| 0 <= w < concat_map(rest, f).len() && concat_map(rest, f)[w] == f(list[j])[k];
        assert((concat_map(rest, f) + f(list.last()))[w] == f(list[j])[k]);
    } else {
        let n = concat_map(rest, f).len();
        assert((concat_map(rest, f) + f(list.last()))[n + k] == f(list[j])[k]);
    }
}

proof fn lemma_target_fact_reported<'a>(c: MaterialComparison<'a>, k: int, n: int)
    requires
        0 <= k < c.packet.proposal.actions@.len(),
        c.packet.proposal.actions@[k] is Attack,
        0 <= n < target_fact(c, c.packet.proposal.actions@[k]->Attack_target_id@).len(),
    ensures
        material_facts(c).contains(target_fact(c, c.packet.proposal.actions@[k]->Attack_target_id@)[n]),
{
    let target = c.packet.proposal.actions@[k]->Attack_target_id@;
    let actions = c.packet.proposal.actions@;
    assert(action_requirement(Requirement::Target, actions[k]) == Some(target));
    assert(required_texts(Requirement::Target, actions).contains(target));
    lemma_required_texts_finite(Requirement::Target, actions);
    let list = sorted_texts(required_texts(Requirement::Target, actions));
    assert(list.to_set().contains(target));
    let j = choose|j: int| 0 <= j < list.len() && list[j] == target;
    let f = |t: Seq<char>| requirement_fact(Requirement::Target, c, t);
    assert(f(list[j]) == target_fact(c, target));
    lemma_concat_map_holds(list, j, f, n);
    let reqs = requirement_facts(Requirement::Target, c);
    assert(reqs == concat_map(list, f));
    let x = target_fact(c, target)[n];
    let w = choose|w: int| 0 <= w < reqs.len() && reqs[w] == x;
    let before = scene_facts(c) + death_facts(c);
    let all = material_facts(c);
    assert(all[before.len() + w] == x);
}

/// An attack's target that the world now reports with depleted health is
/// dead: when the target was in view in the accepted frame and the current
/// frame's combat lists it with health at or below zero, the comparison
/// reports it dead.
pub proof fn law_depleted_enemy_counts_as_dead<'a>(c: MaterialComparison<'a>, k: int, seen: int, listed: int)
    requires
        0 <= k < c.packet.proposal.actions@.len(),
        c.packet.proposal.actions@[k] is Attack,
        0 <= seen < c.accepted_frame.nearby_entities@.len(),
        c.accepted_frame.nearby_entities@[seen].id@ == c.packet.proposal.actions@[k]->Attack_target_id@,
        0 <= listed < c.current_frame.combat.enemy_health@.len(),
        c.current_frame.combat.enemy_health@[listed].id@ == c.packet.proposal.actions@[k]->Attack_target_id@,
        c.current_frame.combat.enemy_health@[listed].health matches Some(health) && health <= 0,
    ensures
        material_facts(c).contains(
            MaterialFactView::TargetDead { target_id: c.packet.proposal.actions@[k]->Attack_target_id@ },
        ),
{
    let target = c.packet.proposal.actions@[k]->Attack_target_id@;
    assert(target_dead(*c.current_frame, target));
    assert(entity_visible(*c.accepted_frame, target));
    assert(target_fact(c, target)[0] == MaterialFactView::TargetDead { target_id: target });
    lemma_target_fact_reported(c, k, 0);
}

/// An attack's target that was in view and is now reported not alive is
/// dead in the comparison.
pub proof fn law_target_reported_not_alive_counts_as_dead<'a>(c: MaterialComparison<'a>, k: int, seen: int, now: int)
    requires
        0 <= k < c.packet.proposal.actions@.len(),
        c.packet.proposal.actions@[k] is Attack,
        0 <= seen < c.accepted_frame.nearby_entities@.len(),
        c.accepted_frame.nearby_entities@[seen].id@ == c.packet.proposal.actions@[k]->Attack_target_id@,
        0 <= now < c.current_frame.nearby_entities@.len(),
        c.current_frame.nearby_entities@[now].id@ == c.packet.proposal.actions@[k]->Attack_target_id@,
        c.current_frame.nearby_entities@[now].alive == Some(false),
    ensures
        material_facts(c).contains(
            MaterialFactView::TargetDead { target_id: c.packet.proposal.actions@[k]->Attack_target_id@ },
        ),
{
    let target = c.packet.proposal.actions@[k]->Attack_target_id@;
    assert(target_dead(*c.current_frame, target));
    assert(entity_visible(*c.accepted_frame, target));
    assert(target_fact(c, target)[0] == MaterialFactView::TargetDead { target_id: target });
    lemma_target_fact_reported(c, k, 0);
}

/// An attack's target that was in view and is now neither in view nor
/// listed with depleted health has become unavailable.
pub proof fn law_target_out_of_view_is_unavailable<'a>(c: MaterialComparison<'a>, k: int, seen: int)
    requires
        0 <= k < c.packet.proposal.actions@.len(),
        c.packet.proposal.actions@[k] is Attack,
        0 <= seen < c.accepted_frame.nearby_entities@.len(),
        c.accepted_frame.nearby_entities@[seen].id@ == c.packet.proposal.actions@[k]->Attack_target_id@,
        forall|i: int|
            0 <= i < c.current_frame.nearby_entities@.len() ==> (#[trigger] c.current_frame.nearby_entities@[i]).id@
                != c.packet.proposal.actions@[k]->Attack_target_id@,
        forall|i: int|
            0 <= i < c.current_frame.combat.enemy_health@.len() && (
            #[trigger] c.current_frame.combat.enemy_health@[i]).id@
                == c.packet.proposal.actions@[k]->Attack_target_id@ ==> !(
            c.current_frame.combat.enemy_health@[i].health matches Some(h) && h <= 0),
    ensures
        material_facts(c).contains(
            MaterialFactView::TargetUnavailable { target_id: c.packet.proposal.actions@[k]->Attack_target_id@ },
        ),
{
    let target = c.packet.proposal.actions@[k]->Attack_target_id@;
    assert(!target_dead(*c.current_frame, target));
    assert(entity_visible(*c.accepted_frame, target));
    assert(!entity_visible(*c.current_frame, target));
    assert(target_fact(c, target)[0] == MaterialFactView::TargetUnavailable { target_id: target });
    lemma_target_fact_reported(c, k, 0);
}

} // verus!
