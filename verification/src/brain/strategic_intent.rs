//! The runtime-owned long-horizon intent that tactical packets are made under.

use vstd::prelude::*;

use crate::world::TilePosition;

verus! {

#[derive(Debug, Clone)]
pub enum Priority {
    Survival,
    Objective,
    Loot,
    Kills,
    Social,
    Custom(String),
}

/// A named destination, with its tile when the strategist knows it.
#[derive(Debug, Clone)]
pub struct NamedDestination {
    pub name: String,
    pub tile: Option<TilePosition>,
}

/// A destination the body should travel to without further model calls.
#[derive(Debug, Clone)]
pub struct NavigationGoal {
    pub scene: String,
    pub destination: Option<NamedDestination>,
    pub reason: String,
}

/// The accepted strategic intent.
///
/// `risk_tolerance_permille` is the risk tolerance in thousandths (0 to 1000
/// stands for 0.0 to 1.0).
#[derive(Debug, Clone)]
pub struct StrategicIntent {
    pub revision: u64,
    pub objective: String,
    pub subgoals: Vec<String>,
    pub priorities: Vec<Priority>,
    pub constraints: Vec<String>,
    pub risk_tolerance_permille: u32,
    pub preferred_targets: Vec<String>,
    pub avoid: Vec<String>,
    pub navigation_goal: Option<NavigationGoal>,
    /// Milliseconds since the Unix epoch after which the intent lapses.
    pub expires_at_ms: Option<i64>,
}

impl Default for StrategicIntent {
    /// The intent held before any strategist has spoken: stay alive.
    fn default() -> (intent: StrategicIntent)
        ensures
            intent.revision == 0,
            intent.objective@ == "Stay alive while waiting for strategic direction."@,
            intent.subgoals@.len() == 0,
            intent.priorities@.len() == 1,
            intent.priorities@[0] is Survival,
            intent.constraints@.len() == 0,
            intent.risk_tolerance_permille == 0,
            intent.preferred_targets@.len() == 0,
            intent.avoid@.len() == 0,
            intent.navigation_goal.is_none(),
            intent.expires_at_ms.is_none(),
    {
        let mut priorities = Vec::new();
        priorities.push(Priority::Survival);
        StrategicIntent {
            revision: 0,
            objective: String::from_str("Stay alive while waiting for strategic direction."),
            subgoals: Vec::new(),
            priorities,
            constraints: Vec::new(),
            risk_tolerance_permille: 0,
            preferred_targets: Vec::new(),
            avoid: Vec::new(),
            navigation_goal: None,
            expires_at_ms: None,
        }
    }
}

/// A priority with its custom text as characters.
pub enum PriorityView {
    Survival,
    Objective,
    Loot,
    Kills,
    Social,
    Custom(Seq<char>),
}

impl View for Priority {
    type V = PriorityView;

    open spec fn view(&self) -> PriorityView {
        match self {
            Priority::Survival => PriorityView::Survival,
            Priority::Objective => PriorityView::Objective,
            Priority::Loot => PriorityView::Loot,
            Priority::Kills => PriorityView::Kills,
            Priority::Social => PriorityView::Social,
            Priority::Custom(text) => PriorityView::Custom(text@),
        }
    }
}

pub open spec fn priority_views(priorities: Seq<Priority>) -> Seq<PriorityView> {
    priorities.map_values(|p: Priority| p@)
}

/// A named destination with its name as characters.
pub struct NamedDestinationView {
    pub name: Seq<char>,
    pub tile: Option<TilePosition>,
}

/// A navigation goal with its texts as characters.
pub struct NavigationGoalView {
    pub scene: Seq<char>,
    pub destination: Option<NamedDestinationView>,
    pub reason: Seq<char>,
}

impl View for NavigationGoal {
    type V = NavigationGoalView;

    open spec fn view(&self) -> NavigationGoalView {
        NavigationGoalView {
            scene: self.scene@,
            destination: match self.destination {
                Some(d) => Some(NamedDestinationView { name: d.name@, tile: d.tile }),
                None => None,
            },
            reason: self.reason@,
        }
    }
}

pub open spec fn optional_goal_view(goal: Option<NavigationGoal>) -> Option<NavigationGoalView> {
    match goal {
        Some(g) => Some(g@),
        None => None,
    }
}

pub open spec fn goal_views(goals: Seq<NavigationGoal>) -> Seq<NavigationGoalView> {
    goals.map_values(|g: NavigationGoal| g@)
}

impl Priority {
    /// A copy with the same content.
    pub fn duplicate(&self) -> (copy: Priority)
        ensures
            copy@ == self@,
    {
        match self {
            Priority::Survival => Priority::Survival,
            Priority::Objective => Priority::Objective,
            Priority::Loot => Priority::Loot,
            Priority::Kills => Priority::Kills,
            Priority::Social => Priority::Social,
            Priority::Custom(text) => Priority::Custom(text.clone()),
        }
    }
}

impl Priority {
    /// Whether two priorities are the same.
    pub fn same_as(&self, other: &Priority) -> (same: bool)
        ensures
            same == (self@ == other@),
    {
        match (self, other) {
            (Priority::Survival, Priority::Survival) => true,
            (Priority::Objective, Priority::Objective) => true,
            (Priority::Loot, Priority::Loot) => true,
            (Priority::Kills, Priority::Kills) => true,
            (Priority::Social, Priority::Social) => true,
            (Priority::Custom(a), Priority::Custom(b)) => crate::text::text_equals(a.as_str(), b.as_str()),
            _ => false,
        }
    }
}

/// Whether two priority lists hold the same priorities in the same order.
pub fn same_priorities(left: &Vec<Priority>, right: &Vec<Priority>) -> (same: bool)
    ensures
        same == (priority_views(left@) == priority_views(right@)),
{
    if left.len() != right.len() {
        proof {
            assert(priority_views(left@).len() != priority_views(right@).len());
        }
        return false;
    }
    let mut i: usize = 0;
    while i < left.len()
        invariant
            i <= left@.len(),
            left@.len() == right@.len(),
            forall|j: int| 0 <= j < i ==> left@[j]@ == right@[j]@,
        decreases left@.len() - i,
    {
        if !left[i].same_as(&right[i]) {
            proof {
                assert(priority_views(left@)[i as int] != priority_views(right@)[i as int]);
            }
            return false;
        }
        i = i + 1;
    }
    proof {
        assert(priority_views(left@) =~= priority_views(right@));
    }
    true
}

/// Whether two optional navigation goals are the same (both absent counts as the same).
pub fn same_optional_goal(left: &Option<NavigationGoal>, right: &Option<NavigationGoal>) -> (same: bool)
    ensures
        same == (optional_goal_view(*left) == optional_goal_view(*right)),
{
    match (left, right) {
        (Some(a), Some(b)) => {
            let same_destination = match (&a.destination, &b.destination) {
                (Some(x), Some(y)) => crate::text::text_equals(x.name.as_str(), y.name.as_str()) && x.tile == y.tile,
                (None, None) => true,
                _ => false,
            };
            crate::text::text_equals(a.scene.as_str(), b.scene.as_str()) && same_destination
                && crate::text::text_equals(a.reason.as_str(), b.reason.as_str())
        },
        (None, None) => true,
        _ => false,
    }
}

/// A copy of `priorities` with the same content, in the same order.
pub fn copy_priorities(priorities: &Vec<Priority>) -> (copy: Vec<Priority>)
    ensures
        priority_views(copy@) == priority_views(priorities@),
{
    let mut copy: Vec<Priority> = Vec::new();
    let mut i: usize = 0;
    while i < priorities.len()
        invariant
            i <= priorities@.len(),
            priority_views(copy@) == priority_views(priorities@).take(i as int),
        decreases priorities@.len() - i,
    {
        let next = priorities[i].duplicate();
        proof {
            assert(priority_views(copy@.push(next)) =~= priority_views(copy@).push(next@));
            assert(priority_views(priorities@).take(i + 1) =~= priority_views(priorities@).take(
                i as int,
            ).push(priority_views(priorities@)[i as int]));
        }
        copy.push(next);
        i = i + 1;
    }
    proof {
        assert(priority_views(priorities@).take(i as int) =~= priority_views(priorities@));
    }
    copy
}

impl NavigationGoal {
    /// A copy with the same content.
    pub fn duplicate(&self) -> (copy: NavigationGoal)
        ensures
            copy@ == self@,
    {
        NavigationGoal {
            scene: self.scene.clone(),
            destination: match &self.destination {
                Some(d) => Some(NamedDestination { name: d.name.clone(), tile: d.tile }),
                None => None,
            },
            reason: self.reason.clone(),
        }
    }
}

/// A copy of an optional navigation goal.
pub fn copy_optional_goal(goal: &Option<NavigationGoal>) -> (copy: Option<NavigationGoal>)
    ensures
        optional_goal_view(copy) == optional_goal_view(*goal),
{
    match goal {
        Some(g) => Some(g.duplicate()),
        None => None,
    }
}

} // verus!
