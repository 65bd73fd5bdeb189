//! Turning a change requested for one monitor into the configuration of all.

pub mod actions;

pub use actions::{
    is_ambiguous, Action, DisplacementAction, Field, ModeAction, OrientationAction, PrimaryAction,
    ScaleAction,
};

use vstd::prelude::*;

use crate::binary64::Binary64;
use crate::display_config::monitor_models::transform::{Displacement, Orientation};
use crate::display_config::proxied_methods::{apply_configs_view, ApplyConfig, ApplyConfigView};
use crate::display_config::{plugged_into, DisplayConfig, DisplayConfigView};
use crate::error::Error;
use crate::seq_find::lemma_first_where;
use actions::{actions_view, ActionView};

verus! {

/// The configuration that `config` becomes by making `actions` one after
/// the other, for the monitor plugged into `connector`.
pub open spec fn applied_all(
    config: ApplyConfigView,
    actions: Seq<ActionView>,
    connector: Seq<char>,
) -> ApplyConfigView
    decreases actions.len(),
{
    if actions.len() == 0 {
        config
    } else {
        actions.last().applied(applied_all(config, actions.drop_last(), connector), connector)
    }
}

/// Whether one of `actions` sets the primary flag.
pub open spec fn changes_primary(actions: Seq<ActionView>) -> bool {
    exists|k: int| 0 <= k < actions.len() && #[trigger] actions[k] is SetPrimary
}

/// What one logical monitor adds to the list of configurations.
pub enum Slot {
    /// Nothing: its physical monitor cannot be found.
    Skipped,
    /// Nothing that could be sent: its physical monitor has no current mode.
    Broken,
    /// Its configuration.
    Filled(ApplyConfigView),
}

/// What the logical monitor at `index` adds if it is left as it is: the
/// configuration that keeps it, with the first of its monitors, and without
/// the primary flag if `demote` is set.
pub open spec fn kept_slot(config: DisplayConfigView, index: int, demote: bool) -> Slot {
    let logical = config.logical_monitors[index];
    if logical.monitors.len() == 0 {
        Slot::Skipped
    } else {
        let p = config.physical_index(logical.monitors[0].connector);
        if p >= config.monitors.len() {
            Slot::Skipped
        } else if !config.monitors[p].has_current_mode() {
            Slot::Broken
        } else {
            let kept = ApplyConfigView::keeping(logical, config.monitors[p]);
            Slot::Filled(
                if demote {
                    ApplyConfigView { primary: false, ..kept }
                } else {
                    kept
                },
            )
        }
    }
}

/// What the logical monitor at `l` adds if `actions` are made on it for its
/// physical monitor at `p`.
pub open spec fn target_slot(
    config: DisplayConfigView,
    l: int,
    p: int,
    actions: Seq<ActionView>,
) -> Slot {
    let physical = config.monitors[p];
    if !physical.has_current_mode() {
        Slot::Broken
    } else {
        Slot::Filled(
            applied_all(
                ApplyConfigView::keeping(config.logical_monitors[l], physical),
                actions,
                physical.connector,
            ),
        )
    }
}

/// What the logical monitor at `index` adds when the one at `l`, with its
/// physical monitor at `p`, is the target of `actions`. A change of the
/// primary flag takes the flag from every other logical monitor.
pub open spec fn slot(
    config: DisplayConfigView,
    l: int,
    p: int,
    actions: Seq<ActionView>,
    index: int,
) -> Slot {
    if index == l {
        target_slot(config, l, p, actions)
    } else {
        kept_slot(config, index, changes_primary(actions))
    }
}

/// The configurations that the first `upto` logical monitors add, in their
/// order.
pub open spec fn filled(
    config: DisplayConfigView,
    l: int,
    p: int,
    actions: Seq<ActionView>,
    upto: int,
) -> Seq<ApplyConfigView>
    decreases upto,
{
    if upto <= 0 {
        Seq::empty()
    } else {
        let before = filled(config, l, p, actions, upto - 1);
        match slot(config, l, p, actions, upto - 1) {
            Slot::Filled(entry) => before.push(entry),
            _ => before,
        }
    }
}

/// Whether some logical monitor's physical monitor has no current mode.
pub open spec fn broken(
    config: DisplayConfigView,
    l: int,
    p: int,
    actions: Seq<ActionView>,
) -> bool {
    exists|i: int|
        0 <= i < config.logical_monitors.len() && #[trigger] slot(config, l, p, actions, i)
            is Broken
}

/// The whole list of configurations that making `actions` on the monitor
/// plugged into `target` calls for, or the reason why there is none.
pub open spec fn merged(
    config: DisplayConfigView,
    target: Seq<char>,
    actions: Seq<ActionView>,
) -> Result<Seq<ApplyConfigView>, Error> {
    match config.locate(target) {
        None => Err(Error::NotFound),
        Some((l, p)) => if broken(config, l, p, actions) {
            Err(Error::NoCurrentMode)
        } else {
            Ok(filled(config, l, p, actions, config.logical_monitors.len() as int))
        },
    }
}

/// Making `actions` leaves a configuration primary if it was, makes it
/// primary if one of them sets the flag, and never takes the flag away.
pub proof fn lemma_applied_all_primary(
    config: ApplyConfigView,
    actions: Seq<ActionView>,
    connector: Seq<char>,
)
    ensures
        applied_all(config, actions, connector).primary == (config.primary || changes_primary(
            actions,
        )),
    decreases actions.len(),
{
    if actions.len() > 0 {
        let earlier = actions.drop_last();
        lemma_applied_all_primary(config, earlier, connector);
        if changes_primary(actions) {
            let k = choose|k: int| 0 <= k < actions.len() && #[trigger] actions[k] is SetPrimary;
            if k < earlier.len() {
                assert(earlier[k] is SetPrimary);
            }
        }
    }
}

/// Where every one of the first `upto` logical monitors adds a configuration,
/// the list holds one for each, at its position.
pub proof fn lemma_filled_complete(
    config: DisplayConfigView,
    l: int,
    p: int,
    actions: Seq<ActionView>,
    upto: int,
)
    requires
        0 <= upto,
        forall|i: int| 0 <= i < upto ==> #[trigger] slot(config, l, p, actions, i) is Filled,
    ensures
        filled(config, l, p, actions, upto).len() == upto,
        forall|i: int|
            0 <= i < upto ==> Slot::Filled(#[trigger] filled(config, l, p, actions, upto)[i])
                == slot(config, l, p, actions, i),
    decreases upto,
{
    if upto > 0 {
        lemma_filled_complete(config, l, p, actions, upto - 1);
    }
}

/// Where every logical monitor but the target can be resolved, each adds a
/// configuration or lacks a current mode.
pub proof fn lemma_resolvable_slots(
    config: DisplayConfigView,
    l: int,
    p: int,
    actions: Seq<ActionView>,
)
    requires
        config.resolvable_but(l),
    ensures
        forall|i: int|
            0 <= i < config.logical_monitors.len() ==> !(#[trigger] slot(config, l, p, actions, i)
                is Skipped),
{
    assert forall|i: int| 0 <= i < config.logical_monitors.len() implies !(#[trigger] slot(
        config,
        l,
        p,
        actions,
        i,
    ) is Skipped) by {
        if i != l {
            assert(config.resolved(i));
        }
    }
}

/// Where every logical monitor but the target can be resolved, and so in
/// every consistent snapshot, the list of configurations has one entry for
/// each logical monitor, in the snapshot's order. If an action sets the
/// primary flag, the target's entry is the only primary one; if none does,
/// every entry has the primary flag of its logical monitor.
pub proof fn law_merged_covers_every_logical_monitor(
    config: DisplayConfigView,
    target: Seq<char>,
    actions: Seq<ActionView>,
)
    requires
        config.resolvable_but(config.logical_index(target)),
    ensures
        match merged(config, target, actions) {
            Ok(configs) => {
                &&& configs.len() == config.logical_monitors.len()
                &&& changes_primary(actions) ==> forall|i: int|
                    0 <= i < configs.len() ==> ((#[trigger] configs[i]).primary <==> i
                        == config.logical_index(target))
                &&& !changes_primary(actions) ==> forall|i: int|
                    0 <= i < configs.len() ==> (#[trigger] configs[i]).primary
                        == config.logical_monitors[i].primary
            },
            Err(_) => true,
        },
{
    if let Ok(configs) = merged(config, target, actions) {
        let (l, p) = config.locate(target)->Some_0;
        let n = config.logical_monitors.len() as int;
        lemma_resolvable_slots(config, l, p, actions);
        lemma_filled_complete(config, l, p, actions, n);
        lemma_applied_all_primary(
            ApplyConfigView::keeping(config.logical_monitors[l], config.monitors[p]),
            actions,
            config.monitors[p].connector,
        );
        assert forall|i: int| 0 <= i < n implies (#[trigger] configs[i]).primary == (if i == l {
            config.logical_monitors[l].primary || changes_primary(actions)
        } else {
            !changes_primary(actions) && config.logical_monitors[i].primary
        }) by {}
    }
}

/// Where every logical monitor but the target can be resolved, the target's
/// entry is its old configuration with the actions made on it, and every
/// other entry leaves its logical monitor where and as it is: the same
/// transform, shown by the first of its monitors at the mode that this
/// monitor is in.
pub proof fn law_merged_changes_the_target_only(
    config: DisplayConfigView,
    target: Seq<char>,
    actions: Seq<ActionView>,
    i: int,
)
    requires
        config.resolvable_but(config.logical_index(target)),
        merged(config, target, actions) is Ok,
        0 <= i < config.logical_monitors.len(),
    ensures
        ({
            let configs = merged(config, target, actions)->Ok_0;
            let logical = config.logical_monitors[i];
            if i == config.logical_index(target) {
                let physical = config.monitors[config.physical_index(target)];
                configs[i] == applied_all(
                    ApplyConfigView::keeping(logical, physical),
                    actions,
                    physical.connector,
                )
            } else {
                let first = logical.monitors[0].connector;
                let physical = config.monitors[config.physical_index(first)];
                &&& configs[i].transform == logical.transform
                &&& configs[i].monitors == ApplyConfigView::keeping(logical, physical).monitors
                &&& physical.connector == first
            }
        }),
{
    let (l, p) = config.locate(target)->Some_0;
    let n = config.logical_monitors.len() as int;
    lemma_resolvable_slots(config, l, p, actions);
    lemma_filled_complete(config, l, p, actions, n);
    if i != l {
        lemma_first_where(
            config.monitors,
            plugged_into(config.logical_monitors[i].monitors[0].connector),
        );
    }
}

/// Tells whether one of `actions` sets the primary flag.
pub fn sets_primary(actions: &Vec<Action>) -> (changing: bool)
    ensures
        changing == changes_primary(actions_view(actions@)),
{
    let mut i: usize = 0;
    while i < actions.len()
        invariant
            i <= actions@.len(),
            forall|k: int| 0 <= k < i ==> !(#[trigger] actions_view(actions@)[k] is SetPrimary),
        decreases actions@.len() - i,
    {
        if let Action::SetPrimary(_) = actions[i] {
            assert(actions_view(actions@)[i as int] is SetPrimary);
            return true;
        }
        i += 1;
    }
    false
}

/// Builds the configuration that `actions`, made in their order, give the
/// logical monitor at `l`, for its physical monitor at `p`. Fails if that
/// physical monitor has no mode marked as current.
pub(crate) fn build_target<'a>(
    config: &'a DisplayConfig,
    l: usize,
    p: usize,
    actions: &Vec<Action<'a>>,
) -> (built: Result<ApplyConfig<'a>, Error>)
    requires
        l < config.logical_monitors@.len(),
        p < config.monitors@.len(),
    ensures
        match target_slot(config@, l as int, p as int, actions_view(actions@)) {
            Slot::Filled(target) => built is Ok && built->Ok_0@ == target,
            _ => built == Err::<ApplyConfig<'a>, Error>(Error::NoCurrentMode),
        },
{
    let ghost plan = actions_view(actions@);
    let physical_monitor = &config.monitors[p];
    let ghost connector = physical_monitor@.connector;
    let mut target = match ApplyConfig::from(&config.logical_monitors[l], physical_monitor) {
        Ok(target) => target,
        Err(reason) => {
            return Err(reason);
        },
    };
    let ghost seed = target@;
    let mut i: usize = 0;
    while i < actions.len()
        invariant
            i <= actions@.len(),
            plan == actions_view(actions@),
            physical_monitor@.connector == connector,
            target@ == applied_all(seed, plan.take(i as int), connector),
            target@.monitors.len() == 1,
            target@.monitors[0].connector == connector,
        decreases actions@.len() - i,
    {
        proof {
            assert(plan.take(i + 1).drop_last() =~= plan.take(i as int));
        }
        actions[i].apply(&mut target, physical_monitor);
        i += 1;
    }
    assert(plan.take(plan.len() as int) =~= plan);
    Ok(target)
}

/// Builds the configurations of all logical monitors that making `actions`,
/// in their order, on the monitor plugged into `target_connector` calls for.
///
/// The target's logical monitor gets the changed configuration. Every other
/// one keeps transform, primary flag and current mode, but loses the primary
/// flag if an action sets it on the target. A logical monitor whose physical
/// monitor cannot be found adds nothing. The order is that of the snapshot.
///
/// Fails with `NotFound` if the connector has no physical or no logical
/// monitor, and with `NoCurrentMode` if a physical monitor that is needed has
/// no mode marked as current.
pub fn build_apply_configs<'a>(
    config: &'a DisplayConfig,
    target_connector: &str,
    actions: &Vec<Action<'a>>,
) -> (built: Result<Vec<ApplyConfig<'a>>, Error>)
    ensures
        match merged(config@, target_connector@, actions_view(actions@)) {
            Ok(configs) => built is Ok && apply_configs_view(built->Ok_0@) == configs,
            Err(reason) => built == Err::<Vec<ApplyConfig<'a>>, Error>(reason),
        },
{
    let ghost plan = actions_view(actions@);
    let (l, p) = match (
        config.logical_position(target_connector),
        config.physical_position(target_connector),
    ) {
        (Some(l), Some(p)) => (l, p),
        _ => {
            return Err(Error::NotFound);
        },
    };
    let target = match build_target(config, l, p, actions) {
        Ok(target) => target,
        Err(reason) => {
            return Err(reason);
        },
    };
    let primary_is_changing = sets_primary(actions);

    let mut configs: Vec<ApplyConfig<'a>> = Vec::new();
    let mut index: usize = 0;
    while index < config.logical_monitors.len()
        invariant
            index <= config.logical_monitors@.len(),
            l < config.logical_monitors@.len(),
            p < config.monitors@.len(),
            plan == actions_view(actions@),
            primary_is_changing == changes_primary(plan),
            config@.locate(target_connector@) == Some((l as int, p as int)),
            slot(config@, l as int, p as int, plan, l as int) == Slot::Filled(target@),
            forall|k: int|
                0 <= k < index ==> !(#[trigger] slot(config@, l as int, p as int, plan, k)
                    is Broken),
            apply_configs_view(configs@) == filled(config@, l as int, p as int, plan, index as int),
        decreases config.logical_monitors@.len() - index,
    {
        if index == l {
            configs.push(target.clone());
        } else {
            let logical_monitor = &config.logical_monitors[index];
            if logical_monitor.monitors.len() > 0 {
                match config.physical_position(logical_monitor.monitors[0].connector.as_str()) {
                    Some(q) => {
                        match ApplyConfig::from(logical_monitor, &config.monitors[q]) {
                            Ok(kept) => {
                                let mut kept = kept;
                                if primary_is_changing {
                                    kept.primary = false;
                                }
                                configs.push(kept);
                            },
                            Err(reason) => {
                                assert(slot(config@, l as int, p as int, plan, index as int)
                                    is Broken);
                                return Err(reason);
                            },
                        }
                    },
                    None => {},
                }
            }
        }
        index += 1;
    }
    Ok(configs)
}

/// The changes that a user asks for, each at most once.
#[derive(Debug, Clone, Copy, PartialEq, Eq)]
pub struct ActionOptions<'a> {
    /// The orientation to give the picture.
    pub rotation: Option<Orientation>,
    /// The mode to drive the monitor at.
    pub mode: Option<&'a str>,
    /// Whether to make the logical monitor the primary one.
    pub primary: bool,
    /// The scale to magnify the picture by.
    pub scale: Option<Binary64>,
    /// The position and scale to give the picture.
    pub displacement: Option<Displacement>,
}

/// The changes that a user asks for, as plain values.
pub struct ActionOptionsView {
    pub rotation: Option<Orientation>,
    pub mode: Option<Seq<char>>,
    pub primary: bool,
    pub scale: Option<Binary64>,
    pub displacement: Option<Displacement>,
}

impl ActionOptionsView {
    /// The actions that make the changes, in the order in which they are
    /// made: orientation, mode, primary flag, scale, displacement. A
    /// displacement thus overrides a scale that is asked for with it.
    pub open spec fn actions(self) -> Seq<ActionView> {
        let rotation = match self.rotation {
            Some(orientation) => seq![ActionView::SetOrientation(orientation)],
            None => seq![],
        };
        let mode = match self.mode {
            Some(mode) => seq![ActionView::SetMode(mode)],
            None => seq![],
        };
        let primary = if self.primary {
            seq![ActionView::SetPrimary]
        } else {
            seq![]
        };
        let scale = match self.scale {
            Some(scale) => seq![ActionView::SetScale(scale)],
            None => seq![],
        };
        let displacement = match self.displacement {
            Some(displacement) => seq![ActionView::SetDisplacement(displacement)],
            None => seq![],
        };
        rotation + mode + primary + scale + displacement
    }
}

impl<'a> View for ActionOptions<'a> {
    type V = ActionOptionsView;

    open spec fn view(&self) -> ActionOptionsView {
        ActionOptionsView {
            rotation: self.rotation,
            mode: match self.mode {
                Some(mode) => Some(mode@),
                None => None,
            },
            primary: self.primary,
            scale: self.scale,
            displacement: self.displacement,
        }
    }
}

impl<'a> ActionOptions<'a> {
    /// Lists the actions that make the changes asked for.
    pub fn actions(&self) -> (actions: Vec<Action<'a>>)
        ensures
            actions_view(actions@) == self@.actions(),
    {
        let mut actions: Vec<Action<'a>> = Vec::new();
        if let Some(orientation) = self.rotation {
            actions.push(Action::SetOrientation(OrientationAction { orientation }));
        }
        if let Some(mode) = self.mode {
            actions.push(Action::SetMode(ModeAction { mode }));
        }
        if self.primary {
            actions.push(Action::SetPrimary(PrimaryAction {  }));
        }
        if let Some(scale) = self.scale {
            actions.push(Action::SetScale(ScaleAction { scale }));
        }
        if let Some(displacement) = self.displacement {
            actions.push(Action::SetDisplacement(DisplacementAction { displacement }));
        }
        actions
    }
}

/// A request to change the configuration of one monitor.
#[derive(Debug, Clone, Copy, PartialEq, Eq)]
pub struct CommandOptions<'a> {
    /// The connector of the physical monitor to change.
    pub connector: &'a str,
    /// The changes.
    pub actions: ActionOptions<'a>,
    /// Whether the display server is to keep the configuration for the next
    /// time that the same hardware is connected.
    pub persistent: bool,
    /// Whether to stop before anything is sent.
    pub dry_run: bool,
}

/// A request as plain values.
pub struct CommandOptionsView {
    pub connector: Seq<char>,
    pub actions: ActionOptionsView,
    pub persistent: bool,
    pub dry_run: bool,
}

impl<'a> View for CommandOptions<'a> {
    type V = CommandOptionsView;

    open spec fn view(&self) -> CommandOptionsView {
        CommandOptionsView {
            connector: self.connector@,
            actions: self.actions@,
            persistent: self.persistent,
            dry_run: self.dry_run,
        }
    }
}

/// What is to be done about a request.
#[derive(Debug, PartialEq, Eq)]
pub enum Outcome<'a> {
    /// The request asks for no change: nothing is to be sent.
    NoChanges,
    /// The request is a dry run: this is what its target would become, and
    /// nothing is to be sent.
    DryRun(ApplyConfig<'a>),
    /// These configurations are to be sent to the display server.
    Apply { configs: Vec<ApplyConfig<'a>>, persistent: bool },
}

/// What is to be done about a request, as plain values.
pub enum OutcomeView {
    NoChanges,
    DryRun(ApplyConfigView),
    Apply { configs: Seq<ApplyConfigView>, persistent: bool },
}

impl<'a> View for Outcome<'a> {
    type V = OutcomeView;

    open spec fn view(&self) -> OutcomeView {
        match self {
            Outcome::NoChanges => OutcomeView::NoChanges,
            Outcome::DryRun(target) => OutcomeView::DryRun(target@),
            Outcome::Apply { configs, persistent } => OutcomeView::Apply {
                configs: apply_configs_view(configs@),
                persistent: *persistent,
            },
        }
    }
}

/// What is to be done about `opts` in the state `config`.
///
/// An unknown connector fails the request before anything else. A request
/// without changes comes to nothing. A dry run comes to the target's changed
/// configuration alone. Anything else comes to the whole list of
/// configurations.
pub open spec fn handled(opts: CommandOptionsView, config: DisplayConfigView) -> Result<
    OutcomeView,
    Error,
> {
    let actions = opts.actions.actions();
    match config.locate(opts.connector) {
        None => Err(Error::NotFound),
        Some((l, p)) => if actions.len() == 0 {
            Ok(OutcomeView::NoChanges)
        } else if opts.dry_run {
            match target_slot(config, l, p, actions) {
                Slot::Filled(target) => Ok(OutcomeView::DryRun(target)),
                _ => Err(Error::NoCurrentMode),
            }
        } else {
            match merged(config, opts.connector, actions) {
                Ok(configs) => Ok(OutcomeView::Apply { configs, persistent: opts.persistent }),
                Err(reason) => Err(reason),
            }
        },
    }
}

/// Decides what is to be done about a request to change a monitor.
pub fn handle<'a>(opts: &CommandOptions<'a>, config: &'a DisplayConfig) -> (outcome: Result<
    Outcome<'a>,
    Error,
>)
    ensures
        match handled(opts@, config@) {
            Ok(wanted) => outcome is Ok && outcome->Ok_0@ == wanted,
            Err(reason) => outcome == Err::<Outcome<'a>, Error>(reason),
        },
{
    let (l, p) = match (
        config.logical_position(opts.connector),
        config.physical_position(opts.connector),
    ) {
        (Some(l), Some(p)) => (l, p),
        _ => {
            return Err(Error::NotFound);
        },
    };
    let actions = opts.actions.actions();
    if actions.len() == 0 {
        return Ok(Outcome::NoChanges);
    }
    if opts.dry_run {
        return match build_target(config, l, p, &actions) {
            Ok(target) => Ok(Outcome::DryRun(target)),
            Err(reason) => Err(reason),
        };
    }
    match build_apply_configs(config, opts.connector, &actions) {
        Ok(configs) => Ok(Outcome::Apply { configs, persistent: opts.persistent }),
        Err(reason) => Err(reason),
    }
}

} // verus!
