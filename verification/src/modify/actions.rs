use vstd::prelude::*;

use crate::binary64::Binary64;
use crate::display_config::models::physical_monitor::PhysicalMonitor;
use crate::display_config::monitor_models::transform::{Displacement, Orientation, Transform};
use crate::display_config::proxied_methods::{
    ApplyConfig, ApplyConfigView, ApplyMonitor, ApplyMonitorView,
};
use crate::seq_find::{first_where, lemma_first_where, lemma_first_where_is};
use crate::text::same_text;

verus! {

/// The condition of naming the monitor plugged into `connector`.
pub open spec fn drives(connector: Seq<char>) -> spec_fn(ApplyMonitorView) -> bool {
    |m: ApplyMonitorView| m.connector == connector
}

impl ApplyConfigView {
    /// Whether the configuration names the monitor plugged into `connector`.
    pub open spec fn names(self, connector: Seq<char>) -> bool {
        first_where(self.monitors, drives(connector)) < self.monitors.len()
    }

    /// The configuration turned and flipped as `orientation` says.
    pub open spec fn with_orientation(self, orientation: Orientation) -> Self {
        ApplyConfigView { transform: Transform { orientation, ..self.transform }, ..self }
    }

    /// The configuration moved and magnified as `displacement` says.
    pub open spec fn with_displacement(self, displacement: Displacement) -> Self {
        ApplyConfigView { transform: Transform { displacement, ..self.transform }, ..self }
    }

    /// The configuration magnified by `scale`, where it is.
    pub open spec fn with_scale(self, scale: Binary64) -> Self {
        self.with_displacement(Displacement { scale, ..self.transform.displacement })
    }

    /// The configuration with the first monitor plugged into `connector` at
    /// the mode `mode`; unchanged if it names no such monitor.
    pub open spec fn with_mode(self, connector: Seq<char>, mode: Seq<char>) -> Self {
        let at = first_where(self.monitors, drives(connector));
        if at < self.monitors.len() {
            ApplyConfigView {
                monitors: self.monitors.update(
                    at,
                    ApplyMonitorView { connector: self.monitors[at].connector, mode_id: mode },
                ),
                ..self
            }
        } else {
            self
        }
    }

    /// The configuration made primary.
    pub open spec fn as_primary(self) -> Self {
        ApplyConfigView { primary: true, ..self }
    }
}

/// Turns and flips the picture.
#[derive(Debug, Clone, Copy, PartialEq, Eq, Structural)]
pub struct OrientationAction {
    pub orientation: Orientation,
}

impl OrientationAction {
    /// Sets the orientation and leaves the rest.
    pub fn apply(&self, config: &mut ApplyConfig, _physical_monitor: &PhysicalMonitor)
        ensures
            final(config)@ == old(config)@.with_orientation(self.orientation),
    {
        config.transform.orientation = self.orientation;
    }
}

/// Moves and magnifies the picture.
#[derive(Debug, Clone, Copy, PartialEq, Eq, Structural)]
pub struct DisplacementAction {
    pub displacement: Displacement,
}

impl DisplacementAction {
    /// Sets position and scale and leaves the rest.
    pub fn apply(&self, config: &mut ApplyConfig, _physical_monitor: &PhysicalMonitor)
        ensures
            final(config)@ == old(config)@.with_displacement(self.displacement),
    {
        config.transform.displacement = self.displacement;
    }
}

/// Magnifies the picture where it is.
#[derive(Debug, Clone, Copy, PartialEq, Eq, Structural)]
pub struct ScaleAction {
    pub scale: Binary64,
}

impl ScaleAction {
    /// Sets the scale and leaves the rest.
    pub fn apply(&self, config: &mut ApplyConfig, _physical_monitor: &PhysicalMonitor)
        ensures
            final(config)@ == old(config)@.with_scale(self.scale),
    {
        config.transform.displacement.scale = self.scale;
    }
}

/// Drives the monitor at another mode.
#[derive(Debug, Clone, Copy, PartialEq, Eq)]
pub struct ModeAction<'a> {
    pub mode: &'a str,
}

impl<'a> ModeAction<'a> {
    /// Sets the mode of the first monitor of `config` that is plugged into
    /// the connector of `physical_monitor`, and leaves the rest. The
    /// configuration must name that monitor.
    pub fn apply(&self, config: &mut ApplyConfig<'a>, physical_monitor: &PhysicalMonitor)
        requires
            old(config)@.names(physical_monitor@.connector),
        ensures
            final(config)@ == old(config)@.with_mode(physical_monitor@.connector, self.mode@),
    {
        let ghost wanted = drives(physical_monitor@.connector);
        let ghost before = config@;
        let mut i: usize = 0;
        while i < config.monitors.len()
            invariant
                config@ == before,
                before == old(config)@,
                wanted == drives(physical_monitor@.connector),
                i <= config.monitors@.len(),
                first_where(before.monitors, wanted) < before.monitors.len(),
                forall|k: int| 0 <= k < i ==> !wanted(#[trigger] before.monitors[k]),
            decreases config.monitors@.len() - i,
        {
            let connector = config.monitors[i].connector;
            if same_text(connector, physical_monitor.connector.as_str()) {
                proof {
                    lemma_first_where_is(before.monitors, wanted, i as int);
                }
                config.monitors.set(i, ApplyMonitor { connector, mode_id: self.mode });
                assert(config@.monitors =~= before.with_mode(
                    physical_monitor@.connector,
                    self.mode@,
                ).monitors);
                return ;
            }
            i += 1;
        }
        proof {
            lemma_first_where_is(before.monitors, wanted, i as int);
        }
    }
}

/// Makes the logical monitor the primary one.
#[derive(Debug, Clone, Copy, PartialEq, Eq, Structural)]
pub struct PrimaryAction {}

impl PrimaryAction {
    /// Sets the primary flag and leaves the rest.
    pub fn apply(&self, config: &mut ApplyConfig, _physical_monitor: &PhysicalMonitor)
        ensures
            final(config)@ == old(config)@.as_primary(),
    {
        config.primary = true;
    }
}

/// One requested change to the configuration of a logical monitor.
#[derive(Debug, Clone, Copy, PartialEq, Eq)]
pub enum Action<'a> {
    SetOrientation(OrientationAction),
    SetDisplacement(DisplacementAction),
    SetScale(ScaleAction),
    SetMode(ModeAction<'a>),
    SetPrimary(PrimaryAction),
}

/// A requested change as plain values.
pub enum ActionView {
    SetOrientation(Orientation),
    SetDisplacement(Displacement),
    SetScale(Binary64),
    SetMode(Seq<char>),
    SetPrimary,
}

impl ActionView {
    /// The configuration that `config` becomes by this change, made for the
    /// monitor plugged into `connector`.
    pub open spec fn applied(
        self,
        config: ApplyConfigView,
        connector: Seq<char>,
    ) -> ApplyConfigView {
        match self {
            ActionView::SetOrientation(orientation) => config.with_orientation(orientation),
            ActionView::SetDisplacement(displacement) => config.with_displacement(displacement),
            ActionView::SetScale(scale) => config.with_scale(scale),
            ActionView::SetMode(mode) => config.with_mode(connector, mode),
            ActionView::SetPrimary => config.as_primary(),
        }
    }
}

impl<'a> View for Action<'a> {
    type V = ActionView;

    open spec fn view(&self) -> ActionView {
        match self {
            Action::SetOrientation(action) => ActionView::SetOrientation(action.orientation),
            Action::SetDisplacement(action) => ActionView::SetDisplacement(action.displacement),
            Action::SetScale(action) => ActionView::SetScale(action.scale),
            Action::SetMode(action) => ActionView::SetMode(action.mode@),
            Action::SetPrimary(_) => ActionView::SetPrimary,
        }
    }
}

impl ActionView {
    /// Whether two changes set the same field of a configuration.
    pub open spec fn same_kind(self, other: ActionView) -> bool {
        match (self, other) {
            (ActionView::SetOrientation(_), ActionView::SetOrientation(_)) => true,
            (ActionView::SetDisplacement(_), ActionView::SetDisplacement(_)) => true,
            (ActionView::SetScale(_), ActionView::SetScale(_)) => true,
            (ActionView::SetMode(_), ActionView::SetMode(_)) => true,
            (ActionView::SetPrimary, ActionView::SetPrimary) => true,
            _ => false,
        }
    }
}

/// Of two changes to the same field, made one after the other, only the
/// later one shows. A displacement also overrides a scale set before it.
pub proof fn law_last_write_wins(
    config: ApplyConfigView,
    earlier: ActionView,
    later: ActionView,
    connector: Seq<char>,
)
    requires
        earlier.same_kind(later) || (earlier is SetScale && later is SetDisplacement),
    ensures
        later.applied(earlier.applied(config, connector), connector) == later.applied(
            config,
            connector,
        ),
{
    if let (ActionView::SetMode(first), ActionView::SetMode(second)) = (earlier, later) {
        let at = first_where(config.monitors, drives(connector));
        lemma_first_where(config.monitors, drives(connector));
        if at < config.monitors.len() {
            let between = config.with_mode(connector, first);
            lemma_first_where_is(between.monitors, drives(connector), at);
            assert(between.with_mode(connector, second).monitors =~= config.with_mode(
                connector,
                second,
            ).monitors);
        }
    }
}

/// The part of a configuration that a change writes.
#[derive(Debug, Clone, Copy, PartialEq, Eq, Structural)]
pub enum Field {
    /// Rotation and flip.
    Orientation,
    /// Position and scale.
    Displacement,
    /// The mode of the monitor.
    Mode,
    /// The primary flag.
    Primary,
}

impl ActionView {
    /// The part of a configuration that this change writes.
    pub open spec fn field(self) -> Field {
        match self {
            ActionView::SetOrientation(_) => Field::Orientation,
            ActionView::SetDisplacement(_) => Field::Displacement,
            ActionView::SetScale(_) => Field::Displacement,
            ActionView::SetMode(_) => Field::Mode,
            ActionView::SetPrimary => Field::Primary,
        }
    }
}

/// Whether two of the changes write the same part of a configuration, so
/// that their order decides what comes out.
pub open spec fn ambiguous(actions: Seq<ActionView>) -> bool {
    exists|i: int, j: int|
        0 <= i < j < actions.len() && (#[trigger] actions[i]).field() == (
        #[trigger] actions[j]).field()
}

/// The changes of a list, each as plain values.
pub open spec fn actions_view(actions: Seq<Action>) -> Seq<ActionView> {
    actions.map_values(|a: Action| a@)
}

impl<'a> Action<'a> {
    /// Tells which part of a configuration the change writes.
    pub fn field(&self) -> (field: Field)
        ensures
            field == self@.field(),
    {
        match self {
            Action::SetOrientation(_) => Field::Orientation,
            Action::SetDisplacement(_) => Field::Displacement,
            Action::SetScale(_) => Field::Displacement,
            Action::SetMode(_) => Field::Mode,
            Action::SetPrimary(_) => Field::Primary,
        }
    }

    /// Makes the change on `config`, for the monitor `physical_monitor`. A
    /// change of mode needs a configuration that names that monitor.
    pub fn apply(&self, config: &mut ApplyConfig<'a>, physical_monitor: &PhysicalMonitor)
        requires
            self is SetMode ==> old(config)@.names(physical_monitor@.connector),
        ensures
            final(config)@ == self@.applied(old(config)@, physical_monitor@.connector),
    {
        match self {
            Action::SetOrientation(action) => action.apply(config, physical_monitor),
            Action::SetDisplacement(action) => action.apply(config, physical_monitor),
            Action::SetScale(action) => action.apply(config, physical_monitor),
            Action::SetMode(action) => action.apply(config, physical_monitor),
            Action::SetPrimary(action) => action.apply(config, physical_monitor),
        }
    }
}

/// Tells whether two of `actions` write the same part of a configuration.
/// Such a list is still carried out, the later change over the earlier one;
/// a caller can use this to warn that the order matters.
pub fn is_ambiguous(actions: &Vec<Action>) -> (found: bool)
    ensures
        found == ambiguous(actions_view(actions@)),
{
    let ghost plan = actions_view(actions@);
    let mut j: usize = 0;
    while j < actions.len()
        invariant
            j <= actions@.len(),
            plan == actions_view(actions@),
            forall|a: int, b: int|
                0 <= a < b < j ==> (#[trigger] plan[a]).field() != (#[trigger] plan[b]).field(),
        decreases actions@.len() - j,
    {
        let field = actions[j].field();
        let mut i: usize = 0;
        while i < j
            invariant
                i <= j < actions@.len(),
                plan == actions_view(actions@),
                field == plan[j as int].field(),
                forall|a: int| 0 <= a < i ==> (#[trigger] plan[a]).field() != field,
            decreases j - i,
        {
            if actions[i].field() == field {
                assert(plan[i as int].field() == plan[j as int].field());
                return true;
            }
            i += 1;
        }
        j += 1;
    }
    false
}

} // verus!
