//! The state of the displays as the display server reports it.

pub mod gamma;
pub mod models;
pub mod monitor_models;
pub mod property;
pub mod proxied_methods;
pub mod resources;

pub use proxied_methods::{ApplyConfig, ApplyMonitor};

use vstd::prelude::*;
use vstd::string::StringExecFns;

use crate::seq_find::{
    at_most_one, exactly_one, first_where, lemma_at_most_one, lemma_first_where,
    lemma_first_where_is, none_after,
};
use crate::text::same_text;
use models::logical_monitor::{
    logical_monitors_view, LogicalMonitor, LogicalMonitorView, RawLogicalMonitor,
};
use models::physical_monitor::{
    in_use, physical_monitors_view, PhysicalMonitor, PhysicalMonitorView, RawPhysicalMonitor,
};
use property::{
    flag_of, keys_view, lookup_flag, lookup_number, number_of, properties_view, unlisted,
    without_keys, Property, PropertyView,
};

verus! {

/// The way logical monitors are laid out on the screen.
#[derive(Debug, Clone, Copy, PartialEq, Eq, Structural)]
pub enum LayoutMode {
    /// A logical monitor measures its mode's dimensions divided by its scale.
    Logical,
    /// A logical monitor measures exactly its mode's dimensions.
    Physical,
}

impl LayoutMode {
    /// The layout mode that a raw property value stands for: 2 is physical,
    /// anything else logical.
    pub open spec fn spec_from(result: u64) -> LayoutMode {
        if result == 2 {
            LayoutMode::Physical
        } else {
            LayoutMode::Logical
        }
    }

    /// Decodes the raw property value.
    pub fn from(result: u64) -> (mode: LayoutMode)
        ensures
            mode == Self::spec_from(result),
    {
        match result {
            2 => LayoutMode::Physical,
            _ => LayoutMode::Logical,
        }
    }

    /// The name of the layout mode.
    pub open spec fn spec_name(self) -> Seq<char> {
        match self {
            LayoutMode::Logical => "logical"@,
            LayoutMode::Physical => "physical"@,
        }
    }

    /// Names the layout mode.
    pub fn name(&self) -> (name: &'static str)
        ensures
            name@ == self.spec_name(),
    {
        match self {
            LayoutMode::Logical => "logical",
            LayoutMode::Physical => "physical",
        }
    }
}

/// The properties of a display configuration that the library understands.
#[derive(Debug, Clone, Copy, PartialEq, Eq, Structural)]
pub struct KnownProperties {
    /// Whether monitors can mirror each other.
    pub supports_mirroring: bool,
    /// How logical monitors are laid out.
    pub layout_mode: LayoutMode,
    /// Whether the layout mode can be changed.
    pub supports_changing_layout_mode: bool,
    /// Whether all logical monitors must use the same scale.
    pub global_scale_required: bool,
}

/// The names of the configuration properties that the library understands.
pub open spec fn known_keys() -> Seq<Seq<char>> {
    seq![
        "supports-mirroring"@,
        "layout-mode"@,
        "supports-changing-layout-mode"@,
        "global-scale-required"@,
    ]
}

impl KnownProperties {
    /// The understood properties among `properties`. Mirroring is supported
    /// unless said otherwise; the layout is logical unless said otherwise; the
    /// other two are false unless said otherwise.
    pub open spec fn spec_from(properties: Seq<PropertyView>) -> KnownProperties {
        KnownProperties {
            supports_mirroring: match flag_of(properties, "supports-mirroring"@) {
                Some(flag) => flag,
                None => true,
            },
            layout_mode: match number_of(properties, "layout-mode"@) {
                Some(raw) => LayoutMode::spec_from(raw),
                None => LayoutMode::Logical,
            },
            supports_changing_layout_mode: match flag_of(
                properties,
                "supports-changing-layout-mode"@,
            ) {
                Some(flag) => flag,
                None => false,
            },
            global_scale_required: match flag_of(properties, "global-scale-required"@) {
                Some(flag) => flag,
                None => false,
            },
        }
    }

    /// Reads the understood properties of a display configuration.
    pub fn from(result: &Vec<Property>) -> (known: KnownProperties)
        ensures
            known == Self::spec_from(properties_view(result@)),
    {
        let supports_mirroring = match lookup_flag(result, "supports-mirroring") {
            Some(flag) => flag,
            None => true,
        };
        let layout_mode = match lookup_number(result, "layout-mode") {
            Some(raw) => LayoutMode::from(raw),
            None => LayoutMode::Logical,
        };
        let supports_changing_layout_mode = match lookup_flag(
            result,
            "supports-changing-layout-mode",
        ) {
            Some(flag) => flag,
            None => false,
        };
        let global_scale_required = match lookup_flag(result, "global-scale-required") {
            Some(flag) => flag,
            None => false,
        };
        KnownProperties {
            supports_mirroring,
            layout_mode,
            supports_changing_layout_mode,
            global_scale_required,
        }
    }
}

/// How a truth value is written.
pub open spec fn truth_text(flag: bool) -> Seq<char> {
    if flag {
        "true"@
    } else {
        "false"@
    }
}

/// Writes a truth value.
pub fn truth_name(flag: bool) -> (name: &'static str)
    ensures
        name@ == truth_text(flag),
{
    if flag {
        "true"
    } else {
        "false"
    }
}

impl KnownProperties {
    /// The understood properties, one to a line, each as its name, a colon
    /// and its value.
    pub open spec fn described(self) -> Seq<char> {
        "supports-mirroring: "@ + truth_text(self.supports_mirroring) + "\n"@ + "layout-mode: "@
            + self.layout_mode.spec_name() + "\n"@ + "supports-changing-layout-mode: "@
            + truth_text(self.supports_changing_layout_mode) + "\n"@ + "global-scale-required: "@
            + truth_text(self.global_scale_required) + "\n"@
    }

    /// Renders the understood properties, one to a line.
    pub fn describe(&self) -> (lines: String)
        ensures
            lines@ == self.described(),
    {
        let mut lines = String::from_str("supports-mirroring: ");
        lines.append(truth_name(self.supports_mirroring));
        lines.append("\n");
        lines.append("layout-mode: ");
        lines.append(self.layout_mode.name());
        lines.append("\n");
        lines.append("supports-changing-layout-mode: ");
        lines.append(truth_name(self.supports_changing_layout_mode));
        lines.append("\n");
        lines.append("global-scale-required: ");
        lines.append(truth_name(self.global_scale_required));
        lines.append("\n");
        lines
    }
}

/// A display configuration as the display server reports it: serial,
/// physical monitors, logical monitors, properties.
pub type RawDisplayConfig = (
    u32,
    Vec<RawPhysicalMonitor>,
    Vec<RawLogicalMonitor>,
    Vec<Property>,
);

/// One snapshot of the display server's configuration.
#[derive(Debug, PartialEq, Eq)]
pub struct DisplayConfig {
    /// The token that the display server hands out with each state and wants
    /// back with each change.
    pub serial: u32,
    /// The connected monitors.
    pub monitors: Vec<PhysicalMonitor>,
    /// The logical monitors arranged from them.
    pub logical_monitors: Vec<LogicalMonitor>,
    /// The properties that the library understands.
    pub known_properties: KnownProperties,
    /// All other properties.
    pub properties: Vec<Property>,
}

/// A display configuration as plain values.
pub struct DisplayConfigView {
    pub serial: u32,
    pub monitors: Seq<PhysicalMonitorView>,
    pub logical_monitors: Seq<LogicalMonitorView>,
    pub known_properties: KnownProperties,
    pub properties: Seq<PropertyView>,
}

/// The condition of being plugged into `connector`.
pub open spec fn plugged_into(connector: Seq<char>) -> spec_fn(PhysicalMonitorView) -> bool {
    |m: PhysicalMonitorView| m.connector == connector
}

/// The condition of being the primary logical monitor.
pub open spec fn is_primary() -> spec_fn(LogicalMonitorView) -> bool {
    |m: LogicalMonitorView| m.primary
}

/// The condition of being shown by a monitor that is plugged into `connector`.
pub open spec fn shown_on(connector: Seq<char>) -> spec_fn(LogicalMonitorView) -> bool {
    |m: LogicalMonitorView| m.shows(connector)
}

impl DisplayConfigView {
    /// The position of the first physical monitor plugged into `connector`,
    /// or the number of physical monitors if there is none.
    pub open spec fn physical_index(self, connector: Seq<char>) -> int {
        first_where(self.monitors, plugged_into(connector))
    }

    /// The position of the first logical monitor that a monitor plugged into
    /// `connector` shows, or the number of logical monitors if there is none.
    pub open spec fn logical_index(self, connector: Seq<char>) -> int {
        first_where(self.logical_monitors, shown_on(connector))
    }

    /// The positions of the logical and of the physical monitor that belong
    /// to `connector`, if both exist.
    pub open spec fn locate(self, connector: Seq<char>) -> Option<(int, int)> {
        if self.physical_index(connector) < self.monitors.len() && self.logical_index(connector)
            < self.logical_monitors.len() {
            Some((self.logical_index(connector), self.physical_index(connector)))
        } else {
            None
        }
    }
}

impl DisplayConfigView {
    /// Whether exactly one physical monitor is plugged into `connector`.
    pub open spec fn sole_physical(self, connector: Seq<char>) -> bool {
        exactly_one(self.monitors, plugged_into(connector))
    }

    /// Whether every monitor that shows the logical monitor at `i` is plugged
    /// into a connector that exactly one physical monitor has.
    pub open spec fn resolves(self, i: int) -> bool {
        forall|k: int|
            0 <= k < self.logical_monitors[i].monitors.len() ==> self.sole_physical(
                (#[trigger] self.logical_monitors[i].monitors[k]).connector,
            )
    }

    /// Whether the snapshot is consistent: every logical monitor is shown by
    /// at least one monitor, each of them plugged into a connector that exactly
    /// one physical monitor has; at most one logical monitor is primary; and
    /// of each physical monitor at most one mode is in use.
    pub open spec fn wf(self) -> bool {
        &&& forall|i: int|
            0 <= i < self.logical_monitors.len() ==> {
                &&& (#[trigger] self.logical_monitors[i]).monitors.len() >= 1
                &&& self.resolves(i)
            }
        &&& at_most_one(self.logical_monitors, is_primary())
        &&& forall|p: int|
            0 <= p < self.monitors.len() ==> at_most_one(
                (#[trigger] self.monitors[p]).modes,
                in_use(),
            )
    }

    /// Whether the logical monitor at `i` can be resolved: it is shown by at
    /// least one monitor, and the first of them is plugged into a connector
    /// that some physical monitor has.
    pub open spec fn resolved(self, i: int) -> bool {
        let shown_by = self.logical_monitors[i].monitors;
        shown_by.len() >= 1 && self.physical_index(shown_by[0].connector) < self.monitors.len()
    }

    /// Whether every logical monitor can be resolved, but for the one at `l`,
    /// of which nothing is asked.
    pub open spec fn resolvable_but(self, l: int) -> bool {
        forall|i: int| 0 <= i < self.logical_monitors.len() && i != l ==> self.resolved(i)
    }

    /// In a consistent snapshot every logical monitor can be resolved.
    pub proof fn law_consistent_is_resolvable(self, l: int)
        requires
            self.wf(),
        ensures
            self.resolvable_but(l),
    {
    }

    /// A connector that exactly one physical monitor has, at `p`, and that
    /// exactly one logical monitor lists, at `l`, leads to that pair.
    pub proof fn law_locate_finds_the_only_pair(self, connector: Seq<char>, l: int, p: int)
        requires
            0 <= p < self.monitors.len(),
            self.monitors[p].connector == connector,
            forall|q: int|
                0 <= q < self.monitors.len() && q != p ==> !plugged_into(connector)(
                    #[trigger] self.monitors[q],
                ),
            0 <= l < self.logical_monitors.len(),
            self.logical_monitors[l].shows(connector),
            forall|i: int|
                0 <= i < self.logical_monitors.len() && i != l ==> !shown_on(connector)(
                    #[trigger] self.logical_monitors[i],
                ),
        ensures
            self.locate(connector) == Some((l, p)),
    {
        lemma_first_where_is(self.monitors, plugged_into(connector), p);
        lemma_first_where_is(self.logical_monitors, shown_on(connector), l);
    }

    /// A connector leads to nothing exactly when no physical monitor has it or
    /// no logical monitor lists it.
    pub proof fn law_locate_misses_the_absent(self, connector: Seq<char>)
        ensures
            self.locate(connector) is None <==> {
                ||| forall|p: int|
                    0 <= p < self.monitors.len() ==> !plugged_into(connector)(
                        #[trigger] self.monitors[p],
                    )
                ||| forall|l: int|
                    0 <= l < self.logical_monitors.len() ==> !shown_on(connector)(
                        #[trigger] self.logical_monitors[l],
                    )
            },
    {
        lemma_first_where(self.monitors, plugged_into(connector));
        lemma_first_where(self.logical_monitors, shown_on(connector));
    }
}

impl View for DisplayConfig {
    type V = DisplayConfigView;

    open spec fn view(&self) -> DisplayConfigView {
        DisplayConfigView {
            serial: self.serial,
            monitors: physical_monitors_view(self.monitors@),
            logical_monitors: logical_monitors_view(self.logical_monitors@),
            known_properties: self.known_properties,
            properties: properties_view(self.properties@),
        }
    }
}

impl DisplayConfig {
    /// The configuration that a report describes: the understood properties
    /// are read from all properties and then left out of the rest.
    pub open spec fn spec_from(result: RawDisplayConfig) -> DisplayConfigView {
        DisplayConfigView {
            serial: result.0,
            monitors: result.1@.map_values(
                |raw: RawPhysicalMonitor| PhysicalMonitor::spec_from(raw),
            ),
            logical_monitors: result.2@.map_values(
                |raw: RawLogicalMonitor| LogicalMonitor::spec_from(raw),
            ),
            known_properties: KnownProperties::spec_from(properties_view(result.3@)),
            properties: properties_view(result.3@).filter(unlisted(known_keys())),
        }
    }

    /// Builds a display configuration from the display server's report.
    pub fn from(result: RawDisplayConfig) -> (config: DisplayConfig)
        ensures
            config@ == Self::spec_from(result),
    {
        let known_properties = KnownProperties::from(&result.3);
        let keys = [
            "supports-mirroring",
            "layout-mode",
            "supports-changing-layout-mode",
            "global-scale-required",
        ];
        assert(keys_view(keys@) =~= known_keys());

        let ghost raw_monitors = result.1@;
        let ghost wanted_monitors = Self::spec_from(result).monitors;
        let mut monitors: Vec<PhysicalMonitor> = Vec::new();
        for raw in it: result.1
            invariant
                it.seq() == raw_monitors,
                wanted_monitors == raw_monitors.map_values(
                    |raw: RawPhysicalMonitor| PhysicalMonitor::spec_from(raw),
                ),
                monitors@.len() == it.index(),
                forall|k: int|
                    0 <= k < it.index() ==> (#[trigger] monitors@[k])@ == wanted_monitors[k],
        {
            monitors.push(PhysicalMonitor::from(raw));
        }
        assert(physical_monitors_view(monitors@) =~= wanted_monitors);

        let ghost raw_logical = result.2@;
        let ghost wanted_logical = Self::spec_from(result).logical_monitors;
        let mut logical_monitors: Vec<LogicalMonitor> = Vec::new();
        for raw in it: result.2
            invariant
                it.seq() == raw_logical,
                wanted_logical == raw_logical.map_values(
                    |raw: RawLogicalMonitor| LogicalMonitor::spec_from(raw),
                ),
                logical_monitors@.len() == it.index(),
                forall|k: int|
                    0 <= k < it.index() ==> (#[trigger] logical_monitors@[k])@
                        == wanted_logical[k],
        {
            logical_monitors.push(LogicalMonitor::from(raw));
        }
        assert(logical_monitors_view(logical_monitors@) =~= wanted_logical);

        DisplayConfig {
            serial: result.0,
            monitors,
            logical_monitors,
            known_properties,
            properties: without_keys(result.3, &keys),
        }
    }

    /// The position of the first physical monitor plugged into `connector`.
    pub fn physical_position(&self, connector: &str) -> (position: Option<usize>)
        ensures
            match position {
                Some(at) => at < self.monitors@.len() && at == self@.physical_index(connector@),
                None => self@.physical_index(connector@) == self@.monitors.len(),
            },
    {
        let mut i: usize = 0;
        while i < self.monitors.len()
            invariant
                i <= self.monitors@.len(),
                forall|k: int|
                    0 <= k < i ==> !plugged_into(connector@)(#[trigger] self@.monitors[k]),
            decreases self.monitors@.len() - i,
        {
            if same_text(self.monitors[i].connector.as_str(), connector) {
                proof {
                    lemma_first_where_is(self@.monitors, plugged_into(connector@), i as int);
                }
                return Some(i);
            }
            i += 1;
        }
        proof {
            lemma_first_where_is(self@.monitors, plugged_into(connector@), i as int);
        }
        None
    }

    /// The position of the first logical monitor that a monitor plugged into
    /// `connector` shows.
    pub fn logical_position(&self, connector: &str) -> (position: Option<usize>)
        ensures
            match position {
                Some(at) => at < self.logical_monitors@.len() && at == self@.logical_index(
                    connector@,
                ),
                None => self@.logical_index(connector@) == self@.logical_monitors.len(),
            },
    {
        let mut i: usize = 0;
        while i < self.logical_monitors.len()
            invariant
                i <= self.logical_monitors@.len(),
                forall|k: int|
                    0 <= k < i ==> !shown_on(connector@)(#[trigger] self@.logical_monitors[k]),
            decreases self.logical_monitors@.len() - i,
        {
            if self.logical_monitors[i].shows(connector) {
                proof {
                    lemma_first_where_is(self@.logical_monitors, shown_on(connector@), i as int);
                }
                return Some(i);
            }
            i += 1;
        }
        proof {
            lemma_first_where_is(self@.logical_monitors, shown_on(connector@), i as int);
        }
        None
    }

    /// Tells whether exactly one physical monitor is plugged into `connector`.
    pub fn has_sole_physical(&self, connector: &str) -> (sole: bool)
        ensures
            sole == self@.sole_physical(connector@),
    {
        let first = match self.physical_position(connector) {
            Some(first) => first,
            None => {
                return false;
            },
        };
        proof {
            lemma_at_most_one(self@.monitors, plugged_into(connector@));
        }
        let total = self.monitors.len();
        let mut k: usize = first + 1;
        while k < total
            invariant
                total == self.monitors@.len(),
                first < k <= total,
                first == self@.physical_index(connector@),
                at_most_one(self@.monitors, plugged_into(connector@)) <==> none_after(
                    self@.monitors,
                    plugged_into(connector@),
                    first as int,
                ),
                forall|j: int|
                    first < j < k ==> !plugged_into(connector@)(#[trigger] self@.monitors[j]),
            decreases total - k,
        {
            if same_text(self.monitors[k].connector.as_str(), connector) {
                assert(plugged_into(connector@)(self@.monitors[k as int]));
                return false;
            }
            k += 1;
        }
        true
    }

    /// Tells whether at most one logical monitor is primary.
    pub fn has_one_primary_at_most(&self) -> (single: bool)
        ensures
            single == at_most_one(self@.logical_monitors, is_primary()),
    {
        proof {
            lemma_at_most_one(self@.logical_monitors, is_primary());
        }
        let mut seen = false;
        let mut k: usize = 0;
        while k < self.logical_monitors.len()
            invariant
                k <= self.logical_monitors@.len(),
                at_most_one(self@.logical_monitors, is_primary()) <==> none_after(
                    self@.logical_monitors,
                    is_primary(),
                    first_where(self@.logical_monitors, is_primary()),
                ),
                !seen ==> forall|j: int|
                    0 <= j < k ==> !is_primary()(#[trigger] self@.logical_monitors[j]),
                seen ==> first_where(self@.logical_monitors, is_primary()) < k && forall|j: int|
                    first_where(self@.logical_monitors, is_primary()) < j < k ==> !is_primary()(
                        #[trigger] self@.logical_monitors[j],
                    ),
            decreases self.logical_monitors@.len() - k,
        {
            if self.logical_monitors[k].primary {
                assert(is_primary()(self@.logical_monitors[k as int]));
                if seen {
                    return false;
                }
                proof {
                    lemma_first_where_is(self@.logical_monitors, is_primary(), k as int);
                }
                seen = true;
            }
            k += 1;
        }
        true
    }

    /// Tells whether the snapshot is consistent.
    pub fn is_consistent(&self) -> (consistent: bool)
        ensures
            consistent == self@.wf(),
    {
        let mut i: usize = 0;
        while i < self.logical_monitors.len()
            invariant
                i <= self.logical_monitors@.len(),
                forall|j: int|
                    0 <= j < i ==> {
                        &&& (#[trigger] self@.logical_monitors[j]).monitors.len() >= 1
                        &&& self@.resolves(j)
                    },
            decreases self.logical_monitors@.len() - i,
        {
            let logical = &self.logical_monitors[i];
            if logical.monitors.len() == 0 {
                return false;
            }
            let mut k: usize = 0;
            while k < logical.monitors.len()
                invariant
                    i < self.logical_monitors@.len(),
                    self@.logical_monitors[i as int] == logical@,
                    k <= logical.monitors@.len(),
                    forall|j: int|
                        0 <= j < k ==> self@.sole_physical(
                            (#[trigger] self@.logical_monitors[i as int].monitors[j]).connector,
                        ),
                decreases logical.monitors@.len() - k,
            {
                assert(logical@.monitors[k as int] == logical.monitors@[k as int]@);
                if !self.has_sole_physical(logical.monitors[k].connector.as_str()) {
                    return false;
                }
                k += 1;
            }
            i += 1;
        }
        if !self.has_one_primary_at_most() {
            return false;
        }
        let mut p: usize = 0;
        while p < self.monitors.len()
            invariant
                p <= self.monitors@.len(),
                forall|j: int|
                    0 <= j < p ==> at_most_one((#[trigger] self@.monitors[j]).modes, in_use()),
            decreases self.monitors@.len() - p,
        {
            assert(self@.monitors[p as int] == self.monitors@[p as int]@);
            if !self.monitors[p].has_one_current_mode_at_most() {
                return false;
            }
            p += 1;
        }
        true
    }

    /// Finds the logical and the physical monitor that belong to `connector`:
    /// the first physical monitor plugged into it, and the first logical
    /// monitor that lists it. Gives nothing if either is missing.
    pub fn search(&self, connector: &str) -> (found: Option<(&LogicalMonitor, &PhysicalMonitor)>)
        ensures
            match self@.locate(connector@) {
                Some((l, p)) => found == Some((&self.logical_monitors@[l], &self.monitors@[p])),
                None => found is None,
            },
    {
        let physical = self.physical_position(connector);
        let logical = self.logical_position(connector);
        match (logical, physical) {
            (Some(l), Some(p)) => Some((&self.logical_monitors[l], &self.monitors[p])),
            _ => None,
        }
    }
}

} // verus!
