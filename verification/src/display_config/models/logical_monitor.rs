use vstd::prelude::*;

use crate::binary64::Binary64;
use crate::display_config::monitor_models::monitor::{
    descriptions_view, MonitorDescription, MonitorDescriptionView,
};
use crate::display_config::monitor_models::transform::Transform;
use crate::display_config::property::{properties_view, Property, PropertyView};
use crate::text::same_text;

verus! {

/// A logical monitor as the display server reports it: x, y, scale,
/// encoded orientation, primary flag, the monitors that show it (connector,
/// vendor, product, serial), properties.
pub type RawLogicalMonitor = (
    i32,
    i32,
    Binary64,
    u32,
    bool,
    Vec<(String, String, String, String)>,
    Vec<Property>,
);

/// A rectangle of the desktop, shown by one monitor or by several that
/// mirror each other.
#[derive(Debug, PartialEq, Eq)]
pub struct LogicalMonitor {
    /// Where and how the logical monitor is shown.
    pub transform: Transform,
    /// Whether this is the primary logical monitor.
    pub primary: bool,
    /// The monitors that show this logical monitor.
    pub monitors: Vec<MonitorDescription>,
    /// Further properties.
    pub properties: Vec<Property>,
}

/// A logical monitor as plain values.
pub struct LogicalMonitorView {
    pub transform: Transform,
    pub primary: bool,
    pub monitors: Seq<MonitorDescriptionView>,
    pub properties: Seq<PropertyView>,
}

impl LogicalMonitorView {
    /// Whether one of the monitors that show this logical monitor is plugged
    /// into `connector`.
    pub open spec fn shows(self, connector: Seq<char>) -> bool {
        exists|k: int|
            0 <= k < self.monitors.len() && (#[trigger] self.monitors[k]).connector == connector
    }
}

impl View for LogicalMonitor {
    type V = LogicalMonitorView;

    open spec fn view(&self) -> LogicalMonitorView {
        LogicalMonitorView {
            transform: self.transform,
            primary: self.primary,
            monitors: descriptions_view(self.monitors@),
            properties: properties_view(self.properties@),
        }
    }
}

impl Clone for LogicalMonitor {
    /// Copies everything but the properties, which the copy lacks.
    fn clone(&self) -> (copy: Self)
        ensures
            copy@ == (LogicalMonitorView { properties: Seq::empty(), ..self@ }),
    {
        let mut monitors: Vec<MonitorDescription> = Vec::new();
        let mut i: usize = 0;
        while i < self.monitors.len()
            invariant
                i <= self.monitors@.len(),
                monitors@.len() == i,
                forall|k: int| 0 <= k < i ==> (#[trigger] monitors@[k])@ == self.monitors@[k]@,
            decreases self.monitors@.len() - i,
        {
            monitors.push(self.monitors[i].clone());
            i += 1;
        }
        let copy = LogicalMonitor {
            transform: self.transform,
            primary: self.primary,
            monitors,
            properties: Vec::new(),
        };
        assert(copy@.monitors =~= self@.monitors);
        assert(copy@.properties =~= Seq::empty());
        copy
    }
}

impl LogicalMonitor {
    /// The logical monitor that a report describes.
    pub open spec fn spec_from(result: RawLogicalMonitor) -> LogicalMonitorView {
        LogicalMonitorView {
            transform: Transform::spec_from(result.0, result.1, result.2, result.3),
            primary: result.4,
            monitors: result.5@.map_values(
                |raw: (String, String, String, String)|
                    MonitorDescriptionView {
                        connector: raw.0@,
                        vendor: raw.1@,
                        product: raw.2@,
                        serial: raw.3@,
                    },
            ),
            properties: properties_view(result.6@),
        }
    }

    /// Builds a logical monitor from the display server's report.
    pub fn from(result: RawLogicalMonitor) -> (monitor: LogicalMonitor)
        ensures
            monitor@ == Self::spec_from(result),
    {
        let ghost raw = result.5@;
        let ghost wanted = Self::spec_from(result).monitors;
        let mut monitors: Vec<MonitorDescription> = Vec::new();
        for description in it: result.5
            invariant
                it.seq() == raw,
                wanted.len() == raw.len(),
                forall|k: int|
                    0 <= k < raw.len() ==> #[trigger] wanted[k] == (MonitorDescriptionView {
                        connector: raw[k].0@,
                        vendor: raw[k].1@,
                        product: raw[k].2@,
                        serial: raw[k].3@,
                    }),
                monitors@.len() == it.index(),
                forall|k: int| 0 <= k < it.index() ==> (#[trigger] monitors@[k])@ == wanted[k],
        {
            monitors.push(MonitorDescription::from(description));
        }
        assert(descriptions_view(monitors@) =~= wanted);
        LogicalMonitor {
            transform: Transform::from(result.0, result.1, result.2, result.3),
            primary: result.4,
            monitors,
            properties: result.6,
        }
    }

    /// Tells whether one of the monitors that show this logical monitor is
    /// plugged into `connector`.
    pub fn shows(&self, connector: &str) -> (shown: bool)
        ensures
            shown == self@.shows(connector@),
    {
        let mut i: usize = 0;
        while i < self.monitors.len()
            invariant
                i <= self.monitors@.len(),
                forall|k: int|
                    0 <= k < i ==> (#[trigger] self@.monitors[k]).connector != connector@,
            decreases self.monitors@.len() - i,
        {
            if same_text(self.monitors[i].connector.as_str(), connector) {
                assert(self@.monitors[i as int].connector == connector@);
                return true;
            }
            i += 1;
        }
        false
    }
}

/// The logical monitors of a list, each as plain values.
pub open spec fn logical_monitors_view(monitors: Seq<LogicalMonitor>) -> Seq<LogicalMonitorView> {
    monitors.map_values(|m: LogicalMonitor| m@)
}

} // verus!
