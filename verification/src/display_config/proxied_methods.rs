use vstd::prelude::*;

use super::models::logical_monitor::{LogicalMonitor, LogicalMonitorView};
use super::models::physical_monitor::{PhysicalMonitor, PhysicalMonitorView};
use super::monitor_models::monitor::MonitorDescriptionView;
use super::monitor_models::transform::Transform;
use super::{DisplayConfig, DisplayConfigView};
use crate::binary64::Binary64;
use crate::error::Error;

verus! {

/// A monitor and the mode that it is to be driven at.
#[derive(Debug, Clone, Copy, PartialEq, Eq)]
pub struct ApplyMonitor<'a> {
    pub connector: &'a str,
    pub mode_id: &'a str,
}

/// A monitor and its mode as plain values.
pub struct ApplyMonitorView {
    pub connector: Seq<char>,
    pub mode_id: Seq<char>,
}

impl<'a> View for ApplyMonitor<'a> {
    type V = ApplyMonitorView;

    open spec fn view(&self) -> ApplyMonitorView {
        ApplyMonitorView { connector: self.connector@, mode_id: self.mode_id@ }
    }
}

/// The monitors of a list, each as plain values.
pub open spec fn apply_monitors_view(monitors: Seq<ApplyMonitor>) -> Seq<ApplyMonitorView> {
    monitors.map_values(|m: ApplyMonitor| m@)
}

/// The configuration that one logical monitor is to get.
#[derive(Debug, PartialEq, Eq)]
pub struct ApplyConfig<'a> {
    pub transform: Transform,
    pub primary: bool,
    pub monitors: Vec<ApplyMonitor<'a>>,
}

/// The configuration of one logical monitor as plain values.
pub struct ApplyConfigView {
    pub transform: Transform,
    pub primary: bool,
    pub monitors: Seq<ApplyMonitorView>,
}

impl<'a> View for ApplyConfig<'a> {
    type V = ApplyConfigView;

    open spec fn view(&self) -> ApplyConfigView {
        ApplyConfigView {
            transform: self.transform,
            primary: self.primary,
            monitors: apply_monitors_view(self.monitors@),
        }
    }
}

/// The configurations of a list, each as plain values.
pub open spec fn apply_configs_view(configs: Seq<ApplyConfig>) -> Seq<ApplyConfigView> {
    configs.map_values(|c: ApplyConfig| c@)
}

impl ApplyConfigView {
    /// The configuration that leaves a logical monitor as it is: its
    /// transform, its primary flag, and the one physical monitor at the mode
    /// that it is in.
    pub open spec fn keeping(logical: LogicalMonitorView, physical: PhysicalMonitorView) -> Self
        recommends
            physical.has_current_mode(),
    {
        ApplyConfigView {
            transform: logical.transform,
            primary: logical.primary,
            monitors: seq![
                ApplyMonitorView {
                    connector: physical.connector,
                    mode_id: physical.current_mode_id(),
                },
            ],
        }
    }
}

impl<'a> Clone for ApplyConfig<'a> {
    fn clone(&self) -> (copy: Self)
        ensures
            copy@ == self@,
    {
        let mut monitors: Vec<ApplyMonitor<'a>> = Vec::new();
        let mut i: usize = 0;
        while i < self.monitors.len()
            invariant
                i <= self.monitors@.len(),
                monitors@.len() == i,
                forall|k: int| 0 <= k < i ==> #[trigger] monitors@[k] == self.monitors@[k],
            decreases self.monitors@.len() - i,
        {
            monitors.push(self.monitors[i]);
            i += 1;
        }
        assert(monitors@ =~= self.monitors@);
        ApplyConfig { transform: self.transform, primary: self.primary, monitors }
    }
}

impl<'a> ApplyConfig<'a> {
    /// Builds the configuration that leaves `logical_monitor` as it is, with
    /// `physical_monitor` at its current mode. Fails if no mode of the
    /// physical monitor is marked as current.
    pub fn from(logical_monitor: &LogicalMonitor, physical_monitor: &'a PhysicalMonitor) -> (built:
        Result<ApplyConfig<'a>, Error>)
        ensures
            physical_monitor@.has_current_mode() ==> built is Ok && built->Ok_0@
                == ApplyConfigView::keeping(logical_monitor@, physical_monitor@),
            !physical_monitor@.has_current_mode() ==> built == Err::<ApplyConfig<'a>, Error>(
                Error::NoCurrentMode,
            ),
    {
        match physical_monitor.current_mode() {
            Some(mode) => {
                let mut monitors: Vec<ApplyMonitor<'a>> = Vec::new();
                monitors.push(
                    ApplyMonitor {
                        connector: physical_monitor.connector.as_str(),
                        mode_id: mode.id.as_str(),
                    },
                );
                let built = ApplyConfig {
                    transform: logical_monitor.transform,
                    primary: logical_monitor.primary,
                    monitors,
                };
                assert(built@.monitors =~= ApplyConfigView::keeping(
                    logical_monitor@,
                    physical_monitor@,
                ).monitors);
                Ok(built)
            },
            None => Err(Error::NoCurrentMode),
        }
    }
}

/// One logical monitor as it is sent to the display server: x, y, scale,
/// encoded orientation, primary flag, and the monitors that show it, each
/// with the id of its mode.
pub type WireConfig<'a> = (i32, i32, Binary64, u32, bool, Vec<(&'a str, &'a str)>);

/// What is sent of one logical monitor, as plain values.
pub struct WireConfigView {
    pub x: i32,
    pub y: i32,
    pub scale: Binary64,
    pub orientation: u32,
    pub primary: bool,
    pub monitors: Seq<(Seq<char>, Seq<char>)>,
}

/// A monitor and its mode, as plain values.
pub open spec fn wire_monitor_view(monitor: (&str, &str)) -> (Seq<char>, Seq<char>) {
    (monitor.0@, monitor.1@)
}

/// What a tuple sends of one logical monitor.
pub open spec fn wire_config_view(wire: WireConfig) -> WireConfigView {
    WireConfigView {
        x: wire.0,
        y: wire.1,
        scale: wire.2,
        orientation: wire.3,
        primary: wire.4,
        monitors: wire.5@.map_values(|m: (&str, &str)| wire_monitor_view(m)),
    }
}

/// What the tuples of a list send.
pub open spec fn wire_configs_view(wires: Seq<WireConfig>) -> Seq<WireConfigView> {
    wires.map_values(|w: WireConfig| wire_config_view(w))
}

impl ApplyMonitorView {
    /// The pair that is sent for this monitor.
    pub open spec fn serialized(self) -> (Seq<char>, Seq<char>) {
        (self.connector, self.mode_id)
    }
}

impl ApplyConfigView {
    /// What is sent for this configuration: the fields in the order of the
    /// wire, the orientation encoded.
    pub open spec fn serialized(self) -> WireConfigView {
        WireConfigView {
            x: self.transform.displacement.x,
            y: self.transform.displacement.y,
            scale: self.transform.displacement.scale,
            orientation: self.transform.orientation.spec_bits(),
            primary: self.primary,
            monitors: self.monitors.map_values(|m: ApplyMonitorView| m.serialized()),
        }
    }
}

impl<'a> ApplyMonitor<'a> {
    /// The pair that is sent for this monitor: connector and mode id.
    pub fn serialize(&self) -> (wire: (&'a str, &'a str))
        ensures
            wire_monitor_view(wire) == self@.serialized(),
    {
        (self.connector, self.mode_id)
    }
}

impl<'a> ApplyConfig<'a> {
    /// Lays the configuration out as it is sent to the display server.
    pub fn serialize(&self) -> (wire: WireConfig<'a>)
        ensures
            wire_config_view(wire) == self@.serialized(),
    {
        let mut monitors: Vec<(&'a str, &'a str)> = Vec::new();
        let mut i: usize = 0;
        while i < self.monitors.len()
            invariant
                i <= self.monitors@.len(),
                monitors@.len() == i,
                forall|k: int|
                    0 <= k < i ==> wire_monitor_view(#[trigger] monitors@[k])
                        == self.monitors@[k]@.serialized(),
            decreases self.monitors@.len() - i,
        {
            monitors.push(self.monitors[i].serialize());
            i += 1;
        }
        let wire = (
            self.transform.displacement.x,
            self.transform.displacement.y,
            self.transform.displacement.scale,
            self.transform.orientation.bits(),
            self.primary,
            monitors,
        );
        assert(wire_config_view(wire).monitors =~= self@.serialized().monitors);
        wire
    }
}

/// The method code that asks the display server to apply a configuration
/// for now.
pub const METHOD_TEMPORARY: u32 = 1;

/// The method code that asks the display server to apply a configuration
/// and to keep it for the next time that the same hardware is connected.
pub const METHOD_PERSISTENT: u32 = 2;

/// Everything that is sent to the display server to have a configuration
/// applied.
#[derive(Debug, PartialEq, Eq)]
pub struct ApplyRequest<'a> {
    /// The serial of the snapshot that the configuration was made from. The
    /// display server refuses the request if its state has changed since.
    pub serial: u32,
    /// How to apply: `METHOD_TEMPORARY` or `METHOD_PERSISTENT`.
    pub method: u32,
    /// The logical monitors. One that is left out is switched off.
    pub logical_monitors: Vec<WireConfig<'a>>,
}

/// A request as plain values.
pub struct ApplyRequestView {
    pub serial: u32,
    pub method: u32,
    pub logical_monitors: Seq<WireConfigView>,
}

impl<'a> View for ApplyRequest<'a> {
    type V = ApplyRequestView;

    open spec fn view(&self) -> ApplyRequestView {
        ApplyRequestView {
            serial: self.serial,
            method: self.method,
            logical_monitors: wire_configs_view(self.logical_monitors@),
        }
    }
}

impl DisplayConfigView {
    /// The request that has `configs` applied to the state of this snapshot.
    pub open spec fn apply_request(
        self,
        configs: Seq<ApplyConfigView>,
        persistent: bool,
    ) -> ApplyRequestView {
        ApplyRequestView {
            serial: self.serial,
            method: if persistent {
                METHOD_PERSISTENT
            } else {
                METHOD_TEMPORARY
            },
            logical_monitors: configs.map_values(|c: ApplyConfigView| c.serialized()),
        }
    }
}

impl DisplayConfig {
    /// Makes the request that has `configs` applied: it carries the serial of
    /// this snapshot, the method that `persistent` chooses, and the
    /// configurations in their order.
    pub fn apply_monitors_config<'a>(
        &self,
        configs: &Vec<ApplyConfig<'a>>,
        persistent: bool,
    ) -> (request: ApplyRequest<'a>)
        ensures
            request@ == self@.apply_request(apply_configs_view(configs@), persistent),
    {
        let mut logical_monitors: Vec<WireConfig<'a>> = Vec::new();
        let mut i: usize = 0;
        while i < configs.len()
            invariant
                i <= configs@.len(),
                logical_monitors@.len() == i,
                forall|k: int|
                    0 <= k < i ==> wire_config_view(#[trigger] logical_monitors@[k])
                        == configs@[k]@.serialized(),
            decreases configs@.len() - i,
        {
            logical_monitors.push(configs[i].serialize());
            i += 1;
        }
        let request = ApplyRequest {
            serial: self.serial,
            method: if persistent {
                METHOD_PERSISTENT
            } else {
                METHOD_TEMPORARY
            },
            logical_monitors,
        };
        assert(request@.logical_monitors =~= self@.apply_request(
            apply_configs_view(configs@),
            persistent,
        ).logical_monitors);
        request
    }
}

impl LogicalMonitorView {
    /// What is sent to keep this logical monitor with all its monitors at
    /// the mode `mode_id`.
    pub open spec fn to_result(self, mode_id: Seq<char>) -> WireConfigView {
        WireConfigView {
            x: self.transform.displacement.x,
            y: self.transform.displacement.y,
            scale: self.transform.displacement.scale,
            orientation: self.transform.orientation.spec_bits(),
            primary: self.primary,
            monitors: self.monitors.map_values(
                |m: MonitorDescriptionView| (m.connector, mode_id),
            ),
        }
    }
}

impl LogicalMonitor {
    /// Lays the logical monitor out as it is sent to the display server,
    /// with every monitor that shows it at the mode `mode_id`.
    pub fn to_result<'a>(&'a self, mode_id: &'a str) -> (wire: WireConfig<'a>)
        ensures
            wire_config_view(wire) == self@.to_result(mode_id@),
    {
        let mut monitors: Vec<(&'a str, &'a str)> = Vec::new();
        let mut i: usize = 0;
        while i < self.monitors.len()
            invariant
                i <= self.monitors@.len(),
                monitors@.len() == i,
                forall|k: int|
                    0 <= k < i ==> wire_monitor_view(#[trigger] monitors@[k]) == (
                        self.monitors@[k]@.connector,
                        mode_id@,
                    ),
            decreases self.monitors@.len() - i,
        {
            monitors.push((self.monitors[i].connector.as_str(), mode_id));
            i += 1;
        }
        let wire = (
            self.transform.displacement.x,
            self.transform.displacement.y,
            self.transform.displacement.scale,
            self.transform.orientation.bits(),
            self.primary,
            monitors,
        );
        assert(wire_config_view(wire).monitors =~= self@.to_result(mode_id@).monitors);
        wire
    }
}

} // verus!
