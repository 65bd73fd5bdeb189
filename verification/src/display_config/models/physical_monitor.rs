use vstd::prelude::*;

use crate::binary64::Binary64;
use crate::display_config::property::{
    flag_of, keys_view, lookup_flag, properties_view, unlisted, without_keys, Property,
    PropertyView,
};
use crate::seq_find::{
    at_most_one, first_where, lemma_at_most_one, lemma_first_where_is, none_after,
};

verus! {

/// The properties of a mode that the library understands.
#[derive(Debug, Clone, Copy, PartialEq, Eq, Structural)]
pub struct KnownModeProperties {
    /// The mode is the one in use.
    pub is_current: bool,
    /// The mode is the one the monitor prefers.
    pub is_preferred: bool,
}

/// The names of the mode properties that the library understands.
pub open spec fn known_mode_keys() -> Seq<Seq<char>> {
    seq!["is-current"@, "is-preferred"@]
}

impl KnownModeProperties {
    /// The understood properties among `properties`; one that is missing, or
    /// that is neither 0 nor 1, counts as false.
    pub open spec fn spec_from(properties: Seq<PropertyView>) -> KnownModeProperties {
        KnownModeProperties {
            is_current: match flag_of(properties, "is-current"@) {
                Some(flag) => flag,
                None => false,
            },
            is_preferred: match flag_of(properties, "is-preferred"@) {
                Some(flag) => flag,
                None => false,
            },
        }
    }

    /// Reads the understood properties of a mode.
    pub fn from(properties: &Vec<Property>) -> (known: KnownModeProperties)
        ensures
            known == Self::spec_from(properties_view(properties@)),
    {
        let is_current = match lookup_flag(properties, "is-current") {
            Some(flag) => flag,
            None => false,
        };
        let is_preferred = match lookup_flag(properties, "is-preferred") {
            Some(flag) => flag,
            None => false,
        };
        KnownModeProperties { is_current, is_preferred }
    }
}

/// A mode as the display server reports it: id, width, height, refresh rate,
/// preferred scale, supported scales, properties.
pub type RawMode = (String, i32, i32, Binary64, Binary64, Vec<Binary64>, Vec<Property>);

/// A resolution and refresh rate that a monitor can be driven at.
#[derive(Debug, PartialEq, Eq)]
pub struct Mode {
    /// Mode id.
    pub id: String,
    /// Width in physical pixels.
    pub width: i32,
    /// Height in physical pixels.
    pub height: i32,
    /// Refresh rate.
    pub refresh_rate: Binary64,
    /// The scale that suits this mode best.
    pub preferred_scale: Binary64,
    /// The scales that this mode supports.
    pub supported_scales: Vec<Binary64>,
    /// The properties that the library understands.
    pub known_properties: KnownModeProperties,
    /// All other properties.
    pub properties: Vec<Property>,
}

/// A mode as plain values.
pub struct ModeView {
    pub id: Seq<char>,
    pub width: i32,
    pub height: i32,
    pub refresh_rate: Binary64,
    pub preferred_scale: Binary64,
    pub supported_scales: Seq<Binary64>,
    pub known_properties: KnownModeProperties,
    pub properties: Seq<PropertyView>,
}

impl View for Mode {
    type V = ModeView;

    open spec fn view(&self) -> ModeView {
        ModeView {
            id: self.id@,
            width: self.width,
            height: self.height,
            refresh_rate: self.refresh_rate,
            preferred_scale: self.preferred_scale,
            supported_scales: self.supported_scales@,
            known_properties: self.known_properties,
            properties: properties_view(self.properties@),
        }
    }
}

impl Mode {
    /// The mode that a report describes: the understood properties are read
    /// from all properties and then left out of the rest.
    pub open spec fn spec_from(result: RawMode) -> ModeView {
        ModeView {
            id: result.0@,
            width: result.1,
            height: result.2,
            refresh_rate: result.3,
            preferred_scale: result.4,
            supported_scales: result.5@,
            known_properties: KnownModeProperties::spec_from(properties_view(result.6@)),
            properties: properties_view(result.6@).filter(unlisted(known_mode_keys())),
        }
    }

    /// Builds a mode from the display server's report.
    pub fn from(result: RawMode) -> (mode: Mode)
        ensures
            mode@ == Self::spec_from(result),
    {
        let known_properties = KnownModeProperties::from(&result.6);
        let keys = ["is-current", "is-preferred"];
        assert(keys_view(keys@) =~= known_mode_keys());
        Mode {
            id: result.0,
            width: result.1,
            height: result.2,
            refresh_rate: result.3,
            preferred_scale: result.4,
            supported_scales: result.5,
            known_properties,
            properties: without_keys(result.6, &keys),
        }
    }
}

/// The modes of a list, each as plain values.
pub open spec fn modes_view(modes: Seq<Mode>) -> Seq<ModeView> {
    modes.map_values(|m: Mode| m@)
}

/// The condition of being the mode in use.
pub open spec fn in_use() -> spec_fn(ModeView) -> bool {
    |m: ModeView| m.known_properties.is_current
}

/// A physical monitor as the display server reports it: connector, vendor,
/// product and serial; modes; properties.
pub type RawPhysicalMonitor = ((String, String, String, String), Vec<RawMode>, Vec<Property>);

/// A connected physical monitor.
#[derive(Debug, PartialEq, Eq)]
pub struct PhysicalMonitor {
    /// Connector name, such as `HDMI-1`.
    pub connector: String,
    /// Vendor name.
    pub vendor: String,
    /// Product name.
    pub product: String,
    /// Product serial.
    pub serial: String,
    /// Available modes.
    pub modes: Vec<Mode>,
    /// Further properties, such as the physical size or a display name.
    pub properties: Vec<Property>,
}

/// A physical monitor as plain values.
pub struct PhysicalMonitorView {
    pub connector: Seq<char>,
    pub vendor: Seq<char>,
    pub product: Seq<char>,
    pub serial: Seq<char>,
    pub modes: Seq<ModeView>,
    pub properties: Seq<PropertyView>,
}

impl PhysicalMonitorView {
    /// The position of the first mode in use, or the number of modes if none
    /// is in use.
    pub open spec fn current_mode_index(self) -> int {
        first_where(self.modes, in_use())
    }

    /// Whether some mode is in use.
    pub open spec fn has_current_mode(self) -> bool {
        self.current_mode_index() < self.modes.len()
    }

    /// The id of the first mode in use.
    pub open spec fn current_mode_id(self) -> Seq<char>
        recommends
            self.has_current_mode(),
    {
        self.modes[self.current_mode_index()].id
    }
}

impl View for PhysicalMonitor {
    type V = PhysicalMonitorView;

    open spec fn view(&self) -> PhysicalMonitorView {
        PhysicalMonitorView {
            connector: self.connector@,
            vendor: self.vendor@,
            product: self.product@,
            serial: self.serial@,
            modes: modes_view(self.modes@),
            properties: properties_view(self.properties@),
        }
    }
}

impl PhysicalMonitor {
    /// The monitor that a report describes.
    pub open spec fn spec_from(result: RawPhysicalMonitor) -> PhysicalMonitorView {
        PhysicalMonitorView {
            connector: result.0.0@,
            vendor: result.0.1@,
            product: result.0.2@,
            serial: result.0.3@,
            modes: result.1@.map_values(|raw: RawMode| Mode::spec_from(raw)),
            properties: properties_view(result.2@),
        }
    }

    /// Builds a physical monitor from the display server's report.
    pub fn from(result: RawPhysicalMonitor) -> (monitor: PhysicalMonitor)
        ensures
            monitor@ == Self::spec_from(result),
    {
        let ghost raw_modes = result.1@;
        let ghost wanted = raw_modes.map_values(|raw: RawMode| Mode::spec_from(raw));
        let mut modes: Vec<Mode> = Vec::new();
        for raw in it: result.1
            invariant
                it.seq() == raw_modes,
                wanted == raw_modes.map_values(|raw: RawMode| Mode::spec_from(raw)),
                modes@.len() == it.index(),
                forall|k: int| 0 <= k < it.index() ==> (#[trigger] modes@[k])@ == wanted[k],
        {
            modes.push(Mode::from(raw));
        }
        assert(modes_view(modes@) =~= wanted);
        PhysicalMonitor {
            connector: result.0.0,
            vendor: result.0.1,
            product: result.0.2,
            serial: result.0.3,
            modes,
            properties: result.2,
        }
    }

    /// Tells whether at most one mode is in use.
    pub fn has_one_current_mode_at_most(&self) -> (single: bool)
        ensures
            single == at_most_one(self@.modes, in_use()),
    {
        proof {
            lemma_at_most_one(self@.modes, in_use());
        }
        let mut seen = false;
        let mut k: usize = 0;
        while k < self.modes.len()
            invariant
                k <= self.modes@.len(),
                at_most_one(self@.modes, in_use()) <==> none_after(
                    self@.modes,
                    in_use(),
                    first_where(self@.modes, in_use()),
                ),
                !seen ==> forall|j: int| 0 <= j < k ==> !in_use()(#[trigger] self@.modes[j]),
                seen ==> first_where(self@.modes, in_use()) < k && forall|j: int|
                    first_where(self@.modes, in_use()) < j < k ==> !in_use()(
                        #[trigger] self@.modes[j],
                    ),
            decreases self.modes@.len() - k,
        {
            if self.modes[k].known_properties.is_current {
                assert(in_use()(self@.modes[k as int]));
                if seen {
                    return false;
                }
                proof {
                    lemma_first_where_is(self@.modes, in_use(), k as int);
                }
                seen = true;
            }
            k += 1;
        }
        true
    }

    /// The first mode in use, if any mode is.
    pub fn current_mode(&self) -> (mode: Option<&Mode>)
        ensures
            0 <= self@.current_mode_index() <= self.modes@.len(),
            self@.has_current_mode() <==> mode is Some,
            mode matches Some(m) ==> *m == self.modes@[self@.current_mode_index()] && m@
                == self@.modes[self@.current_mode_index()],
    {
        let mut i: usize = 0;
        while i < self.modes.len()
            invariant
                i <= self.modes@.len(),
                forall|k: int| 0 <= k < i ==> !in_use()(#[trigger] self@.modes[k]),
            decreases self.modes@.len() - i,
        {
            if self.modes[i].known_properties.is_current {
                proof {
                    lemma_first_where_is(self@.modes, in_use(), i as int);
                }
                return Some(&self.modes[i]);
            }
            i += 1;
        }
        proof {
            lemma_first_where_is(self@.modes, in_use(), i as int);
        }
        None
    }
}

/// The physical monitors of a list, each as plain values.
pub open spec fn physical_monitors_view(monitors: Seq<PhysicalMonitor>) -> Seq<
    PhysicalMonitorView,
> {
    monitors.map_values(|m: PhysicalMonitor| m@)
}

} // verus!
