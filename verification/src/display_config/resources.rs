use vstd::prelude::*;

use super::models::crtc::{crtcs_view, Crtc, CrtcView, RawCrtc};
use super::models::output::{outputs_view, Output, OutputView, RawOutput};
use crate::binary64::Binary64;
use crate::seq_find::{first_where, lemma_first_where_is};
use crate::text::same_text;

verus! {

/// A mode as the display server reports it among its resources: id,
/// low-level id, width, height, frequency, flags.
pub type RawMode = (u32, i64, u32, u32, Binary64, u32);

/// Resolution and refresh rate, as CRTCs and outputs refer to them.
#[derive(Debug, Clone, Copy, PartialEq, Eq, Structural)]
pub struct Mode {
    /// The id of this mode for the display server.
    pub id: u32,
    /// The low-level id of this mode.
    pub winsys_id: i64,
    /// Width of the resolution.
    pub width: u32,
    /// Height of the resolution.
    pub height: u32,
    /// Refresh rate.
    pub frequency: Binary64,
    /// Mode flags, as the kernel defines them.
    pub flags: u32,
}

impl Mode {
    /// The mode that a report describes.
    pub open spec fn spec_from(result: RawMode) -> Mode {
        Mode {
            id: result.0,
            winsys_id: result.1,
            width: result.2,
            height: result.3,
            frequency: result.4,
            flags: result.5,
        }
    }

    /// Builds a mode from the display server's report.
    pub fn from(result: RawMode) -> (mode: Mode)
        ensures
            mode == Self::spec_from(result),
    {
        Mode {
            id: result.0,
            winsys_id: result.1,
            width: result.2,
            height: result.3,
            frequency: result.4,
            flags: result.5,
        }
    }
}

/// The resources as the display server reports them: serial, CRTCs, outputs,
/// modes, largest screen width, largest screen height.
pub type RawResources = (u32, Vec<RawCrtc>, Vec<RawOutput>, Vec<RawMode>, i32, i32);

/// One snapshot of the hardware that the display server works with.
#[derive(Debug, PartialEq, Eq)]
pub struct Resources {
    /// The token that the display server hands out with each state and wants
    /// back with each change.
    pub serial: u32,
    pub crtcs: Vec<Crtc>,
    pub outputs: Vec<Output>,
    pub modes: Vec<Mode>,
    pub max_screen_width: i32,
    pub max_screen_height: i32,
}

/// The resources as plain values.
pub struct ResourcesView {
    pub serial: u32,
    pub crtcs: Seq<CrtcView>,
    pub outputs: Seq<OutputView>,
    pub modes: Seq<Mode>,
    pub max_screen_width: i32,
    pub max_screen_height: i32,
}

/// The condition of being attached to the connector `name`.
pub open spec fn attached_to(name: Seq<char>) -> spec_fn(OutputView) -> bool {
    |o: OutputView| o.name == name
}

/// The condition of having the id `id`.
pub open spec fn with_id(id: int) -> spec_fn(CrtcView) -> bool {
    |c: CrtcView| c.id == id
}

impl ResourcesView {
    /// The position of the first output attached to `connector`, or the
    /// number of outputs if there is none.
    pub open spec fn output_index(self, connector: Seq<char>) -> int {
        first_where(self.outputs, attached_to(connector))
    }

    /// The position of the CRTC that drives the first output attached to
    /// `connector`: the first CRTC whose id that output names. Nothing if
    /// there is no such output, if the output is disabled (it then names a
    /// negative id), or if no CRTC has the id.
    pub open spec fn crtc_index(self, connector: Seq<char>) -> Option<int> {
        let o = self.output_index(connector);
        if o < self.outputs.len() && self.outputs[o].current_crtc >= 0 {
            let c = first_where(self.crtcs, with_id(self.outputs[o].current_crtc as int));
            if c < self.crtcs.len() {
                Some(c)
            } else {
                None
            }
        } else {
            None
        }
    }
}

impl View for Resources {
    type V = ResourcesView;

    open spec fn view(&self) -> ResourcesView {
        ResourcesView {
            serial: self.serial,
            crtcs: crtcs_view(self.crtcs@),
            outputs: outputs_view(self.outputs@),
            modes: self.modes@,
            max_screen_width: self.max_screen_width,
            max_screen_height: self.max_screen_height,
        }
    }
}

impl Resources {
    /// The resources that a report describes.
    pub open spec fn spec_from(result: RawResources) -> ResourcesView {
        ResourcesView {
            serial: result.0,
            crtcs: result.1@.map_values(|raw: RawCrtc| Crtc::spec_from(raw)),
            outputs: result.2@.map_values(|raw: RawOutput| Output::spec_from(raw)),
            modes: result.3@.map_values(|raw: RawMode| Mode::spec_from(raw)),
            max_screen_width: result.4,
            max_screen_height: result.5,
        }
    }

    /// Builds the resources from the display server's report.
    pub fn from(result: RawResources) -> (resources: Resources)
        ensures
            resources@ == Self::spec_from(result),
    {
        let ghost wanted = Self::spec_from(result);

        let ghost raw_crtcs = result.1@;
        let mut crtcs: Vec<Crtc> = Vec::new();
        for raw in it: result.1
            invariant
                it.seq() == raw_crtcs,
                wanted.crtcs == raw_crtcs.map_values(|raw: RawCrtc| Crtc::spec_from(raw)),
                crtcs@.len() == it.index(),
                forall|k: int| 0 <= k < it.index() ==> (#[trigger] crtcs@[k])@ == wanted.crtcs[k],
        {
            crtcs.push(Crtc::from(raw));
        }
        assert(crtcs_view(crtcs@) =~= wanted.crtcs);

        let ghost raw_outputs = result.2@;
        let mut outputs: Vec<Output> = Vec::new();
        for raw in it: result.2
            invariant
                it.seq() == raw_outputs,
                wanted.outputs == raw_outputs.map_values(|raw: RawOutput| Output::spec_from(raw)),
                outputs@.len() == it.index(),
                forall|k: int|
                    0 <= k < it.index() ==> (#[trigger] outputs@[k])@ == wanted.outputs[k],
        {
            outputs.push(Output::from(raw));
        }
        assert(outputs_view(outputs@) =~= wanted.outputs);

        let ghost raw_modes = result.3@;
        let mut modes: Vec<Mode> = Vec::new();
        for raw in it: result.3
            invariant
                it.seq() == raw_modes,
                wanted.modes == raw_modes.map_values(|raw: RawMode| Mode::spec_from(raw)),
                modes@.len() == it.index(),
                forall|k: int| 0 <= k < it.index() ==> #[trigger] modes@[k] == wanted.modes[k],
        {
            modes.push(Mode::from(raw));
        }
        assert(modes@ =~= wanted.modes);

        Resources {
            serial: result.0,
            crtcs,
            outputs,
            modes,
            max_screen_width: result.4,
            max_screen_height: result.5,
        }
    }

    /// The position of the first output attached to `connector`.
    pub fn output_position(&self, connector: &str) -> (position: Option<usize>)
        ensures
            match position {
                Some(at) => at < self.outputs@.len() && at == self@.output_index(connector@),
                None => self@.output_index(connector@) == self@.outputs.len(),
            },
    {
        let mut o: usize = 0;
        while o < self.outputs.len()
            invariant
                o <= self.outputs@.len(),
                forall|k: int| 0 <= k < o ==> !attached_to(connector@)(#[trigger] self@.outputs[k]),
            decreases self.outputs@.len() - o,
        {
            if same_text(self.outputs[o].name.as_str(), connector) {
                proof {
                    lemma_first_where_is(self@.outputs, attached_to(connector@), o as int);
                }
                return Some(o);
            }
            o += 1;
        }
        proof {
            lemma_first_where_is(self@.outputs, attached_to(connector@), o as int);
        }
        None
    }

    /// The position of the first CRTC with the id `id`.
    pub fn crtc_position(&self, id: u32) -> (position: Option<usize>)
        ensures
            match position {
                Some(at) => at < self.crtcs@.len() && at == first_where(
                    self@.crtcs,
                    with_id(id as int),
                ),
                None => first_where(self@.crtcs, with_id(id as int)) == self@.crtcs.len(),
            },
    {
        let mut c: usize = 0;
        while c < self.crtcs.len()
            invariant
                c <= self.crtcs@.len(),
                forall|k: int| 0 <= k < c ==> !with_id(id as int)(#[trigger] self@.crtcs[k]),
            decreases self.crtcs@.len() - c,
        {
            if self.crtcs[c].id == id {
                proof {
                    lemma_first_where_is(self@.crtcs, with_id(id as int), c as int);
                }
                return Some(c);
            }
            c += 1;
        }
        proof {
            lemma_first_where_is(self@.crtcs, with_id(id as int), c as int);
        }
        None
    }

    /// Finds the CRTC that drives the output attached to `connector`.
    pub fn crtc_of(&self, connector: &str) -> (crtc: Option<&Crtc>)
        ensures
            match self@.crtc_index(connector@) {
                Some(c) => crtc == Some(&self.crtcs@[c]),
                None => crtc is None,
            },
    {
        let o = match self.output_position(connector) {
            Some(o) => o,
            None => {
                return None;
            },
        };
        let wanted = self.outputs[o].current_crtc;
        if wanted < 0 {
            return None;
        }
        match self.crtc_position(wanted as u32) {
            Some(c) => Some(&self.crtcs[c]),
            None => None,
        }
    }
}

} // verus!
