use vstd::prelude::*;

use crate::display_config::property::{properties_view, Property, PropertyView};

verus! {

/// An output as the display server reports it: id, low-level id, current
/// CRTC, possible CRTCs, name, modes, clones, properties.
pub type RawOutput = (u32, i64, i32, Vec<u32>, String, Vec<u32>, Vec<u32>, Vec<Property>);

/// A screen that is connected to the computer.
#[derive(Debug, PartialEq, Eq)]
pub struct Output {
    /// The id of this output for the display server.
    pub id: u32,
    /// The low-level id of this output.
    pub winsys_id: i64,
    /// The CRTC that drives this output, or -1 while the output is disabled.
    pub current_crtc: i32,
    /// All CRTCs that can drive this output.
    pub possible_crtcs: Vec<u32>,
    /// The name of the connector that the output is attached to.
    pub name: String,
    /// The modes that this output can show.
    pub modes: Vec<u32>,
    /// The outputs that can share a CRTC with this one.
    pub clones: Vec<u32>,
    /// Further properties, such as vendor, product and serial.
    pub properties: Vec<Property>,
}

/// An output as plain values.
pub struct OutputView {
    pub id: u32,
    pub winsys_id: i64,
    pub current_crtc: i32,
    pub possible_crtcs: Seq<u32>,
    pub name: Seq<char>,
    pub modes: Seq<u32>,
    pub clones: Seq<u32>,
    pub properties: Seq<PropertyView>,
}

impl View for Output {
    type V = OutputView;

    open spec fn view(&self) -> OutputView {
        OutputView {
            id: self.id,
            winsys_id: self.winsys_id,
            current_crtc: self.current_crtc,
            possible_crtcs: self.possible_crtcs@,
            name: self.name@,
            modes: self.modes@,
            clones: self.clones@,
            properties: properties_view(self.properties@),
        }
    }
}

impl Output {
    /// The output that a report describes.
    pub open spec fn spec_from(result: RawOutput) -> OutputView {
        OutputView {
            id: result.0,
            winsys_id: result.1,
            current_crtc: result.2,
            possible_crtcs: result.3@,
            name: result.4@,
            modes: result.5@,
            clones: result.6@,
            properties: properties_view(result.7@),
        }
    }

    /// Builds an output from the display server's report.
    pub fn from(result: RawOutput) -> (output: Output)
        ensures
            output@ == Self::spec_from(result),
    {
        Output {
            id: result.0,
            winsys_id: result.1,
            current_crtc: result.2,
            possible_crtcs: result.3,
            name: result.4,
            modes: result.5,
            clones: result.6,
            properties: result.7,
        }
    }
}

/// The outputs of a list, each as plain values.
pub open spec fn outputs_view(outputs: Seq<Output>) -> Seq<OutputView> {
    outputs.map_values(|o: Output| o@)
}

} // verus!
