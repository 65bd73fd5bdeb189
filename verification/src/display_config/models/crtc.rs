use vstd::prelude::*;

use crate::display_config::property::{properties_view, Property, PropertyView};

verus! {

/// A CRTC as the display server reports it: id, low-level id, x, y, width,
/// height, current mode, current transform, possible transforms, properties.
pub type RawCrtc = (u32, i64, i32, i32, i32, i32, i32, u32, Vec<u32>, Vec<Property>);

/// A scan-out controller: the hardware that puts one mode on one or more
/// outputs.
#[derive(Debug, PartialEq, Eq)]
pub struct Crtc {
    /// The id of this CRTC for the display server.
    pub id: u32,
    /// The low-level id of this CRTC.
    pub winsys_id: i64,
    /// Horizontal position; of no meaning while the CRTC is not in use.
    pub x: i32,
    /// Vertical position; of no meaning while the CRTC is not in use.
    pub y: i32,
    /// Width; of no meaning while the CRTC is not in use.
    pub width: i32,
    /// Height; of no meaning while the CRTC is not in use.
    pub height: i32,
    /// The current mode, or -1 while the CRTC is not in use.
    pub current_mode: i32,
    /// The current transform.
    pub current_transform: u32,
    /// All possible transforms.
    pub transforms: Vec<u32>,
    /// Further properties.
    pub properties: Vec<Property>,
}

/// A CRTC as plain values.
pub struct CrtcView {
    pub id: u32,
    pub winsys_id: i64,
    pub x: i32,
    pub y: i32,
    pub width: i32,
    pub height: i32,
    pub current_mode: i32,
    pub current_transform: u32,
    pub transforms: Seq<u32>,
    pub properties: Seq<PropertyView>,
}

impl View for Crtc {
    type V = CrtcView;

    open spec fn view(&self) -> CrtcView {
        CrtcView {
            id: self.id,
            winsys_id: self.winsys_id,
            x: self.x,
            y: self.y,
            width: self.width,
            height: self.height,
            current_mode: self.current_mode,
            current_transform: self.current_transform,
            transforms: self.transforms@,
            properties: properties_view(self.properties@),
        }
    }
}

impl Crtc {
    /// The CRTC that a report describes.
    pub open spec fn spec_from(result: RawCrtc) -> CrtcView {
        CrtcView {
            id: result.0,
            winsys_id: result.1,
            x: result.2,
            y: result.3,
            width: result.4,
            height: result.5,
            current_mode: result.6,
            current_transform: result.7,
            transforms: result.8@,
            properties: properties_view(result.9@),
        }
    }

    /// Builds a CRTC from the display server's report.
    pub fn from(result: RawCrtc) -> (crtc: Crtc)
        ensures
            crtc@ == Self::spec_from(result),
    {
        Crtc {
            id: result.0,
            winsys_id: result.1,
            x: result.2,
            y: result.3,
            width: result.4,
            height: result.5,
            current_mode: result.6,
            current_transform: result.7,
            transforms: result.8,
            properties: result.9,
        }
    }
}

/// The CRTCs of a list, each as plain values.
pub open spec fn crtcs_view(crtcs: Seq<Crtc>) -> Seq<CrtcView> {
    crtcs.map_values(|c: Crtc| c@)
}

} // verus!
