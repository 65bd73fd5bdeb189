use vstd::prelude::*;
use vstd::string::StringExecFns;

verus! {

/// What identifies and describes a monitor.
#[derive(Debug, PartialEq, Eq)]
pub struct MonitorDescription {
    /// Name of the connector, such as `DP-1`.
    pub connector: String,
    /// Vendor name.
    pub vendor: String,
    /// Product name.
    pub product: String,
    /// Product serial.
    pub serial: String,
}

/// A monitor description as plain values.
pub struct MonitorDescriptionView {
    pub connector: Seq<char>,
    pub vendor: Seq<char>,
    pub product: Seq<char>,
    pub serial: Seq<char>,
}

impl View for MonitorDescription {
    type V = MonitorDescriptionView;

    open spec fn view(&self) -> MonitorDescriptionView {
        MonitorDescriptionView {
            connector: self.connector@,
            vendor: self.vendor@,
            product: self.product@,
            serial: self.serial@,
        }
    }
}

impl Clone for MonitorDescription {
    fn clone(&self) -> (copy: Self)
        ensures
            copy@ == self@,
    {
        MonitorDescription {
            connector: self.connector.clone(),
            vendor: self.vendor.clone(),
            product: self.product.clone(),
            serial: self.serial.clone(),
        }
    }
}

impl MonitorDescription {
    /// Builds a description from connector, vendor, product and serial, in
    /// that order.
    pub fn from(result: (String, String, String, String)) -> (description: MonitorDescription)
        ensures
            description@ == (MonitorDescriptionView {
                connector: result.0@,
                vendor: result.1@,
                product: result.2@,
                serial: result.3@,
            }),
    {
        MonitorDescription {
            connector: result.0,
            vendor: result.1,
            product: result.2,
            serial: result.3,
        }
    }
}

impl MonitorDescriptionView {
    /// The description on one line: connector, vendor, product and serial
    /// with one space between them.
    pub open spec fn described(self) -> Seq<char> {
        self.connector + " "@ + self.vendor + " "@ + self.product + " "@ + self.serial
    }
}

impl MonitorDescription {
    /// Renders the description on one line.
    pub fn describe(&self) -> (line: String)
        ensures
            line@ == self@.described(),
    {
        let mut line = self.connector.clone();
        line.append(" ");
        line.append(self.vendor.as_str());
        line.append(" ");
        line.append(self.product.as_str());
        line.append(" ");
        line.append(self.serial.as_str());
        line
    }
}

/// The descriptions of a list, each as plain values.
pub open spec fn descriptions_view(descriptions: Seq<MonitorDescription>) -> Seq<
    MonitorDescriptionView,
> {
    descriptions.map_values(|d: MonitorDescription| d@)
}

} // verus!
