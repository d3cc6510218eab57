use crate::device::{Descriptor, DescriptorView, DeviceInfo};
use crate::listing::{list_devices, listing_outcome, opened_view, outcome_view, EnumerationError};
use vstd::prelude::*;

verus! {

/// A session with the host HID subsystem; it holds the device list read
/// when it was opened.
#[verifier::external_type_specification]
#[verifier::external_body]
pub struct ExHidApi(hidapi::HidApi);

/// Why the host HID subsystem could not be opened.
#[verifier::external_type_specification]
#[verifier::external_body]
pub struct ExHidError(hidapi::HidError);

/// Relies on hidapi::HidApi::new, which opens a session and reads the list of
/// attached devices. What it returns depends on the host: nothing is promised.
pub assume_specification[ hidapi::HidApi::new ]() -> (r: hidapi::HidResult<hidapi::HidApi>);

/// Relies on hidapi::HidApi::device_list and hidapi::DeviceInfo's accessors
/// (path, vendor_id, product_id, product_string, manufacturer_string): it
/// copies each device the session read into a descriptor, in the session's
/// order. A path that is not valid UTF-8 becomes `None`. What the host
/// reports is not known here: nothing is promised of the contents.
#[verifier::external_body]
fn snapshot(api: &hidapi::HidApi) -> (r: Vec<Descriptor>) {
    api.device_list().map(|d| Descriptor {
        path: d.path().to_str().ok().map(String::from),
        vendor_id: d.vendor_id(),
        product_id: d.product_id(),
        product: d.product_string().map(String::from),
        manufacturer: d.manufacturer_string().map(String::from),
    }).collect()
}

/// Lists the HID devices attached to the host now. The session is opened for
/// this call alone and released when it returns. The result is what
/// `list_devices` gives for what the host reported.
pub fn get_hid_devices() -> (r: Result<Vec<DeviceInfo>, EnumerationError>)
    ensures
        exists|opened: Result<Seq<DescriptorView>, Seq<char>>|
            #[trigger] listing_outcome(opened, outcome_view(r)),
{
    let opened: Result<Vec<Descriptor>, String> = match hidapi::HidApi::new() {
        Ok(api) => Ok(snapshot(&api)),
        Err(e) => Err(e.to_string()),
    };
    let ghost seen = opened_view(opened);
    let r = list_devices(opened);
    assert(listing_outcome(seen, outcome_view(r)));
    r
}

} // verus!
