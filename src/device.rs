use vstd::prelude::*;

verus! {

/// A snapshot of one attached HID device, as handed to the caller.
#[derive(Debug)]
pub struct DeviceInfo {
    pub product_name: String,
    pub path: String,
    pub vendor_id: u16,
    pub product_id: u16,
    pub vendor_name: String,
}

/// The mathematical value of a `DeviceInfo`.
pub struct DeviceRecord {
    pub product_name: Seq<char>,
    pub path: Seq<char>,
    pub vendor_id: u16,
    pub product_id: u16,
    pub vendor_name: Seq<char>,
}

impl View for DeviceInfo {
    type V = DeviceRecord;

    open spec fn view(&self) -> DeviceRecord {
        DeviceRecord {
            product_name: self.product_name@,
            path: self.path@,
            vendor_id: self.vendor_id,
            product_id: self.product_id,
            vendor_name: self.vendor_name@,
        }
    }
}

/// What the host subsystem reports of one device, before projection.
/// A text field is `None` where the host gives none, or where it could not
/// be read as text.
#[derive(Debug)]
pub struct Descriptor {
    pub path: Option<String>,
    pub vendor_id: u16,
    pub product_id: u16,
    pub product: Option<String>,
    pub manufacturer: Option<String>,
}

/// The mathematical value of a `Descriptor`.
pub struct DescriptorView {
    pub path: Option<Seq<char>>,
    pub vendor_id: u16,
    pub product_id: u16,
    pub product: Option<Seq<char>>,
    pub manufacturer: Option<Seq<char>>,
}

pub open spec fn text_view(t: Option<String>) -> Option<Seq<char>> {
    match t {
        Some(s) => Some(s@),
        None => None,
    }
}

impl View for Descriptor {
    type V = DescriptorView;

    open spec fn view(&self) -> DescriptorView {
        DescriptorView {
            path: text_view(self.path),
            vendor_id: self.vendor_id,
            product_id: self.product_id,
            product: text_view(self.product),
            manufacturer: text_view(self.manufacturer),
        }
    }
}

/// A required text field of a descriptor.
#[derive(PartialEq, Eq, Structural, Clone, Copy, Debug)]
pub enum Field {
    ProductName,
    Path,
}

/// The record that a descriptor projects to, or the first required field
/// (product name, then path) that it lacks. A missing manufacturer is no
/// failure: the vendor name is then empty.
pub open spec fn record_of(d: DescriptorView) -> Result<DeviceRecord, Field> {
    match d.product {
        None => Err(Field::ProductName),
        Some(product_name) => match d.path {
            None => Err(Field::Path),
            Some(path) => Ok(
                DeviceRecord {
                    product_name,
                    path,
                    vendor_id: d.vendor_id,
                    product_id: d.product_id,
                    vendor_name: match d.manufacturer {
                        Some(m) => m,
                        None => Seq::empty(),
                    },
                },
            ),
        },
    }
}

fn copy_text(t: &String) -> (r: String)
    ensures
        r@ == t@,
{
    t.clone()
}

/// Projects one descriptor into a record.
pub fn to_record(d: &Descriptor) -> (r: Result<DeviceInfo, Field>)
    ensures
        match r {
            Ok(info) => record_of(d@) == Ok::<DeviceRecord, Field>(info@),
            Err(f) => record_of(d@) == Err::<DeviceRecord, Field>(f),
        },
        d.manufacturer.is_none() && d.product.is_some() && d.path.is_some() ==> (r matches Ok(
            info,
        ) && info.vendor_name@ == Seq::<char>::empty()),
{
    let product_name = match &d.product {
        Some(p) => copy_text(p),
        None => {
            return Err(Field::ProductName);
        },
    };
    let path = match &d.path {
        Some(p) => copy_text(p),
        None => {
            return Err(Field::Path);
        },
    };
    let vendor_name = match &d.manufacturer {
        Some(m) => copy_text(m),
        None => String::new(),
    };
    Ok(DeviceInfo { product_name, path, vendor_id: d.vendor_id, product_id: d.product_id, vendor_name })
}

} // verus!
