use crate::device::{record_of, to_record, Descriptor, DescriptorView, DeviceInfo, DeviceRecord, Field};
use vstd::prelude::*;
use vstd::string::*;

verus! {

/// Why a listing failed as a whole.
#[derive(Debug)]
pub enum EnumerationError {
    /// The host HID subsystem could not be opened; carries its diagnostic text.
    SubsystemUnavailable(String),
    /// The device at `index` of the host's list lacks the required `field`.
    FieldExtractionFailure { index: usize, field: Field },
}

/// The mathematical value of an `EnumerationError`.
pub enum ErrorView {
    SubsystemUnavailable(Seq<char>),
    FieldExtractionFailure { index: usize, field: Field },
}

impl View for EnumerationError {
    type V = ErrorView;

    open spec fn view(&self) -> ErrorView {
        match self {
            EnumerationError::SubsystemUnavailable(m) => ErrorView::SubsystemUnavailable(m@),
            EnumerationError::FieldExtractionFailure { index, field } => {
                ErrorView::FieldExtractionFailure { index: *index, field: *field }
            },
        }
    }
}

/// The text that a caller is shown for an error.
pub open spec fn message_of(e: ErrorView) -> Seq<char> {
    match e {
        ErrorView::SubsystemUnavailable(m) => "HID API error: "@ + m,
        ErrorView::FieldExtractionFailure { field: Field::ProductName, .. } => "HID device has no product name"@,
        ErrorView::FieldExtractionFailure { field: Field::Path, .. } => "HID device path is not valid text"@,
    }
}

impl EnumerationError {
    /// The text that a caller is shown for this error.
    pub fn message(&self) -> (r: String)
        ensures
            r@ == message_of(self@),
    {
        match self {
            EnumerationError::SubsystemUnavailable(m) => {
                String::from_str("HID API error: ").concat(m.as_str())
            },
            EnumerationError::FieldExtractionFailure { field: Field::ProductName, .. } => {
                String::from_str("HID device has no product name")
            },
            EnumerationError::FieldExtractionFailure { field: Field::Path, .. } => {
                String::from_str("HID device path is not valid text")
            },
        }
    }
}

pub open spec fn snapshot_view(ds: Seq<Descriptor>) -> Seq<DescriptorView> {
    ds.map_values(|d: Descriptor| d@)
}

pub open spec fn records_view(v: Seq<DeviceInfo>) -> Seq<DeviceRecord> {
    v.map_values(|x: DeviceInfo| x@)
}

pub open spec fn outcome_view(r: Result<Vec<DeviceInfo>, EnumerationError>) -> Result<
    Seq<DeviceRecord>,
    ErrorView,
> {
    match r {
        Ok(v) => Ok(records_view(v@)),
        Err(e) => Err(e@),
    }
}

pub open spec fn opened_view(o: Result<Vec<Descriptor>, String>) -> Result<
    Seq<DescriptorView>,
    Seq<char>,
> {
    match o {
        Ok(ds) => Ok(snapshot_view(ds@)),
        Err(m) => Err(m@),
    }
}

/// Every descriptor of the snapshot projects to a record.
pub open spec fn all_complete(ds: Seq<DescriptorView>) -> bool {
    forall|i: int| 0 <= i < ds.len() ==> (#[trigger] record_of(ds[i])) is Ok
}

/// The result of projecting a whole snapshot: one record per descriptor, in
/// the host's order, or else the first descriptor that fails and its field.
pub open spec fn records_outcome(ds: Seq<DescriptorView>, r: Result<Seq<DeviceRecord>, ErrorView>) -> bool {
    match r {
        Ok(rs) => rs.len() == ds.len() && forall|i: int|
            0 <= i < ds.len() ==> #[trigger] record_of(ds[i]) == Ok::<DeviceRecord, Field>(rs[i]),
        Err(ErrorView::FieldExtractionFailure { index, field }) => {
            index < ds.len() && record_of(ds[index as int]) == Err::<DeviceRecord, Field>(field)
                && forall|j: int| 0 <= j < index ==> (#[trigger] record_of(ds[j])) is Ok
        },
        Err(ErrorView::SubsystemUnavailable(_)) => false,
    }
}

/// The result of a listing, given what opening the subsystem gave: its
/// diagnostic text, or the snapshot of attached devices.
pub open spec fn listing_outcome(
    opened: Result<Seq<DescriptorView>, Seq<char>>,
    r: Result<Seq<DeviceRecord>, ErrorView>,
) -> bool {
    match opened {
        Err(msg) => r == Err::<Seq<DeviceRecord>, ErrorView>(ErrorView::SubsystemUnavailable(msg)),
        Ok(ds) => records_outcome(ds, r),
    }
}

/// Projects every descriptor of a snapshot; one that lacks a required field
/// fails the whole call.
pub fn records_from(ds: &Vec<Descriptor>) -> (r: Result<Vec<DeviceInfo>, EnumerationError>)
    ensures
        records_outcome(snapshot_view(ds@), outcome_view(r)),
        r is Ok <==> all_complete(snapshot_view(ds@)),
        forall|i: int| 0 <= i < ds@.len() && (#[trigger] ds@[i]).product is None ==> r is Err,
        ds@.len() == 0 ==> (r matches Ok(v) && v@.len() == 0),
{
    let mut out: Vec<DeviceInfo> = Vec::new();
    let mut i: usize = 0;
    while i < ds.len()
        invariant
            i <= ds@.len(),
            out@.len() == i,
            forall|j: int| 0 <= j < i ==> record_of(#[trigger] ds@[j]@) == Ok::<DeviceRecord, Field>(out@[j]@),
        decreases ds@.len() - i,
    {
        match to_record(&ds[i]) {
            Ok(info) => {
                out.push(info);
            },
            Err(field) => {
                let r = Err(EnumerationError::FieldExtractionFailure { index: i, field });
                assert forall|j: int| 0 <= j < i implies (#[trigger] record_of(snapshot_view(ds@)[j])) is Ok by {
                    assert(snapshot_view(ds@)[j] == ds@[j]@);
                }
                assert(snapshot_view(ds@)[i as int] == ds@[i as int]@);
                assert(!all_complete(snapshot_view(ds@)));
                return r;
            },
        }
        i += 1;
    }
    assert forall|j: int| 0 <= j < ds@.len() implies #[trigger] record_of(snapshot_view(ds@)[j])
        == Ok::<DeviceRecord, Field>(records_view(out@)[j]) by {
        assert(snapshot_view(ds@)[j] == ds@[j]@);
    }
    assert forall|j: int| 0 <= j < ds@.len() implies (#[trigger] ds@[j]).product is Some by {
        assert(record_of(ds@[j]@) is Ok);
    }
    Ok(out)
}

/// Lists the devices of a snapshot, or reports that the subsystem could not
/// be opened, carrying its diagnostic text.
pub fn list_devices(opened: Result<Vec<Descriptor>, String>) -> (r: Result<Vec<DeviceInfo>, EnumerationError>)
    ensures
        listing_outcome(opened_view(opened), outcome_view(r)),
{
    match opened {
        Err(msg) => Err(EnumerationError::SubsystemUnavailable(msg)),
        Ok(ds) => records_from(&ds),
    }
}

/// Two listings of one unchanged host state agree: both fail with the same
/// error, or both give the same records, field for field and in the same
/// order.
pub proof fn lemma_same_snapshot_same_outcome(
    opened: Result<Seq<DescriptorView>, Seq<char>>,
    r1: Result<Seq<DeviceRecord>, ErrorView>,
    r2: Result<Seq<DeviceRecord>, ErrorView>,
)
    requires
        listing_outcome(opened, r1),
        listing_outcome(opened, r2),
    ensures
        r1 == r2,
{
    if let Ok(ds) = opened {
        match (r1, r2) {
            (Ok(a), Ok(b)) => {
                assert forall|i: int| 0 <= i < a.len() implies a[i] == b[i] by {
                    assert(record_of(ds[i]) == Ok::<DeviceRecord, Field>(a[i]));
                    assert(record_of(ds[i]) == Ok::<DeviceRecord, Field>(b[i]));
                }
                assert(a =~= b);
            },
            (Ok(a), Err(ErrorView::FieldExtractionFailure { index, field })) => {
                assert(record_of(ds[index as int]) is Ok);
            },
            (Err(ErrorView::FieldExtractionFailure { index, field }), Ok(b)) => {
                assert(record_of(ds[index as int]) is Ok);
            },
            (
                Err(ErrorView::FieldExtractionFailure { index: i1, field: f1 }),
                Err(ErrorView::FieldExtractionFailure { index: i2, field: f2 }),
            ) => {
                if i1 < i2 {
                    assert(record_of(ds[i1 as int]) is Ok);
                } else if i2 < i1 {
                    assert(record_of(ds[i2 as int]) is Ok);
                }
            },
            _ => {},
        }
    }
}

} // verus!
