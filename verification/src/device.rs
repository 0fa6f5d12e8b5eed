//! Validated device identifiers.
//!
//! A request that targets a single device carries a numeric identifier in
//! its `DeviceId` query parameter. The protocol only admits identifiers
//! from 0 to 99 inclusive; this module is the single sanitization boundary
//! through which every raw identifier must pass.

use vstd::prelude::*;

verus! {

/// Largest raw value a device identifier may take.
pub const DEVICE_ID_MAX: u8 = 99;

/// A validated device identifier: a raw value from 0 to 99 inclusive.
///
/// Values of this type can only be obtained through [`DeviceId::try_from`],
/// so holding one is proof that the identifier is well-formed.
#[derive(Debug, Clone, Copy, PartialEq, Eq, Structural)]
pub struct DeviceId {
    raw: u8,
}

/// The rejection carrying the out-of-range raw value that was offered.
#[derive(Debug, Clone, Copy, PartialEq, Eq, Structural)]
pub struct InvalidDeviceId(pub u8);

impl DeviceId {
    /// The raw value this identifier stands for.
    pub closed spec fn spec_raw(self) -> u8 {
        self.raw
    }

    /// A device identifier is well-formed when its raw value is at most 99.
    pub open spec fn wf(self) -> bool {
        self.spec_raw() <= DEVICE_ID_MAX
    }

    /// Validates a raw identifier: accepts 0 to 99 inclusive and rejects
    /// every larger value with the rejected value itself.
    pub fn try_from(raw: u8) -> (r: Result<DeviceId, InvalidDeviceId>)
        ensures
            raw <= DEVICE_ID_MAX ==> (r matches Ok(d) && d.spec_raw() == raw),
            raw > DEVICE_ID_MAX ==> r == Err::<DeviceId, InvalidDeviceId>(InvalidDeviceId(raw)),
    {
        if raw <= DEVICE_ID_MAX {
            Ok(DeviceId { raw })
        } else {
            Err(InvalidDeviceId(raw))
        }
    }

    /// The raw numeric form, for embedding in a request parameter.
    pub fn raw(&self) -> (r: u8)
        ensures
            r == self.spec_raw(),
    {
        self.raw
    }
}

/// Every raw value from 0 to 99 is accepted and round-trips unchanged;
/// every raw value of 100 or more is rejected with exactly that value.
pub proof fn lemma_device_id_round_trip(raw: u8)
    ensures
        raw <= DEVICE_ID_MAX ==> exists|d: DeviceId|
            #[trigger] d.wf() && d.spec_raw() == raw,
        raw > DEVICE_ID_MAX ==> !exists|d: DeviceId| #[trigger] d.wf() && d.spec_raw() == raw,
{
    if raw <= DEVICE_ID_MAX {
        let d = DeviceId { raw };
        assert(d.wf() && d.spec_raw() == raw);
    }
}

} // verus!
