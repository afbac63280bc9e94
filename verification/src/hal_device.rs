//! Device handles.
//!
//! A device is a compute target selected by driver name.  The handle is the
//! exclusive owner of the underlying device resource: it is neither copyable
//! nor clonable, and it is constructed only through the instance's
//! device-creation factory, so the resource is released exactly once, when
//! the handle is dropped.

use vstd::prelude::*;

verus! {

/// Exclusive owner of one device resource.
#[derive(Debug)]
pub struct IreeHalDevice {
    driver: String,
}

impl IreeHalDevice {
    /// The name of the driver this device was created through.
    pub closed spec fn spec_driver(&self) -> Seq<char> {
        self.driver@
    }

    /// Builds the handle for a device of the given driver.  Crate-internal:
    /// devices reach users only through the instance factory.
    pub(crate) fn from_driver(driver: String) -> (r: Self)
        ensures
            r.spec_driver() == driver@,
    {
        IreeHalDevice { driver }
    }
}

} // verus!
