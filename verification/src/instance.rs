//! Runtime instances.
//!
//! The instance is the root of the ownership hierarchy: it owns one
//! initialized runtime environment, exposes the host allocator, and is the
//! factory for devices.  It must outlive every device and session created
//! from it.  Instance options are finalized by their builder before the
//! instance is created and never mutated afterward.

use vstd::prelude::*;

use crate::allocator::IreeAllocator;
use crate::err::spec_is_status_error;
use crate::err::IreeError;
use crate::hal_device::IreeHalDevice;
use crate::status::IreeStatus;
use crate::status::STATUS_INVALID_ARGUMENT;
use crate::status::STATUS_NOT_FOUND;

verus! {

/// The driver names the runtime links: the synchronous and the task-system
/// local CPU drivers.  Device creation recognizes exactly these.
pub open spec fn spec_registered_driver(name: Seq<char>) -> bool {
    name == "local-sync"@ || name == "local-task"@
}

/// Finalized instance options: whether the instance registers all drivers
/// the runtime was linked with.
#[derive(Clone, Copy, Debug)]
pub struct IreeRuntimeInstanceOptions {
    all_drivers: bool,
}

impl IreeRuntimeInstanceOptions {
    /// Whether every linked driver is registered with the instance.
    pub closed spec fn spec_use_all_drivers(&self) -> bool {
        self.all_drivers
    }
}

/// Builds [`IreeRuntimeInstanceOptions`]: options start at the initialized
/// defaults, are adjusted in place, and are finalized once by
/// [`IreeRuntimeInstanceOptionsBuilder::build`].
#[derive(Clone, Copy, Debug)]
pub struct IreeRuntimeInstanceOptionsBuilder {
    all_drivers: bool,
}

impl Default for IreeRuntimeInstanceOptionsBuilder {
    /// Starts from the initialized defaults: no drivers registered.
    fn default() -> (r: Self)
        ensures
            !r.spec_use_all_drivers(),
    {
        IreeRuntimeInstanceOptionsBuilder { all_drivers: false }
    }
}

impl IreeRuntimeInstanceOptionsBuilder {
    /// Whether the built options will register every linked driver.
    pub closed spec fn spec_use_all_drivers(&self) -> bool {
        self.all_drivers
    }

    /// Registers all drivers the runtime was linked with.
    pub fn use_all_available_drivers(self) -> (r: Self)
        ensures
            r.spec_use_all_drivers(),
    {
        IreeRuntimeInstanceOptionsBuilder { all_drivers: true }
    }

    /// Finalizes the options as an immutable value, consumed only by
    /// instance creation.
    pub fn build(&self) -> (r: IreeRuntimeInstanceOptions)
        ensures
            r.spec_use_all_drivers() == self.spec_use_all_drivers(),
    {
        IreeRuntimeInstanceOptions { all_drivers: self.all_drivers }
    }
}

/// Exclusive owner of one runtime instance.  The instance is neither
/// copyable nor clonable; it is released exactly once, when the handle is
/// dropped, and it must outlive the devices and sessions created from it.
#[derive(Debug)]
pub struct IreeRuntimeInstance {
    all_drivers: bool,
    host_alloc: IreeAllocator,
}

/// A driver is available to an instance when the instance registered all
/// linked drivers and the name is one of them.
pub open spec fn spec_driver_available(
    instance: &IreeRuntimeInstance,
    name: Seq<char>,
) -> bool {
    instance.spec_use_all_drivers() && spec_registered_driver(name)
}

impl IreeRuntimeInstance {
    /// Whether every linked driver was registered at creation.
    pub closed spec fn spec_use_all_drivers(&self) -> bool {
        self.all_drivers
    }

    /// The host allocator the instance was created with.
    pub closed spec fn spec_host_allocator(&self) -> IreeAllocator {
        self.host_alloc
    }

    /// Creates an instance from finalized options, allocating through
    /// `allocator`.  Creation succeeds exactly when the allocator is usable;
    /// a failure is reported as a status-derived error.
    pub fn try_from_options(
        options: &IreeRuntimeInstanceOptions,
        allocator: &IreeAllocator,
    ) -> (r: Result<Self, IreeError>)
        ensures
            r.is_ok() <==> allocator.spec_usable(),
            r matches Ok(instance) ==> instance.spec_use_all_drivers()
                == options.spec_use_all_drivers() && instance.spec_host_allocator() == *allocator
                && instance.spec_host_allocator().spec_usable(),
            r matches Err(e) ==> spec_is_status_error(e, STATUS_INVALID_ARGUMENT),
    {
        if allocator.usable() {
            Ok(IreeRuntimeInstance { all_drivers: options.all_drivers, host_alloc: *allocator })
        } else {
            Err(IreeError::from_status(IreeStatus::from_code(STATUS_INVALID_ARGUMENT), allocator))
        }
    }

    /// The instance's associated host allocator, returned as a value since
    /// an allocator is a non-owning descriptor.
    pub fn host_allocator(&self) -> (r: IreeAllocator)
        ensures
            r == self.spec_host_allocator(),
    {
        self.host_alloc
    }

    /// Creates the default device of the named driver.  The name must be a
    /// driver this instance registered: otherwise the call fails with a
    /// typed not-found error and no device is produced.
    pub fn try_create_default_device(&self, driver_name: &str) -> (r: Result<
        IreeHalDevice,
        IreeError,
    >)
        ensures
            r.is_ok() <==> spec_driver_available(self, driver_name@),
            r matches Ok(device) ==> device.spec_driver() == driver_name@,
            r matches Err(e) ==> spec_is_status_error(e, STATUS_NOT_FOUND),
    {
        let name = String::from_str(driver_name);
        let registered = name == String::from_str("local-sync") || name == String::from_str(
            "local-task",
        );
        if self.all_drivers && registered {
            Ok(IreeHalDevice::from_driver(name))
        } else {
            Err(crate::err::status_error(STATUS_NOT_FOUND))
        }
    }
}

} // verus!
