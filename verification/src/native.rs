//! The boundary to the native interface, as plain values.
//!
//! The native interface speaks in integers: a status code for every call, a
//! report identifier for every kind of report. Which integer stands for which
//! name is fixed by the bindings in use, so it comes in as a table.
use vstd::prelude::*;

verus! {

/// The values a native call can return, by name.
#[derive(Debug, Clone, Copy, PartialEq, Eq, Hash, Structural)]
pub enum Status {
    Success,
    Unspecified,
    InvalidHandle,
    InvalidParameter,
    InvalidParameterNullPointer,
    Unsupported,
    Error,
    ErrorSizeof,
    ExceptionUnknown,
    ExceptionStd,
    ExceptionSystemError,
    ExceptionNotConnected,
    ExceptionDeviceRemoved,
    ExceptionWriteNotSupported,
    ExceptionIo,
    ExceptionTimeout,
    ExceptionSet,
    ExceptionReportHandler,
    ExceptionEncryptionHandler,
}

/// The integer that the bindings give to each [`Status`].
#[derive(Debug, Clone, Copy, PartialEq, Eq, Hash, Structural)]
pub struct StatusCodes {
    pub success: i32,
    pub unspecified: i32,
    pub invalid_handle: i32,
    pub invalid_parameter: i32,
    pub invalid_parameter_null_pointer: i32,
    pub unsupported: i32,
    pub error: i32,
    pub error_sizeof: i32,
    pub exception_unknown: i32,
    pub exception_std: i32,
    pub exception_system_error: i32,
    pub exception_not_connected: i32,
    pub exception_device_removed: i32,
    pub exception_write_not_supported: i32,
    pub exception_io: i32,
    pub exception_timeout: i32,
    pub exception_set: i32,
    pub exception_report_handler: i32,
    pub exception_encryption_handler: i32,
}

/// The identifiers of the reports that the operations of a tablet are keyed
/// to, as the bindings give them.
#[derive(Debug, Clone, Copy, PartialEq, Eq, Hash, Structural)]
pub struct ReportIds {
    /// The report that describes the layout of the device.
    pub capability: u32,
    /// The report that erases the display.
    pub clear_screen: u32,
    /// The report that switches inking on the display on and off.
    pub inking_mode: u32,
}

/// Whether the device draws the trace of the pen on its display.
#[derive(Debug, Clone, Copy, PartialEq, Eq, Hash, Structural)]
pub enum InkingMode {
    Off,
    On,
}

/// A call into the native interface.
///
/// An operation that returns a call has decided that the call is to be
/// issued, and issues nothing itself.
#[derive(Debug, Clone, Copy, PartialEq, Eq, Hash, Structural)]
pub enum Call {
    /// Create the interface to a device found by the enumeration.
    CreateInterface {
        /// The place of the device in the enumeration.
        device: usize,
        /// Whether to lock the device for this interface alone.
        exclusive_lock: bool,
    },
    /// Erase the display.
    SetClearScreen,
    /// Switch inking on the display on or off.
    SetInkingMode(InkingMode),
    /// Query the layout and the capabilities of the device.
    GetCapability,
    /// Disconnect the interface from the device.
    Disconnect,
    /// Free the interface.
    Free,
}

/// The description of a device on the bus, as the enumeration gives it.
#[derive(Debug, Clone, Copy, PartialEq, Eq, Hash, Structural)]
pub struct UsbDevice {
    pub id_vendor: u16,
    pub id_product: u16,
    pub bcd_device: u16,
}

/// The layout of a device, as the capability query gives it.
#[derive(Debug, Clone, Copy, PartialEq, Eq, Hash, Structural)]
pub struct NativeCapability {
    pub tablet_max_x: u16,
    pub tablet_max_y: u16,
    pub tablet_max_pressure: u16,
    pub screen_width: u16,
    pub screen_height: u16,
}

impl StatusCodes {
    /// The integer that stands for `status`.
    pub open spec fn code_of(&self, status: Status) -> i32 {
        match status {
            Status::Success => self.success,
            Status::Unspecified => self.unspecified,
            Status::InvalidHandle => self.invalid_handle,
            Status::InvalidParameter => self.invalid_parameter,
            Status::InvalidParameterNullPointer => self.invalid_parameter_null_pointer,
            Status::Unsupported => self.unsupported,
            Status::Error => self.error,
            Status::ErrorSizeof => self.error_sizeof,
            Status::ExceptionUnknown => self.exception_unknown,
            Status::ExceptionStd => self.exception_std,
            Status::ExceptionSystemError => self.exception_system_error,
            Status::ExceptionNotConnected => self.exception_not_connected,
            Status::ExceptionDeviceRemoved => self.exception_device_removed,
            Status::ExceptionWriteNotSupported => self.exception_write_not_supported,
            Status::ExceptionIo => self.exception_io,
            Status::ExceptionTimeout => self.exception_timeout,
            Status::ExceptionSet => self.exception_set,
            Status::ExceptionReportHandler => self.exception_report_handler,
            Status::ExceptionEncryptionHandler => self.exception_encryption_handler,
        }
    }

    /// Whether some [`Status`] has the integer `what`.
    pub open spec fn defines(&self, what: i32) -> bool {
        exists|status: Status| #[trigger] self.code_of(status) == what
    }

    /// The status that `what` stands for: the first one, in the order of
    /// declaration, whose integer it is.
    pub open spec fn decode_spec(&self, what: i32) -> Option<Status> {
        if what == self.success {
            Some(Status::Success)
        } else if what == self.unspecified {
            Some(Status::Unspecified)
        } else if what == self.invalid_handle {
            Some(Status::InvalidHandle)
        } else if what == self.invalid_parameter {
            Some(Status::InvalidParameter)
        } else if what == self.invalid_parameter_null_pointer {
            Some(Status::InvalidParameterNullPointer)
        } else if what == self.unsupported {
            Some(Status::Unsupported)
        } else if what == self.error {
            Some(Status::Error)
        } else if what == self.error_sizeof {
            Some(Status::ErrorSizeof)
        } else if what == self.exception_unknown {
            Some(Status::ExceptionUnknown)
        } else if what == self.exception_std {
            Some(Status::ExceptionStd)
        } else if what == self.exception_system_error {
            Some(Status::ExceptionSystemError)
        } else if what == self.exception_not_connected {
            Some(Status::ExceptionNotConnected)
        } else if what == self.exception_device_removed {
            Some(Status::ExceptionDeviceRemoved)
        } else if what == self.exception_write_not_supported {
            Some(Status::ExceptionWriteNotSupported)
        } else if what == self.exception_io {
            Some(Status::ExceptionIo)
        } else if what == self.exception_timeout {
            Some(Status::ExceptionTimeout)
        } else if what == self.exception_set {
            Some(Status::ExceptionSet)
        } else if what == self.exception_report_handler {
            Some(Status::ExceptionReportHandler)
        } else if what == self.exception_encryption_handler {
            Some(Status::ExceptionEncryptionHandler)
        } else {
            None
        }
    }

    /// Reads a native status code.
    ///
    /// Returns `None` exactly for the integers that no status has.
    #[verifier::when_used_as_spec(decode_spec)]
    pub fn decode(&self, what: i32) -> (status: Option<Status>)
        ensures
            status == self.decode_spec(what),
            status is Some <==> self.defines(what),
            status matches Some(s) ==> self.code_of(s) == what,
    {
        proof {
            self.decode_is_sound(what);
        }
        if what == self.success {
            Some(Status::Success)
        } else if what == self.unspecified {
            Some(Status::Unspecified)
        } else if what == self.invalid_handle {
            Some(Status::InvalidHandle)
        } else if what == self.invalid_parameter {
            Some(Status::InvalidParameter)
        } else if what == self.invalid_parameter_null_pointer {
            Some(Status::InvalidParameterNullPointer)
        } else if what == self.unsupported {
            Some(Status::Unsupported)
        } else if what == self.error {
            Some(Status::Error)
        } else if what == self.error_sizeof {
            Some(Status::ErrorSizeof)
        } else if what == self.exception_unknown {
            Some(Status::ExceptionUnknown)
        } else if what == self.exception_std {
            Some(Status::ExceptionStd)
        } else if what == self.exception_system_error {
            Some(Status::ExceptionSystemError)
        } else if what == self.exception_not_connected {
            Some(Status::ExceptionNotConnected)
        } else if what == self.exception_device_removed {
            Some(Status::ExceptionDeviceRemoved)
        } else if what == self.exception_write_not_supported {
            Some(Status::ExceptionWriteNotSupported)
        } else if what == self.exception_io {
            Some(Status::ExceptionIo)
        } else if what == self.exception_timeout {
            Some(Status::ExceptionTimeout)
        } else if what == self.exception_set {
            Some(Status::ExceptionSet)
        } else if what == self.exception_report_handler {
            Some(Status::ExceptionReportHandler)
        } else if what == self.exception_encryption_handler {
            Some(Status::ExceptionEncryptionHandler)
        } else {
            None
        }
    }

    /// Decoding finds a status for exactly the integers that some status
    /// has, and the status it finds has that integer.
    pub proof fn decode_is_sound(&self, what: i32)
        ensures
            self.decode_spec(what) is Some <==> self.defines(what),
            self.decode_spec(what) matches Some(s) ==> self.code_of(s) == what,
    {
        if let Some(s) = self.decode_spec(what) {
            assert(self.code_of(s) == what);
        }
    }
}

} // verus!
