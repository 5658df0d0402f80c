//! A safe interface to Wacom STU signature tablets.
//!
//! The library holds the rules of the interface: how native status codes
//! become errors, which operations a connected device admits, which native
//! call each operation issues, and how reports reach the consumer. It makes
//! no native call itself: an operation names the call to issue as a [`Call`],
//! and what a call handed back comes in as plain values.
use vstd::prelude::*;
use std::collections::HashSet;

/// Handling of errors from the Wacom STU interface.
pub mod error;
/// The native interface as plain values.
pub mod native;
/// Code dealing with the handling of reports from the device.
pub mod report;
/// The choices behind the windows of an application.
pub mod window;

pub use error::{
    append_decimal, c_string_bytes, ClientError, Error, Exception, ExceptionReport, InternalError,
    InternalErrorCode,
};
pub use native::{Call, InkingMode, NativeCapability, ReportIds, Status, StatusCodes, UsbDevice};
pub use report::{Delivery, Event, Pace, PenData, Queue, TryRecvError};

verus! {

broadcast use vstd::std_specs::hash::group_hash_axioms;

/// The reports that a table of report lengths marks as supported: those
/// whose entry is not zero.
pub open spec fn supported_in(report_list: Seq<u16>) -> Set<u32> {
    Set::new(|id: u32| (id as int) < report_list.len() && report_list[id as int] != 0)
}

/// The interface to a Wacom STU tablet.
#[derive(Debug)]
pub struct Tablet {
    /// The identifiers that the operations are keyed to.
    ids: ReportIds,
    /// The list of reports types supported by this tablet.
    supported_reports: HashSet<u32>,
}

impl Tablet {
    /// The reports that this tablet supports. It is set when the tablet is
    /// created and no operation changes it.
    pub closed spec fn supported(&self) -> Set<u32> {
        self.supported_reports@
    }

    /// The identifiers that the operations of this tablet are keyed to.
    pub closed spec fn ids(&self) -> ReportIds {
        self.ids
    }

    /// What `check_support` returns for a report on a tablet that supports
    /// the reports in `supported`.
    pub open spec fn support(supported: Set<u32>, report_id: u32) -> Result<(), Error> {
        if supported.contains(report_id) {
            Ok(())
        } else {
            Err(Error::ClientError(ClientError::UnsupportedReportId { report_id }))
        }
    }

    /// What an operation keyed to `report_id` returns when its call is
    /// `call`: the call where the report is supported, and the error of
    /// `check_support` where it is not.
    pub open spec fn gated(supported: Set<u32>, report_id: u32, call: Call) -> Result<
        Call,
        Error,
    > {
        match Self::support(supported, report_id) {
            Ok(()) => Ok(call),
            Err(error) => Err(error),
        }
    }

    /// Create a new Tablet instance from what the query for the table of
    /// report lengths handed back on a fresh interface.
    ///
    /// The connection stands whether or not the device answers the query.
    /// Where it does not, the tablet supports no report. A status that
    /// indicates a misbehavior in this crate must not be handed in.
    pub fn wrap(codes: &StatusCodes, ids: ReportIds, status: i32, report_list: &Vec<u16>) -> (result:
        Result<Tablet, Error>)
        requires
            InternalErrorCode::translation(*codes, status) matches Some(outcome) && (
            outcome matches Err(code) ==> !code.is_misuse()),
        ensures
            result matches Ok(tablet) && tablet.ids() == ids && tablet.supported() == (
            if status == codes.success {
                supported_in(report_list@)
            } else {
                Set::<u32>::empty()
            }),
    {
        proof {
            codes.decode_is_sound(status);
        }
        let report_list = match InternalErrorCode::from_wacom_stu(codes, status) {
            Ok(()) => Some(report_list),
            Err(_) => None,
        };
        let capacity = match report_list {
            Some(list) => list.len(),
            None => 0,
        };
        let mut supported: HashSet<u32> = HashSet::with_capacity(capacity);
        if let Some(report_list) = report_list {
            let mut i: usize = 0;
            while i < report_list.len() && i <= u32::MAX as usize
                invariant
                    i <= report_list.len(),
                    supported@ == Set::new(
                        |id: u32| (id as int) < i && report_list@[id as int] != 0,
                    ),
                decreases report_list.len() - i,
            {
                if report_list[i] != 0 {
                    /* Mark this report type as being supported. */
                    supported.insert(i as u32);
                }
                i += 1;
                assert(supported@ =~= Set::new(
                    |id: u32| (id as int) < i && report_list@[id as int] != 0,
                ));
            }
            assert(supported@ =~= supported_in(report_list@));
        }
        Ok(Self { ids, supported_reports: supported })
    }

    /// Checks whether a given Report ID is supported by this device.
    ///
    /// An operation keyed to a report issues its call only after this check
    /// has passed.
    pub fn check_support(&self, report_id: u32) -> (result: Result<(), Error>)
        ensures
            result == Self::support(self.supported(), report_id),
            result is Ok <==> self.supported().contains(report_id),
    {
        if self.supported_reports.contains(&report_id) {
            Ok(())
        } else {
            Err(Error::ClientError(ClientError::UnsupportedReportId { report_id }))
        }
    }

    /// Clear the screen of the device.
    ///
    /// Returns the one call to issue, or the error of `check_support` and
    /// no call.
    pub fn clear(&self) -> (result: Result<Call, Error>)
        ensures
            result == Self::gated(self.supported(), self.ids().clear_screen, Call::SetClearScreen),
    {
        match self.check_support(self.ids.clear_screen) {
            Ok(()) => Ok(Call::SetClearScreen),
            Err(error) => Err(error),
        }
    }

    /// Changes whether inking on the display is enabled or not.
    ///
    /// Returns the one call to issue, or the error of `check_support` and
    /// no call.
    pub fn inking(&self, enabled: bool) -> (result: Result<Call, Error>)
        ensures
            result == Self::gated(
                self.supported(),
                self.ids().inking_mode,
                Call::SetInkingMode(
                    if enabled {
                        InkingMode::On
                    } else {
                        InkingMode::Off
                    },
                ),
            ),
    {
        match self.check_support(self.ids.inking_mode) {
            Ok(()) => {
                let mode = if enabled {
                    InkingMode::On
                } else {
                    InkingMode::Off
                };
                Ok(Call::SetInkingMode(mode))
            },
            Err(error) => Err(error),
        }
    }

    /// Get information on the layout and the capabilities of the device.
    ///
    /// Returns the one call to issue, or the error of `check_support` and
    /// no call. What the call hands back becomes a [`Capability`] through
    /// [`Capability::from_native`].
    pub fn capability(&self) -> (result: Result<Call, Error>)
        ensures
            result == Self::gated(self.supported(), self.ids().capability, Call::GetCapability),
    {
        match self.check_support(self.ids.capability) {
            Ok(()) => Ok(Call::GetCapability),
            Err(error) => Err(error),
        }
    }

    /// Opens a queue with which to receive events from the tablet.
    ///
    /// Opening starts by reading the capabilities of the device anew, as
    /// `capability` does: this returns the one call to issue for that, or the
    /// error of `check_support` and no call. With the capabilities that come
    /// back, [`Queue::new`] makes the queue.
    pub fn queue(&self) -> (result: Result<Call, Error>)
        ensures
            result == Self::gated(self.supported(), self.ids().capability, Call::GetCapability),
    {
        self.capability()
    }
}

/// The calls that release the connection of a tablet once its last owner is
/// gone, in the order in which they are to be issued: disconnect, then free.
/// Both are issued, whatever the first one returns, and a failure of either
/// is passed over.
pub fn teardown() -> (calls: (Call, Call))
    ensures
        calls == (Call::Disconnect, Call::Free),
{
    (Call::Disconnect, Call::Free)
}

/// An operation keyed to a report that the tablet does not support is
/// refused with the error of `check_support`, and issues no call.
pub proof fn refused_operation_issues_no_call(supported: Set<u32>, report_id: u32, call: Call)
    requires
        !supported.contains(report_id),
    ensures
        Tablet::support(supported, report_id) is Err,
        Tablet::gated(supported, report_id, call) == Err::<Call, Error>(
            Error::ClientError(ClientError::UnsupportedReportId { report_id }),
        ),
{
}

/// An operation keyed to a report that the tablet supports passes
/// `check_support` and issues its one call.
pub proof fn supported_operation_issues_its_call(supported: Set<u32>, report_id: u32, call: Call)
    requires
        supported.contains(report_id),
    ensures
        Tablet::support(supported, report_id) is Ok,
        Tablet::gated(supported, report_id, call) == Ok::<Call, Error>(call),
{
}

/// A report is supported by the tablet made of a table exactly where the
/// table has an entry for it that is not zero.
pub proof fn table_decides_support(report_list: Seq<u16>, report_id: u32)
    ensures
        Tablet::support(supported_in(report_list), report_id) is Ok <==> ((report_id as int)
            < report_list.len() && report_list[report_id as int] != 0),
{
}

/// The set of capabilities reported by the device.
#[derive(Debug, Clone, Copy, PartialEq, Eq, Hash, Structural)]
pub struct Capability {
    /// Width of the display screen, in pixels.
    display_width: u32,
    /// Height of the display screen, in pixels.
    display_height: u32,
    /// The width of the input polling grid.
    input_width: u32,
    /// The height of the input polling grid.
    input_height: u32,
    /// The depth (of pressures) of the input polling grid.
    input_depth: u32,
}

impl Capability {
    pub closed spec fn spec_width(&self) -> u32 {
        self.display_width
    }

    pub closed spec fn spec_height(&self) -> u32 {
        self.display_height
    }

    pub closed spec fn spec_input_grid_width(&self) -> u32 {
        self.input_width
    }

    pub closed spec fn spec_input_grid_height(&self) -> u32 {
        self.input_height
    }

    pub closed spec fn spec_input_grid_pressure(&self) -> u32 {
        self.input_depth
    }

    /// The capabilities that the native query reported, each value as it
    /// came.
    pub fn from_native(native: &NativeCapability) -> (capability: Capability)
        ensures
            capability.spec_width() == native.screen_width,
            capability.spec_height() == native.screen_height,
            capability.spec_input_grid_width() == native.tablet_max_x,
            capability.spec_input_grid_height() == native.tablet_max_y,
            capability.spec_input_grid_pressure() == native.tablet_max_pressure,
    {
        Capability {
            display_width: native.screen_width as u32,
            display_height: native.screen_height as u32,
            input_width: native.tablet_max_x as u32,
            input_height: native.tablet_max_y as u32,
            input_depth: native.tablet_max_pressure as u32,
        }
    }

    /// Width of the display screen, in pixels.
    #[verifier::when_used_as_spec(spec_width)]
    pub fn width(&self) -> (width: u32)
        ensures
            width == self.spec_width(),
    {
        self.display_width
    }

    /// Height of the display screen, in pixels.
    #[verifier::when_used_as_spec(spec_height)]
    pub fn height(&self) -> (height: u32)
        ensures
            height == self.spec_height(),
    {
        self.display_height
    }

    /// The width of the input grid.
    ///
    /// The input grid is the grid whose cells are the smallest possible for
    /// detecting and tracking the position of the stylus. This is the maximum
    /// value the position of the pen will assume.
    #[verifier::when_used_as_spec(spec_input_grid_width)]
    pub fn input_grid_width(&self) -> (width: u32)
        ensures
            width == self.spec_input_grid_width(),
    {
        self.input_width
    }

    /// The height of the input grid.
    ///
    /// The input grid is the grid whose cells are the smallest possible for
    /// detecting and tracking the position of the stylus. This is the maximum
    /// value the position of the pen will assume.
    #[verifier::when_used_as_spec(spec_input_grid_height)]
    pub fn input_grid_height(&self) -> (height: u32)
        ensures
            height == self.spec_input_grid_height(),
    {
        self.input_height
    }

    /// The maximum pressure value on the input grid.
    ///
    /// This value can be thought of as a third dimension to the pen input grid,
    /// indicating how many cells deep the input grid is.
    #[verifier::when_used_as_spec(spec_input_grid_pressure)]
    pub fn input_grid_pressure(&self) -> (depth: u32)
        ensures
            depth == self.spec_input_grid_pressure(),
    {
        self.input_depth
    }
}

/// The structure containing information about a device.
#[derive(Debug, Clone, Copy, PartialEq, Eq, Hash, Structural)]
pub struct Information {
    id_vendor: u16,
    id_product: u16,
    bcd_device: u16,
}

impl Information {
    pub closed spec fn spec_vendor(&self) -> u16 {
        self.id_vendor
    }

    pub closed spec fn spec_product(&self) -> u16 {
        self.id_product
    }

    pub closed spec fn spec_device(&self) -> u16 {
        self.bcd_device
    }

    /// The information that describes `device`.
    pub open spec fn describes(&self, device: UsbDevice) -> bool {
        &&& self.spec_vendor() == device.id_vendor
        &&& self.spec_product() == device.id_product
        &&& self.spec_device() == device.bcd_device
    }

    /// Vendor identification number of this device.
    #[verifier::when_used_as_spec(spec_vendor)]
    pub fn vendor(&self) -> (id: u16)
        ensures
            id == self.spec_vendor(),
    {
        self.id_vendor
    }

    /// Product identification number of this device.
    #[verifier::when_used_as_spec(spec_product)]
    pub fn product(&self) -> (id: u16)
        ensures
            id == self.spec_product(),
    {
        self.id_product
    }

    /// The device identification number.
    #[verifier::when_used_as_spec(spec_device)]
    pub fn device(&self) -> (id: u16)
        ensures
            id == self.spec_device(),
    {
        self.bcd_device
    }
}

/// A connector to a tablet device.
///
/// This structure has no functionality for direct communication with a tablet,
/// and, instead, only serves to initiate a connection to a device attached to
/// the system. This structure also provides a means to identify the device
/// before a connection is established.
#[derive(Debug)]
pub struct Connector {
    /// The device this connector is targeting.
    device: UsbDevice,
    /// The place of the device in the enumeration that found it.
    place: usize,
}

impl Connector {
    /// The device this connector is targeting.
    pub closed spec fn target(&self) -> UsbDevice {
        self.device
    }

    /// The place of the device in the enumeration that found it.
    pub closed spec fn spec_place(&self) -> usize {
        self.place
    }

    /// The place of the device in the enumeration that found it.
    #[verifier::when_used_as_spec(spec_place)]
    pub fn place(&self) -> (place: usize)
        ensures
            place == self.spec_place(),
    {
        self.place
    }

    /// Get the information about the device this connector is targeting.
    pub fn info(&self) -> (info: Information)
        ensures
            info.describes(self.target()),
    {
        Information {
            id_vendor: self.device.id_vendor,
            id_product: self.device.id_product,
            bcd_device: self.device.bcd_device,
        }
    }

    /// Try to connect to the device this connector is targeting.
    ///
    /// Returns the one call to issue: the creation of an interface to the
    /// device, locked for this interface alone. On the fresh interface the
    /// table of report lengths is queried, and [`Tablet::wrap`] makes the
    /// tablet of what comes back.
    pub fn connect(self) -> (call: Call)
        ensures
            call == (Call::CreateInterface { device: self.place(), exclusive_lock: true }),
    {
        Call::CreateInterface { device: self.place, exclusive_lock: true }
    }
}

/// A walk over the [connectors] currently available to the application.
///
/// This structure is obtained from the [`list_devices()`] function in this
/// crate.
///
/// [connectors]: Connector
/// [`list_devices()`]: list_devices
#[derive(Debug)]
pub struct Connectors {
    values: Vec<UsbDevice>,
    index: usize,
}

impl Connectors {
    /// The devices that the enumeration found, in its order.
    pub closed spec fn devices(&self) -> Seq<UsbDevice> {
        self.values@
    }

    /// How many steps this walk has taken.
    pub closed spec fn position(&self) -> nat {
        self.index as nat
    }

    /// The number of connectors that are still to come.
    pub open spec fn remaining(&self) -> nat {
        if self.position() < self.devices().len() {
            (self.devices().len() - self.position()) as nat
        } else {
            0
        }
    }

    /// The number of connectors that are still to come.
    pub fn len(&self) -> (len: usize)
        ensures
            len == self.remaining(),
    {
        if self.index < self.values.len() {
            self.values.len() - self.index
        } else {
            0
        }
    }

    /// The connector to the next device, in the order of the enumeration,
    /// or `None` once every device has had its own.
    pub fn next(&mut self) -> (connector: Option<Connector>)
        ensures
            final(self).devices() == old(self).devices(),
            old(self).remaining() > 0 ==> (connector matches Some(c) && c.target() == old(
                self,
            ).devices()[old(self).position() as int] && c.place() == old(self).position()
                && final(self).position() == old(self).position() + 1),
            old(self).remaining() == 0 ==> connector is None && final(self).remaining() == 0,
    {
        let val = if self.index < self.values.len() {
            Some(Connector { device: self.values[self.index], place: self.index })
        } else {
            None
        };
        self.index = self.index.saturating_add(1);
        val
    }
}

/// List all of the currently available devices.
///
/// `status` and `devices` are what the enumeration of the native interface
/// handed back. An enumeration that failed has no devices to list: its
/// status must not be handed in. No device at all is no failure.
pub fn list_devices(codes: &StatusCodes, status: i32, devices: Vec<UsbDevice>) -> (connectors:
    Connectors)
    requires
        status == codes.success,
    ensures
        connectors.devices() == devices@,
        connectors.position() == 0,
{
    Connectors { values: devices, index: 0 }
}

} // verus!
