//! The choices behind the windows of an application that uses a tablet.
//!
//! The windows themselves belong to the application. What is here is what
//! they decide: which devices the user is offered, how each is labelled,
//! and what the answer of the user comes to.
use vstd::prelude::*;
use vstd::string::StringExecFns;
use crate::Information;

verus! {

/// Error type enumerating all of the reasons for which no tablet connector may
/// be available after a call to [`pick_tablet()`].
///
/// [`pick_tablet()`]: pick_tablet
#[derive(Debug, Copy, Clone, Eq, PartialEq, Hash, Structural)]
pub enum NoTabletConnector {
    /// This variant indicates that are no available devices.
    NoDevicesAvailable,
    /// The user has cancelled the operation.
    Cancelled,
}

impl NoTabletConnector {
    /// The words that describe this error.
    pub open spec fn text(&self) -> Seq<char> {
        match self {
            NoTabletConnector::NoDevicesAvailable => "there are no available tablet devices"@,
            NoTabletConnector::Cancelled => "the operation was cancelled"@,
        }
    }

    /// The words that describe this error.
    pub fn description(&self) -> (words: &'static str)
        ensures
            words@ == self.text(),
    {
        match self {
            NoTabletConnector::NoDevicesAvailable => "there are no available tablet devices",
            NoTabletConnector::Cancelled => "the operation was cancelled",
        }
    }
}

/// The error of sending to a management window that has been closed.
#[derive(Debug, Copy, Clone, Eq, PartialEq, Ord, PartialOrd, Hash)]
pub struct ManagementWindowDisconnected;

impl ManagementWindowDisconnected {
    /// The words that describe this error.
    pub open spec fn text(&self) -> Seq<char> {
        "the management window has been closed"@
    }

    /// The words that describe this error.
    pub fn description(&self) -> (words: &'static str)
        ensures
            words@ == self.text(),
    {
        "the management window has been closed"
    }
}

/// The digit that stands for a number below sixteen, in lower case.
pub open spec fn hex_digit_text(digit: nat) -> Seq<char> {
    if digit == 0 {
        "0"@
    } else if digit == 1 {
        "1"@
    } else if digit == 2 {
        "2"@
    } else if digit == 3 {
        "3"@
    } else if digit == 4 {
        "4"@
    } else if digit == 5 {
        "5"@
    } else if digit == 6 {
        "6"@
    } else if digit == 7 {
        "7"@
    } else if digit == 8 {
        "8"@
    } else if digit == 9 {
        "9"@
    } else if digit == 10 {
        "a"@
    } else if digit == 11 {
        "b"@
    } else if digit == 12 {
        "c"@
    } else if digit == 13 {
        "d"@
    } else if digit == 14 {
        "e"@
    } else {
        "f"@
    }
}

/// A sixteen-bit number written in four hexadecimal digits.
pub open spec fn hex4(number: u16) -> Seq<char> {
    hex_digit_text((number / 4096) as nat) + hex_digit_text(((number / 256) % 16) as nat)
        + hex_digit_text(((number / 16) % 16) as nat) + hex_digit_text((number % 16) as nat)
}

/// The label of a device: its vendor and its product, each in four
/// hexadecimal digits, with a colon between them.
pub open spec fn label_text(info: Information) -> Seq<char> {
    hex4(info.spec_vendor()) + ":"@ + hex4(info.spec_product())
}

fn hex_digit_str(digit: u16) -> (text: &'static str)
    requires
        digit < 16,
    ensures
        text@ == hex_digit_text(digit as nat),
{
    if digit == 0 {
        "0"
    } else if digit == 1 {
        "1"
    } else if digit == 2 {
        "2"
    } else if digit == 3 {
        "3"
    } else if digit == 4 {
        "4"
    } else if digit == 5 {
        "5"
    } else if digit == 6 {
        "6"
    } else if digit == 7 {
        "7"
    } else if digit == 8 {
        "8"
    } else if digit == 9 {
        "9"
    } else if digit == 10 {
        "a"
    } else if digit == 11 {
        "b"
    } else if digit == 12 {
        "c"
    } else if digit == 13 {
        "d"
    } else if digit == 14 {
        "e"
    } else {
        "f"
    }
}

fn append_hex4(text: &mut String, number: u16)
    ensures
        final(text)@ == old(text)@ + hex4(number),
{
    text.append(hex_digit_str(number / 4096));
    text.append(hex_digit_str((number / 256) % 16));
    text.append(hex_digit_str((number / 16) % 16));
    text.append(hex_digit_str(number % 16));
    assert(final(text)@ =~= old(text)@ + hex4(number));
}

/// The label under which a device is offered to the user.
pub fn label(info: &Information) -> (text: String)
    ensures
        text@ == label_text(*info),
{
    let mut text = String::new();
    append_hex4(&mut text, info.vendor());
    text.append(":");
    append_hex4(&mut text, info.product());
    assert(text@ =~= label_text(*info));
    text
}

/// The state of the dialog in which the user selects a device.
///
/// The dialog offers at least one device, and one of them is always
/// selected: the first one, until the user selects another.
#[derive(Debug)]
pub struct DeviceSelection {
    /// The list of tablet devices currently on offer.
    devices: Vec<Information>,
    /// The place of the selected device in the list.
    selection: usize,
    /// The device that the user accepted, if any.
    channel: Option<Information>,
}

impl DeviceSelection {
    /// The devices on offer.
    pub closed spec fn devices(&self) -> Seq<Information> {
        self.devices@
    }

    /// The place of the selected device among those on offer.
    pub closed spec fn selected(&self) -> nat {
        self.selection as nat
    }

    /// The device that the user accepted, if any.
    pub closed spec fn accepted(&self) -> Option<Information> {
        self.channel
    }

    /// While nothing is accepted, a device on offer is selected.
    pub open spec fn wf(&self) -> bool {
        self.accepted() is None ==> self.selected() < self.devices().len()
    }

    /// What the dialog comes to when it closes.
    pub open spec fn outcome(&self) -> Result<Information, NoTabletConnector> {
        match self.accepted() {
            Some(info) => Ok(info),
            None => Err(NoTabletConnector::Cancelled),
        }
    }

    /// The devices on offer, in the order in which they are shown.
    pub fn offered(&self) -> (devices: &Vec<Information>)
        ensures
            devices@ == self.devices(),
    {
        &self.devices
    }

    /// Create a new device selection for the given devices, with the first
    /// one selected. There must be at least one.
    pub fn new(devices: Vec<Information>) -> (dialog: Self)
        requires
            devices.len() != 0,
        ensures
            dialog.wf(),
            dialog.devices() == devices@,
            dialog.selected() == 0,
            dialog.accepted() is None,
    {
        Self { devices, selection: 0, channel: None }
    }

    /// The user has selected the device at `place`. A place that holds no
    /// device leaves the selection as it is.
    pub fn select(&mut self, place: usize)
        requires
            old(self).wf(),
        ensures
            final(self).wf(),
            final(self).devices() == old(self).devices(),
            final(self).accepted() == old(self).accepted(),
            final(self).selected() == (if place < old(self).devices().len() {
                place as nat
            } else {
                old(self).selected()
            }),
    {
        if place < self.devices.len() {
            self.selection = place;
        }
    }

    /// A source of acceptance intent has been fired: the selected device is
    /// taken off the offer and becomes the answer. The last device on offer
    /// takes its place. Once a device is accepted, nothing changes any more.
    pub fn on_accept(&mut self)
        requires
            old(self).wf(),
        ensures
            final(self).wf(),
            old(self).accepted() is Some ==> *final(self) == *old(self),
            old(self).accepted() is None ==> {
                &&& final(self).accepted() == Some(old(self).devices()[old(self).selected() as int])
                &&& final(self).devices() == old(self).devices().update(
                    old(self).selected() as int,
                    old(self).devices().last(),
                ).drop_last()
                &&& final(self).selected() == old(self).selected()
            },
    {
        if self.channel.is_none() {
            let picked = self.devices.swap_remove(self.selection);
            self.channel = Some(picked);
        }
    }

    /// What the dialog comes to when it closes: the accepted device, or
    /// `Cancelled` where the user accepted none.
    pub fn answer(self) -> (result: Result<Information, NoTabletConnector>)
        ensures
            result == self.outcome(),
    {
        match self.channel {
            Some(info) => Ok(info),
            None => Err(NoTabletConnector::Cancelled),
        }
    }
}

/// Prompt the user to pick a tablet device to connect to.
///
/// With no device there is nothing to pick, and no dialog. Otherwise the
/// dialog offers the devices in the order given. Its answer, once it closes,
/// is the outcome of the whole.
pub fn pick_tablet(devices: Vec<Information>) -> (result: Result<
    DeviceSelection,
    NoTabletConnector,
>)
    ensures
        devices.len() == 0 ==> result == Err::<DeviceSelection, NoTabletConnector>(
            NoTabletConnector::NoDevicesAvailable,
        ),
        devices.len() != 0 ==> (result matches Ok(dialog) && dialog.wf() && dialog.devices()
            == devices@ && dialog.selected() == 0 && dialog.accepted() is None),
{
    if devices.len() == 0 {
        return Err(NoTabletConnector::NoDevicesAvailable);
    }
    Ok(DeviceSelection::new(devices))
}

} // verus!
