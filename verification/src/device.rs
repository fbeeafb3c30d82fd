//! Choosing what to bind to on a device, and the bound device itself.

use vstd::prelude::*;
use crate::descriptor::{decode_descriptor, locate, locate_from, window, window_count, FunctionalDescriptor};
use crate::error::TransportError;
use crate::protocol::{
    check_protocol_input, is_dfu_version, is_dfuse_version, parse_protocol,
    protocol_input_in_range, protocol_of, trim_nul, trim_trailing_nul, ProtocolModel,
    ProtocolVariant,
};
use crate::request::{
    control_type_of, explode_request_type, recipient_of, ControlRequest, Direction,
};

verus! {

/// How long a control transfer of the protocol may block, in milliseconds.
pub const TRANSFER_TIMEOUT_MS: u64 = 3000;

/// How long the retrieval of an interface string may block, in milliseconds.
pub const STRING_TIMEOUT_MS: u64 = 1000;

/// The vendor and product id of an attached device.
#[derive(Clone, Copy, Debug, PartialEq, Eq, Structural)]
pub struct DeviceId {
    pub vendor_id: u16,
    pub product_id: u16,
}

/// One alternate setting of an interface, as its descriptor gives it.
#[derive(Clone, Copy, Debug, PartialEq, Eq)]
pub struct AltSetting {
    pub alternate_setting: u8,
    /// The index of the string that describes the setting, where it has one.
    pub string_index: Option<u8>,
}

/// The alternate settings that share one interface number.
#[derive(Clone, Debug, PartialEq, Eq)]
pub struct InterfaceGroup {
    pub interface_number: u8,
    pub alt_settings: Vec<AltSetting>,
}

/// One configuration of a device: its descriptor bytes and the interfaces read from them.
#[derive(Clone, Debug, PartialEq, Eq)]
pub struct Configuration {
    pub descriptors: Vec<u8>,
    pub interfaces: Vec<InterfaceGroup>,
}

/// What binding has settled on before the interface string is fetched.
#[derive(Clone, Copy, Debug, PartialEq, Eq)]
pub struct Target {
    /// The place of the chosen configuration in the device's list.
    pub configuration: usize,
    pub functional_descriptor: FunctionalDescriptor,
    /// The index of the string to fetch for the alternate setting.
    pub string_index: u8,
}

/// A device bound for firmware update: the interface and alternate setting it was bound
/// on, its protocol variant and its functional descriptor.
#[derive(Debug)]
pub struct DfuNusb {
    interface_number: u8,
    alt_setting: u8,
    protocol: ProtocolVariant,
    functional_descriptor: FunctionalDescriptor,
}

/// A bound device as a mathematical value.
pub struct BoundModel {
    pub interface_number: u8,
    pub alt_setting: u8,
    pub protocol: ProtocolModel,
    pub functional_descriptor: FunctionalDescriptor,
}

impl View for DfuNusb {
    type V = BoundModel;

    closed spec fn view(&self) -> BoundModel {
        BoundModel {
            interface_number: self.interface_number,
            alt_setting: self.alt_setting,
            protocol: self.protocol@,
            functional_descriptor: self.functional_descriptor,
        }
    }
}

/// The place of the first device from `from` on with the given ids.
pub open spec fn device_at(devices: Seq<DeviceId>, vid: u16, pid: u16, from: int) -> Option<int>
    decreases devices.len() - from,
{
    if from < 0 || from >= devices.len() {
        None
    } else if devices[from].vendor_id == vid && devices[from].product_id == pid {
        Some(from)
    } else {
        device_at(devices, vid, pid, from + 1)
    }
}

/// The place of the first interface group from `from` on with the given number.
pub open spec fn interface_at(groups: Seq<InterfaceGroup>, number: u8, from: int) -> Option<int>
    decreases groups.len() - from,
{
    if from < 0 || from >= groups.len() {
        None
    } else if groups[from].interface_number == number {
        Some(from)
    } else {
        interface_at(groups, number, from + 1)
    }
}

/// The place of the first alternate setting from `from` on with the given number.
pub open spec fn alt_at(settings: Seq<AltSetting>, alt: u8, from: int) -> Option<int>
    decreases settings.len() - from,
{
    if from < 0 || from >= settings.len() {
        None
    } else if settings[from].alternate_setting == alt {
        Some(from)
    } else {
        alt_at(settings, alt, from + 1)
    }
}

/// What one configuration means for binding.
pub enum Verdict {
    /// It is passed over: it has no functional descriptor, or the alternate setting
    /// asked for has no string.
    Next,
    /// Binding stops with this error.
    Fail(TransportError),
    /// Binding goes on with this descriptor and the string at this index.
    Bind(FunctionalDescriptor, u8),
}

/// What the configuration `config` means for binding to interface `iface` and alternate
/// setting `alt`.
pub open spec fn verdict(config: Configuration, iface: u8, alt: u8) -> Verdict {
    match locate(config.descriptors@) {
        None => Verdict::Next,
        Some(Err(e)) => Verdict::Fail(TransportError::FunctionalDescriptor(e)),
        Some(Ok(fd)) => match interface_at(config.interfaces@, iface, 0) {
            None => Verdict::Fail(TransportError::InvalidInterface),
            Some(g) => match alt_at(config.interfaces@[g].alt_settings@, alt, 0) {
                None => Verdict::Fail(TransportError::InvalidAlt),
                Some(a) => match config.interfaces@[g].alt_settings@[a].string_index {
                    None => Verdict::Next,
                    Some(ix) => Verdict::Bind(fd, ix),
                },
            },
        },
    }
}

/// What the configurations from `from` on settle: the verdict of the first of them
/// that is not passed over, and `NoDfuCapableDeviceFound` where all are.
pub open spec fn select_from(configs: Seq<Configuration>, iface: u8, alt: u8, from: int) -> Result<
    Target,
    TransportError,
>
    decreases configs.len() - from,
{
    if from < 0 || from >= configs.len() {
        Err(TransportError::NoDfuCapableDeviceFound)
    } else {
        match verdict(configs[from], iface, alt) {
            Verdict::Next => select_from(configs, iface, alt, from + 1),
            Verdict::Fail(e) => Err(e),
            Verdict::Bind(fd, ix) => Ok(
                Target { configuration: from as usize, functional_descriptor: fd, string_index: ix },
            ),
        }
    }
}

fn find_interface(groups: &Vec<InterfaceGroup>, number: u8) -> (r: Option<usize>)
    ensures
        match r {
            Some(i) => interface_at(groups@, number, 0) == Some(i as int) && i < groups.len(),
            None => interface_at(groups@, number, 0) is None,
        },
{
    let mut i: usize = 0;
    while i < groups.len()
        invariant
            i <= groups.len(),
            interface_at(groups@, number, 0) == interface_at(groups@, number, i as int),
        decreases groups.len() - i,
    {
        if groups[i].interface_number == number {
            return Some(i);
        }
        i = i + 1;
    }
    None
}

fn find_alt(settings: &Vec<AltSetting>, alt: u8) -> (r: Option<usize>)
    ensures
        match r {
            Some(i) => alt_at(settings@, alt, 0) == Some(i as int) && i < settings.len(),
            None => alt_at(settings@, alt, 0) is None,
        },
{
    let mut i: usize = 0;
    while i < settings.len()
        invariant
            i <= settings.len(),
            alt_at(settings@, alt, 0) == alt_at(settings@, alt, i as int),
        decreases settings.len() - i,
    {
        if settings[i].alternate_setting == alt {
            return Some(i);
        }
        i = i + 1;
    }
    None
}

fn judge(config: &Configuration, iface: u8, alt: u8) -> (r: Verdict)
    ensures
        r == verdict(*config, iface, alt),
{
    match DfuNusb::find_functional_descriptor(config.descriptors.as_slice()) {
        None => Verdict::Next,
        Some(Err(e)) => Verdict::Fail(e),
        Some(Ok(fd)) => match find_interface(&config.interfaces, iface) {
            None => Verdict::Fail(TransportError::InvalidInterface),
            Some(g) => match find_alt(&config.interfaces[g].alt_settings, alt) {
                None => Verdict::Fail(TransportError::InvalidAlt),
                Some(a) => match config.interfaces[g].alt_settings[a].string_index {
                    None => Verdict::Next,
                    Some(ix) => Verdict::Bind(fd, ix),
                },
            },
        },
    }
}

impl DfuNusb {
    /// Picks the device to open: the first in the list with the given vendor and product
    /// id. Fails with `CouldNotOpenDevice` exactly when the list has none.
    pub fn open(devices: &Vec<DeviceId>, vid: u16, pid: u16) -> (r: Result<usize, TransportError>)
        ensures
            match r {
                Ok(i) => device_at(devices@, vid, pid, 0) == Some(i as int) && i < devices.len(),
                Err(e) => device_at(devices@, vid, pid, 0) is None && e
                    == TransportError::CouldNotOpenDevice,
            },
    {
        let mut i: usize = 0;
        while i < devices.len()
            invariant
                i <= devices.len(),
                device_at(devices@, vid, pid, 0) == device_at(devices@, vid, pid, i as int),
            decreases devices.len() - i,
        {
            if devices[i].vendor_id == vid && devices[i].product_id == pid {
                return Ok(i);
            }
            i = i + 1;
        }
        Err(TransportError::CouldNotOpenDevice)
    }

    /// Picks the language in which the interface string is asked for: the first that
    /// the device lists. Fails with `MissingLanguage` exactly when it lists none.
    pub fn string_language(languages: &Vec<u16>) -> (r: Result<u16, TransportError>)
        ensures
            match r {
                Ok(language) => languages@.len() > 0 && language == languages@[0],
                Err(e) => languages@.len() == 0 && e == TransportError::MissingLanguage,
            },
    {
        if languages.len() == 0 {
            Err(TransportError::MissingLanguage)
        } else {
            Ok(languages[0])
        }
    }

    /// Looks for the DFU functional descriptor in the descriptor bytes of one
    /// configuration. The bytes are taken nine at a time; fewer than nine bytes left
    /// at the end are not looked at. The first window that carries the functional
    /// descriptor's type decides, and a window that is refused is an error at once.
    pub fn find_functional_descriptor(descriptors: &[u8]) -> (r: Option<
        Result<FunctionalDescriptor, TransportError>,
    >)
        ensures
            r == match locate(descriptors@) {
                None => None,
                Some(Ok(fd)) => Some(Ok(fd)),
                Some(Err(e)) => Some(Err(TransportError::FunctionalDescriptor(e))),
            },
    {
        let len = descriptors.len();
        let mut start: usize = 0;
        let ghost mut k: int = 0;
        while len - start >= 9
            invariant
                len == descriptors@.len(),
                start == 9 * k,
                0 <= k <= window_count(len as nat),
                start <= len,
                locate(descriptors@) == locate_from(descriptors@, k),
            decreases len - start,
        {
            let w = vstd::slice::slice_subrange(descriptors, start, start + 9);
            assert(w@ == window(descriptors@, k));
            match decode_descriptor(w) {
                Some(Ok(fd)) => {
                    return Some(Ok(fd));
                },
                Some(Err(e)) => {
                    return Some(Err(TransportError::FunctionalDescriptor(e)));
                },
                None => {},
            }
            start = start + 9;
            proof {
                k = k + 1;
            }
        }
        None
    }

    /// Settles what to bind to. The configurations are taken in order. One without a
    /// functional descriptor is passed over, and so is one in which the alternate
    /// setting asked for has no string. The first other one decides: with an error
    /// where its descriptor is malformed (`FunctionalDescriptor`), where it lacks
    /// the interface (`InvalidInterface`) or the alternate setting (`InvalidAlt`),
    /// else with its place, its descriptor and the index of the string to fetch.
    /// Where every configuration is passed over: `NoDfuCapableDeviceFound`.
    pub fn select_target(configs: &Vec<Configuration>, iface_num: u8, alt: u8) -> (r: Result<
        Target,
        TransportError,
    >)
        ensures
            r == select_from(configs@, iface_num, alt, 0),
    {
        let mut i: usize = 0;
        while i < configs.len()
            invariant
                i <= configs.len(),
                select_from(configs@, iface_num, alt, 0) == select_from(
                    configs@,
                    iface_num,
                    alt,
                    i as int,
                ),
            decreases configs.len() - i,
        {
            match judge(&configs[i], iface_num, alt) {
                Verdict::Next => {},
                Verdict::Fail(e) => {
                    return Err(e);
                },
                Verdict::Bind(fd, ix) => {
                    return Ok(
                        Target { configuration: i, functional_descriptor: fd, string_index: ix },
                    );
                },
            }
            i = i + 1;
        }
        Err(TransportError::NoDfuCapableDeviceFound)
    }

    /// Completes binding once the parser has answered: the bound device with the
    /// variant it made, or its refusal as a `Dfu` error.
    pub fn with_protocol(
        target: &Target,
        iface_num: u8,
        alt: u8,
        parsed: Result<ProtocolVariant, dfu_core::Error>,
    ) -> (r: Result<DfuNusb, TransportError>)
        ensures
            match parsed {
                Ok(p) => r is Ok && r->Ok_0@ == (BoundModel {
                    interface_number: iface_num,
                    alt_setting: alt,
                    protocol: p@,
                    functional_descriptor: target.functional_descriptor,
                }),
                Err(e) => r == Err::<DfuNusb, TransportError>(TransportError::Dfu(e)),
            },
    {
        match parsed {
            Ok(protocol) => Ok(
                DfuNusb {
                    interface_number: iface_num,
                    alt_setting: alt,
                    protocol,
                    functional_descriptor: target.functional_descriptor,
                },
            ),
            Err(e) => Err(TransportError::Dfu(e)),
        }
    }

    /// Binds to what `select_target` settled on, given the interface string that was
    /// fetched for it. The string loses its trailing NUL characters; the protocol
    /// variant is made from the rest and from the descriptor's DFU version. The result
    /// is the bound device where the parser names a variant, and a `Dfu` error where
    /// it refuses. Version 1.1 always binds as plain DFU, and a version that is
    /// neither 1.1 nor 1.1a never binds.
    pub fn from_usb_device(target: &Target, iface_num: u8, alt: u8, iface_string: &str) -> (r:
        Result<DfuNusb, TransportError>)
        requires
            protocol_input_in_range(
                trim_nul(iface_string@),
                target.functional_descriptor.dfu_version.0,
                target.functional_descriptor.dfu_version.1,
            ),
        ensures
            match protocol_of(
                trim_nul(iface_string@),
                target.functional_descriptor.dfu_version.0,
                target.functional_descriptor.dfu_version.1,
            ) {
                Some(p) => r is Ok && r->Ok_0@ == (BoundModel {
                    interface_number: iface_num,
                    alt_setting: alt,
                    protocol: p,
                    functional_descriptor: target.functional_descriptor,
                }),
                None => r is Err && r->Err_0 is Dfu,
            },
            is_dfu_version(
                target.functional_descriptor.dfu_version.0,
                target.functional_descriptor.dfu_version.1,
            ) ==> r is Ok && r->Ok_0@.protocol == ProtocolModel::Dfu,
            !is_dfu_version(
                target.functional_descriptor.dfu_version.0,
                target.functional_descriptor.dfu_version.1,
            ) && !is_dfuse_version(
                target.functional_descriptor.dfu_version.0,
                target.functional_descriptor.dfu_version.1,
            ) ==> r is Err,
    {
        let trimmed = trim_trailing_nul(iface_string);
        let version = target.functional_descriptor.dfu_version;
        let parsed = parse_protocol(trimmed, version.0, version.1);
        DfuNusb::with_protocol(target, iface_num, alt, parsed)
    }

    /// As `from_usb_device`, for any interface string: `None` exactly where the string's
    /// memory layout is beyond the machine's limits, and nothing is parsed then.
    pub fn try_from_usb_device(target: &Target, iface_num: u8, alt: u8, iface_string: &str) -> (r:
        Option<Result<DfuNusb, TransportError>>)
        ensures
            r is Some <==> protocol_input_in_range(
                trim_nul(iface_string@),
                target.functional_descriptor.dfu_version.0,
                target.functional_descriptor.dfu_version.1,
            ),
            r is Some ==> match protocol_of(
                trim_nul(iface_string@),
                target.functional_descriptor.dfu_version.0,
                target.functional_descriptor.dfu_version.1,
            ) {
                Some(p) => r->Some_0 is Ok && r->Some_0->Ok_0@ == (BoundModel {
                    interface_number: iface_num,
                    alt_setting: alt,
                    protocol: p,
                    functional_descriptor: target.functional_descriptor,
                }),
                None => r->Some_0 is Err && r->Some_0->Err_0 is Dfu,
            },
            is_dfu_version(
                target.functional_descriptor.dfu_version.0,
                target.functional_descriptor.dfu_version.1,
            ) ==> (r matches Some(Ok(bound)) && bound@.protocol == ProtocolModel::Dfu),
            !is_dfu_version(
                target.functional_descriptor.dfu_version.0,
                target.functional_descriptor.dfu_version.1,
            ) && !is_dfuse_version(
                target.functional_descriptor.dfu_version.0,
                target.functional_descriptor.dfu_version.1,
            ) ==> (r matches Some(Err(_))),
    {
        let trimmed = trim_trailing_nul(iface_string);
        if check_protocol_input(trimmed, target.functional_descriptor.dfu_version) {
            Some(DfuNusb::from_usb_device(target, iface_num, alt, iface_string))
        } else {
            None
        }
    }

    /// The control read that the device is to be sent for this request: the control
    /// type and recipient come from the request-type byte, the index is the
    /// interface bound to, whatever the byte says.
    pub fn read_control(&self, request_type: u8, request: u8, value: u16) -> (r: ControlRequest)
        ensures
            r == (ControlRequest {
                direction: Direction::In,
                control_type: control_type_of(request_type),
                recipient: recipient_of(request_type),
                request,
                value,
                index: self@.interface_number as u16,
                timeout_ms: TRANSFER_TIMEOUT_MS,
            }),
    {
        let (control_type, recipient) = explode_request_type(request_type);
        ControlRequest {
            direction: Direction::In,
            control_type,
            recipient,
            request,
            value,
            index: self.interface_number as u16,
            timeout_ms: TRANSFER_TIMEOUT_MS,
        }
    }

    /// The control write that the device is to be sent for this request; as
    /// `read_control`, in the other direction.
    pub fn write_control(&self, request_type: u8, request: u8, value: u16) -> (r: ControlRequest)
        ensures
            r == (ControlRequest {
                direction: Direction::Out,
                control_type: control_type_of(request_type),
                recipient: recipient_of(request_type),
                request,
                value,
                index: self@.interface_number as u16,
                timeout_ms: TRANSFER_TIMEOUT_MS,
            }),
    {
        let (control_type, recipient) = explode_request_type(request_type);
        ControlRequest {
            direction: Direction::Out,
            control_type,
            recipient,
            request,
            value,
            index: self.interface_number as u16,
            timeout_ms: TRANSFER_TIMEOUT_MS,
        }
    }

    /// The protocol variant settled at binding.
    pub fn protocol(&self) -> (r: &ProtocolVariant)
        ensures
            r@ == self@.protocol,
    {
        &self.protocol
    }

    /// The functional descriptor found at binding.
    pub fn functional_descriptor(&self) -> (r: &FunctionalDescriptor)
        ensures
            *r == self@.functional_descriptor,
    {
        &self.functional_descriptor
    }

    /// The number of the interface bound to.
    pub fn interface_number(&self) -> (r: u8)
        ensures
            r == self@.interface_number,
    {
        self.interface_number
    }

    /// The alternate setting bound to.
    pub fn alt_setting(&self) -> (r: u8)
        ensures
            r == self@.alt_setting,
    {
        self.alt_setting
    }
}

/// No interface group has the number exactly when the search finds none.
pub proof fn interface_at_none(groups: Seq<InterfaceGroup>, number: u8, from: int)
    requires
        0 <= from <= groups.len(),
    ensures
        interface_at(groups, number, from) is None <==> (forall|g: int|
            from <= g < groups.len() ==> (#[trigger] groups[g]).interface_number != number),
    decreases groups.len() - from,
{
    if from < groups.len() {
        interface_at_none(groups, number, from + 1);
    }
}

/// No alternate setting has the number exactly when the search finds none.
pub proof fn alt_at_none(settings: Seq<AltSetting>, alt: u8, from: int)
    requires
        0 <= from <= settings.len(),
    ensures
        alt_at(settings, alt, from) is None <==> (forall|a: int|
            from <= a < settings.len() ==> (#[trigger] settings[a]).alternate_setting != alt),
    decreases settings.len() - from,
{
    if from < settings.len() {
        alt_at_none(settings, alt, from + 1);
    }
}

/// Configurations that are passed over change nothing: where each of the
/// configurations `from` to `k - 1` is passed over, selection from `from` settles what
/// selection from `k` settles.
pub proof fn selection_passes_over(
    configs: Seq<Configuration>,
    iface: u8,
    alt: u8,
    from: int,
    k: int,
)
    requires
        0 <= from <= k <= configs.len(),
        forall|j: int| from <= j < k ==> verdict(#[trigger] configs[j], iface, alt) is Next,
    ensures
        select_from(configs, iface, alt, from) == select_from(configs, iface, alt, k),
    decreases k - from,
{
    if from < k {
        assert(verdict(configs[from], iface, alt) is Next);
        selection_passes_over(configs, iface, alt, from + 1, k);
    }
}

/// What selection settles on is the first configuration that is not passed over: a
/// target names a configuration of the list whose verdict is to bind with the target's
/// descriptor and string, every configuration before it being passed over; and where
/// every configuration is passed over, selection fails with `NoDfuCapableDeviceFound`.
pub proof fn selection_is_first_decisive(
    configs: Seq<Configuration>,
    iface: u8,
    alt: u8,
    from: int,
)
    requires
        0 <= from <= configs.len() <= usize::MAX,
    ensures
        select_from(configs, iface, alt, from) matches Ok(t) ==> {
            &&& from <= t.configuration < configs.len()
            &&& verdict(configs[t.configuration as int], iface, alt) == Verdict::Bind(
                t.functional_descriptor,
                t.string_index,
            )
            &&& forall|j: int|
                from <= j < t.configuration ==> verdict(#[trigger] configs[j], iface, alt) is Next
        },
        select_from(configs, iface, alt, from) matches Err(e) ==> {
            ||| e == TransportError::NoDfuCapableDeviceFound && forall|j: int|
                from <= j < configs.len() ==> verdict(#[trigger] configs[j], iface, alt) is Next
            ||| exists|k: int|
                from <= k < configs.len() && verdict(#[trigger] configs[k], iface, alt)
                    == Verdict::Fail(e) && forall|j: int|
                    from <= j < k ==> verdict(#[trigger] configs[j], iface, alt) is Next
        },
    decreases configs.len() - from,
{
    if from < configs.len() {
        selection_is_first_decisive(configs, iface, alt, from + 1);
    }
}

/// The first configuration with a functional descriptor and a string for the alternate
/// setting is the one bound to, with its own descriptor, however many configurations
/// before it were passed over.
pub proof fn selection_binds_first_usable(
    configs: Seq<Configuration>,
    iface: u8,
    alt: u8,
    k: int,
    fd: FunctionalDescriptor,
    string_index: u8,
)
    requires
        0 <= k < configs.len(),
        forall|j: int| 0 <= j < k ==> verdict(#[trigger] configs[j], iface, alt) is Next,
        verdict(configs[k], iface, alt) == Verdict::Bind(fd, string_index),
    ensures
        select_from(configs, iface, alt, 0) == Ok::<Target, TransportError>(
            Target { configuration: k as usize, functional_descriptor: fd, string_index },
        ),
{
    selection_passes_over(configs, iface, alt, 0, k);
}

/// Where the first configuration that is not passed over has a functional descriptor
/// and no interface of the number asked for, selection fails with `InvalidInterface`.
pub proof fn selection_fails_without_interface(
    configs: Seq<Configuration>,
    iface: u8,
    alt: u8,
    k: int,
)
    requires
        0 <= k < configs.len(),
        forall|j: int| 0 <= j < k ==> verdict(#[trigger] configs[j], iface, alt) is Next,
        locate(configs[k].descriptors@) matches Some(Ok(_)),
        forall|g: int|
            0 <= g < configs[k].interfaces@.len() ==> (
            #[trigger] configs[k].interfaces@[g]).interface_number != iface,
    ensures
        select_from(configs, iface, alt, 0) == Err::<Target, TransportError>(
            TransportError::InvalidInterface,
        ),
{
    selection_passes_over(configs, iface, alt, 0, k);
    interface_at_none(configs[k].interfaces@, iface, 0);
}

/// Where the first configuration that is not passed over has a functional descriptor
/// and the interface, but the interface has no alternate setting of the number asked
/// for, selection fails with `InvalidAlt`.
pub proof fn selection_fails_without_alt(
    configs: Seq<Configuration>,
    iface: u8,
    alt: u8,
    k: int,
    g: int,
)
    requires
        0 <= k < configs.len(),
        forall|j: int| 0 <= j < k ==> verdict(#[trigger] configs[j], iface, alt) is Next,
        locate(configs[k].descriptors@) matches Some(Ok(_)),
        interface_at(configs[k].interfaces@, iface, 0) == Some(g),
        forall|a: int|
            0 <= a < configs[k].interfaces@[g].alt_settings@.len() ==> (
            #[trigger] configs[k].interfaces@[g].alt_settings@[a]).alternate_setting != alt,
    ensures
        select_from(configs, iface, alt, 0) == Err::<Target, TransportError>(
            TransportError::InvalidAlt,
        ),
{
    selection_passes_over(configs, iface, alt, 0, k);
    alt_at_none(configs[k].interfaces@[g].alt_settings@, alt, 0);
}

/// An alternate setting without a string does not end the search: the configuration
/// is passed over and selection goes on with the next one.
pub proof fn setting_without_string_is_passed_over(
    configs: Seq<Configuration>,
    iface: u8,
    alt: u8,
    k: int,
    g: int,
    a: int,
)
    requires
        0 <= k < configs.len(),
        locate(configs[k].descriptors@) matches Some(Ok(_)),
        interface_at(configs[k].interfaces@, iface, 0) == Some(g),
        alt_at(configs[k].interfaces@[g].alt_settings@, alt, 0) == Some(a),
        configs[k].interfaces@[g].alt_settings@[a].string_index is None,
    ensures
        verdict(configs[k], iface, alt) is Next,
        select_from(configs, iface, alt, k) == select_from(configs, iface, alt, k + 1),
{
}

} // verus!
