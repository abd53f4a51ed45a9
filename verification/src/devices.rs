//! Network devices: the inventory list and the request that adds a device.

use vstd::prelude::*;
use crate::dnac::DNAC;
use crate::dnac::DNACValue;
use crate::envelope::FromJson;
use crate::envelope::Response;
use crate::envelope::ToJson;
use crate::identifier::identifier;
use crate::identifier::uuid_parsed;
use crate::json::Json;
use crate::json::JsonValue;
use crate::json::Member;
use crate::json::MemberValue;
use crate::json::texts_value;
use crate::pagination::Page;
use crate::pagination::Pagination;
use crate::pagination::page_of;
use crate::paging::FetchAll;
use crate::paging::FetchableType;
use crate::paging::Identified;
use crate::paging::owned;
use crate::text::same_text;
use crate::transport::Reply;
use crate::transport::ReplyValue;
use crate::transport::Request;
use crate::transport::RequestValue;

verus! {

/// Path of the device inventory.
pub const DEVICE_PATH: &'static str = "/dna/intent/api/v1/network-device";

/// The family a device belongs to.
#[derive(Clone, Copy, Debug, PartialEq, Eq)]
pub enum DeviceFamily {
    SwitchesAndHubs,
    UnifiedAp,
    Routers,
    WirelessController,
    WirelessSensor,
}

impl DeviceFamily {
    /// The name the controller uses for the family.
    pub open spec fn name(self) -> Seq<char> {
        match self {
            DeviceFamily::SwitchesAndHubs => "Switches and Hubs"@,
            DeviceFamily::UnifiedAp => "Unified AP"@,
            DeviceFamily::Routers => "Routers"@,
            DeviceFamily::WirelessController => "Wireless Controller"@,
            DeviceFamily::WirelessSensor => "Wireless Sensor"@,
        }
    }

    /// The family with the given name.
    pub open spec fn named(s: Seq<char>) -> Option<DeviceFamily> {
        if s == "Switches and Hubs"@ {
            Some(DeviceFamily::SwitchesAndHubs)
        } else if s == "Unified AP"@ {
            Some(DeviceFamily::UnifiedAp)
        } else if s == "Routers"@ {
            Some(DeviceFamily::Routers)
        } else if s == "Wireless Controller"@ {
            Some(DeviceFamily::WirelessController)
        } else if s == "Wireless Sensor"@ {
            Some(DeviceFamily::WirelessSensor)
        } else {
            None
        }
    }

    /// The name the controller uses for it.
    pub fn as_str(&self) -> (s: &'static str)
        ensures
            s@ == self.name(),
    {
        match self {
            DeviceFamily::SwitchesAndHubs => "Switches and Hubs",
            DeviceFamily::UnifiedAp => "Unified AP",
            DeviceFamily::Routers => "Routers",
            DeviceFamily::WirelessController => "Wireless Controller",
            DeviceFamily::WirelessSensor => "Wireless Sensor",
        }
    }

    /// The name the controller uses for the family.
    pub fn to_string(&self) -> (s: String)
        ensures
            s@ == self.name(),
    {
        self.as_str().to_owned()
    }

    /// Finds it by the name the controller uses.
    pub fn from_name(s: &str) -> (r: Option<DeviceFamily>)
        ensures
            r == DeviceFamily::named(s@),
    {
        if same_text(s, "Switches and Hubs") {
            Some(DeviceFamily::SwitchesAndHubs)
        } else if same_text(s, "Unified AP") {
            Some(DeviceFamily::UnifiedAp)
        } else if same_text(s, "Routers") {
            Some(DeviceFamily::Routers)
        } else if same_text(s, "Wireless Controller") {
            Some(DeviceFamily::WirelessController)
        } else if same_text(s, "Wireless Sensor") {
            Some(DeviceFamily::WirelessSensor)
        } else {
            None
        }
    }
}

/// How far the controller has come with collecting a device's data.
#[derive(Clone, Copy, Debug, PartialEq, Eq)]
pub enum DeviceStatus {
    Unassociated,
    Synchronizing,
    SyncDisabled,
    CouldNotSynchronize,
    NotManageable,
    Managed,
    PartialCollectionFailure,
    Incomplete,
    Unreachable,
    WrongCredential,
    Reachable,
    InProgress,
}

impl DeviceStatus {
    /// The status with the given name.
    pub open spec fn named(s: Seq<char>) -> Option<DeviceStatus> {
        if s == "Unassociated"@ {
            Some(DeviceStatus::Unassociated)
        } else if s == "Synchronizing"@ {
            Some(DeviceStatus::Synchronizing)
        } else if s == "Sync Disabled"@ {
            Some(DeviceStatus::SyncDisabled)
        } else if s == "Could Not Synchronize"@ {
            Some(DeviceStatus::CouldNotSynchronize)
        } else if s == "Not Manageable"@ {
            Some(DeviceStatus::NotManageable)
        } else if s == "Managed"@ {
            Some(DeviceStatus::Managed)
        } else if s == "Partial Collection Failure"@ {
            Some(DeviceStatus::PartialCollectionFailure)
        } else if s == "Incomplete"@ {
            Some(DeviceStatus::Incomplete)
        } else if s == "Unreachable"@ {
            Some(DeviceStatus::Unreachable)
        } else if s == "Wrong Credential"@ {
            Some(DeviceStatus::WrongCredential)
        } else if s == "Reachable"@ {
            Some(DeviceStatus::Reachable)
        } else if s == "In Progress"@ {
            Some(DeviceStatus::InProgress)
        } else {
            None
        }
    }

    /// Finds it by the name the controller uses.
    pub fn from_name(s: &str) -> (r: Option<DeviceStatus>)
        ensures
            r == DeviceStatus::named(s@),
    {
        if same_text(s, "Unassociated") {
            Some(DeviceStatus::Unassociated)
        } else if same_text(s, "Synchronizing") {
            Some(DeviceStatus::Synchronizing)
        } else if same_text(s, "Sync Disabled") {
            Some(DeviceStatus::SyncDisabled)
        } else if same_text(s, "Could Not Synchronize") {
            Some(DeviceStatus::CouldNotSynchronize)
        } else if same_text(s, "Not Manageable") {
            Some(DeviceStatus::NotManageable)
        } else if same_text(s, "Managed") {
            Some(DeviceStatus::Managed)
        } else if same_text(s, "Partial Collection Failure") {
            Some(DeviceStatus::PartialCollectionFailure)
        } else if same_text(s, "Incomplete") {
            Some(DeviceStatus::Incomplete)
        } else if same_text(s, "Unreachable") {
            Some(DeviceStatus::Unreachable)
        } else if same_text(s, "Wrong Credential") {
            Some(DeviceStatus::WrongCredential)
        } else if same_text(s, "Reachable") {
            Some(DeviceStatus::Reachable)
        } else if same_text(s, "In Progress") {
            Some(DeviceStatus::InProgress)
        } else {
            None
        }
    }
}

/// A device of the inventory.
#[derive(Debug, PartialEq)]
pub struct Device {
    pub id: u128,
    pub collection_status: DeviceStatus,
    pub management_ip_address: String,
    pub hostname: Option<String>,
    pub description: Option<String>,
    pub family: Option<DeviceFamily>,
}

/// Model of [`Device`].
pub struct DeviceValue {
    pub id: u128,
    pub collection_status: DeviceStatus,
    pub management_ip_address: Seq<char>,
    pub hostname: Option<Seq<char>>,
    pub description: Option<Seq<char>>,
    pub family: Option<DeviceFamily>,
}

/// What a device list can be narrowed to.
#[derive(Debug, PartialEq)]
pub enum DeviceFilter {
    Family(DeviceFamily),
    ManagementIPAddress(String),
}

/// Why an operation on devices came to nothing.
#[derive(Clone, Copy, Debug, PartialEq, Eq)]
pub enum DeviceError {
    GeneralError,
    InvalidDevice,
}

impl DeviceError {
    /// The one line the error is reported with.
    pub open spec fn message(self) -> Seq<char> {
        match self {
            DeviceError::GeneralError => "General Device Error"@,
            DeviceError::InvalidDevice => "Invalid Device"@,
        }
    }

    /// The one line this error is reported with.
    pub fn to_string(&self) -> (s: String)
        ensures
            s@ == self.message(),
    {
        match self {
            DeviceError::GeneralError => "General Device Error".to_owned(),
            DeviceError::InvalidDevice => "Invalid Device".to_owned(),
        }
    }
}

impl DeviceFilter {
    /// The query parameter that stands for the filter.
    pub open spec fn parameter(self) -> (Seq<char>, Seq<char>) {
        match self {
            DeviceFilter::Family(family) => ("family"@, family.name()),
            DeviceFilter::ManagementIPAddress(ip) => ("managementIpAddress"@, ip@),
        }
    }
}

/// The query of a device list.
pub open spec fn device_query(filter: Option<DeviceFilter>) -> Seq<(Seq<char>, Seq<char>)> {
    match filter {
        Some(f) => seq![f.parameter()],
        None => Seq::empty(),
    }
}

impl DeepView for Device {
    type V = DeviceValue;

    open spec fn deep_view(&self) -> DeviceValue {
        DeviceValue {
            id: self.id,
            collection_status: self.collection_status,
            management_ip_address: self.management_ip_address@,
            hostname: self.hostname.deep_view(),
            description: self.description.deep_view(),
            family: self.family,
        }
    }
}

impl Identified for Device {
    open spec fn ident(&self) -> u128 {
        self.id
    }

    fn id(&self) -> (r: u128) {
        self.id
    }
}

impl Device {
    /// The identifier that the member `id` of `j` holds.
    pub open spec fn id_of(j: JsonValue) -> Option<u128> {
        match j.required_text("id"@) {
            Some(t) => uuid_parsed(t),
            None => None,
        }
    }

    /// The status that the member `collectionStatus` of `j` holds.
    pub open spec fn status_of(j: JsonValue) -> Option<DeviceStatus> {
        match j.required_text("collectionStatus"@) {
            Some(t) => DeviceStatus::named(t),
            None => None,
        }
    }

    /// The family that the optional member `family` of `j` holds.
    pub open spec fn family_of(j: JsonValue) -> Option<Option<DeviceFamily>> {
        match j.optional_text("family"@) {
            Some(Some(t)) => match DeviceFamily::named(t) {
                Some(f) => Some(Some(f)),
                None => None,
            },
            Some(None) => Some(None),
            None => None,
        }
    }

    /// What a reply to the list request holds: the devices of the
    /// envelope, one or many, and one error for every failure.
    pub open spec fn listed_devices(reply: ReplyValue) -> Result<Seq<DeviceValue>, DeviceError> {
        match reply.read::<Response<Device>>() {
            Ok(envelope) => Ok(envelope.response.items()),
            Err(_) => Err(DeviceError::GeneralError),
        }
    }

    /// The request for one page of the device list.
    pub fn get_device_list(
        dnac: &DNAC,
        filter: Option<&DeviceFilter>,
        pagination: Option<Pagination>,
    ) -> (r: Request)
        ensures
            r.deep_view() == dnac.deep_view().get_request(
                DEVICE_PATH@,
                Some(device_query(owned(filter))),
                page_of(pagination),
            ),
    {
        let mut query: Vec<(String, String)> = Vec::new();
        match filter {
            Some(DeviceFilter::Family(family)) => {
                query.push(("family".to_owned(), family.to_string()));
            },
            Some(DeviceFilter::ManagementIPAddress(ip)) => {
                query.push(("managementIpAddress".to_owned(), ip.clone()));
            },
            None => {},
        }
        assert(query.deep_view() =~= device_query(owned(filter)));
        dnac.get(DEVICE_PATH, Some(&query), pagination)
    }

    /// Reads the reply to [`Self::get_device_list`].
    pub fn read_device_list(reply: &Reply) -> (r: Result<Vec<Device>, DeviceError>)
        ensures
            match r {
                Ok(items) => Self::listed_devices(reply.deep_view()) == Ok::<
                    Seq<DeviceValue>,
                    DeviceError,
                >(items.deep_view()),
                Err(e) => Self::listed_devices(reply.deep_view()) == Err::<
                    Seq<DeviceValue>,
                    DeviceError,
                >(e),
            },
    {
        match reply.read::<Response<Device>>() {
            Ok(envelope) => {
                let ghost payload = envelope.response;
                let items = envelope.response.into_vec();
                proof {
                    crate::envelope::lemma_items_view(payload);
                    assert(items.deep_view() =~= payload.deep_view().items());
                }
                Ok(items)
            },
            Err(_) => Err(DeviceError::GeneralError),
        }
    }

    /// The fetch of all devices, of one family or of any.
    pub fn get_all_devices(device_family: Option<DeviceFamily>) -> (f: FetchAll<Device>)
        ensures
            f.spec_filter() == match device_family {
                Some(family) => Some(DeviceFilter::Family(family)),
                None => None,
            },
            f.state() == crate::paging::CollectorState::<Device>::start(500),
    {
        let filter = match device_family {
            Some(family) => Some(DeviceFilter::Family(family)),
            None => None,
        };
        FetchAll::new(filter)
    }

    /// The request that adds `device` to the inventory. The controller
    /// answers with the handle of a task, which is to be polled.
    pub fn add_device(dnac: &DNAC, device: &AddDevice) -> (r: Request)
        ensures
            r.deep_view() == dnac.deep_view().post_request(
                DEVICE_PATH@,
                AddDevice::encoded(device.deep_view()),
            ),
    {
        dnac.post(DEVICE_PATH, device)
    }
}

impl Device {
    /// The device that `j` holds, where `id` is what the reading of its
    /// identifier gave.
    pub open spec fn assembled(id: Option<u128>, j: JsonValue) -> Option<DeviceValue> {
        match (
            id,
            Device::status_of(j),
            j.required_text("managementIpAddress"@),
            j.optional_text("hostname"@),
            j.optional_text("description"@),
            Device::family_of(j),
        ) {
            (
                Some(id),
                Some(collection_status),
                Some(management_ip_address),
                Some(hostname),
                Some(description),
                Some(family),
            ) => Some(
                DeviceValue {
                    id,
                    collection_status,
                    management_ip_address,
                    hostname,
                    description,
                    family,
                },
            ),
            _ => None,
        }
    }

    /// Reads a device from `j`, with the identifier that was read from its
    /// member `id` (`None` where that is no identifier).
    pub fn assemble(id: Option<u128>, j: &Json) -> (r: Option<Device>)
        ensures
            r.deep_view() == Device::assembled(id, j.deep_view()),
    {
        let collection_status = match j.required_text("collectionStatus") {
            Some(t) => DeviceStatus::from_name(t.as_str()),
            None => None,
        };
        let management_ip_address = j.required_text("managementIpAddress");
        let hostname = j.optional_text("hostname");
        let description = j.optional_text("description");
        let family = match j.optional_text("family") {
            Some(Some(t)) => match DeviceFamily::from_name(t.as_str()) {
                Some(f) => Some(Some(f)),
                None => None,
            },
            Some(None) => Some(None),
            None => None,
        };
        match (id, collection_status, management_ip_address, hostname, description, family) {
            (
                Some(id),
                Some(collection_status),
                Some(management_ip_address),
                Some(hostname),
                Some(description),
                Some(family),
            ) => Some(
                Device {
                    id,
                    collection_status,
                    management_ip_address,
                    hostname,
                    description,
                    family,
                },
            ),
            _ => None,
        }
    }
}

impl FromJson for Device {
    open spec fn decoded(j: JsonValue) -> Option<DeviceValue> {
        Device::assembled(Device::id_of(j), j)
    }

    fn from_json(j: &Json) -> (r: Option<Device>) {
        let id = match j.required_text("id") {
            Some(t) => identifier(t.as_str()),
            None => None,
        };
        Device::assemble(id, j)
    }
}

impl FetchableType for Device {
    type Filter = DeviceFilter;

    type Error = DeviceError;

    open spec fn list_request(
        dnac: DNACValue,
        filter: Option<DeviceFilter>,
        pagination: Option<Page>,
    ) -> RequestValue {
        dnac.get_request(DEVICE_PATH@, Some(device_query(filter)), pagination)
    }

    open spec fn listed(reply: ReplyValue) -> Result<Seq<DeviceValue>, DeviceError> {
        Device::listed_devices(reply)
    }

    fn fetch_list(
        dnac: &DNAC,
        filter: Option<&DeviceFilter>,
        pagination: Option<Pagination>,
    ) -> (r: Request) {
        Device::get_device_list(dnac, filter, pagination)
    }

    fn read_list(reply: &Reply) -> (r: Result<Vec<Device>, DeviceError>) {
        Device::read_device_list(reply)
    }
}

/// The kind of device that is added.
#[derive(Clone, Copy, Debug, PartialEq, Eq)]
pub enum DeviceType {
    NetworkDevice,
    ComputeDevice,
    MerakiDashboard,
    ThirdPartyDevice,
    NoDataChange,
}

/// How the controller reaches the device's command line.
#[derive(Clone, Copy, Debug, PartialEq, Eq)]
pub enum CliTransport {
    Ssh,
    Telnet,
}

/// The version of SNMP that the device speaks.
#[derive(Clone, Copy, Debug, PartialEq, Eq)]
pub enum SnmpVersion {
    V3,
    V2,
}

/// What SNMP secures: authentication and privacy, authentication alone, or neither.
#[derive(Clone, Copy, Debug, PartialEq, Eq)]
pub enum SnmpMode {
    AuthPriv,
    AuthNoPriv,
    NoAuthNoPriv,
}

/// How SNMP messages are authenticated.
#[derive(Clone, Copy, Debug, PartialEq, Eq)]
pub enum SnmpAuthProtocol {
    Sha,
    Md5,
}

/// How SNMP messages are kept private.
#[derive(Clone, Copy, Debug, PartialEq, Eq)]
pub enum SnmpPrivProtocol {
    Aes128,
}

impl DeviceType {
    /// The name the controller uses for it.
    pub open spec fn name(self) -> Seq<char> {
        match self {
            DeviceType::NetworkDevice => "NETWORK_DEVICE"@,
            DeviceType::ComputeDevice => "COMPUTE_DEVICE"@,
            DeviceType::MerakiDashboard => "MERAKI_DASHBOARD"@,
            DeviceType::ThirdPartyDevice => "THIRD_PARTY_DEVICE"@,
            DeviceType::NoDataChange => "NODATACHANGE"@,
        }
    }

    /// The name the controller uses for it.
    pub fn as_str(&self) -> (s: &'static str)
        ensures
            s@ == self.name(),
    {
        match self {
            DeviceType::NetworkDevice => "NETWORK_DEVICE",
            DeviceType::ComputeDevice => "COMPUTE_DEVICE",
            DeviceType::MerakiDashboard => "MERAKI_DASHBOARD",
            DeviceType::ThirdPartyDevice => "THIRD_PARTY_DEVICE",
            DeviceType::NoDataChange => "NODATACHANGE",
        }
    }
}

impl CliTransport {
    /// The name the controller uses for it.
    pub open spec fn name(self) -> Seq<char> {
        match self {
            CliTransport::Ssh => "ssh"@,
            CliTransport::Telnet => "telnet"@,
        }
    }

    /// The name the controller uses for it.
    pub fn as_str(&self) -> (s: &'static str)
        ensures
            s@ == self.name(),
    {
        match self {
            CliTransport::Ssh => "ssh",
            CliTransport::Telnet => "telnet",
        }
    }
}

impl SnmpVersion {
    /// The name the controller uses for it.
    pub open spec fn name(self) -> Seq<char> {
        match self {
            SnmpVersion::V3 => "v3"@,
            SnmpVersion::V2 => "v2"@,
        }
    }

    /// The name the controller uses for it.
    pub fn as_str(&self) -> (s: &'static str)
        ensures
            s@ == self.name(),
    {
        match self {
            SnmpVersion::V3 => "v3",
            SnmpVersion::V2 => "v2",
        }
    }
}

impl SnmpMode {
    /// The name the controller uses for it.
    pub open spec fn name(self) -> Seq<char> {
        match self {
            SnmpMode::AuthPriv => "authPriv"@,
            SnmpMode::AuthNoPriv => "authNoPriv"@,
            SnmpMode::NoAuthNoPriv => "noAuthNoPriv"@,
        }
    }

    /// The name the controller uses for it.
    pub fn as_str(&self) -> (s: &'static str)
        ensures
            s@ == self.name(),
    {
        match self {
            SnmpMode::AuthPriv => "authPriv",
            SnmpMode::AuthNoPriv => "authNoPriv",
            SnmpMode::NoAuthNoPriv => "noAuthNoPriv",
        }
    }
}

impl SnmpAuthProtocol {
    /// The name the controller uses for it.
    pub open spec fn name(self) -> Seq<char> {
        match self {
            SnmpAuthProtocol::Sha => "sha"@,
            SnmpAuthProtocol::Md5 => "md5"@,
        }
    }

    /// The name the controller uses for it.
    pub fn as_str(&self) -> (s: &'static str)
        ensures
            s@ == self.name(),
    {
        match self {
            SnmpAuthProtocol::Sha => "sha",
            SnmpAuthProtocol::Md5 => "md5",
        }
    }
}

impl SnmpPrivProtocol {
    /// The name the controller uses for it.
    pub open spec fn name(self) -> Seq<char> {
        match self {
            SnmpPrivProtocol::Aes128 => "AES128"@,
        }
    }

    /// The name the controller uses for it.
    pub fn as_str(&self) -> (s: &'static str)
        ensures
            s@ == self.name(),
    {
        match self {
            SnmpPrivProtocol::Aes128 => "AES128",
        }
    }
}

impl Default for DeviceType {
    fn default() -> (r: Self)
        ensures
            r == DeviceType::NetworkDevice,
    {
        DeviceType::NetworkDevice
    }
}

impl Default for CliTransport {
    fn default() -> (r: Self)
        ensures
            r == CliTransport::Ssh,
    {
        CliTransport::Ssh
    }
}

impl Default for SnmpVersion {
    fn default() -> (r: Self)
        ensures
            r == SnmpVersion::V3,
    {
        SnmpVersion::V3
    }
}

impl Default for SnmpMode {
    fn default() -> (r: Self)
        ensures
            r == SnmpMode::AuthPriv,
    {
        SnmpMode::AuthPriv
    }
}

impl Default for SnmpAuthProtocol {
    fn default() -> (r: Self)
        ensures
            r == SnmpAuthProtocol::Sha,
    {
        SnmpAuthProtocol::Sha
    }
}

impl Default for SnmpPrivProtocol {
    fn default() -> (r: Self)
        ensures
            r == SnmpPrivProtocol::Aes128,
    {
        SnmpPrivProtocol::Aes128
    }
}

/// What the controller needs to know of a device to take it into the
/// inventory.
#[derive(Debug, PartialEq)]
pub struct AddDevice {
    pub ip_address: Vec<String>,
    pub device_type: DeviceType,
    pub user_name: String,
    pub password: String,
    pub enable_password: String,
    pub cli_transport: CliTransport,
    pub snmp_version: SnmpVersion,
    pub snmp_user_name: String,
    pub snmp_mode: SnmpMode,
    pub snmp_auth_passphrase: String,
    pub snmp_priv_passphrase: String,
    pub snmp_auth_protocol: SnmpAuthProtocol,
    pub snmp_priv_protocol: SnmpPrivProtocol,
    pub netconf_port: u16,
}

/// Model of [`AddDevice`].
pub struct AddDeviceValue {
    pub ip_address: Seq<Seq<char>>,
    pub device_type: DeviceType,
    pub user_name: Seq<char>,
    pub password: Seq<char>,
    pub enable_password: Seq<char>,
    pub cli_transport: CliTransport,
    pub snmp_version: SnmpVersion,
    pub snmp_user_name: Seq<char>,
    pub snmp_mode: SnmpMode,
    pub snmp_auth_passphrase: Seq<char>,
    pub snmp_priv_passphrase: Seq<char>,
    pub snmp_auth_protocol: SnmpAuthProtocol,
    pub snmp_priv_protocol: SnmpPrivProtocol,
    pub netconf_port: u16,
}

impl DeepView for AddDevice {
    type V = AddDeviceValue;

    open spec fn deep_view(&self) -> AddDeviceValue {
        AddDeviceValue {
            ip_address: self.ip_address.deep_view(),
            device_type: self.device_type,
            user_name: self.user_name@,
            password: self.password@,
            enable_password: self.enable_password@,
            cli_transport: self.cli_transport,
            snmp_version: self.snmp_version,
            snmp_user_name: self.snmp_user_name@,
            snmp_mode: self.snmp_mode,
            snmp_auth_passphrase: self.snmp_auth_passphrase@,
            snmp_priv_passphrase: self.snmp_priv_passphrase@,
            snmp_auth_protocol: self.snmp_auth_protocol,
            snmp_priv_protocol: self.snmp_priv_protocol,
            netconf_port: self.netconf_port,
        }
    }
}

impl Default for AddDevice {
    /// Empty texts, no address, port 0, and the first choice of every
    /// option.
    fn default() -> (r: Self)
        ensures
            r.deep_view() == (AddDeviceValue {
                ip_address: Seq::empty(),
                device_type: DeviceType::NetworkDevice,
                user_name: Seq::empty(),
                password: Seq::empty(),
                enable_password: Seq::empty(),
                cli_transport: CliTransport::Ssh,
                snmp_version: SnmpVersion::V3,
                snmp_user_name: Seq::empty(),
                snmp_mode: SnmpMode::AuthPriv,
                snmp_auth_passphrase: Seq::empty(),
                snmp_priv_passphrase: Seq::empty(),
                snmp_auth_protocol: SnmpAuthProtocol::Sha,
                snmp_priv_protocol: SnmpPrivProtocol::Aes128,
                netconf_port: 0,
            }),
    {
        let ip_address: Vec<String> = Vec::new();
        assert(ip_address.deep_view() =~= Seq::empty());
        AddDevice {
            ip_address,
            device_type: DeviceType::NetworkDevice,
            user_name: String::new(),
            password: String::new(),
            enable_password: String::new(),
            cli_transport: CliTransport::Ssh,
            snmp_version: SnmpVersion::V3,
            snmp_user_name: String::new(),
            snmp_mode: SnmpMode::AuthPriv,
            snmp_auth_passphrase: String::new(),
            snmp_priv_passphrase: String::new(),
            snmp_auth_protocol: SnmpAuthProtocol::Sha,
            snmp_priv_protocol: SnmpPrivProtocol::Aes128,
            netconf_port: 0,
        }
    }
}

/// A member that holds a string.
pub open spec fn text_member(name: Seq<char>, value: Seq<char>) -> MemberValue {
    MemberValue { name, value: JsonValue::Text(value) }
}

impl ToJson for AddDevice {
    open spec fn encoded(v: AddDeviceValue) -> JsonValue {
        JsonValue::Object(
            seq![
                MemberValue { name: "ipAddress"@, value: texts_value(v.ip_address) },
                text_member("type"@, v.device_type.name()),
                text_member("userName"@, v.user_name),
                text_member("password"@, v.password),
                text_member("enablePassword"@, v.enable_password),
                text_member("cliTransport"@, v.cli_transport.name()),
                text_member("snmpVersion"@, v.snmp_version.name()),
                text_member("snmpUserName"@, v.snmp_user_name),
                text_member("snmpMode"@, v.snmp_mode.name()),
                text_member("snmpAuthPassphrase"@, v.snmp_auth_passphrase),
                text_member("snmpPrivPassphrase"@, v.snmp_priv_passphrase),
                text_member("snmpAuthProtocol"@, v.snmp_auth_protocol.name()),
                text_member("snmpPrivProtocol"@, v.snmp_priv_protocol.name()),
                MemberValue {
                    name: "netconfPort"@,
                    value: JsonValue::Unsigned(v.netconf_port as u64),
                },
            ],
        )
    }

    fn to_json(&self) -> (r: Json) {
        let mut m: Vec<Member> = Vec::new();
        m.push(Member::new("ipAddress", Json::texts(&self.ip_address)));
        m.push(Member::new("type", Json::text(self.device_type.as_str())));
        m.push(Member::new("userName", Json::text(self.user_name.as_str())));
        m.push(Member::new("password", Json::text(self.password.as_str())));
        m.push(Member::new("enablePassword", Json::text(self.enable_password.as_str())));
        m.push(Member::new("cliTransport", Json::text(self.cli_transport.as_str())));
        m.push(Member::new("snmpVersion", Json::text(self.snmp_version.as_str())));
        m.push(Member::new("snmpUserName", Json::text(self.snmp_user_name.as_str())));
        m.push(Member::new("snmpMode", Json::text(self.snmp_mode.as_str())));
        m.push(Member::new("snmpAuthPassphrase", Json::text(self.snmp_auth_passphrase.as_str())));
        m.push(Member::new("snmpPrivPassphrase", Json::text(self.snmp_priv_passphrase.as_str())));
        m.push(Member::new("snmpAuthProtocol", Json::text(self.snmp_auth_protocol.as_str())));
        m.push(Member::new("snmpPrivProtocol", Json::text(self.snmp_priv_protocol.as_str())));
        m.push(Member::new("netconfPort", Json::Unsigned(self.netconf_port as u64)));
        assert(m.deep_view() =~= Self::encoded(self.deep_view())->Object_0);
        Json::object(m)
    }
}

} // verus!
