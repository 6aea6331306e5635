//! The one GATT service that the board exposes, and how it is advertised.

use vstd::prelude::*;

verus! {

/// The 16-bit UUID of the Battery service, which holds the characteristic.
pub const BATTERY_SERVICE_UUID: u16 = 0x180f;

/// The 16-bit UUID of the characteristic.
pub const CHARACTERISTIC_UUID: u16 = 0xff01;

/// The 16-bit UUID of the client characteristic configuration descriptor.
pub const CLIENT_CONFIG_UUID: u16 = 0x2902;

/// Attribute permission: the peer may read.
pub const PERM_READ: u16 = 0x01;

/// Attribute permission: the peer may write.
pub const PERM_WRITE: u16 = 0x10;

/// Characteristic property: readable.
pub const PROP_READ: u8 = 0x02;

/// Characteristic property: writable.
pub const PROP_WRITE: u8 = 0x08;

/// Advertising flag: general discoverable mode.
pub const ADV_FLAG_GENERAL_DISCOVERABLE: u8 = 0x02;

/// Advertising flag: BR/EDR not supported.
pub const ADV_FLAG_BREDR_NOT_SUPPORTED: u8 = 0x04;

/// The room the characteristic's value has, in bytes.
pub const CHARACTERISTIC_CAPACITY: usize = 12;

/// A primary service to declare.
#[derive(Clone, Copy, Debug, PartialEq, Eq, Structural)]
pub struct ServiceDefinition {
    pub uuid: u16,
    /// Attribute handles to reserve: the service, the characteristic's
    /// declaration and value, and the descriptor.
    pub num_handles: u16,
    pub instance_id: u8,
}

/// A characteristic to add to the service.
#[derive(Debug, PartialEq, Eq)]
pub struct CharacteristicDefinition {
    pub uuid: u16,
    pub permissions: u16,
    pub properties: u8,
    /// The value it holds before any write.
    pub value: Vec<u8>,
    /// The room its value has, in bytes.
    pub capacity: usize,
    /// Whether the application, not the radio stack, answers reads and writes.
    pub response_by_app: bool,
}

/// A descriptor to add to the service.
#[derive(Clone, Copy, Debug, PartialEq, Eq, Structural)]
pub struct DescriptorDefinition {
    pub uuid: u16,
    pub permissions: u16,
}

/// An advertising or scan-response payload.
#[derive(Clone, Copy, Debug, PartialEq, Eq)]
pub struct AdvertiseDefinition {
    pub set_scan_rsp: bool,
    pub include_name: bool,
    pub include_txpower: bool,
    /// Advertising interval bounds, in the radio stack's units.
    pub min_interval: i32,
    pub max_interval: i32,
    /// The 128-bit service UUID carried in the payload, least significant
    /// byte first.
    pub service_uuid: [u8; 16],
    pub flag: u8,
}

/// "Hello World" in ASCII: the characteristic's value before any write.
pub open spec fn initial_value() -> Seq<u8> {
    seq![0x48u8, 0x65, 0x6c, 0x6c, 0x6f, 0x20, 0x57, 0x6f, 0x72, 0x6c, 0x64]
}

/// The 128-bit UUID placed in both payloads.
pub open spec fn advertised_uuid() -> Seq<u8> {
    seq![
        0xfbu8, 0x34, 0x9b, 0x5f, 0x80, 0x00, 0x00, 0x80,
        0x00, 0x10, 0x00, 0x00, 0xff, 0x00, 0x00, 0x00,
    ]
}

fn advertised_uuid_bytes() -> (r: [u8; 16])
    ensures
        r@ == advertised_uuid(),
{
    let r: [u8; 16] = [
        0xfb, 0x34, 0x9b, 0x5f, 0x80, 0x00, 0x00, 0x80,
        0x00, 0x10, 0x00, 0x00, 0xff, 0x00, 0x00, 0x00,
    ];
    assert(r@ =~= advertised_uuid());
    r
}

/// The Battery service, with room for one characteristic and one descriptor.
pub fn service_definition() -> (r: ServiceDefinition)
    ensures
        r.uuid == BATTERY_SERVICE_UUID,
        r.num_handles == 4,
        r.instance_id == 1,
{
    ServiceDefinition { uuid: BATTERY_SERVICE_UUID, num_handles: 4, instance_id: 1 }
}

/// The characteristic: readable and writable, answered by the application,
/// holding "Hello World" at first.
pub fn characteristic_definition() -> (r: CharacteristicDefinition)
    ensures
        r.uuid == CHARACTERISTIC_UUID,
        r.permissions == PERM_READ | PERM_WRITE,
        r.properties == PROP_READ | PROP_WRITE,
        r.value@ == initial_value(),
        r.capacity == CHARACTERISTIC_CAPACITY,
        r.response_by_app,
{
    let value: Vec<u8> = vec![0x48, 0x65, 0x6c, 0x6c, 0x6f, 0x20, 0x57, 0x6f, 0x72, 0x6c, 0x64];
    assert(value@ =~= initial_value());
    CharacteristicDefinition {
        uuid: CHARACTERISTIC_UUID,
        permissions: PERM_READ | PERM_WRITE,
        properties: PROP_READ | PROP_WRITE,
        value,
        capacity: CHARACTERISTIC_CAPACITY,
        response_by_app: true,
    }
}

/// The client characteristic configuration descriptor, readable only.
pub fn descriptor_definition() -> (r: DescriptorDefinition)
    ensures
        r.uuid == CLIENT_CONFIG_UUID,
        r.permissions == PERM_READ,
{
    DescriptorDefinition { uuid: CLIENT_CONFIG_UUID, permissions: PERM_READ }
}

/// The advertising payload: with the device name, without the TX power,
/// general discoverable and without BR/EDR.
pub fn advertising_data() -> (r: AdvertiseDefinition)
    ensures
        !r.set_scan_rsp,
        r.include_name,
        !r.include_txpower,
        r.min_interval == 6,
        r.max_interval == 16,
        r.service_uuid@ == advertised_uuid(),
        r.flag == ADV_FLAG_GENERAL_DISCOVERABLE | ADV_FLAG_BREDR_NOT_SUPPORTED,
{
    AdvertiseDefinition {
        set_scan_rsp: false,
        include_name: true,
        include_txpower: false,
        min_interval: 6,
        max_interval: 16,
        service_uuid: advertised_uuid_bytes(),
        flag: ADV_FLAG_GENERAL_DISCOVERABLE | ADV_FLAG_BREDR_NOT_SUPPORTED,
    }
}

/// The scan-response payload: without the device name, with the TX power,
/// and no interval bounds or flags of its own.
pub fn scan_response_data() -> (r: AdvertiseDefinition)
    ensures
        r.set_scan_rsp,
        !r.include_name,
        r.include_txpower,
        r.min_interval == 0,
        r.max_interval == 0,
        r.service_uuid@ == advertised_uuid(),
        r.flag == 0,
{
    AdvertiseDefinition {
        set_scan_rsp: true,
        include_name: false,
        include_txpower: true,
        min_interval: 0,
        max_interval: 0,
        service_uuid: advertised_uuid_bytes(),
        flag: 0,
    }
}

} // verus!
