//! The network device types that the zone layer carries, declared for the
//! verifier. Values of them are opaque here: the library only moves them.

use rupnp::ssdp::URN;
use rupnp::{Device, Service};
use vstd::prelude::*;

verus! {

#[verifier::external_type_specification]
#[verifier::external_body]
pub struct ExDevice(Device);

#[verifier::external_type_specification]
#[verifier::external_body]
pub struct ExService(Service);

#[verifier::external_type_specification]
#[verifier::external_body]
pub struct ExUrn(URN);

#[verifier::external_type_specification]
#[verifier::external_body]
pub struct ExUpnpError(rupnp::Error);

/// The service type `urn:<domain>:service:<typ>:<version>`.
pub uninterp spec fn service_urn(domain: Seq<char>, typ: Seq<char>, version: u32) -> URN;

/// Relies on `URN::service` of ssdp-client, which only builds the value
/// `urn:<domain>:service:<typ>:<version>` from its arguments.
pub assume_specification[ URN::service ](domain: &'static str, typ: &'static str, version: u32) -> (r: URN)
    ensures
        r == service_urn(domain@, typ@, version),
;

/// The service of a type that a device offers, if it offers one.
pub uninterp spec fn service_lookup(device: Device, service_type: URN) -> Option<Service>;

/// Relies on rupnp's `DeviceSpec::find_service`: the first service of the
/// given type among those of the device and of its embedded devices, if any.
/// It depends on the device's description and the type alone.
#[verifier::external_body]
pub(crate) fn find_service(device: &Device, service_type: &URN) -> (r: Option<Service>)
    ensures
        r == service_lookup(*device, *service_type),
{
    device.find_service(service_type).cloned()
}

/// The name that a device's description gives it.
pub uninterp spec fn device_name(device: Device) -> Seq<char>;

/// Relies on rupnp's `DeviceSpec::friendly_name`, the name from the device's
/// description.
#[verifier::external_body]
pub(crate) fn friendly_name(device: &Device) -> (r: &str)
    ensures
        r@ == device_name(*device),
{
    device.friendly_name()
}

} // verus!
