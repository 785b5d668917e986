//! Display strings for devices.

use vstd::prelude::*;
use vstd::string::*;

verus! {

/// `[type] name @ url`
pub open spec fn device_description(
    device_type: Seq<char>,
    friendly_name: Seq<char>,
    url: Seq<char>,
) -> Seq<char> {
    "["@ + device_type + "] "@ + friendly_name + " @ "@ + url
}

/// `[type][service] name @ url`
pub open spec fn device_with_service_description(
    device_type: Seq<char>,
    service_type: Seq<char>,
    friendly_name: Seq<char>,
    url: Seq<char>,
) -> Seq<char> {
    "["@ + device_type + "]["@ + service_type + "] "@ + friendly_name + " @ "@ + url
}

/// Formats a device description for display
pub fn format_device_description(device_type: &str, friendly_name: &str, url: &str) -> (r: String)
    ensures
        r@ == device_description(device_type@, friendly_name@, url@),
{
    let mut r = String::from_str("[");
    r.append(device_type);
    r.append("] ");
    r.append(friendly_name);
    r.append(" @ ");
    r.append(url);
    r
}

/// Formats a device description with service type for display
pub fn format_device_with_service_description(
    device_type: &str,
    service_type: &str,
    friendly_name: &str,
    url: &str,
) -> (r: String)
    ensures
        r@ == device_with_service_description(device_type@, service_type@, friendly_name@, url@),
{
    let mut r = String::from_str("[");
    r.append(device_type);
    r.append("][");
    r.append(service_type);
    r.append("] ");
    r.append(friendly_name);
    r.append(" @ ");
    r.append(url);
    r
}

} // verus!
