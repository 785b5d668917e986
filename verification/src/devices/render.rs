//! A renderer: what a control point knows of a device that can play media,
//! and how one is picked.

use crate::config::AV_TRANSPORT_URN;
use crate::text::str_eq;
use crate::utils::formatting::{
    device_description, device_with_service_description, format_device_description,
    format_device_with_service_description,
};
use vstd::prelude::*;

verus! {

/// One service a device offers.
#[derive(Debug, Clone)]
pub struct ServiceDescription {
    /// The service type, an URN
    pub service_type: String,
    /// The identifier of the service
    pub service_id: String,
}

/// A `ServiceDescription` with its strings as texts.
pub struct ServiceView {
    pub service_type: Seq<char>,
    pub service_id: Seq<char>,
}

impl View for ServiceDescription {
    type V = ServiceView;

    open spec fn view(&self) -> ServiceView {
        ServiceView { service_type: self.service_type@, service_id: self.service_id@ }
    }
}

/// What a device says of itself when it is described.
#[derive(Debug, Clone)]
pub struct DeviceDescription {
    /// The URL the description was fetched from
    pub url: String,
    /// The name the device gives itself
    pub friendly_name: String,
    /// The device type, an URN
    pub device_type: String,
    /// The services of the device, in the order it lists them
    pub services: Vec<ServiceDescription>,
}

/// A `DeviceDescription` with its strings as texts.
pub struct DeviceView {
    pub url: Seq<char>,
    pub friendly_name: Seq<char>,
    pub device_type: Seq<char>,
    pub services: Seq<ServiceView>,
}

impl View for DeviceDescription {
    type V = DeviceView;

    open spec fn view(&self) -> DeviceView {
        DeviceView {
            url: self.url@,
            friendly_name: self.friendly_name@,
            device_type: self.device_type@,
            services: Seq::new(self.services@.len(), |i: int| self.services@[i]@),
        }
    }
}

/// A DLNA device which is capable of AVTransport actions.
#[derive(Debug, Clone)]
pub struct Render {
    /// The URL of the device
    pub url: String,
    /// The name the device gives itself
    pub friendly_name: String,
    /// The device type
    pub device_type: String,
    /// The type of its AVTransport service
    pub service_type: String,
    /// The identifier of its AVTransport service
    pub service_id: String,
}

/// A `Render` with its strings as texts.
pub struct RenderView {
    pub url: Seq<char>,
    pub friendly_name: Seq<char>,
    pub device_type: Seq<char>,
    pub service_type: Seq<char>,
    pub service_id: Seq<char>,
}

impl View for Render {
    type V = RenderView;

    open spec fn view(&self) -> RenderView {
        RenderView {
            url: self.url@,
            friendly_name: self.friendly_name@,
            device_type: self.device_type@,
            service_type: self.service_type@,
            service_id: self.service_id@,
        }
    }
}

impl RenderView {
    /// The render written out: `[type][service] name @ url`.
    pub open spec fn text(self) -> Seq<char> {
        device_with_service_description(
            self.device_type,
            self.service_type,
            self.friendly_name,
            self.url,
        )
    }
}

/// The first AVTransport service among `services`, if there is one.
pub open spec fn av_transport_of(services: Seq<ServiceView>) -> Option<ServiceView>
    decreases services.len(),
{
    if services.len() == 0 {
        None
    } else if services[0].service_type == AV_TRANSPORT_URN@ {
        Some(services[0])
    } else {
        av_transport_of(services.drop_first())
    }
}

/// The render that a described device is, where it offers AVTransport.
pub open spec fn render_of(d: DeviceView) -> Option<RenderView> {
    match av_transport_of(d.services) {
        Some(s) => Some(
            RenderView {
                url: d.url,
                friendly_name: d.friendly_name,
                device_type: d.device_type,
                service_type: s.service_type,
                service_id: s.service_id,
            },
        ),
        None => None,
    }
}

impl Render {
    /// The render that a described device is; none where the device lacks
    /// the AVTransport service.
    pub fn from_device(device: &DeviceDescription) -> (r: Option<Self>)
        ensures
            match r {
                Some(render) => render_of(device@) == Some(render@),
                None => render_of(device@).is_none(),
            },
    {
        let ghost all = device@.services;
        let mut i: usize = 0;
        assert(all.skip(0) == all);
        while i < device.services.len()
            invariant
                i <= device.services.len(),
                all == device@.services,
                av_transport_of(all) == av_transport_of(all.skip(i as int)),
            decreases device.services.len() - i,
        {
            let service = &device.services[i];
            proof {
                assert(all.skip(i as int)[0] == service@);
                assert(all.skip(i as int).drop_first() == all.skip(i + 1));
            }
            if str_eq(service.service_type.as_str(), AV_TRANSPORT_URN) {
                return Some(
                    Render {
                        url: device.url.clone(),
                        friendly_name: device.friendly_name.clone(),
                        device_type: device.device_type.clone(),
                        service_type: service.service_type.clone(),
                        service_id: service.service_id.clone(),
                    },
                );
            }
            i += 1;
        }
        proof {
            assert(all.skip(i as int).len() == 0);
        }
        None
    }

    /// A copy of the render.
    pub fn duplicate(&self) -> (r: Self)
        ensures
            r@ == self@,
    {
        Render {
            url: self.url.clone(),
            friendly_name: self.friendly_name.clone(),
            device_type: self.device_type.clone(),
            service_type: self.service_type.clone(),
            service_id: self.service_id.clone(),
        }
    }

    /// The render written out: `[type][service] name @ url`.
    pub fn to_string(&self) -> (s: String)
        ensures
            s@ == self@.text(),
    {
        format_device_with_service_description(
            self.device_type.as_str(),
            self.service_type.as_str(),
            self.friendly_name.as_str(),
            self.url.as_str(),
        )
    }

    /// The device of the render written out: `[type] name @ url`.
    pub fn describe_device(&self) -> (s: String)
        ensures
            s@ == device_description(self.device_type@, self.friendly_name@, self.url@),
    {
        format_device_description(
            self.device_type.as_str(),
            self.friendly_name.as_str(),
            self.url.as_str(),
        )
    }
}

} // verus!
