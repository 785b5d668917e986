//! Renderer devices: how one is specified, found and described, and what it
//! reports.

pub mod discovery;
pub mod render;
pub mod select;
pub mod types;

pub use discovery::{collect_renders, default_search, Discovery, DiscoveryEvent, SearchPlan};
pub use render::{DeviceDescription, Render, ServiceDescription};
pub use select::{check_device_url, search_of, select_by_query, select_from};
pub use types::{ActionResponse, PositionInfo, RenderSpec, TransportInfo};
