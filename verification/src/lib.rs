//! A chart as a widget: sizing, layout and input dispatch between a chart and
//! the toolkit that hosts it.
pub mod toolkit;
pub mod sizing;
pub mod event;
pub mod chart;
pub mod widget;
pub mod settings;

pub use chart::Chart;
pub use event::{HostEvent, Status};
pub use settings::Setting;
pub use sizing::{Dimensions, Sizing};
pub use widget::{deliver, ChartWidget, Configuration, Reaction};
