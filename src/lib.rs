//! Live utilization chart: a bounded sample history, the exact geometry of
//! the rolling line chart drawn from it, and the small helpers around it
//! (performance-counter status codes and path lists, process ids).

pub mod chart;
pub mod geometry;
pub mod pdh;
pub mod pdh_error;
pub mod pid;
pub mod rolling_buffer;

pub use chart::{mul_div, ChartEvent, ChartSurface};
pub use geometry::{build_geometry, ChartGeometry, ChartPoint};
pub use pdh::{parse_path_list, PDH_FUNCTION};
pub use pid::parse_pid;
pub use rolling_buffer::RollingBuffer;
