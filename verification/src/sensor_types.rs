//! Sensor type constants for uCar

use vstd::prelude::*;

verus! {

pub const IMAGE: &'static str = "image";

pub const LIDAR: &'static str = "lidar";

pub const RADAR: &'static str = "radar";

pub const IMU: &'static str = "imu";

pub const COLLISION: &'static str = "collision";

pub const LANE_INVASION: &'static str = "lane_invasion";

pub const OBSTACLE_DETECTION: &'static str = "obstacle_detection";

} // verus!
