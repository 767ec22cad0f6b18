//! Resource ID constants for different sensor types

use vstd::prelude::*;

verus! {

pub const IMAGE: u16 = 0x1000;

pub const LIDAR: u16 = 0x1001;

pub const RADAR: u16 = 0x1002;

pub const IMU: u16 = 0x1003;

pub const COLLISION: u16 = 0x1004;

pub const LANE_INVASION: u16 = 0x1005;

pub const OBSTACLE_DETECTION: u16 = 0x1006;

} // verus!
