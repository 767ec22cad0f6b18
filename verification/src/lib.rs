//! Core of the uCar sensor bridge.
//!
//! The crate holds the sensor data records that travel over uProtocol and the
//! decision logic of the bridge: finding the ego vehicle among the simulated
//! actors, numbering and wrapping each sensor sample for publication, and
//! winding everything down once a shutdown has been requested. All waiting,
//! networking and simulator access is left to the caller, which feeds events
//! in and carries the returned actions out.

use vstd::prelude::*;

pub mod addressing;
pub mod attachment;
pub mod clock;
pub mod hello;
pub mod json;
pub mod lifecycle;
pub mod locator;
pub mod pipeline;
pub mod resource_ids;
pub mod sensor_types;
pub mod uprotocol;
pub mod utils;

verus! {

/// Authority under which uCar publishes its sensor data.
pub const UCAR_AUTHORITY: &'static str = "ucar";

/// Entity id of the uCar sensor publisher.
pub const UCAR_ENTITY_ID: u32 = 0x0001_0001;

/// Metadata for uProtocol sensor messages.
#[derive(Debug, Clone, PartialEq, Eq)]
pub struct SensorMetadata {
    /// Source authority
    pub authority: String,
    /// Entity ID
    pub entity_id: u32,
    /// Resource ID
    pub resource_id: u16,
    /// Message sequence number
    pub sequence: u64,
}

/// Mathematical content of a [`SensorMetadata`].
pub struct SensorMetadataView {
    pub authority: Seq<char>,
    pub entity_id: u32,
    pub resource_id: u16,
    pub sequence: u64,
}

impl View for SensorMetadata {
    type V = SensorMetadataView;

    open spec fn view(&self) -> SensorMetadataView {
        SensorMetadataView {
            authority: self.authority@,
            entity_id: self.entity_id,
            resource_id: self.resource_id,
            sequence: self.sequence,
        }
    }
}

impl SensorMetadata {
    /// What [`SensorMetadata::new_ucar`] builds: the uCar authority and entity
    /// id around the given resource id and sequence number.
    pub open spec fn ucar(resource_id: u16, sequence: u64) -> SensorMetadataView {
        SensorMetadataView {
            authority: UCAR_AUTHORITY@,
            entity_id: UCAR_ENTITY_ID,
            resource_id,
            sequence,
        }
    }

    /// Create new sensor metadata with default uCar settings
    pub fn new_ucar(resource_id: u16, sequence: u64) -> (metadata: Self)
        ensures
            metadata@ == Self::ucar(resource_id, sequence),
    {
        SensorMetadata {
            authority: UCAR_AUTHORITY.to_string(),
            entity_id: UCAR_ENTITY_ID,
            resource_id,
            sequence,
        }
    }
}

/// Extended sensor data structure that combines CARLA sensor data with uProtocol metadata
#[derive(Debug, Clone)]
pub struct UCarSensorData {
    /// Sensor identifier
    pub sensor_id: String,
    /// Timestamp when the data was captured
    pub timestamp: u64,
    /// Sensor type identifier
    pub sensor_type: String,
    /// Raw sensor data (JSON serialized)
    pub data: serde_json::Value,
    /// uProtocol message metadata
    pub metadata: SensorMetadata,
}

/// Mathematical content of a [`UCarSensorData`]. The JSON document is carried
/// as it is: nothing in this crate looks inside it.
pub struct UCarSensorDataView {
    pub sensor_id: Seq<char>,
    pub timestamp: u64,
    pub sensor_type: Seq<char>,
    pub data: serde_json::Value,
    pub metadata: SensorMetadataView,
}

impl View for UCarSensorData {
    type V = UCarSensorDataView;

    open spec fn view(&self) -> UCarSensorDataView {
        UCarSensorDataView {
            sensor_id: self.sensor_id@,
            timestamp: self.timestamp,
            sensor_type: self.sensor_type@,
            data: self.data,
            metadata: self.metadata@,
        }
    }
}

} // verus!
