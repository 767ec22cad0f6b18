//! Utility functions for sensor data processing

use crate::clock::unix_seconds;
use crate::{resource_ids, sensor_types};
use crate::{SensorMetadata, UCarSensorData, UCarSensorDataView};
use vstd::prelude::*;

verus! {

/// The record of one sample: the given identifier, capture time, type tag and
/// JSON document, under uCar metadata for the given resource id and sequence
/// number.
pub open spec fn sensor_record(
    sensor_id: Seq<char>,
    timestamp: u64,
    sensor_type: Seq<char>,
    resource_id: u16,
    data: serde_json::Value,
    sequence: u64,
) -> UCarSensorDataView {
    UCarSensorDataView {
        sensor_id,
        timestamp,
        sensor_type,
        data,
        metadata: SensorMetadata::ucar(resource_id, sequence),
    }
}

/// Create UCarSensorData from CARLA image sensor data captured at `timestamp`
/// (seconds since the Unix epoch).
pub fn image_sensor_data_at(
    sensor_id: String,
    image_data: &serde_json::Value,
    sequence: u64,
    timestamp: u64,
) -> (record: UCarSensorData)
    ensures
        record@ == sensor_record(
            sensor_id@,
            timestamp,
            sensor_types::IMAGE@,
            resource_ids::IMAGE,
            *image_data,
            sequence,
        ),
{
    UCarSensorData {
        sensor_id,
        timestamp,
        sensor_type: sensor_types::IMAGE.to_string(),
        data: image_data.clone(),
        metadata: SensorMetadata::new_ucar(resource_ids::IMAGE, sequence),
    }
}

/// Create UCarSensorData from CARLA lidar sensor data captured at `timestamp`
/// (seconds since the Unix epoch).
pub fn lidar_sensor_data_at(
    sensor_id: String,
    lidar_data: &serde_json::Value,
    sequence: u64,
    timestamp: u64,
) -> (record: UCarSensorData)
    ensures
        record@ == sensor_record(
            sensor_id@,
            timestamp,
            sensor_types::LIDAR@,
            resource_ids::LIDAR,
            *lidar_data,
            sequence,
        ),
{
    UCarSensorData {
        sensor_id,
        timestamp,
        sensor_type: sensor_types::LIDAR.to_string(),
        data: lidar_data.clone(),
        metadata: SensorMetadata::new_ucar(resource_ids::LIDAR, sequence),
    }
}

/// Create UCarSensorData from CARLA image sensor data, stamped with the
/// current time. Everything but the timestamp is fixed by the arguments.
pub fn create_image_sensor_data(
    sensor_id: String,
    image_data: &serde_json::Value,
    sequence: u64,
) -> (record: UCarSensorData)
    ensures
        record@ == sensor_record(
            sensor_id@,
            record.timestamp,
            sensor_types::IMAGE@,
            resource_ids::IMAGE,
            *image_data,
            sequence,
        ),
{
    image_sensor_data_at(sensor_id, image_data, sequence, unix_seconds())
}

/// Create UCarSensorData from CARLA lidar sensor data, stamped with the
/// current time. Everything but the timestamp is fixed by the arguments.
pub fn create_lidar_sensor_data(
    sensor_id: String,
    lidar_data: &serde_json::Value,
    sequence: u64,
) -> (record: UCarSensorData)
    ensures
        record@ == sensor_record(
            sensor_id@,
            record.timestamp,
            sensor_types::LIDAR@,
            resource_ids::LIDAR,
            *lidar_data,
            sequence,
        ),
{
    lidar_sensor_data_at(sensor_id, lidar_data, sequence, unix_seconds())
}

/// Why a record is rejected, if it is: the first rule it breaks, in the order
/// sensor id, sensor type, timestamp.
pub open spec fn rejection(data: UCarSensorDataView) -> Option<Seq<char>> {
    if data.sensor_id.len() == 0 {
        Some("Sensor ID cannot be empty"@)
    } else if data.sensor_type.len() == 0 {
        Some("Sensor type cannot be empty"@)
    } else if data.timestamp == 0 {
        Some("Timestamp cannot be zero"@)
    } else {
        None
    }
}

/// Validate sensor data
pub fn validate_sensor_data(data: &UCarSensorData) -> (outcome: Result<(), String>)
    ensures
        match outcome {
            Ok(_) => rejection(data@) is None,
            Err(message) => rejection(data@) == Some(message@),
        },
{
    if data.sensor_id.as_str().is_empty() {
        return Err("Sensor ID cannot be empty".to_string());
    }
    if data.sensor_type.as_str().is_empty() {
        return Err("Sensor type cannot be empty".to_string());
    }
    if data.timestamp == 0 {
        return Err("Timestamp cannot be zero".to_string());
    }
    Ok(())
}

} // verus!
