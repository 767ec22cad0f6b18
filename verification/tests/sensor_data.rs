use serde_json::Value;
use ucar_core::clock::timestamp_of;
use ucar_core::utils::{
    create_image_sensor_data, create_lidar_sensor_data, image_sensor_data_at,
    lidar_sensor_data_at, validate_sensor_data,
};
use ucar_core::{resource_ids, sensor_types, SensorMetadata, UCarSensorData};

fn image_document() -> Value {
    let mut fields = serde_json::Map::new();
    fields.insert("width".to_string(), Value::from(800));
    fields.insert("height".to_string(), Value::from(600));
    fields.insert("format".to_string(), Value::from("RGB"));
    Value::Object(fields)
}

fn empty_document() -> Value {
    Value::Object(serde_json::Map::new())
}

#[test]
fn test_sensor_metadata_creation() {
    let metadata = SensorMetadata::new_ucar(resource_ids::IMAGE, 42);
    assert_eq!(metadata.authority, "ucar");
    assert_eq!(metadata.entity_id, 0x00010001);
    assert_eq!(metadata.resource_id, resource_ids::IMAGE);
    assert_eq!(metadata.sequence, 42);
}

#[test]
fn test_image_sensor_data_creation() {
    let image_data = image_document();

    let sensor_data = create_image_sensor_data("camera_front".to_string(), &image_data, 1);

    assert_eq!(sensor_data.sensor_id, "camera_front");
    assert_eq!(sensor_data.sensor_type, sensor_types::IMAGE);
    assert_eq!(sensor_data.metadata.resource_id, resource_ids::IMAGE);
    assert_eq!(sensor_data.metadata.sequence, 1);
}

#[test]
fn test_sensor_data_validation() {
    let valid_data = UCarSensorData {
        sensor_id: "test_sensor".to_string(),
        timestamp: 1234567890,
        sensor_type: sensor_types::IMAGE.to_string(),
        data: empty_document(),
        metadata: SensorMetadata::new_ucar(resource_ids::IMAGE, 1),
    };

    assert!(validate_sensor_data(&valid_data).is_ok());

    let invalid_data = UCarSensorData {
        sensor_id: "".to_string(),
        timestamp: 1234567890,
        sensor_type: sensor_types::IMAGE.to_string(),
        data: empty_document(),
        metadata: SensorMetadata::new_ucar(resource_ids::IMAGE, 1),
    };

    assert!(validate_sensor_data(&invalid_data).is_err());
}

#[test]
fn image_record_keeps_document_and_timestamp() {
    let image_data = image_document();
    let record = image_sensor_data_at("camera_front".to_string(), &image_data, 7, 1_700_000_000);
    assert_eq!(record.sensor_id, "camera_front");
    assert_eq!(record.timestamp, 1_700_000_000);
    assert_eq!(record.sensor_type, "image");
    assert_eq!(record.data, image_data);
    assert_eq!(record.data["width"], Value::from(800));
    assert_eq!(record.metadata.authority, "ucar");
    assert_eq!(record.metadata.entity_id, 0x0001_0001);
    assert_eq!(record.metadata.resource_id, 0x1000);
    assert_eq!(record.metadata.sequence, 7);
}

#[test]
fn lidar_record_uses_lidar_type_and_resource() {
    let lidar_data = empty_document();
    let record = lidar_sensor_data_at("lidar_top".to_string(), &lidar_data, 3, 12);
    assert_eq!(record.sensor_id, "lidar_top");
    assert_eq!(record.timestamp, 12);
    assert_eq!(record.sensor_type, sensor_types::LIDAR);
    assert_eq!(record.sensor_type, "lidar");
    assert_eq!(record.data, lidar_data);
    assert_eq!(record.metadata.resource_id, resource_ids::LIDAR);
    assert_eq!(record.metadata.resource_id, 0x1001);
    assert_eq!(record.metadata.sequence, 3);
}

#[test]
fn created_lidar_record_is_stamped_by_the_clock() {
    let lidar_data = empty_document();
    let record = create_lidar_sensor_data("lidar_top".to_string(), &lidar_data, 9);
    assert_eq!(record.sensor_id, "lidar_top");
    assert_eq!(record.sensor_type, "lidar");
    assert_eq!(record.metadata.resource_id, 0x1001);
    assert_eq!(record.metadata.sequence, 9);
    // The machine's clock stands well after the year 2001.
    assert!(record.timestamp > 1_000_000_000);
    assert!(validate_sensor_data(&record).is_ok());
}

#[test]
fn validation_names_the_first_broken_rule() {
    let mut data = UCarSensorData {
        sensor_id: String::new(),
        timestamp: 0,
        sensor_type: String::new(),
        data: empty_document(),
        metadata: SensorMetadata::new_ucar(resource_ids::RADAR, 0),
    };
    assert_eq!(
        validate_sensor_data(&data),
        Err("Sensor ID cannot be empty".to_string())
    );
    data.sensor_id = "radar_front".to_string();
    assert_eq!(
        validate_sensor_data(&data),
        Err("Sensor type cannot be empty".to_string())
    );
    data.sensor_type = sensor_types::RADAR.to_string();
    assert_eq!(
        validate_sensor_data(&data),
        Err("Timestamp cannot be zero".to_string())
    );
    data.timestamp = 1;
    assert_eq!(validate_sensor_data(&data), Ok(()));
}

#[test]
fn sensor_constants_have_their_values() {
    assert_eq!(sensor_types::IMAGE, "image");
    assert_eq!(sensor_types::LIDAR, "lidar");
    assert_eq!(sensor_types::RADAR, "radar");
    assert_eq!(sensor_types::IMU, "imu");
    assert_eq!(sensor_types::COLLISION, "collision");
    assert_eq!(sensor_types::LANE_INVASION, "lane_invasion");
    assert_eq!(sensor_types::OBSTACLE_DETECTION, "obstacle_detection");
    assert_eq!(resource_ids::IMAGE, 0x1000);
    assert_eq!(resource_ids::LIDAR, 0x1001);
    assert_eq!(resource_ids::RADAR, 0x1002);
    assert_eq!(resource_ids::IMU, 0x1003);
    assert_eq!(resource_ids::COLLISION, 0x1004);
    assert_eq!(resource_ids::LANE_INVASION, 0x1005);
    assert_eq!(resource_ids::OBSTACLE_DETECTION, 0x1006);
}

#[test]
fn timestamp_is_the_measured_seconds() {
    assert_eq!(timestamp_of(Some(1_700_000_000)), 1_700_000_000);
    assert_eq!(timestamp_of(Some(1)), 1);
    assert_eq!(timestamp_of(Some(0)), 0);
    assert_eq!(timestamp_of(Some(u64::MAX)), u64::MAX);
}

#[test]
fn clock_before_the_epoch_gives_timestamp_zero() {
    assert_eq!(timestamp_of(None), 0);
}
