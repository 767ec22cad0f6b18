use std::cell::Cell;
use ucar_core::addressing::{NodeIdentity, ResourceAddress, SensorKind};
use ucar_core::attachment::{AttachError, AttachedSensor, PlatformReply, SampleAction};
use ucar_core::pipeline::{PayloadFormat, PublishError, SensorSpec};

fn bridge() -> NodeIdentity {
    NodeIdentity::new("egovehicle", 0, 2).unwrap()
}

fn spec_for<F>(kind: SensorKind, format: PayloadFormat, encode: F) -> SensorSpec<F> {
    SensorSpec { kind, address: ResourceAddress::for_kind(&bridge(), kind), encode, format }
}

fn text_bytes(sample: String) -> Result<Vec<u8>, String> {
    if sample.is_empty() {
        Err("nothing to encode".to_string())
    } else {
        Ok(sample.into_bytes())
    }
}

fn imu_sensor() -> AttachedSensor<fn(String) -> Result<Vec<u8>, String>> {
    let encode: fn(String) -> Result<Vec<u8>, String> = text_bytes;
    AttachedSensor::attach(
        bridge(),
        spec_for(SensorKind::Imu, PayloadFormat::Text, encode),
        PlatformReply::Attached { sensor_id: 17 },
    )
    .unwrap()
}

const DELIVERED: Result<(), String> = Ok(());

#[test]
fn attached_sensor_starts_at_sequence_zero() {
    let sensor = imu_sensor();
    assert_eq!(sensor.sensor_id(), 17);
    assert_eq!(sensor.sequence(), 0);
    assert!(!sensor.is_detached());
}

#[test]
fn unsupported_sensor_is_not_attached() {
    let encode: fn(String) -> Result<Vec<u8>, String> = text_bytes;
    let outcome = AttachedSensor::attach(
        bridge(),
        spec_for(SensorKind::Radar, PayloadFormat::Json, encode),
        PlatformReply::UnsupportedSensor,
    );
    assert_eq!(outcome.err(), Some(AttachError::UnsupportedSensor));
}

#[test]
fn vanished_actor_gets_no_sensor() {
    let encode: fn(String) -> Result<Vec<u8>, String> = text_bytes;
    let outcome = AttachedSensor::attach(
        bridge(),
        spec_for(SensorKind::Radar, PayloadFormat::Json, encode),
        PlatformReply::ActorGone,
    );
    assert_eq!(outcome.err(), Some(AttachError::ActorGone));
}

#[test]
fn sample_is_wrapped_and_counted_once_sent() {
    let mut sensor = imu_sensor();
    match sensor.on_sample(false, "0.1,0.2,9.8".to_string()) {
        SampleAction::Send(envelope) => {
            assert_eq!(envelope.metadata.authority, "egovehicle");
            assert_eq!(envelope.metadata.entity_id, 0);
            assert_eq!(envelope.metadata.resource_id, 0x8016);
            assert_eq!(envelope.metadata.sequence, 0);
            assert_eq!(envelope.topic, "up://egovehicle/0/2/8016");
            assert_eq!(envelope.payload, b"0.1,0.2,9.8".to_vec());
            assert_eq!(envelope.payload_format, PayloadFormat::Text);
        }
        other => panic!("expected an envelope, got {:?}", other),
    }
    assert_eq!(sensor.sequence(), 0);
    assert_eq!(sensor.on_delivery(0, DELIVERED), Ok(()));
    assert_eq!(sensor.sequence(), 1);
    assert_eq!(
        sensor.on_delivery(0, DELIVERED),
        Err(PublishError::NotInFlight { kind: SensorKind::Imu, sequence: 0 })
    );
    assert_eq!(sensor.sequence(), 1);
}

#[test]
fn bad_sample_is_dropped_and_the_next_one_published() {
    let mut sensor = imu_sensor();
    assert_eq!(
        sensor.on_sample(false, String::new()),
        SampleAction::Dropped(PublishError::EncodeFailed { kind: SensorKind::Imu, sequence: 0 })
    );
    assert_eq!(sensor.sequence(), 0);
    assert!(!sensor.is_detached());
    assert!(matches!(sensor.on_sample(false, "ok".to_string()), SampleAction::Send(_)));
}

#[test]
fn failed_send_is_reported_and_forgotten() {
    let mut sensor = imu_sensor();
    assert!(matches!(sensor.on_sample(false, "a".to_string()), SampleAction::Send(_)));
    assert_eq!(
        sensor.on_delivery(0, Err::<(), u8>(4)),
        Err(PublishError::SendFailed { kind: SensorKind::Imu, sequence: 0 })
    );
    assert_eq!(sensor.sequence(), 0);
    match sensor.on_sample(false, "b".to_string()) {
        SampleAction::Send(envelope) => assert_eq!(envelope.metadata.sequence, 0),
        other => panic!("expected an envelope, got {:?}", other),
    }
}

#[test]
fn detach_is_idempotent() {
    let mut sensor = imu_sensor();
    assert!(matches!(sensor.on_sample(false, "a".to_string()), SampleAction::Send(_)));
    sensor.on_delivery(0, DELIVERED).unwrap();
    assert!(sensor.detach());
    assert!(sensor.is_detached());
    for _ in 0..3 {
        assert!(!sensor.detach());
        assert!(sensor.is_detached());
        assert_eq!(sensor.sequence(), 1);
        assert_eq!(sensor.sensor_id(), 17);
    }
}

#[test]
fn detached_sensor_passes_over_samples_without_encoding() {
    let calls = Cell::new(0u32);
    let encode = |sample: u8| -> Result<Vec<u8>, String> {
        calls.set(calls.get() + 1);
        Ok(vec![sample])
    };
    let mut sensor = AttachedSensor::attach(
        bridge(),
        spec_for(SensorKind::Collision, PayloadFormat::Raw, &encode),
        PlatformReply::Attached { sensor_id: 3 },
    )
    .unwrap();
    assert!(matches!(sensor.on_sample(false, 1), SampleAction::Send(_)));
    assert_eq!(calls.get(), 1);
    assert!(sensor.detach());
    assert_eq!(sensor.on_sample(false, 2), SampleAction::Ignore);
    assert_eq!(sensor.on_sample(true, 3), SampleAction::Ignore);
    assert_eq!(sensor.on_encoded(false, Ok::<Vec<u8>, String>(vec![4])), SampleAction::Ignore);
    assert_eq!(calls.get(), 1);
    assert_eq!(sensor.sequence(), 0);
}

#[test]
fn cancellation_detaches_at_the_next_sample() {
    let calls = Cell::new(0u32);
    let encode = |sample: u8| -> Result<Vec<u8>, String> {
        calls.set(calls.get() + 1);
        Ok(vec![sample])
    };
    let mut sensor = AttachedSensor::attach(
        bridge(),
        spec_for(SensorKind::LaneInvasion, PayloadFormat::Raw, &encode),
        PlatformReply::Attached { sensor_id: 3 },
    )
    .unwrap();
    assert_eq!(sensor.on_sample(true, 1), SampleAction::Detach);
    assert!(sensor.is_detached());
    assert_eq!(calls.get(), 0);
    assert_eq!(sensor.on_sample(true, 2), SampleAction::Ignore);
    // Detaching once more, by hand, changes nothing.
    assert!(!sensor.detach());
    assert_eq!(sensor.sequence(), 0);
}

#[test]
fn encoded_result_is_taken_as_given() {
    let mut sensor = imu_sensor();
    match sensor.on_encoded(false, Ok::<Vec<u8>, String>(vec![9, 8, 7])) {
        SampleAction::Send(envelope) => assert_eq!(envelope.payload, vec![9, 8, 7]),
        other => panic!("expected an envelope, got {:?}", other),
    }
    assert_eq!(
        sensor.on_encoded(false, Err::<Vec<u8>, u32>(5)),
        SampleAction::Dropped(PublishError::EncodeFailed { kind: SensorKind::Imu, sequence: 0 })
    );
    assert_eq!(sensor.on_encoded(true, Ok::<Vec<u8>, String>(vec![1])), SampleAction::Detach);
}

#[test]
fn sensors_of_different_sample_types_share_one_contract() {
    let encode_pair = |sample: (u16, u16)| -> Result<Vec<u8>, String> {
        Ok(vec![
            (sample.0 >> 8) as u8,
            sample.0 as u8,
            (sample.1 >> 8) as u8,
            sample.1 as u8,
        ])
    };
    let mut pairs = AttachedSensor::attach(
        bridge(),
        spec_for(SensorKind::ObstacleDetection, PayloadFormat::Raw, encode_pair),
        PlatformReply::Attached { sensor_id: 1 },
    )
    .unwrap();
    let mut texts = imu_sensor();
    for round in 0..3u16 {
        match pairs.on_sample(false, (0x0102, round)) {
            SampleAction::Send(envelope) => {
                assert_eq!(envelope.payload, vec![1, 2, 0, round as u8]);
                assert_eq!(envelope.metadata.sequence, round as u64);
                assert_eq!(envelope.metadata.resource_id, 0x8012);
            }
            other => panic!("expected an envelope, got {:?}", other),
        }
        pairs.on_delivery(round as u64, DELIVERED).unwrap();
    }
    match texts.on_sample(false, "first".to_string()) {
        SampleAction::Send(envelope) => assert_eq!(envelope.metadata.sequence, 0),
        other => panic!("expected an envelope, got {:?}", other),
    }
    assert_eq!(pairs.sequence(), 3);
    assert_eq!(texts.sequence(), 0);
}

#[test]
fn send_that_ends_after_detaching_is_still_counted() {
    let mut sensor = imu_sensor();
    assert!(matches!(sensor.on_sample(false, "a".to_string()), SampleAction::Send(_)));
    assert!(sensor.detach());
    assert_eq!(sensor.on_delivery(0, DELIVERED), Ok(()));
    assert_eq!(sensor.sequence(), 1);
    assert!(sensor.is_detached());
}
