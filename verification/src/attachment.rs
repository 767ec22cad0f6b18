//! Sensors attached to the located vehicle.
//!
//! The simulator attaches a sensor and calls back with samples; the caller
//! reports both here. An [`AttachedSensor`] passes each sample through its
//! publish pipeline until it is detached, which happens once: on request, or
//! at the first sample that arrives after shutdown has been signalled.

use crate::addressing::NodeIdentity;
use crate::pipeline::{
    encoded_bytes, Envelope, EnvelopeView, PipelineView, PublishError, PublishPipeline, SensorSpec,
};
use vstd::prelude::*;

verus! {

/// Why a sensor was not attached. The failure concerns that sensor alone.
#[derive(Debug, Clone, Copy, PartialEq, Eq)]
pub enum AttachError {
    /// Shutdown has been signalled: no new sensor is attached.
    ShuttingDown,
    /// A sensor with the same resource id is attached already.
    ResourceInUse,
    /// The vehicle does not support this kind of sensor.
    UnsupportedSensor,
    /// The vehicle is no longer in the simulation.
    ActorGone,
}

/// What the simulator answered when asked to attach a sensor.
#[derive(Debug, Clone, Copy, PartialEq, Eq)]
pub enum PlatformReply {
    /// The sensor is attached; `sensor_id` names it for detaching.
    Attached { sensor_id: u32 },
    /// The vehicle does not support this kind of sensor.
    UnsupportedSensor,
    /// The vehicle is no longer in the simulation.
    ActorGone,
}

/// What is to be done about one sample.
#[derive(Debug, Clone, PartialEq, Eq)]
pub enum SampleAction {
    /// Send the envelope, then report how the send went.
    Send(Envelope),
    /// The sample is dropped for the given reason; go on with the next one.
    Dropped(PublishError),
    /// Shutdown was signalled: the sensor is detached now. Stop the
    /// simulator's callbacks for it.
    Detach,
    /// The sensor is detached already; the sample is passed over.
    Ignore,
}

/// Mathematical content of a [`SampleAction`].
pub enum SampleActionView {
    Send(EnvelopeView),
    Dropped(PublishError),
    Detach,
    Ignore,
}

impl View for SampleAction {
    type V = SampleActionView;

    open spec fn view(&self) -> SampleActionView {
        match self {
            SampleAction::Send(envelope) => SampleActionView::Send(envelope@),
            SampleAction::Dropped(error) => SampleActionView::Dropped(*error),
            SampleAction::Detach => SampleActionView::Detach,
            SampleAction::Ignore => SampleActionView::Ignore,
        }
    }
}

/// A sensor attached to the vehicle, with its publish pipeline.
pub struct AttachedSensor<F> {
    pipeline: PublishPipeline<F>,
    sensor_id: u32,
    detached: bool,
}

/// Mathematical content of an [`AttachedSensor`].
pub struct AttachedSensorView {
    pub pipeline: PipelineView,
    pub sensor_id: u32,
    pub detached: bool,
}

impl AttachedSensorView {
    /// The sensor once detached.
    pub open spec fn unhooked(self) -> AttachedSensorView {
        AttachedSensorView { pipeline: self.pipeline, sensor_id: self.sensor_id, detached: true }
    }

    /// The sensor after a request to detach it, and whether that request is
    /// the one that detached it.
    pub open spec fn released(self) -> (AttachedSensorView, bool) {
        (self.unhooked(), !self.detached)
    }

    /// The sensor after a sample, and what is to be done about the sample.
    /// `cancelled` is the cancellation flag as read when the sample arrived,
    /// `encoded` what the encoder made of the sample.
    pub open spec fn reaction(self, cancelled: bool, encoded: Option<Seq<u8>>) -> (
        AttachedSensorView,
        SampleActionView,
    ) {
        if self.detached {
            (self, SampleActionView::Ignore)
        } else if cancelled {
            (self.unhooked(), SampleActionView::Detach)
        } else {
            match self.pipeline.wrapped(encoded) {
                Ok(envelope) => (self, SampleActionView::Send(envelope)),
                Err(error) => (self, SampleActionView::Dropped(error)),
            }
        }
    }

    /// The sensor after the send of the envelope numbered `sequence` has been
    /// reported, and what is reported for the sample.
    pub open spec fn settled(self, sequence: u64, delivered: bool) -> (
        AttachedSensorView,
        Result<(), PublishError>,
    ) {
        (
            AttachedSensorView {
                pipeline: self.pipeline.settled(sequence, delivered).0,
                sensor_id: self.sensor_id,
                detached: self.detached,
            },
            self.pipeline.settled(sequence, delivered).1,
        )
    }
}

impl<F> View for AttachedSensor<F> {
    type V = AttachedSensorView;

    closed spec fn view(&self) -> AttachedSensorView {
        AttachedSensorView {
            pipeline: self.pipeline@,
            sensor_id: self.sensor_id,
            detached: self.detached,
        }
    }
}

impl<F> AttachedSensor<F> {
    /// The encoder of the sensor.
    pub closed spec fn encoder(self) -> F {
        self.pipeline.encoder()
    }

    /// What comes of the simulator's answer to an attach request.
    pub open spec fn attached(
        pipeline: PipelineView,
        reply: PlatformReply,
    ) -> Result<AttachedSensorView, AttachError> {
        match reply {
            PlatformReply::Attached { sensor_id } => Ok(
                AttachedSensorView { pipeline, sensor_id, detached: false },
            ),
            PlatformReply::UnsupportedSensor => Err(AttachError::UnsupportedSensor),
            PlatformReply::ActorGone => Err(AttachError::ActorGone),
        }
    }

    /// Takes the simulator's answer to the request to attach the sensor that
    /// `spec` describes. Where the sensor was attached, it is returned with a
    /// new pipeline under the node's identity; where the simulator refused,
    /// the reason is.
    pub fn attach(identity: NodeIdentity, spec: SensorSpec<F>, reply: PlatformReply) -> (outcome:
        Result<Self, AttachError>)
        ensures
            match outcome {
                Ok(sensor) => Ok::<AttachedSensorView, AttachError>(sensor@),
                Err(error) => Err::<AttachedSensorView, AttachError>(error),
            } == Self::attached(
                PipelineView {
                    identity: identity@,
                    kind: spec.kind,
                    address: spec.address@,
                    format: spec.format,
                    sequence: 0,
                },
                reply,
            ),
            outcome matches Ok(sensor) ==> sensor.encoder() == spec.encode,
    {
        match reply {
            PlatformReply::Attached { sensor_id } => Ok(
                AttachedSensor {
                    pipeline: PublishPipeline::new(identity, spec),
                    sensor_id,
                    detached: false,
                },
            ),
            PlatformReply::UnsupportedSensor => Err(AttachError::UnsupportedSensor),
            PlatformReply::ActorGone => Err(AttachError::ActorGone),
        }
    }

    /// The simulator's id of the sensor.
    pub fn sensor_id(&self) -> (sensor_id: u32)
        ensures
            sensor_id == self@.sensor_id,
    {
        self.sensor_id
    }

    /// Whether the sensor has been detached.
    pub fn is_detached(&self) -> (detached: bool)
        ensures
            detached == self@.detached,
    {
        self.detached
    }

    /// The sequence number the next published message will carry.
    pub fn sequence(&self) -> (sequence: u64)
        ensures
            sequence == self@.pipeline.sequence,
    {
        self.pipeline.sequence()
    }

    /// Takes what the encoder made of a sample that arrived while the
    /// cancellation flag read `cancelled`.
    pub fn on_encoded<E>(&mut self, cancelled: bool, encoded: Result<Vec<u8>, E>) -> (action:
        SampleAction)
        ensures
            final(self)@ == old(self)@.reaction(cancelled, encoded_bytes(encoded)).0,
            action@ == old(self)@.reaction(cancelled, encoded_bytes(encoded)).1,
            final(self).encoder() == old(self).encoder(),
    {
        if self.detached {
            SampleAction::Ignore
        } else if cancelled {
            self.detached = true;
            SampleAction::Detach
        } else {
            match self.pipeline.wrap(encoded) {
                Ok(envelope) => SampleAction::Send(envelope),
                Err(error) => SampleAction::Dropped(error),
            }
        }
    }

    /// Takes a sample that arrived while the cancellation flag read
    /// `cancelled`. A detached sensor and a sensor that finds the flag set do
    /// not encode the sample; otherwise the action is what
    /// [`on_encoded`](Self::on_encoded) gives for some result the encoder may
    /// give for the sample.
    pub fn on_sample<S, E>(&mut self, cancelled: bool, sample: S) -> (action: SampleAction) where
        F: Fn(S) -> Result<Vec<u8>, E>,

        requires
            call_requires(old(self).encoder(), (sample,)),
        ensures
            final(self).encoder() == old(self).encoder(),
            old(self)@.detached || cancelled ==> {
                &&& final(self)@ == old(self)@.reaction(cancelled, None).0
                &&& action@ == old(self)@.reaction(cancelled, None).1
            },
            !old(self)@.detached && !cancelled ==> exists|encoded: Result<Vec<u8>, E>|
                {
                    &&& #[trigger] call_ensures(old(self).encoder(), (sample,), encoded)
                    &&& final(self)@ == old(self)@.reaction(cancelled, encoded_bytes(encoded)).0
                    &&& action@ == old(self)@.reaction(cancelled, encoded_bytes(encoded)).1
                },
    {
        if self.detached {
            SampleAction::Ignore
        } else if cancelled {
            self.detached = true;
            SampleAction::Detach
        } else {
            match self.pipeline.prepare(sample) {
                Ok(envelope) => SampleAction::Send(envelope),
                Err(error) => SampleAction::Dropped(error),
            }
        }
    }

    /// Takes note of how the send of the envelope numbered `sequence` went.
    pub fn on_delivery<D>(&mut self, sequence: u64, delivery: Result<(), D>) -> (outcome: Result<
        (),
        PublishError,
    >)
        ensures
            final(self)@ == old(self)@.settled(sequence, delivery is Ok).0,
            outcome == old(self)@.settled(sequence, delivery is Ok).1,
            final(self).encoder() == old(self).encoder(),
    {
        self.pipeline.settle(sequence, delivery)
    }

    /// Detaches the sensor. Returns whether this call is the one that
    /// detached it, in which case the simulator's callbacks for it are to be
    /// stopped; on a sensor that is detached already nothing changes.
    pub fn detach(&mut self) -> (released: bool)
        ensures
            final(self)@ == old(self)@.released().0,
            released == old(self)@.released().1,
            final(self).encoder() == old(self).encoder(),
    {
        let released = !self.detached;
        self.detached = true;
        released
    }
}

/// Detaching a sensor that is detached already has no effect: the sensor is
/// as it was and nothing is to be released.
pub proof fn law_detach_is_idempotent(sensor: AttachedSensorView)
    ensures
        sensor.released().0.released() == (sensor.released().0, false),
        sensor.detached ==> sensor.released() == (sensor, false),
{
}

/// A detached sensor passes over every sample: nothing is encoded into an
/// envelope, nothing is sent, and the sensor stays as it is.
pub proof fn law_detached_sensor_is_silent(
    sensor: AttachedSensorView,
    cancelled: bool,
    encoded: Option<Seq<u8>>,
)
    requires
        sensor.detached,
    ensures
        sensor.reaction(cancelled, encoded) == (sensor, SampleActionView::Ignore),
{
}

/// A sensor that is still attached detaches at the first sample that finds
/// the cancellation flag set, without publishing that sample.
pub proof fn law_cancellation_detaches_at_next_sample(
    sensor: AttachedSensorView,
    encoded: Option<Seq<u8>>,
)
    requires
        !sensor.detached,
    ensures
        sensor.reaction(true, encoded) == (sensor.unhooked(), SampleActionView::Detach),
        sensor.reaction(true, encoded).0.pipeline == sensor.pipeline,
{
}

} // verus!
