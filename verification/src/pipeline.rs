//! Numbering and wrapping sensor samples for publication.
//!
//! A [`PublishPipeline`] belongs to one attached sensor. For each sample it
//! takes the encoder's result and either wraps the bytes into an [`Envelope`]
//! that carries the sensor's next sequence number, or drops the sample. The
//! caller sends the envelope and reports how the send went; only a send that
//! succeeded moves the sequence number on.

use crate::addressing::{
    NodeIdentity, NodeIdentityView, ResourceAddress, ResourceAddressView, SensorKind,
};
use crate::{SensorMetadata, SensorMetadataView};
use vstd::prelude::*;

verus! {

/// How the bytes of a payload are to be read.
#[derive(Debug, Clone, Copy, PartialEq, Eq)]
pub enum PayloadFormat {
    Unspecified,
    ProtobufWrappedInAny,
    Protobuf,
    Json,
    Someip,
    SomeipTlv,
    Raw,
    Text,
    Shm,
}

/// What the bridge publishes for one kind of sensor: where, how the samples
/// are turned into bytes, and in which format those bytes are.
pub struct SensorSpec<F> {
    pub kind: SensorKind,
    pub address: ResourceAddress,
    pub encode: F,
    pub format: PayloadFormat,
}

impl<F> SensorSpec<F> {
    /// What the node publishes for a kind of sensor, at the address that
    /// follows from the node's identity and the kind's resource id.
    pub fn new(
        identity: &NodeIdentity,
        kind: SensorKind,
        encode: F,
        format: PayloadFormat,
    ) -> (spec: Self)
        ensures
            spec.kind == kind,
            spec.address@ == ResourceAddress::of(identity@, kind.resource()),
            spec.encode == encode,
            spec.format == format,
    {
        SensorSpec { kind, address: ResourceAddress::for_kind(identity, kind), encode, format }
    }
}

/// One outgoing message: the routing metadata, the topic it is sent to, and
/// the encoded sample.
#[derive(Debug, Clone, PartialEq, Eq)]
pub struct Envelope {
    pub metadata: SensorMetadata,
    pub topic: String,
    pub payload: Vec<u8>,
    pub payload_format: PayloadFormat,
}

/// Mathematical content of an [`Envelope`].
pub struct EnvelopeView {
    pub metadata: SensorMetadataView,
    pub topic: Seq<char>,
    pub payload: Seq<u8>,
    pub payload_format: PayloadFormat,
}

impl View for Envelope {
    type V = EnvelopeView;

    open spec fn view(&self) -> EnvelopeView {
        EnvelopeView {
            metadata: self.metadata@,
            topic: self.topic@,
            payload: self.payload@,
            payload_format: self.payload_format,
        }
    }
}

/// Why a sample was not published. Each sample fails on its own: the pipeline
/// goes on with the next one.
#[derive(Debug, Clone, Copy, PartialEq, Eq)]
pub enum PublishError {
    /// The encoder rejected the sample that would have carried `sequence`.
    EncodeFailed { kind: SensorKind, sequence: u64 },
    /// The transport did not take the message that carried `sequence`.
    SendFailed { kind: SensorKind, sequence: u64 },
    /// Every sequence number has been given out.
    SequenceExhausted { kind: SensorKind },
    /// A send was reported for `sequence`, which is not the number of the
    /// pipeline's current envelope: the report is stale or was made twice.
    NotInFlight { kind: SensorKind, sequence: u64 },
}

/// What became of one sample, as far as that is decided outside the pipeline.
#[derive(Debug, Clone, Copy, PartialEq, Eq)]
pub enum SampleFate {
    /// The encoder rejected the sample.
    EncodeFailed,
    /// The sample was encoded, and the transport did not take the message.
    SendFailed,
    /// The sample was encoded, and the transport took the message.
    Published,
}

/// The publish pipeline of one sensor.
pub struct PublishPipeline<F> {
    identity: NodeIdentity,
    spec: SensorSpec<F>,
    sequence: u64,
}

/// Mathematical content of a [`PublishPipeline`].
pub struct PipelineView {
    pub identity: NodeIdentityView,
    pub kind: SensorKind,
    pub address: ResourceAddressView,
    pub format: PayloadFormat,
    pub sequence: u64,
}

/// The bytes an encoder produced, or `None` where it failed.
pub open spec fn encoded_bytes<E>(encoded: Result<Vec<u8>, E>) -> Option<Seq<u8>> {
    match encoded {
        Ok(bytes) => Some(bytes@),
        Err(_) => None,
    }
}

impl PipelineView {
    /// The envelope around a payload: the node's authority and entity id, the
    /// sensor's resource id, topic and format, and the current sequence number.
    pub open spec fn envelope(self, payload: Seq<u8>) -> EnvelopeView {
        EnvelopeView {
            metadata: SensorMetadataView {
                authority: self.identity.authority,
                entity_id: self.identity.entity_id,
                resource_id: self.address.resource_id,
                sequence: self.sequence,
            },
            topic: self.address.topic,
            payload,
            payload_format: self.format,
        }
    }

    /// What is made of an encoder's result: an envelope to send, or the reason
    /// the sample is dropped.
    pub open spec fn wrapped(self, encoded: Option<Seq<u8>>) -> Result<EnvelopeView, PublishError> {
        match encoded {
            None => Err(PublishError::EncodeFailed { kind: self.kind, sequence: self.sequence }),
            Some(payload) => if self.sequence == u64::MAX {
                Err(PublishError::SequenceExhausted { kind: self.kind })
            } else {
                Ok(self.envelope(payload))
            },
        }
    }

    /// The pipeline with the sequence number set.
    pub open spec fn at(self, sequence: u64) -> PipelineView {
        PipelineView {
            identity: self.identity,
            kind: self.kind,
            address: self.address,
            format: self.format,
            sequence,
        }
    }

    /// The pipeline after the send of the envelope numbered `sequence` has
    /// been reported, and what is reported for the sample. Only a report for
    /// the current sequence number counts: a send that succeeded moves the
    /// number on by one, a send that failed leaves the pipeline as it was, and
    /// so does a report for any other number.
    pub open spec fn settled(self, sequence: u64, delivered: bool) -> (
        PipelineView,
        Result<(), PublishError>,
    ) {
        if sequence != self.sequence {
            (self, Err(PublishError::NotInFlight { kind: self.kind, sequence }))
        } else if !delivered {
            (self, Err(PublishError::SendFailed { kind: self.kind, sequence }))
        } else if self.sequence == u64::MAX {
            (self, Err(PublishError::SequenceExhausted { kind: self.kind }))
        } else {
            (self.at((self.sequence + 1) as u64), Ok(()))
        }
    }

    /// The sequence number that goes to the transport with a sample of the
    /// given fate, where a send is attempted at all.
    pub open spec fn attempted(self, fate: SampleFate) -> Option<u64> {
        if fate is EncodeFailed || self.sequence == u64::MAX {
            None
        } else {
            Some(self.sequence)
        }
    }

    /// The pipeline after a sample of the given fate has passed through it.
    pub open spec fn after_sample(self, fate: SampleFate) -> PipelineView {
        if self.attempted(fate) is Some {
            self.settled(self.sequence, fate is Published).0
        } else {
            self
        }
    }

    /// The pipeline after samples of the given fates, in order.
    pub open spec fn after_samples(self, fates: Seq<SampleFate>) -> PipelineView
        decreases fates.len(),
    {
        if fates.len() == 0 {
            self
        } else {
            self.after_samples(fates.drop_last()).after_sample(fates.last())
        }
    }

    /// The sequence numbers of the messages the transport took, in order, for
    /// samples of the given fates.
    pub open spec fn delivered(self, fates: Seq<SampleFate>) -> Seq<u64>
        decreases fates.len(),
    {
        if fates.len() == 0 {
            Seq::empty()
        } else {
            let before = self.after_samples(fates.drop_last());
            let earlier = self.delivered(fates.drop_last());
            if fates.last() is Published && before.attempted(fates.last()) is Some {
                earlier.push(before.sequence)
            } else {
                earlier
            }
        }
    }
}

impl<F> View for PublishPipeline<F> {
    type V = PipelineView;

    closed spec fn view(&self) -> PipelineView {
        PipelineView {
            identity: self.identity@,
            kind: self.spec.kind,
            address: self.spec.address@,
            format: self.spec.format,
            sequence: self.sequence,
        }
    }
}

impl<F> PublishPipeline<F> {
    /// The encoder of the pipeline's sensor.
    pub closed spec fn encoder(self) -> F {
        self.spec.encode
    }

    /// The pipeline of a sensor of the given node. Its sequence number starts
    /// at 0.
    pub fn new(identity: NodeIdentity, spec: SensorSpec<F>) -> (pipeline: Self)
        ensures
            pipeline@ == (PipelineView {
                identity: identity@,
                kind: spec.kind,
                address: spec.address@,
                format: spec.format,
                sequence: 0,
            }),
            pipeline.encoder() == spec.encode,
    {
        PublishPipeline::starting_at(identity, spec, 0)
    }

    /// The pipeline of a sensor of the given node whose next message carries
    /// `sequence`.
    pub fn starting_at(identity: NodeIdentity, spec: SensorSpec<F>, sequence: u64) -> (pipeline:
        Self)
        ensures
            pipeline@ == (PipelineView {
                identity: identity@,
                kind: spec.kind,
                address: spec.address@,
                format: spec.format,
                sequence,
            }),
            pipeline.encoder() == spec.encode,
    {
        PublishPipeline { identity, spec, sequence }
    }

    /// The sequence number the next published message will carry.
    pub fn sequence(&self) -> (sequence: u64)
        ensures
            sequence == self@.sequence,
    {
        self.sequence
    }

    /// The kind of sensor the pipeline publishes.
    pub fn kind(&self) -> (kind: SensorKind)
        ensures
            kind == self@.kind,
    {
        self.spec.kind
    }

    /// Wraps the encoder's result for sending. An encoder failure drops the
    /// sample; nothing is to be sent then, and the pipeline is as before.
    pub fn wrap<E>(&self, encoded: Result<Vec<u8>, E>) -> (outcome: Result<Envelope, PublishError>)
        ensures
            match outcome {
                Ok(envelope) => Ok::<EnvelopeView, PublishError>(envelope@),
                Err(error) => Err::<EnvelopeView, PublishError>(error),
            } == self@.wrapped(encoded_bytes(encoded)),
    {
        match encoded {
            Err(_) => Err(
                PublishError::EncodeFailed { kind: self.spec.kind, sequence: self.sequence },
            ),
            Ok(payload) => {
                if self.sequence == u64::MAX {
                    Err(PublishError::SequenceExhausted { kind: self.spec.kind })
                } else {
                    Ok(
                        Envelope {
                            metadata: SensorMetadata {
                                authority: self.identity.authority().to_string(),
                                entity_id: self.identity.entity_id(),
                                resource_id: self.spec.address.resource_id(),
                                sequence: self.sequence,
                            },
                            topic: self.spec.address.topic().to_string(),
                            payload,
                            payload_format: self.spec.format,
                        },
                    )
                }
            },
        }
    }

    /// Encodes a sample with the sensor's encoder and wraps the result for
    /// sending: the outcome is what [`wrap`](Self::wrap) makes of some result
    /// the encoder may give for the sample.
    pub fn prepare<S, E>(&self, sample: S) -> (outcome: Result<Envelope, PublishError>) where
        F: Fn(S) -> Result<Vec<u8>, E>,

        requires
            call_requires(self.encoder(), (sample,)),
        ensures
            exists|encoded: Result<Vec<u8>, E>|
                {
                    &&& #[trigger] call_ensures(self.encoder(), (sample,), encoded)
                    &&& match outcome {
                        Ok(envelope) => Ok::<EnvelopeView, PublishError>(envelope@),
                        Err(error) => Err::<EnvelopeView, PublishError>(error),
                    } == self@.wrapped(encoded_bytes(encoded))
                },
    {
        let encoded = (self.spec.encode)(sample);
        self.wrap(encoded)
    }

    /// Takes note of how the send of the envelope numbered `sequence` went.
    /// A send that succeeded moves the sequence number on by exactly one; a
    /// send that failed drops the sample and leaves the pipeline as it was.
    /// A report for another number than the current one changes nothing, so
    /// that no envelope is counted twice.
    pub fn settle<D>(&mut self, sequence: u64, delivery: Result<(), D>) -> (outcome: Result<
        (),
        PublishError,
    >)
        ensures
            final(self)@ == old(self)@.settled(sequence, delivery is Ok).0,
            outcome == old(self)@.settled(sequence, delivery is Ok).1,
            final(self).encoder() == old(self).encoder(),
    {
        if sequence != self.sequence {
            return Err(PublishError::NotInFlight { kind: self.spec.kind, sequence });
        }
        match delivery {
            Err(_) => Err(PublishError::SendFailed { kind: self.spec.kind, sequence }),
            Ok(_) => {
                if self.sequence == u64::MAX {
                    Err(PublishError::SequenceExhausted { kind: self.spec.kind })
                } else {
                    self.sequence = self.sequence + 1;
                    Ok(())
                }
            },
        }
    }
}

/// A sample that is encoded and sent with success carries the current
/// sequence number, and the number is exactly one higher afterwards.
pub proof fn law_success_moves_on_by_one(pipeline: PipelineView, payload: Seq<u8>)
    requires
        pipeline.sequence < u64::MAX,
    ensures
        pipeline.wrapped(Some(payload)) == Ok::<EnvelopeView, PublishError>(
            pipeline.envelope(payload),
        ),
        pipeline.envelope(payload).metadata.sequence == pipeline.sequence,
        pipeline.settled(pipeline.sequence, true) == (
            pipeline.at((pipeline.sequence + 1) as u64),
            Ok::<(), PublishError>(()),
        ),
        pipeline.after_sample(SampleFate::Published).sequence == pipeline.sequence + 1,
{
}

/// A sample the encoder rejects is dropped before anything is sent, and the
/// pipeline, its sequence number included, is as it was.
pub proof fn law_encode_failure_sends_nothing(pipeline: PipelineView)
    ensures
        pipeline.wrapped(None) == Err::<EnvelopeView, PublishError>(
            PublishError::EncodeFailed { kind: pipeline.kind, sequence: pipeline.sequence },
        ),
        pipeline.attempted(SampleFate::EncodeFailed) is None,
        pipeline.after_sample(SampleFate::EncodeFailed) == pipeline,
{
}

/// A sample whose send fails is dropped, and the pipeline, its sequence
/// number included, is as it was.
pub proof fn law_send_failure_changes_nothing(pipeline: PipelineView)
    ensures
        pipeline.settled(pipeline.sequence, false) == (
            pipeline,
            Err::<(), PublishError>(
                PublishError::SendFailed { kind: pipeline.kind, sequence: pipeline.sequence },
            ),
        ),
        pipeline.after_sample(SampleFate::SendFailed) == pipeline,
{
}

/// What goes to the transport for a sample is the sequence number of the
/// envelope made from the encoder's result, whatever the payload, and
/// nothing where no envelope is made.
pub proof fn law_envelope_number_is_what_is_sent(
    pipeline: PipelineView,
    fate: SampleFate,
    payload: Seq<u8>,
)
    ensures
        pipeline.attempted(fate) == match pipeline.wrapped(
            if fate is EncodeFailed {
                None
            } else {
                Some(payload)
            },
        ) {
            Ok(envelope) => Some(envelope.metadata.sequence),
            Err(_) => None,
        },
{
}

/// A send is counted once: after the report of a success has moved the
/// sequence number on, the same report made again changes nothing.
pub proof fn law_send_is_counted_once(pipeline: PipelineView, sequence: u64, delivered: bool)
    requires
        pipeline.settled(sequence, delivered).1 is Ok,
    ensures
        pipeline.settled(sequence, delivered).0.sequence == pipeline.sequence + 1,
        pipeline.settled(sequence, delivered).0.settled(sequence, delivered) == (
            pipeline.settled(sequence, delivered).0,
            Err::<(), PublishError>(PublishError::NotInFlight { kind: pipeline.kind, sequence }),
        ),
{
}

/// A sample that fails, in the encoder or in the send, leaves no trace: the
/// samples after it are handled as if it had never come.
pub proof fn law_failed_sample_leaves_no_trace(
    pipeline: PipelineView,
    before: Seq<SampleFate>,
    failed: SampleFate,
    after: Seq<SampleFate>,
)
    requires
        !(failed is Published),
    ensures
        pipeline.after_samples(before + seq![failed] + after) == pipeline.after_samples(
            before + after,
        ),
        pipeline.delivered(before + seq![failed] + after) == pipeline.delivered(before + after),
    decreases after.len(),
{
    let with = before + seq![failed] + after;
    let without = before + after;
    if after.len() == 0 {
        assert(with.drop_last() == before);
    } else {
        assert(with.drop_last() == before + seq![failed] + after.drop_last());
        assert(without.drop_last() == before + after.drop_last());
        law_failed_sample_leaves_no_trace(pipeline, before, failed, after.drop_last());
    }
}

/// The messages the transport takes carry consecutive sequence numbers in the
/// order the samples came: no gap, no repeat, whatever failed in between. The
/// sequence number of the pipeline counts them.
pub proof fn law_delivered_numbers_are_consecutive(pipeline: PipelineView, fates: Seq<SampleFate>)
    ensures
        forall|i: int|
            0 <= i < pipeline.delivered(fates).len() ==> #[trigger] pipeline.delivered(fates)[i]
                == pipeline.sequence + i,
        pipeline.after_samples(fates) == pipeline.at(pipeline.after_samples(fates).sequence),
        pipeline.after_samples(fates).sequence == pipeline.sequence + pipeline.delivered(
            fates,
        ).len(),
    decreases fates.len(),
{
    if fates.len() > 0 {
        law_delivered_numbers_are_consecutive(pipeline, fates.drop_last());
    }
}

/// A new pipeline whose samples are all encoded and sent with success numbers
/// them 0, 1, 2, ... in order.
pub proof fn law_published_samples_count_from_zero(pipeline: PipelineView, fates: Seq<SampleFate>)
    requires
        pipeline.sequence == 0,
        fates.len() <= u64::MAX,
        forall|i: int| 0 <= i < fates.len() ==> #[trigger] fates[i] is Published,
    ensures
        pipeline.delivered(fates) == Seq::new(fates.len(), |i: int| i as u64),
        pipeline.after_samples(fates).sequence == fates.len(),
    decreases fates.len(),
{
    if fates.len() > 0 {
        law_published_samples_count_from_zero(pipeline, fates.drop_last());
    }
}

} // verus!
