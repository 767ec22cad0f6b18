//! Identity of this node on the messaging fabric and the addresses of its
//! sensor topics.

use crate::sensor_types;
use crate::uprotocol::{resource_uri, resource_uri_text, verified_authority, verify_authority};
use up_rust::UUriError;
use vstd::prelude::*;

verus! {

/// Authority of the bridge unless another one is configured.
pub const BRIDGE_AUTHORITY: &'static str = "egovehicle";

/// Entity id of the bridge unless another one is configured.
pub const BRIDGE_ENTITY_ID: u32 = 0;

/// Major version of the bridge unless another one is configured.
pub const BRIDGE_VERSION_MAJOR: u8 = 2;

/// Resource id of the vehicle's velocity status.
pub const RESOURCE_VELOCITY_STATUS: u16 = 0x8001;

/// Resource id of the simulation clock's status.
pub const RESOURCE_CLOCK_STATUS: u16 = 0x8002;

pub const RESOURCE_LANE_INVASION_SENSOR: u16 = 0x8010;

pub const RESOURCE_COLLISION_SENSOR: u16 = 0x8011;

pub const RESOURCE_OBSTACLE_DETECTION_SENSOR: u16 = 0x8012;

pub const RESOURCE_IMAGE_SENSOR: u16 = 0x8013;

pub const RESOURCE_RADAR_SENSOR: u16 = 0x8014;

pub const RESOURCE_LIDAR_SENSOR: u16 = 0x8015;

pub const RESOURCE_IMU_SENSOR: u16 = 0x8016;

/// The kinds of sensor the bridge can publish.
#[derive(Debug, Clone, Copy, PartialEq, Eq, Hash)]
pub enum SensorKind {
    Image,
    Lidar,
    Radar,
    Imu,
    Collision,
    LaneInvasion,
    ObstacleDetection,
}

impl SensorKind {
    /// The resource id under which a kind of sensor is published.
    pub open spec fn resource(self) -> u16 {
        match self {
            SensorKind::Image => RESOURCE_IMAGE_SENSOR,
            SensorKind::Lidar => RESOURCE_LIDAR_SENSOR,
            SensorKind::Radar => RESOURCE_RADAR_SENSOR,
            SensorKind::Imu => RESOURCE_IMU_SENSOR,
            SensorKind::Collision => RESOURCE_COLLISION_SENSOR,
            SensorKind::LaneInvasion => RESOURCE_LANE_INVASION_SENSOR,
            SensorKind::ObstacleDetection => RESOURCE_OBSTACLE_DETECTION_SENSOR,
        }
    }

    /// The type tag that records of a kind of sensor carry.
    pub open spec fn tag(self) -> Seq<char> {
        match self {
            SensorKind::Image => sensor_types::IMAGE@,
            SensorKind::Lidar => sensor_types::LIDAR@,
            SensorKind::Radar => sensor_types::RADAR@,
            SensorKind::Imu => sensor_types::IMU@,
            SensorKind::Collision => sensor_types::COLLISION@,
            SensorKind::LaneInvasion => sensor_types::LANE_INVASION@,
            SensorKind::ObstacleDetection => sensor_types::OBSTACLE_DETECTION@,
        }
    }

    /// The resource id under which this kind of sensor is published.
    pub fn resource_id(&self) -> (id: u16)
        ensures
            id == self.resource(),
    {
        match self {
            SensorKind::Image => RESOURCE_IMAGE_SENSOR,
            SensorKind::Lidar => RESOURCE_LIDAR_SENSOR,
            SensorKind::Radar => RESOURCE_RADAR_SENSOR,
            SensorKind::Imu => RESOURCE_IMU_SENSOR,
            SensorKind::Collision => RESOURCE_COLLISION_SENSOR,
            SensorKind::LaneInvasion => RESOURCE_LANE_INVASION_SENSOR,
            SensorKind::ObstacleDetection => RESOURCE_OBSTACLE_DETECTION_SENSOR,
        }
    }

    /// The type tag that records of this kind of sensor carry.
    pub fn sensor_type(&self) -> (name: &'static str)
        ensures
            name@ == self.tag(),
    {
        match self {
            SensorKind::Image => sensor_types::IMAGE,
            SensorKind::Lidar => sensor_types::LIDAR,
            SensorKind::Radar => sensor_types::RADAR,
            SensorKind::Imu => sensor_types::IMU,
            SensorKind::Collision => sensor_types::COLLISION,
            SensorKind::LaneInvasion => sensor_types::LANE_INVASION,
            SensorKind::ObstacleDetection => sensor_types::OBSTACLE_DETECTION,
        }
    }
}

/// Within a node no two kinds of sensor share a resource id.
pub proof fn law_resource_ids_are_unique(first: SensorKind, second: SensorKind)
    ensures
        first.resource() == second.resource() <==> first == second,
{
}

/// Why a node identity could not be made.
#[derive(Debug, Clone, Copy, PartialEq, Eq)]
pub enum IdentityError {
    /// The authority name may not stand in a uProtocol URI.
    InvalidAuthority,
}

/// Who this node is on the messaging fabric. Fixed once made.
#[derive(Debug, Clone)]
pub struct NodeIdentity {
    authority: String,
    entity_id: u32,
    version_major: u8,
}

/// Mathematical content of a [`NodeIdentity`].
pub struct NodeIdentityView {
    pub authority: Seq<char>,
    pub entity_id: u32,
    pub version_major: u8,
}

impl View for NodeIdentity {
    type V = NodeIdentityView;

    closed spec fn view(&self) -> NodeIdentityView {
        NodeIdentityView {
            authority: self.authority@,
            entity_id: self.entity_id,
            version_major: self.version_major,
        }
    }
}

impl NodeIdentity {
    /// The identity that comes of a checked authority name, or the error where
    /// the check rejected the name.
    pub open spec fn admitted(
        checked: Option<Seq<char>>,
        entity_id: u32,
        version_major: u8,
    ) -> Result<NodeIdentityView, IdentityError> {
        match checked {
            Some(authority) => Ok(NodeIdentityView { authority, entity_id, version_major }),
            None => Err(IdentityError::InvalidAuthority),
        }
    }

    /// Makes the identity from the outcome of the authority check: the checked
    /// name with the entity id and version, or `InvalidAuthority` where the
    /// check failed.
    pub fn from_checked(
        checked: Result<String, UUriError>,
        entity_id: u32,
        version_major: u8,
    ) -> (identity: Result<NodeIdentity, IdentityError>)
        ensures
            match identity {
                Ok(made) => checked is Ok && made@ == (NodeIdentityView {
                    authority: checked->Ok_0@,
                    entity_id,
                    version_major,
                }),
                Err(error) => checked is Err && error == IdentityError::InvalidAuthority,
            },
    {
        match checked {
            Ok(authority) => Ok(NodeIdentity { authority, entity_id, version_major }),
            Err(_) => Err(IdentityError::InvalidAuthority),
        }
    }

    /// Makes the identity of a node. The authority name is checked as
    /// uProtocol requires; a name that fails the check gives
    /// `InvalidAuthority`.
    pub fn new(authority: &str, entity_id: u32, version_major: u8) -> (identity: Result<
        NodeIdentity,
        IdentityError,
    >)
        ensures
            match identity {
                Ok(made) => Ok::<NodeIdentityView, IdentityError>(made@),
                Err(error) => Err::<NodeIdentityView, IdentityError>(error),
            } == Self::admitted(verified_authority(authority@), entity_id, version_major),
    {
        NodeIdentity::from_checked(verify_authority(authority), entity_id, version_major)
    }

    /// The authority name.
    pub fn authority(&self) -> (authority: &str)
        ensures
            authority@ == self@.authority,
    {
        self.authority.as_str()
    }

    /// The entity id.
    pub fn entity_id(&self) -> (entity_id: u32)
        ensures
            entity_id == self@.entity_id,
    {
        self.entity_id
    }

    /// The entity's major version.
    pub fn version_major(&self) -> (version_major: u8)
        ensures
            version_major == self@.version_major,
    {
        self.version_major
    }
}

/// Where one kind of sensor is published: its resource id and the topic
/// derived from it and the node's identity.
#[derive(Debug, Clone)]
pub struct ResourceAddress {
    resource_id: u16,
    topic: String,
}

/// Mathematical content of a [`ResourceAddress`].
pub struct ResourceAddressView {
    pub resource_id: u16,
    pub topic: Seq<char>,
}

impl View for ResourceAddress {
    type V = ResourceAddressView;

    closed spec fn view(&self) -> ResourceAddressView {
        ResourceAddressView { resource_id: self.resource_id, topic: self.topic@ }
    }
}

impl ResourceAddress {
    /// The address of a resource of a node: the topic is the URI of that
    /// resource under the node's authority, entity id and version.
    pub open spec fn of(identity: NodeIdentityView, resource_id: u16) -> ResourceAddressView {
        ResourceAddressView {
            resource_id,
            topic: resource_uri_text(
                identity.authority,
                identity.entity_id,
                identity.version_major,
                resource_id,
            ),
        }
    }

    /// An address from a resource id and the topic that was derived for it.
    pub fn from_topic(resource_id: u16, topic: String) -> (address: Self)
        ensures
            address@ == (ResourceAddressView { resource_id, topic: topic@ }),
    {
        ResourceAddress { resource_id, topic }
    }

    /// Derives the address of a resource of the node.
    pub fn derive(identity: &NodeIdentity, resource_id: u16) -> (address: Self)
        ensures
            address@ == Self::of(identity@, resource_id),
    {
        let topic = resource_uri(
            identity.authority(),
            identity.entity_id(),
            identity.version_major(),
            resource_id,
        );
        ResourceAddress::from_topic(resource_id, topic)
    }

    /// Derives the address under which the node publishes a kind of sensor.
    pub fn for_kind(identity: &NodeIdentity, kind: SensorKind) -> (address: Self)
        ensures
            address@ == Self::of(identity@, kind.resource()),
    {
        ResourceAddress::derive(identity, kind.resource_id())
    }

    /// The resource id.
    pub fn resource_id(&self) -> (resource_id: u16)
        ensures
            resource_id == self@.resource_id,
    {
        self.resource_id
    }

    /// The topic messages for this resource are sent to.
    pub fn topic(&self) -> (topic: &str)
        ensures
            topic@ == self@.topic,
    {
        self.topic.as_str()
    }
}

} // verus!
