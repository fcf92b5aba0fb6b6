//! The three kinds of child object that the controller owns, as plain data.
//!
//! Each type has a view in which every string is its sequence of characters
//! and every string map is a mathematical map. Two definitions with the same
//! view are written to the store as the same bytes.

use crate::string_map::StringMap;
use vstd::prelude::*;

verus! {

/// Where an object lives in the store: its namespace and its name.
#[derive(Debug)]
pub struct ObjectKey {
    pub namespace: String,
    pub name: String,
}

/// The view of [`ObjectKey`]: its strings as their characters, its numbers and maps as
/// mathematical ones.
pub struct ObjectKeyView {
    pub namespace: Seq<char>,
    pub name: Seq<char>,
}

impl View for ObjectKey {
    type V = ObjectKeyView;

    open spec fn view(&self) -> ObjectKeyView {
        ObjectKeyView { namespace: self.namespace@, name: self.name@ }
    }
}

impl DeepView for ObjectKey {
    type V = ObjectKeyView;

    open spec fn deep_view(&self) -> ObjectKeyView {
        self@
    }
}

impl Clone for ObjectKey {
    fn clone(&self) -> (r: Self)
        ensures
            r@ == self@,
    {
        ObjectKey { namespace: self.namespace.clone(), name: self.name.clone() }
    }
}

impl ObjectKey {
    /// Whether two keys name the same object.
    pub fn same(&self, other: &ObjectKey) -> (r: bool)
        ensures
            r == (self@ == other@),
    {
        self.namespace == other.namespace && self.name == other.name
    }
}

/// Back-reference from a child to the resource that owns it.
#[derive(Debug)]
pub struct OwnerReference {
    pub api_version: String,
    pub kind: String,
    pub name: String,
    pub uid: String,
    pub controller: bool,
    pub block_owner_deletion: bool,
}

/// The view of [`OwnerReference`]: its strings as their characters, its numbers and maps as
/// mathematical ones.
pub struct OwnerReferenceView {
    pub api_version: Seq<char>,
    pub kind: Seq<char>,
    pub name: Seq<char>,
    pub uid: Seq<char>,
    pub controller: bool,
    pub block_owner_deletion: bool,
}

impl View for OwnerReference {
    type V = OwnerReferenceView;

    open spec fn view(&self) -> OwnerReferenceView {
        OwnerReferenceView {
            api_version: self.api_version@,
            kind: self.kind@,
            name: self.name@,
            uid: self.uid@,
            controller: self.controller,
            block_owner_deletion: self.block_owner_deletion,
        }
    }
}

/// Name, place, labels and owner of a child.
#[derive(Debug)]
pub struct ObjectMeta {
    pub name: String,
    pub namespace: String,
    pub labels: Option<StringMap>,
    pub owner: OwnerReference,
}

/// The view of [`ObjectMeta`]: its strings as their characters, its numbers and maps as
/// mathematical ones.
pub struct ObjectMetaView {
    pub name: Seq<char>,
    pub namespace: Seq<char>,
    pub labels: Option<Map<Seq<char>, Seq<char>>>,
    pub owner: OwnerReferenceView,
}

impl View for ObjectMeta {
    type V = ObjectMetaView;

    open spec fn view(&self) -> ObjectMetaView {
        ObjectMetaView {
            name: self.name@,
            namespace: self.namespace@,
            labels: match self.labels {
                Some(labels) => Some(labels@),
                None => None,
            },
            owner: self.owner@,
        }
    }
}

/// Holds the markdown files of one view, file name to text.
#[derive(Debug)]
pub struct ContentStore {
    pub metadata: ObjectMeta,
    pub data: StringMap,
}

/// The view of [`ContentStore`]: its strings as their characters, its numbers and maps as
/// mathematical ones.
pub struct ContentStoreView {
    pub metadata: ObjectMetaView,
    pub data: Map<Seq<char>, Seq<char>>,
}

impl View for ContentStore {
    type V = ContentStoreView;

    open spec fn view(&self) -> ContentStoreView {
        ContentStoreView { metadata: self.metadata@, data: self.data@ }
    }
}

/// An HTTP GET against a named port of the container.
#[derive(Debug)]
pub struct HttpProbe {
    pub path: String,
    pub port: String,
}

/// The view of [`HttpProbe`]: its strings as their characters, its numbers and maps as
/// mathematical ones.
pub struct HttpProbeView {
    pub path: Seq<char>,
    pub port: Seq<char>,
}

impl View for HttpProbe {
    type V = HttpProbeView;

    open spec fn view(&self) -> HttpProbeView {
        HttpProbeView { path: self.path@, port: self.port@ }
    }
}

/// A port that the container listens on.
#[derive(Debug)]
pub struct ContainerPort {
    pub name: String,
    pub protocol: String,
    pub container_port: i32,
}

/// The view of [`ContainerPort`]: its strings as their characters, its numbers and maps as
/// mathematical ones.
pub struct ContainerPortView {
    pub name: Seq<char>,
    pub protocol: Seq<char>,
    pub container_port: int,
}

impl View for ContainerPort {
    type V = ContainerPortView;

    open spec fn view(&self) -> ContainerPortView {
        ContainerPortView {
            name: self.name@,
            protocol: self.protocol@,
            container_port: self.container_port as int,
        }
    }
}

/// Where a volume appears inside the container.
#[derive(Debug)]
pub struct VolumeMount {
    pub name: String,
    pub mount_path: String,
}

/// The view of [`VolumeMount`]: its strings as their characters, its numbers and maps as
/// mathematical ones.
pub struct VolumeMountView {
    pub name: Seq<char>,
    pub mount_path: Seq<char>,
}

impl View for VolumeMount {
    type V = VolumeMountView;

    open spec fn view(&self) -> VolumeMountView {
        VolumeMountView { name: self.name@, mount_path: self.mount_path@ }
    }
}

/// The one container of a workload.
#[derive(Debug)]
pub struct Container {
    pub name: String,
    pub image: String,
    pub command: Vec<String>,
    pub args: Vec<String>,
    pub image_pull_policy: String,
    pub volume_mount: VolumeMount,
    pub port: ContainerPort,
    pub liveness_probe: HttpProbe,
    pub readiness_probe: HttpProbe,
}

/// The view of [`Container`]: its strings as their characters, its numbers and maps as
/// mathematical ones.
pub struct ContainerView {
    pub name: Seq<char>,
    pub image: Seq<char>,
    pub command: Seq<Seq<char>>,
    pub args: Seq<Seq<char>>,
    pub image_pull_policy: Seq<char>,
    pub volume_mount: VolumeMountView,
    pub port: ContainerPortView,
    pub liveness_probe: HttpProbeView,
    pub readiness_probe: HttpProbeView,
}

impl View for Container {
    type V = ContainerView;

    open spec fn view(&self) -> ContainerView {
        ContainerView {
            name: self.name@,
            image: self.image@,
            command: self.command.deep_view(),
            args: self.args.deep_view(),
            image_pull_policy: self.image_pull_policy@,
            volume_mount: self.volume_mount@,
            port: self.port@,
            liveness_probe: self.liveness_probe@,
            readiness_probe: self.readiness_probe@,
        }
    }
}

/// A volume filled from a content store.
#[derive(Debug)]
pub struct Volume {
    pub name: String,
    pub content_store: String,
}

/// The view of [`Volume`]: its strings as their characters, its numbers and maps as
/// mathematical ones.
pub struct VolumeView {
    pub name: Seq<char>,
    pub content_store: Seq<char>,
}

impl View for Volume {
    type V = VolumeView;

    open spec fn view(&self) -> VolumeView {
        VolumeView { name: self.name@, content_store: self.content_store@ }
    }
}

/// Runs the viewer: a number of replicas of one container.
#[derive(Debug)]
pub struct Workload {
    pub metadata: ObjectMeta,
    pub replicas: i32,
    pub selector: StringMap,
    pub template_labels: StringMap,
    pub container: Container,
    pub volume: Volume,
}

/// The view of [`Workload`]: its strings as their characters, its numbers and maps as
/// mathematical ones.
pub struct WorkloadView {
    pub metadata: ObjectMetaView,
    pub replicas: int,
    pub selector: Map<Seq<char>, Seq<char>>,
    pub template_labels: Map<Seq<char>, Seq<char>>,
    pub container: ContainerView,
    pub volume: VolumeView,
}

impl View for Workload {
    type V = WorkloadView;

    open spec fn view(&self) -> WorkloadView {
        WorkloadView {
            metadata: self.metadata@,
            replicas: self.replicas as int,
            selector: self.selector@,
            template_labels: self.template_labels@,
            container: self.container@,
            volume: self.volume@,
        }
    }
}

/// A port of an endpoint and the container port that it forwards to.
#[derive(Debug)]
pub struct ServicePort {
    pub protocol: String,
    pub port: i32,
    pub target_port: i32,
}

/// The view of [`ServicePort`]: its strings as their characters, its numbers and maps as
/// mathematical ones.
pub struct ServicePortView {
    pub protocol: Seq<char>,
    pub port: int,
    pub target_port: int,
}

impl View for ServicePort {
    type V = ServicePortView;

    open spec fn view(&self) -> ServicePortView {
        ServicePortView {
            protocol: self.protocol@,
            port: self.port as int,
            target_port: self.target_port as int,
        }
    }
}

/// Routes traffic inside the cluster to the replicas of a workload.
#[derive(Debug)]
pub struct Endpoint {
    pub metadata: ObjectMeta,
    pub selector: StringMap,
    pub type_: String,
    pub port: ServicePort,
}

/// The view of [`Endpoint`]: its strings as their characters, its numbers and maps as
/// mathematical ones.
pub struct EndpointView {
    pub metadata: ObjectMetaView,
    pub selector: Map<Seq<char>, Seq<char>>,
    pub type_: Seq<char>,
    pub port: ServicePortView,
}

impl View for Endpoint {
    type V = EndpointView;

    open spec fn view(&self) -> EndpointView {
        EndpointView {
            metadata: self.metadata@,
            selector: self.selector@,
            type_: self.type_@,
            port: self.port@,
        }
    }
}

} // verus!
