//! Desired state: the three children of a view, derived from the view alone.
//!
//! Every function here is pure. Its result is fixed by a spec function of the
//! view, so the same view always yields the same definitions.

use crate::error::{Error, ErrorView};
use crate::markdown::{MarkdownView, MarkdownViewView};
use crate::ownership::{controller_owner_ref, owner_reference};
use crate::resources::{
    Container, ContainerPort, ContainerPortView, ContainerView, ContentStore, ContentStoreView,
    Endpoint, EndpointView, HttpProbe, HttpProbeView, ObjectMeta, ObjectMetaView, ServicePort,
    ServicePortView, Volume, VolumeMount, VolumeMountView, VolumeView, Workload, WorkloadView,
};
use crate::string_map::StringMap;
use vstd::prelude::*;
use vstd::string::*;

verus! {

/// Image that runs the viewer where a view names none.
pub const DEFAULT_VIEWER_IMAGE: &'static str = "peaceiris/mdbook:latest";

/// Port on which the viewer's container listens.
pub const VIEWER_CONTAINER_PORT: i32 = 3000;

/// Port on which the endpoint accepts traffic.
pub const ENDPOINT_PORT: i32 = 80;

/// Name of the content store of the view called `parent`.
pub open spec fn content_store_name(parent: Seq<char>) -> Seq<char> {
    "markdowns-"@ + parent
}

/// Name shared by the workload and the endpoint of the view called `parent`.
pub open spec fn viewer_name(parent: Seq<char>) -> Seq<char> {
    "viewer-"@ + parent
}

/// Labels by which the endpoint finds the replicas of the view called `parent`.
pub open spec fn viewer_labels(parent: Seq<char>) -> Map<Seq<char>, Seq<char>> {
    Map::<Seq<char>, Seq<char>>::empty().insert("name"@, "viewer-app"@).insert(
        "instance"@,
        parent,
    ).insert("created-by"@, "view-controller"@)
}

/// The image to run: the one the view names, else the default.
pub open spec fn viewer_image(requested: Option<Seq<char>>) -> Seq<char> {
    match requested {
        Some(image) => image,
        None => DEFAULT_VIEWER_IMAGE@,
    }
}

/// The largest replica count that a workload can carry.
pub const MAX_REPLICAS: u32 = 2147483647;

/// Whether a workload can carry `replicas`.
pub open spec fn replicas_fit(replicas: nat) -> bool {
    replicas <= MAX_REPLICAS
}

/// The error for a view that asks for more replicas than a workload can
/// carry.
pub open spec fn replicas_too_large() -> ErrorView {
    ErrorView::SerializationError("replicas exceeds what a workload can carry"@)
}

/// The check that tells whether a replica is alive and ready.
pub open spec fn viewer_probe() -> HttpProbeView {
    HttpProbeView { path: "/"@, port: "http"@ }
}

/// The container that serves the files mounted from the content store.
pub open spec fn viewer_container(image: Seq<char>) -> ContainerView {
    ContainerView {
        name: "mdbook"@,
        image: image,
        command: seq!["mdbook"@],
        args: seq!["serve"@, "--hostname"@, "0.0.0.0"@],
        image_pull_policy: "IfNotPresent"@,
        volume_mount: VolumeMountView { name: "markdowns"@, mount_path: "/book/src"@ },
        port: ContainerPortView {
            name: "http"@,
            protocol: "TCP"@,
            container_port: VIEWER_CONTAINER_PORT as int,
        },
        liveness_probe: viewer_probe(),
        readiness_probe: viewer_probe(),
    }
}

/// The content store that `view` asks for.
pub open spec fn desired_content_store(view: MarkdownViewView) -> ContentStoreView {
    ContentStoreView {
        metadata: ObjectMetaView {
            name: content_store_name(view.name),
            namespace: view.namespace,
            labels: None,
            owner: owner_reference(view),
        },
        data: view.spec.markdowns,
    }
}

/// The workload that `view` asks for. It carries the replica count of the
/// view as it stands; `replicas_fit` tells whether a workload can.
pub open spec fn desired_workload(view: MarkdownViewView) -> WorkloadView {
    WorkloadView {
        metadata: ObjectMetaView {
            name: viewer_name(view.name),
            namespace: view.namespace,
            labels: Some(viewer_labels(view.name)),
            owner: owner_reference(view),
        },
        replicas: view.spec.replicas as int,
        selector: viewer_labels(view.name),
        template_labels: viewer_labels(view.name),
        container: viewer_container(viewer_image(view.spec.viewer_image)),
        volume: VolumeView { name: "markdowns"@, content_store: content_store_name(view.name) },
    }
}

/// The endpoint that `view` asks for.
pub open spec fn desired_endpoint(view: MarkdownViewView) -> EndpointView {
    EndpointView {
        metadata: ObjectMetaView {
            name: viewer_name(view.name),
            namespace: view.namespace,
            labels: Some(viewer_labels(view.name)),
            owner: owner_reference(view),
        },
        selector: viewer_labels(view.name),
        type_: "ClusterIP"@,
        port: ServicePortView {
            protocol: "TCP"@,
            port: ENDPOINT_PORT as int,
            target_port: VIEWER_CONTAINER_PORT as int,
        },
    }
}

/// The children of a view depend on its name, namespace, identifier and
/// spec, and on nothing else: two views that agree on these ask for the same
/// three definitions, whatever status each carries.
pub proof fn lemma_desired_state_fixed_by_spec(a: MarkdownViewView, b: MarkdownViewView)
    requires
        a.name == b.name,
        a.namespace == b.namespace,
        a.uid == b.uid,
        a.spec == b.spec,
    ensures
        desired_content_store(a) == desired_content_store(b),
        desired_workload(a) == desired_workload(b),
        desired_endpoint(a) == desired_endpoint(b),
{
}

/// Child names do not collide. Views with different names have content
/// stores with different names, and viewers with different names; and no
/// content store shares its name with a viewer.
pub proof fn lemma_child_names_distinct(a: Seq<char>, b: Seq<char>)
    ensures
        content_store_name(a) == content_store_name(b) ==> a == b,
        viewer_name(a) == viewer_name(b) ==> a == b,
        content_store_name(a) != viewer_name(b),
{
    let m = "markdowns-"@;
    let v = "viewer-"@;
    reveal_strlit("markdowns-");
    reveal_strlit("viewer-");
    assert((m + a).subrange(m.len() as int, (m + a).len() as int) =~= a);
    assert((m + b).subrange(m.len() as int, (m + b).len() as int) =~= b);
    assert((v + a).subrange(v.len() as int, (v + a).len() as int) =~= a);
    assert((v + b).subrange(v.len() as int, (v + b).len() as int) =~= b);
    assert((m + a)[0] == 'm');
    assert((v + b)[0] == 'v');
}

/// Every child points at the view that it was derived from: its owner
/// reference carries that view's name and identifier, marks it as the
/// controlling owner and holds back its deletion.
pub proof fn lemma_children_owned_by_view(view: MarkdownViewView)
    ensures
        desired_content_store(view).metadata.owner == owner_reference(view),
        desired_workload(view).metadata.owner == owner_reference(view),
        desired_endpoint(view).metadata.owner == owner_reference(view),
        owner_reference(view).uid == view.uid,
        owner_reference(view).name == view.name,
        owner_reference(view).controller,
        owner_reference(view).block_owner_deletion,
{
}

/// `prefix` followed by `rest`.
fn prefixed(prefix: &str, rest: &String) -> (name: String)
    ensures
        name@ == prefix@ + rest@,
{
    let mut name = String::from_str(prefix);
    name.append(rest.as_str());
    name
}

/// Name of the content store of the view called `parent`.
pub fn make_content_store_name(parent: &String) -> (name: String)
    ensures
        name@ == content_store_name(parent@),
{
    prefixed("markdowns-", parent)
}

/// Name of the workload and of the endpoint of the view called `parent`.
pub fn make_viewer_name(parent: &String) -> (name: String)
    ensures
        name@ == viewer_name(parent@),
{
    prefixed("viewer-", parent)
}

/// Labels of the workload, its replicas and the endpoint of the view called
/// `parent`.
pub fn make_viewer_labels(parent: &String) -> (labels: StringMap)
    ensures
        labels@ == viewer_labels(parent@),
{
    let mut labels = StringMap::new();
    labels.insert(String::from_str("name"), String::from_str("viewer-app"));
    labels.insert(String::from_str("instance"), parent.clone());
    labels.insert(String::from_str("created-by"), String::from_str("view-controller"));
    labels
}

/// The replica count as a workload carries it, where it can carry it.
pub fn checked_replicas(replicas: u32) -> (count: Option<i32>)
    ensures
        match count {
            Some(count) => replicas_fit(replicas as nat) && count as int == replicas as int,
            None => !replicas_fit(replicas as nat),
        },
{
    if replicas <= MAX_REPLICAS {
        Some(replicas as i32)
    } else {
        None
    }
}

fn make_viewer_probe() -> (probe: HttpProbe)
    ensures
        probe@ == viewer_probe(),
{
    HttpProbe { path: String::from_str("/"), port: String::from_str("http") }
}

fn make_viewer_container(image: String) -> (container: Container)
    ensures
        container@ == viewer_container(image@),
{
    let mut command: Vec<String> = Vec::new();
    command.push(String::from_str("mdbook"));
    let mut args: Vec<String> = Vec::new();
    args.push(String::from_str("serve"));
    args.push(String::from_str("--hostname"));
    args.push(String::from_str("0.0.0.0"));
    let container = Container {
        name: String::from_str("mdbook"),
        image,
        command,
        args,
        image_pull_policy: String::from_str("IfNotPresent"),
        volume_mount: VolumeMount {
            name: String::from_str("markdowns"),
            mount_path: String::from_str("/book/src"),
        },
        port: ContainerPort {
            name: String::from_str("http"),
            protocol: String::from_str("TCP"),
            container_port: VIEWER_CONTAINER_PORT,
        },
        liveness_probe: make_viewer_probe(),
        readiness_probe: make_viewer_probe(),
    };
    assert(container.command.deep_view() =~= seq!["mdbook"@]);
    assert(container.args.deep_view() =~= seq!["serve"@, "--hostname"@, "0.0.0.0"@]);
    container
}

/// Builds the content store of `obj`: its markdown files, unchanged, under
/// the name derived from the view's name.
pub fn build_content_store(obj: &MarkdownView) -> (child: ContentStore)
    ensures
        child@ == desired_content_store(obj@),
{
    ContentStore {
        metadata: ObjectMeta {
            name: make_content_store_name(&obj.name),
            namespace: obj.namespace.clone(),
            labels: None,
            owner: controller_owner_ref(obj),
        },
        data: obj.spec.markdowns.clone(),
    }
}

/// Builds the workload of `obj`: the requested number of replicas of the
/// viewer, each with the content store mounted.
///
/// A view that asks for more replicas than a workload can carry gets no
/// workload but an error.
pub fn build_workload(obj: &MarkdownView) -> (built: Result<Workload, Error>)
    ensures
        match built {
            Ok(child) => replicas_fit(obj@.spec.replicas) && child@ == desired_workload(obj@),
            Err(error) => !replicas_fit(obj@.spec.replicas) && error@ == replicas_too_large(),
        },
{
    let replicas = match checked_replicas(obj.spec.replicas) {
        Some(count) => count,
        None => {
            return Err(
                Error::SerializationError(
                    String::from_str("replicas exceeds what a workload can carry"),
                ),
            );
        },
    };
    let image = match &obj.spec.viewer_image {
        Some(image) => image.clone(),
        None => String::from_str(DEFAULT_VIEWER_IMAGE),
    };
    Ok(
        Workload {
            metadata: ObjectMeta {
                name: make_viewer_name(&obj.name),
                namespace: obj.namespace.clone(),
                labels: Some(make_viewer_labels(&obj.name)),
                owner: controller_owner_ref(obj),
            },
            replicas,
            selector: make_viewer_labels(&obj.name),
            template_labels: make_viewer_labels(&obj.name),
            container: make_viewer_container(image),
            volume: Volume {
                name: String::from_str("markdowns"),
                content_store: make_content_store_name(&obj.name),
            },
        },
    )
}

/// Builds the endpoint of `obj`: cluster-internal routing from port 80 to the
/// viewer's port on the replicas of the workload.
pub fn build_endpoint(obj: &MarkdownView) -> (child: Endpoint)
    ensures
        child@ == desired_endpoint(obj@),
{
    Endpoint {
        metadata: ObjectMeta {
            name: make_viewer_name(&obj.name),
            namespace: obj.namespace.clone(),
            labels: Some(make_viewer_labels(&obj.name)),
            owner: controller_owner_ref(obj),
        },
        selector: make_viewer_labels(&obj.name),
        type_: String::from_str("ClusterIP"),
        port: ServicePort {
            protocol: String::from_str("TCP"),
            port: ENDPOINT_PORT,
            target_port: VIEWER_CONTAINER_PORT,
        },
    }
}

} // verus!
