use view_controller::apply::{ApplyParams, Request, Response, StatusPatch};
use view_controller::builder::{build_content_store, build_workload};
use view_controller::error::StoreErrorKind;
use view_controller::markdown::{MarkdonwViewSpec, MarkdownView, MarkdownViewStatusEnum};
use view_controller::resources::ObjectKey;
use view_controller::store::{Kind, MemoryStore, Object};
use view_controller::string_map::StringMap;

fn view(name: &str, replicas: u32, files: &[(&str, &str)]) -> MarkdownView {
    let mut markdowns = StringMap::new();
    for (file, text) in files {
        markdowns.insert(file.to_string(), text.to_string());
    }
    MarkdownView {
        name: name.to_string(),
        namespace: "team".to_string(),
        uid: "uid-7".to_string(),
        spec: MarkdonwViewSpec { markdowns, replicas, viewer_image: None },
        status: None,
    }
}

fn key(name: &str) -> ObjectKey {
    ObjectKey { namespace: "team".to_string(), name: name.to_string() }
}

fn stored(store: &MemoryStore, kind: Kind, name: &str) -> String {
    format!("{:?}", store.get(kind, &key(name)))
}

#[test]
fn a_new_store_is_empty() {
    let store = MemoryStore::new();
    assert_eq!(store.len(), 0);
    assert!(store.get(Kind::View, &key("demo")).is_none());
}

#[test]
fn an_apply_creates_the_object() {
    let obj = view("demo", 2, &[("a.md", "hi")]);
    let mut store = MemoryStore::new();
    let response =
        store.handle(Request::ApplyContentStore(build_content_store(&obj), ApplyParams::shared()));
    assert!(matches!(response, Response::Applied));
    assert_eq!(store.len(), 1);
    let entry = store.get(Kind::ContentStore, &key("markdowns-demo")).unwrap();
    assert_eq!(entry.manager, "markdown-view-manager");
    match &entry.object {
        Object::ContentStore(child) => {
            assert_eq!(child.data.get(&"a.md".to_string()), Some(&"hi".to_string()))
        }
        other => panic!("unexpected object {:?}", other),
    }
}

#[test]
fn applying_twice_leaves_what_applying_once_leaves() {
    let obj = view("demo", 2, &[("a.md", "hi")]);

    let mut once = MemoryStore::new();
    once.handle(Request::ApplyContentStore(build_content_store(&obj), ApplyParams::shared()));
    once.handle(Request::ApplyWorkload(build_workload(&obj).unwrap(), ApplyParams::shared()));

    let mut twice = MemoryStore::new();
    for _ in 0..2 {
        let response = twice
            .handle(Request::ApplyContentStore(build_content_store(&obj), ApplyParams::shared()));
        assert!(matches!(response, Response::Applied));
        let response =
            twice.handle(Request::ApplyWorkload(build_workload(&obj).unwrap(), ApplyParams::shared()));
        assert!(matches!(response, Response::Applied));
    }

    assert_eq!(once.len(), 2);
    assert_eq!(twice.len(), 2);
    assert_eq!(
        stored(&once, Kind::ContentStore, "markdowns-demo"),
        stored(&twice, Kind::ContentStore, "markdowns-demo")
    );
    assert_eq!(
        stored(&once, Kind::Workload, "viewer-demo"),
        stored(&twice, Kind::Workload, "viewer-demo")
    );
}

#[test]
fn an_apply_replaces_an_object_that_changed() {
    let mut store = MemoryStore::new();
    store.handle(Request::ApplyWorkload(
        build_workload(&view("demo", 2, &[])).unwrap(),
        ApplyParams::shared(),
    ));
    store.handle(Request::ApplyWorkload(
        build_workload(&view("demo", 5, &[])).unwrap(),
        ApplyParams::shared(),
    ));
    assert_eq!(store.len(), 1);
    match &store.get(Kind::Workload, &key("viewer-demo")).unwrap().object {
        Object::Workload(child) => assert_eq!(child.replicas, 5),
        other => panic!("unexpected object {:?}", other),
    }
}

#[test]
fn a_workload_and_an_endpoint_of_one_name_do_not_collide() {
    let obj = view("demo", 2, &[]);
    let mut store = MemoryStore::new();
    store.put(Object::Workload(build_workload(&obj).unwrap()), "someone".to_string());
    assert!(store.get(Kind::Workload, &key("viewer-demo")).is_some());
    assert!(store.get(Kind::Endpoint, &key("viewer-demo")).is_none());
}

#[test]
fn an_object_held_by_another_manager_is_a_conflict() {
    let obj = view("demo", 2, &[("a.md", "hi")]);
    let other = view("demo", 2, &[("a.md", "theirs")]);
    let mut store = MemoryStore::new();
    store.put(Object::ContentStore(build_content_store(&other)), "someone-else".to_string());

    let response =
        store.handle(Request::ApplyContentStore(build_content_store(&obj), ApplyParams::shared()));
    match response {
        Response::Failed(error) => {
            assert_eq!(error.kind, StoreErrorKind::Conflict);
            assert_eq!(error.message, "held by another field manager");
        }
        other => panic!("unexpected response {:?}", other),
    }
    let entry = store.get(Kind::ContentStore, &key("markdowns-demo")).unwrap();
    assert_eq!(entry.manager, "someone-else");
    match &entry.object {
        Object::ContentStore(child) => {
            assert_eq!(child.data.get(&"a.md".to_string()), Some(&"theirs".to_string()))
        }
        other => panic!("unexpected object {:?}", other),
    }
}

#[test]
fn a_forced_apply_takes_the_object_over() {
    let obj = view("demo", 2, &[("a.md", "hi")]);
    let mut store = MemoryStore::new();
    store.put(Object::ContentStore(build_content_store(&obj)), "someone-else".to_string());
    let response =
        store.handle(Request::ApplyContentStore(build_content_store(&obj), ApplyParams::forced()));
    assert!(matches!(response, Response::Applied));
    let entry = store.get(Kind::ContentStore, &key("markdowns-demo")).unwrap();
    assert_eq!(entry.manager, "markdown-view-manager");
}

#[test]
fn a_read_of_a_workload_gives_its_replicas() {
    let mut store = MemoryStore::new();
    store.put(Object::Workload(build_workload(&view("demo", 4, &[])).unwrap()), "user".to_string());
    let response = store.handle(Request::GetWorkload(key("viewer-demo")));
    assert!(matches!(response, Response::Workload(Some(4))));
}

#[test]
fn a_read_of_what_is_not_there_is_not_found() {
    let mut store = MemoryStore::new();
    for request in [Request::GetWorkload(key("viewer-demo")), Request::GetView(key("demo"))] {
        match store.handle(request) {
            Response::Failed(error) => {
                assert_eq!(error.kind, StoreErrorKind::NotFound);
                assert_eq!(error.message, "not found");
            }
            other => panic!("unexpected response {:?}", other),
        }
    }
    assert_eq!(store.len(), 0);
}

#[test]
fn a_read_of_a_view_gives_the_view() {
    let mut store = MemoryStore::new();
    store.put(Object::View(view("demo", 4, &[("a.md", "hi")])), "user".to_string());
    match store.handle(Request::GetView(key("demo"))) {
        Response::View(found) => {
            assert_eq!(found.name, "demo");
            assert_eq!(found.uid, "uid-7");
            assert_eq!(found.spec.replicas, 4);
            assert_eq!(found.spec.markdowns.get(&"a.md".to_string()), Some(&"hi".to_string()));
            assert_eq!(found.status, None);
        }
        other => panic!("unexpected response {:?}", other),
    }
}

#[test]
fn a_status_write_changes_the_status_only() {
    let mut store = MemoryStore::new();
    store.put(Object::View(view("demo", 4, &[("a.md", "hi")])), "user".to_string());
    assert_eq!(store.get(Kind::View, &key("demo")).unwrap().status_manager, None);
    let patch = StatusPatch { key: key("demo"), status: MarkdownViewStatusEnum::Healthy };
    let response = store.handle(Request::ApplyStatus(patch, ApplyParams::shared()));
    assert!(matches!(response, Response::Applied));
    let entry = store.get(Kind::View, &key("demo")).unwrap();
    assert_eq!(entry.manager, "user");
    assert_eq!(entry.status_manager, Some("markdown-view-manager".to_string()));
    match &entry.object {
        Object::View(found) => {
            assert_eq!(found.status, Some(MarkdownViewStatusEnum::Healthy));
            assert_eq!(found.spec.replicas, 4);
            assert_eq!(found.spec.markdowns.get(&"a.md".to_string()), Some(&"hi".to_string()));
        }
        other => panic!("unexpected object {:?}", other),
    }
}

#[test]
fn a_status_write_to_a_view_that_is_gone_is_not_found() {
    let mut store = MemoryStore::new();
    let patch = StatusPatch { key: key("demo"), status: MarkdownViewStatusEnum::Healthy };
    match store.handle(Request::ApplyStatus(patch, ApplyParams::shared())) {
        Response::Failed(error) => assert_eq!(error.kind, StoreErrorKind::NotFound),
        other => panic!("unexpected response {:?}", other),
    }
    assert_eq!(store.len(), 0);
}

fn reported(name: &str, status: MarkdownViewStatusEnum) -> MarkdownView {
    let mut found = view(name, 4, &[("a.md", "hi")]);
    found.status = Some(status);
    found
}

#[test]
fn a_status_held_by_another_manager_is_a_conflict() {
    let mut store = MemoryStore::new();
    store.put(
        Object::View(reported("demo", MarkdownViewStatusEnum::NotReady)),
        "someone-else".to_string(),
    );
    assert_eq!(
        store.get(Kind::View, &key("demo")).unwrap().status_manager,
        Some("someone-else".to_string())
    );

    let patch = StatusPatch { key: key("demo"), status: MarkdownViewStatusEnum::Healthy };
    match store.handle(Request::ApplyStatus(patch, ApplyParams::shared())) {
        Response::Failed(error) => {
            assert_eq!(error.kind, StoreErrorKind::Conflict);
            assert_eq!(error.message, "held by another field manager");
        }
        other => panic!("unexpected response {:?}", other),
    }
    let entry = store.get(Kind::View, &key("demo")).unwrap();
    assert_eq!(entry.status_manager, Some("someone-else".to_string()));
    match &entry.object {
        Object::View(found) => assert_eq!(found.status, Some(MarkdownViewStatusEnum::NotReady)),
        other => panic!("unexpected object {:?}", other),
    }
}

#[test]
fn a_forced_status_write_takes_the_status_over() {
    let mut store = MemoryStore::new();
    store.put(
        Object::View(reported("demo", MarkdownViewStatusEnum::NotReady)),
        "someone-else".to_string(),
    );
    let patch = StatusPatch { key: key("demo"), status: MarkdownViewStatusEnum::Healthy };
    let response = store.handle(Request::ApplyStatus(patch, ApplyParams::forced()));
    assert!(matches!(response, Response::Applied));
    let entry = store.get(Kind::View, &key("demo")).unwrap();
    assert_eq!(entry.manager, "someone-else");
    assert_eq!(entry.status_manager, Some("markdown-view-manager".to_string()));
    match &entry.object {
        Object::View(found) => assert_eq!(found.status, Some(MarkdownViewStatusEnum::Healthy)),
        other => panic!("unexpected object {:?}", other),
    }
}

#[test]
fn the_holder_of_a_status_may_write_it_again() {
    let mut store = MemoryStore::new();
    store.put(Object::View(view("demo", 4, &[])), "user".to_string());
    for status in [MarkdownViewStatusEnum::Healthy, MarkdownViewStatusEnum::Available] {
        let patch = StatusPatch { key: key("demo"), status };
        let response = store.handle(Request::ApplyStatus(patch, ApplyParams::shared()));
        assert!(matches!(response, Response::Applied));
    }
    match &store.get(Kind::View, &key("demo")).unwrap().object {
        Object::View(found) => assert_eq!(found.status, Some(MarkdownViewStatusEnum::Available)),
        other => panic!("unexpected object {:?}", other),
    }
}

#[test]
fn an_object_knows_its_address() {
    let at = Object::Workload(build_workload(&view("demo", 1, &[])).unwrap()).address();
    assert_eq!(at.kind, Kind::Workload);
    assert_eq!(at.key.namespace, "team");
    assert_eq!(at.key.name, "viewer-demo");
    let at = Object::View(view("demo", 1, &[])).address();
    assert_eq!(at.kind, Kind::View);
    assert_eq!(at.key.name, "demo");
}
