use view_controller::apply::ApplyParams;
use view_controller::builder::{build_content_store, build_workload};
use view_controller::convergence::run_to_end;
use view_controller::driver::{next_action, Action, Outcome, Run};
use view_controller::error::{Error, StoreErrorKind};
use view_controller::markdown::{MarkdonwViewSpec, MarkdownView, MarkdownViewStatusEnum};
use view_controller::resources::ObjectKey;
use view_controller::store::{Kind, MemoryStore, Object};
use view_controller::string_map::StringMap;

fn view(name: &str, replicas: u32, files: &[(&str, &str)]) -> MarkdownView {
    let mut markdowns = StringMap::new();
    for (file, text) in files {
        markdowns.insert(file.to_string(), text.to_string());
    }
    MarkdownView {
        name: name.to_string(),
        namespace: "team".to_string(),
        uid: "uid-7".to_string(),
        spec: MarkdonwViewSpec { markdowns, replicas, viewer_image: None },
        status: None,
    }
}

fn key(name: &str) -> ObjectKey {
    ObjectKey { namespace: "team".to_string(), name: name.to_string() }
}

fn status_of(store: &MemoryStore, name: &str) -> Option<MarkdownViewStatusEnum> {
    match &store.get(Kind::View, &key(name)).unwrap().object {
        Object::View(found) => found.status,
        other => panic!("unexpected object {:?}", other),
    }
}

fn snapshot(store: &MemoryStore, names: &[(Kind, &str)]) -> Vec<String> {
    names.iter().map(|(kind, name)| format!("{:?}", store.get(*kind, &key(name)))).collect()
}

#[test]
fn reconciling_a_new_view_creates_its_children_and_reports_available() {
    let mut store = MemoryStore::new();
    store.put(Object::View(view("demo", 2, &[("a.md", "hi")])), "user".to_string());

    let run = run_to_end(&mut store, key("demo"));
    assert!(matches!(run, Run::Ended(Outcome::Converged)));
    assert_eq!(next_action(&run), Some(Action::Requeue(10)));
    assert_eq!(store.len(), 4);

    match &store.get(Kind::ContentStore, &key("markdowns-demo")).unwrap().object {
        Object::ContentStore(child) => {
            assert_eq!(child.metadata.name, "markdowns-demo");
            assert_eq!(child.data.to_vec(), vec![("a.md".to_string(), "hi".to_string())]);
            assert_eq!(child.metadata.owner.uid, "uid-7");
        }
        other => panic!("unexpected object {:?}", other),
    }
    match &store.get(Kind::Workload, &key("viewer-demo")).unwrap().object {
        Object::Workload(child) => {
            assert_eq!(child.metadata.name, "viewer-demo");
            assert_eq!(child.replicas, 2);
            assert_eq!(child.container.image, "peaceiris/mdbook:latest");
        }
        other => panic!("unexpected object {:?}", other),
    }
    match &store.get(Kind::Endpoint, &key("viewer-demo")).unwrap().object {
        Object::Endpoint(child) => {
            assert_eq!(child.metadata.name, "viewer-demo");
            assert_eq!(child.port.port, 80);
            assert_eq!(child.port.target_port, 3000);
        }
        other => panic!("unexpected object {:?}", other),
    }
    assert_eq!(status_of(&store, "demo"), Some(MarkdownViewStatusEnum::Available));
}

#[test]
fn a_view_that_asks_for_no_replicas_is_not_ready() {
    let mut store = MemoryStore::new();
    store.put(Object::View(view("demo", 0, &[])), "user".to_string());
    let run = run_to_end(&mut store, key("demo"));
    assert!(matches!(run, Run::Ended(Outcome::Converged)));
    assert_eq!(status_of(&store, "demo"), Some(MarkdownViewStatusEnum::NotReady));
}

#[test]
fn a_second_run_changes_nothing() {
    let mut store = MemoryStore::new();
    store.put(Object::View(view("demo", 2, &[("a.md", "hi")])), "user".to_string());
    let names = [
        (Kind::View, "demo"),
        (Kind::ContentStore, "markdowns-demo"),
        (Kind::Workload, "viewer-demo"),
        (Kind::Endpoint, "viewer-demo"),
    ];

    run_to_end(&mut store, key("demo"));
    let first = snapshot(&store, &names);
    let run = run_to_end(&mut store, key("demo"));
    assert!(matches!(run, Run::Ended(Outcome::Converged)));
    assert_eq!(snapshot(&store, &names), first);
    assert_eq!(store.len(), 4);
}

#[test]
fn a_change_behind_the_controllers_back_is_undone() {
    let mut store = MemoryStore::new();
    store.put(Object::View(view("demo", 2, &[("a.md", "hi")])), "user".to_string());
    run_to_end(&mut store, key("demo"));

    let mut drifted = build_workload(&view("demo", 2, &[("a.md", "hi")])).unwrap();
    drifted.replicas = 7;
    store.put(Object::Workload(drifted), ApplyParams::shared().field_manager);

    run_to_end(&mut store, key("demo"));
    match &store.get(Kind::Workload, &key("viewer-demo")).unwrap().object {
        Object::Workload(child) => assert_eq!(child.replicas, 2),
        other => panic!("unexpected object {:?}", other),
    }
    assert_eq!(status_of(&store, "demo"), Some(MarkdownViewStatusEnum::Available));
}

#[test]
fn a_change_of_the_spec_reaches_the_children() {
    let mut store = MemoryStore::new();
    store.put(Object::View(view("demo", 2, &[("a.md", "hi")])), "user".to_string());
    run_to_end(&mut store, key("demo"));

    store.put(Object::View(view("demo", 3, &[("a.md", "hello"), ("b.md", "new")])), "user".to_string());
    let run = run_to_end(&mut store, key("demo"));
    assert!(matches!(run, Run::Ended(Outcome::Converged)));
    match &store.get(Kind::Workload, &key("viewer-demo")).unwrap().object {
        Object::Workload(child) => assert_eq!(child.replicas, 3),
        other => panic!("unexpected object {:?}", other),
    }
    match &store.get(Kind::ContentStore, &key("markdowns-demo")).unwrap().object {
        Object::ContentStore(child) => {
            assert_eq!(child.data.len(), 2);
            assert_eq!(child.data.get(&"a.md".to_string()), Some(&"hello".to_string()));
        }
        other => panic!("unexpected object {:?}", other),
    }
    assert_eq!(status_of(&store, "demo"), Some(MarkdownViewStatusEnum::Available));
}

#[test]
fn a_view_that_is_gone_ends_the_run_without_a_write() {
    let mut store = MemoryStore::new();
    let run = run_to_end(&mut store, key("demo"));
    assert!(matches!(run, Run::Ended(Outcome::Gone)));
    assert_eq!(next_action(&run), Some(Action::AwaitChange));
    assert_eq!(store.len(), 0);
}

#[test]
fn a_conflict_on_the_content_store_leaves_workload_and_endpoint_unwritten() {
    let mut store = MemoryStore::new();
    store.put(Object::View(view("demo", 2, &[("a.md", "hi")])), "user".to_string());
    store.put(
        Object::ContentStore(build_content_store(&view("demo", 2, &[("a.md", "theirs")]))),
        "someone-else".to_string(),
    );

    let run = run_to_end(&mut store, key("demo"));
    match &run {
        Run::Ended(Outcome::Failed(Error::KubeError(error))) => {
            assert_eq!(error.kind, StoreErrorKind::Conflict)
        }
        other => panic!("unexpected run {:?}", other),
    }
    assert_eq!(next_action(&run), Some(Action::Requeue(5)));
    assert_eq!(store.len(), 2);
    assert!(store.get(Kind::Workload, &key("viewer-demo")).is_none());
    assert!(store.get(Kind::Endpoint, &key("viewer-demo")).is_none());
    assert_eq!(status_of(&store, "demo"), None);
}

#[test]
fn a_conflict_on_the_workload_keeps_the_content_store_that_was_applied() {
    let mut store = MemoryStore::new();
    store.put(Object::View(view("demo", 2, &[("a.md", "hi")])), "user".to_string());
    store.put(Object::Workload(build_workload(&view("demo", 9, &[])).unwrap()), "someone-else".to_string());

    let run = run_to_end(&mut store, key("demo"));
    assert!(matches!(run, Run::Ended(Outcome::Failed(Error::KubeError(_)))));
    assert!(store.get(Kind::ContentStore, &key("markdowns-demo")).is_some());
    assert!(store.get(Kind::Endpoint, &key("viewer-demo")).is_none());
    match &store.get(Kind::Workload, &key("viewer-demo")).unwrap().object {
        Object::Workload(child) => assert_eq!(child.replicas, 9),
        other => panic!("unexpected object {:?}", other),
    }
}

#[test]
fn a_status_held_by_another_manager_is_not_overwritten() {
    let mut store = MemoryStore::new();
    let mut theirs = view("demo", 2, &[("a.md", "hi")]);
    theirs.status = Some(MarkdownViewStatusEnum::NotReady);
    store.put(Object::View(theirs), "someone-else".to_string());

    let run = run_to_end(&mut store, key("demo"));
    match &run {
        Run::Ended(Outcome::Failed(Error::KubeError(error))) => {
            assert_eq!(error.kind, StoreErrorKind::Conflict)
        }
        other => panic!("unexpected run {:?}", other),
    }
    assert_eq!(next_action(&run), Some(Action::Requeue(5)));
    assert_eq!(status_of(&store, "demo"), Some(MarkdownViewStatusEnum::NotReady));
    assert_eq!(
        store.get(Kind::View, &key("demo")).unwrap().status_manager,
        Some("someone-else".to_string())
    );
    assert!(store.get(Kind::ContentStore, &key("markdowns-demo")).is_some());
    assert!(store.get(Kind::Workload, &key("viewer-demo")).is_some());
    assert!(store.get(Kind::Endpoint, &key("viewer-demo")).is_some());
}

#[test]
fn a_status_that_another_manager_set_right_needs_no_write() {
    let mut store = MemoryStore::new();
    let mut theirs = view("demo", 2, &[("a.md", "hi")]);
    theirs.status = Some(MarkdownViewStatusEnum::Available);
    store.put(Object::View(theirs), "someone-else".to_string());

    let run = run_to_end(&mut store, key("demo"));
    assert!(matches!(run, Run::Ended(Outcome::Converged)));
    assert_eq!(
        store.get(Kind::View, &key("demo")).unwrap().status_manager,
        Some("someone-else".to_string())
    );
}

#[test]
fn a_replica_count_that_does_not_fit_is_never_written() {
    let mut store = MemoryStore::new();
    store.put(Object::View(view("demo", 4294967295, &[("a.md", "hi")])), "user".to_string());

    let run = run_to_end(&mut store, key("demo"));
    match &run {
        Run::Ended(Outcome::Failed(error)) => assert_eq!(
            error.message(),
            "SerializationError: replicas exceeds what a workload can carry"
        ),
        other => panic!("unexpected run {:?}", other),
    }
    assert_eq!(next_action(&run), Some(Action::Requeue(5)));
    assert_eq!(store.len(), 2);
    assert!(store.get(Kind::ContentStore, &key("markdowns-demo")).is_some());
    assert!(store.get(Kind::Workload, &key("viewer-demo")).is_none());
    assert!(store.get(Kind::Endpoint, &key("viewer-demo")).is_none());
    assert_eq!(status_of(&store, "demo"), None);
}

#[test]
fn a_replica_count_that_no_longer_fits_leaves_the_workload_as_it_was() {
    let mut store = MemoryStore::new();
    store.put(Object::View(view("demo", 2, &[])), "user".to_string());
    run_to_end(&mut store, key("demo"));
    store.put(Object::View(view("demo", 2147483648, &[])), "user".to_string());

    let run = run_to_end(&mut store, key("demo"));
    assert!(matches!(run, Run::Ended(Outcome::Failed(Error::SerializationError(_)))));
    match &store.get(Kind::Workload, &key("viewer-demo")).unwrap().object {
        Object::Workload(child) => assert_eq!(child.replicas, 2),
        other => panic!("unexpected object {:?}", other),
    }
}

#[test]
fn views_in_one_namespace_keep_their_children_apart() {
    let mut store = MemoryStore::new();
    store.put(Object::View(view("one", 1, &[("a.md", "1")])), "user".to_string());
    store.put(Object::View(view("two", 2, &[("a.md", "2")])), "user".to_string());
    run_to_end(&mut store, key("one"));
    run_to_end(&mut store, key("two"));
    assert_eq!(store.len(), 8);
    match &store.get(Kind::Workload, &key("viewer-one")).unwrap().object {
        Object::Workload(child) => assert_eq!(child.replicas, 1),
        other => panic!("unexpected object {:?}", other),
    }
    match &store.get(Kind::Workload, &key("viewer-two")).unwrap().object {
        Object::Workload(child) => assert_eq!(child.replicas, 2),
        other => panic!("unexpected object {:?}", other),
    }
}
