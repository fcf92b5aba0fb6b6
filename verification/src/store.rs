//! A store held in memory that answers the controller's requests.
//!
//! It follows the apply discipline that the controller relies on: a write
//! creates the object if it is absent and replaces it if it is present, and
//! a write to an object that another field manager holds is turned down as a
//! conflict unless it is forced. The status of a view is held apart from the
//! view itself, by whoever wrote it last. The properties of a whole reconcile
//! are stated against this store, and a host can use it in place of a
//! cluster.

use crate::apply::{ApplyParams, ApplyParamsView, Request, RequestView, Response, ResponseView, StatusPatch};
use crate::assoc::{
    distinct_keys, has_key, lemma_map_of_dom, lemma_map_of_entry, lemma_map_of_len,
    lemma_map_of_replace, lemma_push_distinct, map_of,
};
use crate::error::{StoreError, StoreErrorKind, StoreErrorView};
use crate::markdown::{MarkdownView, MarkdownViewStatusEnum, MarkdownViewView};
use crate::resources::{
    ContentStore, ContentStoreView, Endpoint, EndpointView, ObjectKey, ObjectKeyView, Workload,
    WorkloadView,
};
use vstd::prelude::*;
use vstd::string::*;

verus! {

/// The kinds of object that the store holds.
#[derive(Debug, Clone, Copy, PartialEq, Eq, Structural)]
pub enum Kind {
    ContentStore,
    Workload,
    Endpoint,
    View,
}

/// Where an object is stored: under its kind, namespace and name.
#[derive(Debug)]
pub struct Address {
    pub kind: Kind,
    pub key: ObjectKey,
}

/// The view of [`Address`]: its strings as their characters, its numbers and maps as
/// mathematical ones.
pub struct AddressView {
    pub kind: Kind,
    pub key: ObjectKeyView,
}

impl View for Address {
    type V = AddressView;

    open spec fn view(&self) -> AddressView {
        AddressView { kind: self.kind, key: self.key@ }
    }
}

impl DeepView for Address {
    type V = AddressView;

    open spec fn deep_view(&self) -> AddressView {
        self@
    }
}

/// A stored object.
#[derive(Debug)]
pub enum Object {
    ContentStore(ContentStore),
    Workload(Workload),
    Endpoint(Endpoint),
    View(MarkdownView),
}

/// The view of [`Object`]: its strings as their characters, its numbers and maps as
/// mathematical ones.
pub enum ObjectView {
    ContentStore(ContentStoreView),
    Workload(WorkloadView),
    Endpoint(EndpointView),
    View(MarkdownViewView),
}

impl View for Object {
    type V = ObjectView;

    open spec fn view(&self) -> ObjectView {
        match self {
            Object::ContentStore(child) => ObjectView::ContentStore(child@),
            Object::Workload(child) => ObjectView::Workload(child@),
            Object::Endpoint(child) => ObjectView::Endpoint(child@),
            Object::View(view) => ObjectView::View(view@),
        }
    }
}

/// A stored object, the field manager that wrote it last and, for a view
/// whose status was written, the field manager that holds the status.
#[derive(Debug)]
pub struct Entry {
    pub object: Object,
    pub manager: String,
    pub status_manager: Option<String>,
}

/// The view of [`Entry`]: its strings as their characters, its numbers and maps as
/// mathematical ones.
pub struct EntryView {
    pub object: ObjectView,
    pub manager: Seq<char>,
    pub status_manager: Option<Seq<char>>,
}

impl View for Entry {
    type V = EntryView;

    open spec fn view(&self) -> EntryView {
        EntryView {
            object: self.object@,
            manager: self.manager@,
            status_manager: match self.status_manager {
                Some(holder) => Some(holder@),
                None => None,
            },
        }
    }
}

impl DeepView for Entry {
    type V = EntryView;

    open spec fn deep_view(&self) -> EntryView {
        self@
    }
}

/// What a store holds, address by address.
pub type StoreView = Map<AddressView, EntryView>;

/// The address under which `object` is stored.
pub open spec fn address_of(object: ObjectView) -> AddressView {
    match object {
        ObjectView::ContentStore(child) => AddressView {
            kind: Kind::ContentStore,
            key: ObjectKeyView { namespace: child.metadata.namespace, name: child.metadata.name },
        },
        ObjectView::Workload(child) => AddressView {
            kind: Kind::Workload,
            key: ObjectKeyView { namespace: child.metadata.namespace, name: child.metadata.name },
        },
        ObjectView::Endpoint(child) => AddressView {
            kind: Kind::Endpoint,
            key: ObjectKeyView { namespace: child.metadata.namespace, name: child.metadata.name },
        },
        ObjectView::View(view) => AddressView {
            kind: Kind::View,
            key: ObjectKeyView { namespace: view.namespace, name: view.name },
        },
    }
}

/// The error for an object that the store does not hold.
pub open spec fn not_found() -> StoreErrorView {
    StoreErrorView { kind: StoreErrorKind::NotFound, message: "not found"@ }
}

/// The error for a write to an object that another field manager holds.
pub open spec fn conflict() -> StoreErrorView {
    StoreErrorView { kind: StoreErrorKind::Conflict, message: "held by another field manager"@ }
}

/// Whether a write under `params` to `at` runs into another manager's hold.
pub open spec fn conflicts(store: StoreView, at: AddressView, params: ApplyParamsView) -> bool {
    store.dom().contains(at) && store[at].manager != params.field_manager && !params.force
}

/// Who holds the status of `object` once `manager` has written it: the
/// manager itself, where the object is a view that carries a status.
pub open spec fn status_holder(object: ObjectView, manager: Seq<char>) -> Option<Seq<char>> {
    if object matches ObjectView::View(view) && view.status is Some {
        Some(manager)
    } else {
        None
    }
}

/// The store after `object` was written without regard to who holds it, as
/// a user or another controller does.
pub open spec fn written(store: StoreView, object: ObjectView, manager: Seq<char>) -> StoreView {
    store.insert(
        address_of(object),
        EntryView { object, manager, status_manager: status_holder(object, manager) },
    )
}

/// The store after an apply of `object` under `params`, and its answer: the
/// object is created or replaced, unless another manager holds it and the
/// write is not forced.
pub open spec fn applied(store: StoreView, object: ObjectView, params: ApplyParamsView) -> (
    StoreView,
    ResponseView,
) {
    if conflicts(store, address_of(object), params) {
        (store, ResponseView::Failed(conflict()))
    } else {
        (written(store, object, params.field_manager), ResponseView::Applied)
    }
}

/// `view` with its status set to `status`.
pub open spec fn with_status(view: MarkdownViewView, status: MarkdownViewStatusEnum) -> MarkdownViewView {
    MarkdownViewView { status: Some(status), ..view }
}

/// Whether a status write under `params` to the view at `at` runs into
/// another manager's hold of the status.
pub open spec fn status_conflicts(store: StoreView, at: AddressView, params: ApplyParamsView) -> bool {
    &&& store.dom().contains(at)
    &&& store[at].status_manager matches Some(holder)
    &&& holder != params.field_manager
    &&& !params.force
}

/// The store after a write of `status` to the view under `key`, made under
/// `params`, and its answer. A view that is not there is not found. A status
/// that another manager holds is left as it is and the write is turned down
/// as a conflict, unless the write is forced. Else the status is set and
/// held by the writer; the rest of the view stays with the manager that
/// holds it.
pub open spec fn status_applied(
    store: StoreView,
    key: ObjectKeyView,
    status: MarkdownViewStatusEnum,
    params: ApplyParamsView,
) -> (StoreView, ResponseView) {
    let at = AddressView { kind: Kind::View, key };
    if !(store.dom().contains(at) && store[at].object is View) {
        (store, ResponseView::Failed(not_found()))
    } else if status_conflicts(store, at, params) {
        (store, ResponseView::Failed(conflict()))
    } else {
        (
            store.insert(
                at,
                EntryView {
                    object: ObjectView::View(with_status(store[at].object->View_0, status)),
                    manager: store[at].manager,
                    status_manager: Some(params.field_manager),
                },
            ),
            ResponseView::Applied,
        )
    }
}

/// The answer to a read of the workload under `key`.
pub open spec fn workload_read(store: StoreView, key: ObjectKeyView) -> ResponseView {
    let at = AddressView { kind: Kind::Workload, key };
    if store.dom().contains(at) && store[at].object is Workload {
        ResponseView::Workload(Some(store[at].object->Workload_0.replicas))
    } else {
        ResponseView::Failed(not_found())
    }
}

/// The answer to a read of the view under `key`.
pub open spec fn view_read(store: StoreView, key: ObjectKeyView) -> ResponseView {
    let at = AddressView { kind: Kind::View, key };
    if store.dom().contains(at) && store[at].object is View {
        ResponseView::View(store[at].object->View_0)
    } else {
        ResponseView::Failed(not_found())
    }
}

/// The store after `request`, and its answer.
pub open spec fn handled(store: StoreView, request: RequestView) -> (StoreView, ResponseView) {
    match request {
        RequestView::ApplyContentStore(child, params) => applied(
            store,
            ObjectView::ContentStore(child),
            params,
        ),
        RequestView::ApplyWorkload(child, params) => applied(
            store,
            ObjectView::Workload(child),
            params,
        ),
        RequestView::ApplyEndpoint(child, params) => applied(
            store,
            ObjectView::Endpoint(child),
            params,
        ),
        RequestView::ApplyStatus(patch, params) => status_applied(
            store,
            patch.key,
            patch.status,
            params,
        ),
        RequestView::GetWorkload(key) => (store, workload_read(store, key)),
        RequestView::GetView(key) => (store, view_read(store, key)),
    }
}

/// Applying twice is applying once: an apply that was taken leaves a store
/// on which the same apply is taken again and changes nothing. In
/// particular this holds of an apply to a store that was empty.
pub proof fn lemma_apply_idempotent(store: StoreView, object: ObjectView, params: ApplyParamsView)
    ensures
        applied(store, object, params).1 is Applied ==> applied(
            applied(store, object, params).0,
            object,
            params,
        ) == applied(store, object, params),
        applied(Map::empty(), object, params).1 is Applied,
{
    if applied(store, object, params).1 is Applied {
        let once = applied(store, object, params).0;
        assert(written(once, object, params.field_manager) =~= once);
    }
}

/// An apply touches one address only: whatever is stored elsewhere stays.
pub proof fn lemma_apply_local(
    store: StoreView,
    object: ObjectView,
    params: ApplyParamsView,
    other: AddressView,
)
    requires
        other != address_of(object),
    ensures
        applied(store, object, params).0.dom().contains(other) == store.dom().contains(other),
        applied(store, object, params).0[other] == store[other],
{
}

/// A write to an object that another manager holds is turned down, and the
/// object stays as that manager wrote it.
pub proof fn lemma_conflict_is_surfaced(store: StoreView, object: ObjectView, params: ApplyParamsView)
    requires
        conflicts(store, address_of(object), params),
    ensures
        applied(store, object, params) == (store, ResponseView::Failed(conflict())),
{
}

/// A status write to a view whose status another manager holds is turned
/// down, and the status stays as that manager wrote it.
pub proof fn lemma_status_conflict_is_surfaced(
    store: StoreView,
    key: ObjectKeyView,
    status: MarkdownViewStatusEnum,
    params: ApplyParamsView,
)
    requires
        store.dom().contains(AddressView { kind: Kind::View, key }),
        store[AddressView { kind: Kind::View, key }].object is View,
        status_conflicts(store, AddressView { kind: Kind::View, key }, params),
    ensures
        status_applied(store, key, status, params) == (store, ResponseView::Failed(conflict())),
{
}

/// Writing a status twice is writing it once: a status write that was taken
/// leaves a store on which the same write is taken again and changes
/// nothing.
pub proof fn lemma_status_apply_idempotent(
    store: StoreView,
    key: ObjectKeyView,
    status: MarkdownViewStatusEnum,
    params: ApplyParamsView,
)
    ensures
        status_applied(store, key, status, params).1 is Applied ==> status_applied(
            status_applied(store, key, status, params).0,
            key,
            status,
            params,
        ) == status_applied(store, key, status, params),
{
    if status_applied(store, key, status, params).1 is Applied {
        let once = status_applied(store, key, status, params).0;
        assert(status_applied(once, key, status, params).0 =~= once);
    }
}

/// An in-memory store.
#[derive(Debug)]
pub struct MemoryStore {
    rows: Vec<(Address, Entry)>,
}

impl View for MemoryStore {
    type V = Map<AddressView, EntryView>;

    open spec fn view(&self) -> Map<AddressView, EntryView> {
        self.contents()
    }
}

fn make_not_found() -> (error: StoreError)
    ensures
        error@ == not_found(),
{
    StoreError { kind: StoreErrorKind::NotFound, message: String::from_str("not found") }
}

fn make_conflict() -> (error: StoreError)
    ensures
        error@ == conflict(),
{
    StoreError {
        kind: StoreErrorKind::Conflict,
        message: String::from_str("held by another field manager"),
    }
}

impl Object {
    /// The address under which this object is stored.
    pub fn address(&self) -> (at: Address)
        ensures
            at@ == address_of(self@),
    {
        match self {
            Object::ContentStore(child) => Address {
                kind: Kind::ContentStore,
                key: ObjectKey {
                    namespace: child.metadata.namespace.clone(),
                    name: child.metadata.name.clone(),
                },
            },
            Object::Workload(child) => Address {
                kind: Kind::Workload,
                key: ObjectKey {
                    namespace: child.metadata.namespace.clone(),
                    name: child.metadata.name.clone(),
                },
            },
            Object::Endpoint(child) => Address {
                kind: Kind::Endpoint,
                key: ObjectKey {
                    namespace: child.metadata.namespace.clone(),
                    name: child.metadata.name.clone(),
                },
            },
            Object::View(view) => Address {
                kind: Kind::View,
                key: ObjectKey { namespace: view.namespace.clone(), name: view.name.clone() },
            },
        }
    }
}

impl MemoryStore {
    #[verifier::type_invariant]
    spec fn addresses_occur_once(&self) -> bool {
        distinct_keys(self.rows.deep_view())
    }

    /// What the store holds.
    pub closed spec fn contents(&self) -> Map<AddressView, EntryView> {
        map_of(self.rows.deep_view())
    }

    /// A store that holds nothing.
    pub fn new() -> (store: MemoryStore)
        ensures
            store@ == Map::<AddressView, EntryView>::empty(),
    {
        let rows: Vec<(Address, Entry)> = Vec::new();
        assert(rows.deep_view() =~= Seq::<(AddressView, EntryView)>::empty());
        MemoryStore { rows }
    }

    /// Index of the row stored under `kind` and `key`.
    fn position(&self, kind: Kind, key: &ObjectKey) -> (at: Option<usize>)
        ensures
            match at {
                Some(i) => i < self.rows.len() && self.rows.deep_view()[i as int].0 == (AddressView {
                    kind,
                    key: key@,
                }),
                None => !has_key(self.rows.deep_view(), AddressView { kind, key: key@ }),
            },
    {
        let mut i: usize = 0;
        while i < self.rows.len()
            invariant
                i <= self.rows.len(),
                forall|j: int|
                    0 <= j < i ==> self.rows.deep_view()[j].0 != (AddressView { kind, key: key@ }),
            decreases self.rows.len() - i,
        {
            if self.rows[i].0.kind == kind && self.rows[i].0.key.same(key) {
                return Some(i);
            }
            i += 1;
        }
        None
    }

    /// The entry stored under `kind` and `key`.
    pub fn get(&self, kind: Kind, key: &ObjectKey) -> (entry: Option<&Entry>)
        ensures
            match entry {
                Some(found) => self@.dom().contains(AddressView { kind, key: key@ }) && self@[AddressView {
                    kind,
                    key: key@,
                }] == found@,
                None => !self@.dom().contains(AddressView { kind, key: key@ }),
            },
    {
        proof {
            use_type_invariant(self);
            lemma_map_of_dom(self.rows.deep_view(), AddressView { kind, key: key@ });
        }
        match self.position(kind, key) {
            Some(i) => {
                proof {
                    lemma_map_of_entry(self.rows.deep_view(), i as int);
                }
                Some(&self.rows[i].1)
            },
            None => None,
        }
    }

    /// Number of objects in the store.
    pub fn len(&self) -> (n: usize)
        ensures
            self@.dom().finite(),
            n == self@.len(),
    {
        proof {
            use_type_invariant(self);
            lemma_map_of_len(self.rows.deep_view());
        }
        self.rows.len()
    }

    /// Stores `entry` under `at`, in place of what was there.
    fn set(&mut self, at: Address, entry: Entry)
        ensures
            final(self)@ == old(self)@.insert(at@, entry@),
    {
        proof {
            use_type_invariant(&*self);
        }
        let ghost before = self.rows.deep_view();
        let found = self.position(at.kind, &at.key);
        let mut rows: Vec<(Address, Entry)> = Vec::new();
        assert(rows.deep_view() =~= Seq::<(AddressView, EntryView)>::empty());
        core::mem::swap(&mut rows, &mut self.rows);
        match found {
            Some(i) => {
                proof {
                    lemma_map_of_replace(before, i as int, entry@);
                }
                rows[i] = (at, entry);
                assert(rows.deep_view() =~= before.update(i as int, (at@, entry@)));
            },
            None => {
                proof {
                    lemma_push_distinct(before, at@, entry@);
                }
                rows.push((at, entry));
                assert(rows.deep_view() =~= before.push((at@, entry@)));
            },
        }
        core::mem::swap(&mut rows, &mut self.rows);
    }

    /// Writes `object` for `manager` without regard to who holds it, as a
    /// user or another controller does.
    pub fn put(&mut self, object: Object, manager: String)
        ensures
            final(self)@ == written(old(self)@, object@, manager@),
    {
        let at = object.address();
        let status_manager = match &object {
            Object::View(view) => {
                if view.status.is_some() {
                    Some(manager.clone())
                } else {
                    None
                }
            },
            _ => None,
        };
        self.set(at, Entry { object, manager, status_manager });
    }

    /// Applies `object` under `params`.
    fn apply(&mut self, object: Object, params: ApplyParams) -> (response: Response)
        ensures
            (final(self)@, response@) == applied(old(self)@, object@, params@),
    {
        let at = object.address();
        let held = match self.get(at.kind, &at.key) {
            Some(entry) => entry.manager != params.field_manager && !params.force,
            None => false,
        };
        if held {
            Response::Failed(make_conflict())
        } else {
            self.put(object, params.field_manager);
            Response::Applied
        }
    }

    /// Writes the status of the view under the key of `patch`.
    fn apply_status(&mut self, patch: StatusPatch, params: ApplyParams) -> (response: Response)
        ensures
            (final(self)@, response@) == status_applied(
                old(self)@,
                patch@.key,
                patch@.status,
                params@,
            ),
    {
        let updated = match self.get(Kind::View, &patch.key) {
            Some(entry) => match &entry.object {
                Object::View(view) => {
                    let held = match &entry.status_manager {
                        Some(holder) => *holder != params.field_manager && !params.force,
                        None => false,
                    };
                    if held {
                        return Response::Failed(make_conflict());
                    }
                    let mut view = view.clone();
                    view.status = Some(patch.status);
                    Some(Entry {
                        object: Object::View(view),
                        manager: entry.manager.clone(),
                        status_manager: Some(params.field_manager),
                    })
                },
                _ => None,
            },
            None => None,
        };
        match updated {
            Some(entry) => {
                self.set(Address { kind: Kind::View, key: patch.key }, entry);
                Response::Applied
            },
            None => Response::Failed(make_not_found()),
        }
    }

    /// Answers `request` as the store would, and changes as the store would.
    pub fn handle(&mut self, request: Request) -> (response: Response)
        ensures
            (final(self)@, response@) == handled(old(self)@, request@),
    {
        match request {
            Request::ApplyContentStore(child, params) => self.apply(
                Object::ContentStore(child),
                params,
            ),
            Request::ApplyWorkload(child, params) => self.apply(Object::Workload(child), params),
            Request::ApplyEndpoint(child, params) => self.apply(Object::Endpoint(child), params),
            Request::ApplyStatus(patch, params) => self.apply_status(patch, params),
            Request::GetWorkload(key) => match self.get(Kind::Workload, &key) {
                Some(entry) => match &entry.object {
                    Object::Workload(child) => Response::Workload(Some(child.replicas)),
                    _ => Response::Failed(make_not_found()),
                },
                None => Response::Failed(make_not_found()),
            },
            Request::GetView(key) => match self.get(Kind::View, &key) {
                Some(entry) => match &entry.object {
                    Object::View(view) => Response::View(view.clone()),
                    _ => Response::Failed(make_not_found()),
                },
                None => Response::Failed(make_not_found()),
            },
        }
    }
}

} // verus!
