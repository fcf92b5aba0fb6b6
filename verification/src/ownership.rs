//! Ownership: every child points back at the view that it was made for, so
//! that the store removes the child when the view is deleted.

use crate::markdown::{MarkdownView, MarkdownViewView};
use crate::resources::{OwnerReference, OwnerReferenceView};
use vstd::prelude::*;
use vstd::string::*;

verus! {

/// API group and version under which views are registered.
pub const VIEW_API_VERSION: &'static str = "view.zoetrope.github.io/v1";

/// Kind under which views are registered.
pub const VIEW_KIND: &'static str = "MarkdownView";

/// The reference that names `view` as controlling owner and holds back its
/// deletion until the child is gone.
pub open spec fn owner_reference(view: MarkdownViewView) -> OwnerReferenceView {
    OwnerReferenceView {
        api_version: VIEW_API_VERSION@,
        kind: VIEW_KIND@,
        name: view.name,
        uid: view.uid,
        controller: true,
        block_owner_deletion: true,
    }
}

/// Builds the owner reference that a child of `obj` carries.
pub fn controller_owner_ref(obj: &MarkdownView) -> (owner: OwnerReference)
    ensures
        owner@ == owner_reference(obj@),
{
    OwnerReference {
        api_version: String::from_str(VIEW_API_VERSION),
        kind: String::from_str(VIEW_KIND),
        name: obj.name.clone(),
        uid: obj.uid.clone(),
        controller: true,
        block_owner_deletion: true,
    }
}

} // verus!
