//! The `MarkdownView` resource: what a user declares and what the controller
//! reports back.

use crate::string_map::StringMap;
use vstd::prelude::*;

verus! {

/// What the user asks for: the files to show, how many viewers to run, and
/// optionally which image to run them from.
#[derive(Debug)]
pub struct MarkdonwViewSpec {
    pub markdowns: StringMap,
    pub replicas: u32,
    pub viewer_image: Option<String>,
}

/// The view of [`MarkdonwViewSpec`]: its strings as their characters, its numbers and maps as
/// mathematical ones.
pub struct MarkdonwViewSpecView {
    pub markdowns: Map<Seq<char>, Seq<char>>,
    pub replicas: nat,
    pub viewer_image: Option<Seq<char>>,
}

impl View for MarkdonwViewSpec {
    type V = MarkdonwViewSpecView;

    open spec fn view(&self) -> MarkdonwViewSpecView {
        MarkdonwViewSpecView {
            markdowns: self.markdowns@,
            replicas: self.replicas as nat,
            viewer_image: match self.viewer_image {
                Some(image) => Some(image@),
                None => None,
            },
        }
    }
}

impl Clone for MarkdonwViewSpec {
    fn clone(&self) -> (r: Self)
        ensures
            r@ == self@,
    {
        MarkdonwViewSpec {
            markdowns: self.markdowns.clone(),
            replicas: self.replicas,
            viewer_image: match &self.viewer_image {
                Some(image) => Some(image.clone()),
                None => None,
            },
        }
    }
}

/// A yes/no summary of a view's health.
#[derive(Debug, PartialEq, PartialOrd)]
pub struct MarkdownViewStatus {
    pub is_ok: bool,
}

impl Clone for MarkdownViewStatus {
    fn clone(&self) -> (r: Self)
        ensures
            r == *self,
    {
        MarkdownViewStatus { is_ok: self.is_ok }
    }
}

impl Default for MarkdownViewStatus {
    fn default() -> (r: Self)
        ensures
            !r.is_ok,
    {
        MarkdownViewStatus { is_ok: false }
    }
}

/// Health of a view as the controller last computed it.
#[derive(Debug, Clone, Copy, PartialEq, Eq, Structural)]
pub enum MarkdownViewStatusEnum {
    NotReady,
    Available,
    Healthy,
}

impl Default for MarkdownViewStatusEnum {
    fn default() -> (r: Self)
        ensures
            r == MarkdownViewStatusEnum::NotReady,
    {
        MarkdownViewStatusEnum::NotReady
    }
}

/// A view resource as the store holds it. `uid` is the identifier that the
/// store gave it when it was created.
#[derive(Debug)]
pub struct MarkdownView {
    pub name: String,
    pub namespace: String,
    pub uid: String,
    pub spec: MarkdonwViewSpec,
    pub status: Option<MarkdownViewStatusEnum>,
}

/// The view of [`MarkdownView`]: its strings as their characters, its numbers and maps as
/// mathematical ones.
pub struct MarkdownViewView {
    pub name: Seq<char>,
    pub namespace: Seq<char>,
    pub uid: Seq<char>,
    pub spec: MarkdonwViewSpecView,
    pub status: Option<MarkdownViewStatusEnum>,
}

impl View for MarkdownView {
    type V = MarkdownViewView;

    open spec fn view(&self) -> MarkdownViewView {
        MarkdownViewView {
            name: self.name@,
            namespace: self.namespace@,
            uid: self.uid@,
            spec: self.spec@,
            status: self.status,
        }
    }
}

impl Clone for MarkdownView {
    fn clone(&self) -> (r: Self)
        ensures
            r@ == self@,
    {
        MarkdownView {
            name: self.name.clone(),
            namespace: self.namespace.clone(),
            uid: self.uid.clone(),
            spec: self.spec.clone(),
            status: self.status,
        }
    }
}

} // verus!
