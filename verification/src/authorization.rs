use vstd::prelude::*;
use std::collections::BTreeMap;

verus! {

/// A request for something that is no resource: a path and a verb.
#[derive(Debug, Clone, PartialEq)]
pub struct NonResourceAttributes {
    /// The URL path of the request.
    pub path: Option<String>,
    /// The HTTP verb.
    pub verb: Option<String>,
}

/// The mathematical content of a [`NonResourceAttributes`].
pub struct NonResourceAttributesView {
    pub path: Option<Seq<char>>,
    pub verb: Option<Seq<char>>,
}

impl View for NonResourceAttributes {
    type V = NonResourceAttributesView;

    open spec fn view(&self) -> NonResourceAttributesView {
        NonResourceAttributesView { path: self.path.deep_view(), verb: self.verb.deep_view() }
    }
}

impl Default for NonResourceAttributes {
    fn default() -> (attributes: NonResourceAttributes)
        ensures
            attributes@ == (NonResourceAttributesView { path: None, verb: None }),
    {
        NonResourceAttributes { path: None, verb: None }
    }
}

/// A request for a resource: what is to be done to which object.
#[derive(Debug, Clone, PartialEq)]
pub struct ResourceAttributes {
    /// The API group of the resource.
    pub group: Option<String>,
    /// The name of the object.
    pub name: Option<String>,
    /// The namespace of the action.
    pub namespace: Option<String>,
    /// The resource type, such as `configmaps`.
    pub resource: Option<String>,
    /// The subresource type.
    pub subresource: Option<String>,
    /// The API verb, such as `get` or `list`.
    pub verb: Option<String>,
    /// The API version of the resource.
    pub version: Option<String>,
}

/// The mathematical content of a [`ResourceAttributes`].
pub struct ResourceAttributesView {
    pub group: Option<Seq<char>>,
    pub name: Option<Seq<char>>,
    pub namespace: Option<Seq<char>>,
    pub resource: Option<Seq<char>>,
    pub subresource: Option<Seq<char>>,
    pub verb: Option<Seq<char>>,
    pub version: Option<Seq<char>>,
}

impl ResourceAttributesView {
    /// Attributes that name nothing.
    pub open spec fn empty() -> ResourceAttributesView {
        ResourceAttributesView {
            group: None,
            name: None,
            namespace: None,
            resource: None,
            subresource: None,
            verb: None,
            version: None,
        }
    }
}

impl View for ResourceAttributes {
    type V = ResourceAttributesView;

    open spec fn view(&self) -> ResourceAttributesView {
        ResourceAttributesView {
            group: self.group.deep_view(),
            name: self.name.deep_view(),
            namespace: self.namespace.deep_view(),
            resource: self.resource.deep_view(),
            subresource: self.subresource.deep_view(),
            verb: self.verb.deep_view(),
            version: self.version.deep_view(),
        }
    }
}

impl Default for ResourceAttributes {
    fn default() -> (attributes: ResourceAttributes)
        ensures
            attributes@ == ResourceAttributesView::empty(),
    {
        ResourceAttributes {
            group: None,
            name: None,
            namespace: None,
            resource: None,
            subresource: None,
            verb: None,
            version: None,
        }
    }
}

/// The question of a subject access review: may this user do that?
#[derive(Debug, Clone, PartialEq)]
pub struct SubjectAccessReviewSpec {
    /// Further facts about the user, as the authenticator gave them.
    pub extra: Option<BTreeMap<String, Vec<String>>>,
    /// The groups that the user belongs to.
    pub groups: Option<Vec<String>>,
    /// What is asked for, where it is no resource.
    pub non_resource_attributes: Option<NonResourceAttributes>,
    /// What is asked for, where it is a resource.
    pub resource_attributes: Option<ResourceAttributes>,
    /// The identifier of the user.
    pub uid: Option<String>,
    /// The user that asks.
    pub user: Option<String>,
}

/// The mathematical content of a [`SubjectAccessReviewSpec`].
pub struct SubjectAccessReviewSpecView {
    pub extra: Option<Map<Seq<char>, Seq<Seq<char>>>>,
    pub groups: Option<Seq<Seq<char>>>,
    pub non_resource_attributes: Option<NonResourceAttributesView>,
    pub resource_attributes: Option<ResourceAttributesView>,
    pub uid: Option<Seq<char>>,
    pub user: Option<Seq<char>>,
}

impl SubjectAccessReviewSpecView {
    /// A spec that asks nothing.
    pub open spec fn empty() -> SubjectAccessReviewSpecView {
        SubjectAccessReviewSpecView {
            extra: None,
            groups: None,
            non_resource_attributes: None,
            resource_attributes: None,
            uid: None,
            user: None,
        }
    }
}

impl View for SubjectAccessReviewSpec {
    type V = SubjectAccessReviewSpecView;

    open spec fn view(&self) -> SubjectAccessReviewSpecView {
        SubjectAccessReviewSpecView {
            extra: self.extra.deep_view(),
            groups: self.groups.deep_view(),
            non_resource_attributes: match self.non_resource_attributes {
                Some(attributes) => Some(attributes@),
                None => None,
            },
            resource_attributes: match self.resource_attributes {
                Some(attributes) => Some(attributes@),
                None => None,
            },
            uid: self.uid.deep_view(),
            user: self.user.deep_view(),
        }
    }
}

impl Default for SubjectAccessReviewSpec {
    fn default() -> (spec: SubjectAccessReviewSpec)
        ensures
            spec@ == SubjectAccessReviewSpecView::empty(),
    {
        SubjectAccessReviewSpec {
            extra: None,
            groups: None,
            non_resource_attributes: None,
            resource_attributes: None,
            uid: None,
            user: None,
        }
    }
}

/// The answer of a subject access review.
#[derive(Debug, Clone, PartialEq)]
pub struct SubjectAccessReviewStatus {
    /// Whether the action is allowed.
    pub allowed: bool,
    /// Whether the action is forbidden outright, so that no other authorizer
    /// is asked.
    pub denied: Option<bool>,
    /// What went wrong while the question was evaluated.
    pub evaluation_error: Option<String>,
    /// Why the action is allowed or denied.
    pub reason: Option<String>,
}

/// The mathematical content of a [`SubjectAccessReviewStatus`].
pub struct SubjectAccessReviewStatusView {
    pub allowed: bool,
    pub denied: Option<bool>,
    pub evaluation_error: Option<Seq<char>>,
    pub reason: Option<Seq<char>>,
}

impl SubjectAccessReviewStatusView {
    /// The status of a plain decision: `denied` is stated, as `false`, and
    /// neither a reason nor an evaluation error is given.
    pub open spec fn decided(allowed: bool) -> SubjectAccessReviewStatusView {
        SubjectAccessReviewStatusView {
            allowed,
            denied: Some(false),
            evaluation_error: None,
            reason: None,
        }
    }

    /// This status with `denied` stated as given.
    pub open spec fn denying(self, denied: bool) -> SubjectAccessReviewStatusView {
        SubjectAccessReviewStatusView { denied: Some(denied), ..self }
    }

    /// This status with `reason` as its reason.
    pub open spec fn because(self, reason: Seq<char>) -> SubjectAccessReviewStatusView {
        SubjectAccessReviewStatusView { reason: Some(reason), ..self }
    }
}

impl View for SubjectAccessReviewStatus {
    type V = SubjectAccessReviewStatusView;

    open spec fn view(&self) -> SubjectAccessReviewStatusView {
        SubjectAccessReviewStatusView {
            allowed: self.allowed,
            denied: self.denied,
            evaluation_error: self.evaluation_error.deep_view(),
            reason: self.reason.deep_view(),
        }
    }
}

impl Default for SubjectAccessReviewStatus {
    fn default() -> (status: SubjectAccessReviewStatus)
        ensures
            status@ == (SubjectAccessReviewStatusView {
                allowed: false,
                denied: None,
                evaluation_error: None,
                reason: None,
            }),
    {
        SubjectAccessReviewStatus {
            allowed: false,
            denied: None,
            evaluation_error: None,
            reason: None,
        }
    }
}

/// A subject access review: the question that the API server asks an
/// authorizer, and the authorizer's answer. Object metadata is not part of
/// the model.
#[derive(Debug, Clone, PartialEq)]
pub struct SubjectAccessReview {
    /// The action to be judged.
    pub spec: SubjectAccessReviewSpec,
    /// The authorizer's answer, once there is one.
    pub status: Option<SubjectAccessReviewStatus>,
}

/// The mathematical content of a [`SubjectAccessReview`].
pub struct SubjectAccessReviewView {
    pub spec: SubjectAccessReviewSpecView,
    pub status: Option<SubjectAccessReviewStatusView>,
}

impl SubjectAccessReviewView {
    /// A review that asks nothing and answers `status`.
    pub open spec fn answering(status: SubjectAccessReviewStatusView) -> SubjectAccessReviewView {
        SubjectAccessReviewView { spec: SubjectAccessReviewSpecView::empty(), status: Some(status) }
    }
}

impl View for SubjectAccessReview {
    type V = SubjectAccessReviewView;

    open spec fn view(&self) -> SubjectAccessReviewView {
        SubjectAccessReviewView {
            spec: self.spec@,
            status: match self.status {
                Some(status) => Some(status@),
                None => None,
            },
        }
    }
}

impl Default for SubjectAccessReview {
    fn default() -> (review: SubjectAccessReview)
        ensures
            review@ == (SubjectAccessReviewView {
                spec: SubjectAccessReviewSpecView::empty(),
                status: None,
            }),
    {
        SubjectAccessReview { spec: SubjectAccessReviewSpec::default(), status: None }
    }
}

} // verus!
