use crate::objects::{ObjectMeta, ObjectMetaView};
use crate::string_map::StringMap;
use crate::text::clone_option;
use vstd::prelude::*;

verus! {

/// The API group and version that gateways belong to.
pub const API_VERSION: &'static str = "inrush.unrouted.uk/v1";

/// The kind of a gateway.
pub const KIND: &'static str = "InrushGateway";

/// What a gateway adds to the metadata of a service.
#[derive(Debug)]
pub struct ServiceTemplateMeta {
    pub labels: Option<StringMap>,
}

/// What a gateway sets in the specification of a service.
#[derive(Debug)]
pub struct ServiceTemplateSpec {
    pub load_balancer_class: Option<String>,
    pub external_traffic_policy: Option<String>,
    pub internal_traffic_policy: Option<String>,
    pub type_: Option<String>,
}

/// A service that a gateway asks for.
#[derive(Debug)]
pub struct ServiceTemplate {
    /// What the service's name ends in.
    pub name: String,
    pub metadata: Option<ServiceTemplateMeta>,
    pub spec: Option<ServiceTemplateSpec>,
}

/// What a gateway asks for.
#[derive(Debug)]
pub struct InrushGatewaySpec {
    /// The image to run in place of the controller's own choice.
    pub image: Option<String>,
    pub service_templates: Option<Vec<ServiceTemplate>>,
}

/// A gateway.
#[derive(Debug)]
pub struct InrushGateway {
    pub metadata: ObjectMeta,
    pub spec: InrushGatewaySpec,
}

/// The view of a [`ServiceTemplateMeta`].
pub struct ServiceTemplateMetaView {
    pub labels: Option<Map<Seq<char>, Seq<char>>>,
}

/// The view of a [`ServiceTemplateSpec`].
pub struct ServiceTemplateSpecView {
    pub load_balancer_class: Option<Seq<char>>,
    pub external_traffic_policy: Option<Seq<char>>,
    pub internal_traffic_policy: Option<Seq<char>>,
    pub type_: Option<Seq<char>>,
}

/// The view of a [`ServiceTemplate`].
pub struct ServiceTemplateView {
    pub name: Seq<char>,
    pub metadata: Option<ServiceTemplateMetaView>,
    pub spec: Option<ServiceTemplateSpecView>,
}

/// The view of an [`InrushGatewaySpec`].
pub struct InrushGatewaySpecView {
    pub image: Option<Seq<char>>,
    pub service_templates: Option<Seq<ServiceTemplateView>>,
}

/// The view of an [`InrushGateway`].
pub struct InrushGatewayView {
    pub metadata: ObjectMetaView,
    pub spec: InrushGatewaySpecView,
}

impl DeepView for ServiceTemplateMeta {
    type V = ServiceTemplateMetaView;

    open spec fn deep_view(&self) -> ServiceTemplateMetaView {
        ServiceTemplateMetaView { labels: self.labels.deep_view() }
    }
}

impl DeepView for ServiceTemplateSpec {
    type V = ServiceTemplateSpecView;

    open spec fn deep_view(&self) -> ServiceTemplateSpecView {
        ServiceTemplateSpecView {
            load_balancer_class: self.load_balancer_class.deep_view(),
            external_traffic_policy: self.external_traffic_policy.deep_view(),
            internal_traffic_policy: self.internal_traffic_policy.deep_view(),
            type_: self.type_.deep_view(),
        }
    }
}

impl DeepView for ServiceTemplate {
    type V = ServiceTemplateView;

    open spec fn deep_view(&self) -> ServiceTemplateView {
        ServiceTemplateView {
            name: self.name.deep_view(),
            metadata: self.metadata.deep_view(),
            spec: self.spec.deep_view(),
        }
    }
}

impl DeepView for InrushGatewaySpec {
    type V = InrushGatewaySpecView;

    open spec fn deep_view(&self) -> InrushGatewaySpecView {
        InrushGatewaySpecView {
            image: self.image.deep_view(),
            service_templates: self.service_templates.deep_view(),
        }
    }
}

impl DeepView for InrushGateway {
    type V = InrushGatewayView;

    open spec fn deep_view(&self) -> InrushGatewayView {
        InrushGatewayView { metadata: self.metadata.deep_view(), spec: self.spec.deep_view() }
    }
}

impl Default for ServiceTemplateMeta {
    fn default() -> (result: ServiceTemplateMeta)
        ensures
            result.labels is None,
    {
        ServiceTemplateMeta { labels: None }
    }
}

impl Default for ServiceTemplateSpec {
    fn default() -> (result: ServiceTemplateSpec)
        ensures
            result.load_balancer_class is None,
            result.external_traffic_policy is None,
            result.internal_traffic_policy is None,
            result.type_ is None,
    {
        ServiceTemplateSpec {
            load_balancer_class: None,
            external_traffic_policy: None,
            internal_traffic_policy: None,
            type_: None,
        }
    }
}

impl Default for ServiceTemplate {
    fn default() -> (result: ServiceTemplate)
        ensures
            result.name@ == Seq::<char>::empty(),
            result.metadata is None,
            result.spec is None,
    {
        ServiceTemplate { name: String::new(), metadata: None, spec: None }
    }
}

impl Default for InrushGatewaySpec {
    fn default() -> (result: InrushGatewaySpec)
        ensures
            result.image is None,
            result.service_templates is None,
    {
        InrushGatewaySpec { image: None, service_templates: None }
    }
}

impl Clone for ServiceTemplateMeta {
    fn clone(&self) -> (result: ServiceTemplateMeta)
        ensures
            result.deep_view() == self.deep_view(),
    {
        let labels = match &self.labels {
            Some(labels) => Some(labels.clone()),
            None => None,
        };
        ServiceTemplateMeta { labels }
    }
}

impl Clone for ServiceTemplateSpec {
    fn clone(&self) -> (result: ServiceTemplateSpec)
        ensures
            result.deep_view() == self.deep_view(),
    {
        ServiceTemplateSpec {
            load_balancer_class: clone_option(&self.load_balancer_class),
            external_traffic_policy: clone_option(&self.external_traffic_policy),
            internal_traffic_policy: clone_option(&self.internal_traffic_policy),
            type_: clone_option(&self.type_),
        }
    }
}

impl Clone for ServiceTemplate {
    fn clone(&self) -> (result: ServiceTemplate)
        ensures
            result.deep_view() == self.deep_view(),
    {
        let metadata = match &self.metadata {
            Some(metadata) => Some(metadata.clone()),
            None => None,
        };
        let spec = match &self.spec {
            Some(spec) => Some(spec.clone()),
            None => None,
        };
        ServiceTemplate { name: self.name.clone(), metadata, spec }
    }
}

impl Clone for InrushGatewaySpec {
    fn clone(&self) -> (result: InrushGatewaySpec)
        ensures
            result.deep_view() == self.deep_view(),
    {
        let service_templates = match &self.service_templates {
            Some(templates) => {
                let mut copies: Vec<ServiceTemplate> = Vec::new();
                let ghost all = templates.deep_view();
                let mut i: usize = 0;
                assert(copies.deep_view() =~= all.take(0));
                while i < templates.len()
                    invariant
                        i <= templates.len(),
                        all == templates.deep_view(),
                        copies.deep_view() == all.take(i as int),
                    decreases templates.len() - i,
                {
                    let copy = templates[i].clone();
                    let ghost before = copies.deep_view();
                    copies.push(copy);
                    assert(copies.deep_view() =~= before.push(copy.deep_view()));
                    assert(all.take(i + 1) =~= all.take(i as int).push(all[i as int]));
                    i += 1;
                }
                assert(all.take(i as int) =~= all);
                Some(copies)
            },
            None => None,
        };
        InrushGatewaySpec { image: clone_option(&self.image), service_templates }
    }
}

} // verus!
