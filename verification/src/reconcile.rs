use crate::crd::{InrushGateway, InrushGatewayView, ServiceTemplateView};
use crate::error::ReconcileError;
use crate::ingress::{Ingress, IngressView};
use crate::manifests::{
    choose_image, chosen_image, config_map, deployment, identity, service, Identity, IdentityView,
};
use crate::objects::{
    ConfigMap, ConfigMapView, Deployment, DeploymentView, ObjectMeta, ObjectMetaView, Service,
    ServiceView,
};
use crate::routes::{
    collect_routes, complete, elements, routes, routes_complete, InrushGatewayMetadata,
    InrushGatewayMetadataView,
};
use vstd::prelude::*;

verus! {

/// The name under which the controller owns the fields that it sets.
pub const FIELD_MANAGER: &'static str = "inrush.unrouted.uk";

/// After how many seconds a gateway that is up to date is looked at again.
pub const RESYNC_SECONDS: u64 = 300;

/// After how many seconds a gateway that could not be brought up to date is looked at again.
pub const RETRY_SECONDS: u64 = 1;

/// How many gateways are worked on at the same time, at most.
pub const CONCURRENCY: u16 = 2;

/// For how many seconds further changes are awaited before a gateway is looked at.
pub const DEBOUNCE_SECONDS: u64 = 5;

/// What holds for all gateways of the cluster.
#[derive(Debug)]
pub struct Settings {
    /// The domain that the host names of services end in.
    pub cluster_domain: String,
    /// The image of gateways that do not name one.
    pub image_name: String,
}

/// The view of a [`Settings`].
pub struct SettingsView {
    pub cluster_domain: Seq<char>,
    pub image_name: Seq<char>,
}

impl DeepView for Settings {
    type V = SettingsView;

    open spec fn deep_view(&self) -> SettingsView {
        SettingsView { cluster_domain: self.cluster_domain@, image_name: self.image_name@ }
    }
}

/// An object that belongs to a gateway.
#[derive(Debug)]
pub enum Object {
    ConfigMap(ConfigMap),
    Deployment(Deployment),
    Service(Service),
}

/// The view of an [`Object`].
pub enum ObjectView {
    ConfigMap(ConfigMapView),
    Deployment(DeploymentView),
    Service(ServiceView),
}

impl DeepView for Object {
    type V = ObjectView;

    open spec fn deep_view(&self) -> ObjectView {
        match self {
            Object::ConfigMap(object) => ObjectView::ConfigMap(object.deep_view()),
            Object::Deployment(object) => ObjectView::Deployment(object.deep_view()),
            Object::Service(object) => ObjectView::Service(object.deep_view()),
        }
    }
}

/// A server-side apply: the cluster is asked to create an object, or to set the fields that are
/// given.
#[derive(Debug)]
pub struct ApplyRequest {
    pub name: String,
    pub namespace: String,
    pub field_manager: String,
    /// Whether fields that another manager owns are taken over.
    pub force: bool,
    pub object: Object,
}

/// The view of an [`ApplyRequest`].
pub struct ApplyRequestView {
    pub name: Seq<char>,
    pub namespace: Seq<char>,
    pub field_manager: Seq<char>,
    pub force: bool,
    pub object: ObjectView,
}

impl DeepView for ApplyRequest {
    type V = ApplyRequestView;

    open spec fn deep_view(&self) -> ApplyRequestView {
        ApplyRequestView {
            name: self.name@,
            namespace: self.namespace@,
            field_manager: self.field_manager@,
            force: self.force,
            object: self.object.deep_view(),
        }
    }
}

/// The requests of a gateway that are still to be made, while one is under way.
#[derive(Debug)]
pub struct Rollout {
    /// The error if the request that is under way is refused.
    pub refusal: ReconcileError,
    pub remaining: Vec<ApplyRequest>,
}

/// The view of a [`Rollout`].
pub struct RolloutView {
    pub refusal: ReconcileError,
    pub remaining: Seq<ApplyRequestView>,
}

impl DeepView for Rollout {
    type V = RolloutView;

    open spec fn deep_view(&self) -> RolloutView {
        RolloutView { refusal: self.refusal, remaining: self.remaining.deep_view() }
    }
}

/// What has to be done next for a gateway, and what has to be kept for when it is done.
#[derive(Debug)]
pub enum Step {
    /// Render the proxy's configuration, and go on with [`after_render`].
    Render(InrushGatewayMetadata, Identity),
    /// Make a request, and go on with [`after_apply`].
    Apply(ApplyRequest, Rollout),
    /// The gateway is up to date; look at it again after so many seconds.
    Requeue(u64),
    /// The gateway could not be brought up to date.
    Fail(ReconcileError),
}

/// The view of a [`Step`].
pub enum StepView {
    Render(InrushGatewayMetadataView, IdentityView),
    Apply(ApplyRequestView, RolloutView),
    Requeue(u64),
    Fail(ReconcileError),
}

impl DeepView for Step {
    type V = StepView;

    open spec fn deep_view(&self) -> StepView {
        match self {
            Step::Render(metadata, identity) => StepView::Render(
                metadata.deep_view(),
                identity.deep_view(),
            ),
            Step::Apply(request, rollout) => StepView::Apply(
                request.deep_view(),
                rollout.deep_view(),
            ),
            Step::Requeue(seconds) => StepView::Requeue(*seconds),
            Step::Fail(error) => StepView::Fail(*error),
        }
    }
}

/// The metadata of an object.
pub open spec fn object_metadata(object: ObjectView) -> ObjectMetaView {
    match object {
        ObjectView::ConfigMap(object) => object.metadata,
        ObjectView::Deployment(object) => object.metadata,
        ObjectView::Service(object) => object.metadata,
    }
}

/// The error if the cluster refuses an object.
pub open spec fn refusal(object: ObjectView) -> ReconcileError {
    match object {
        ObjectView::ConfigMap(_) => ReconcileError::ConfigMapFailed,
        ObjectView::Deployment(_) => ReconcileError::DeploymentFailed,
        ObjectView::Service(_) => ReconcileError::ServiceFailed,
    }
}

/// The request that applies an object of a gateway. Services alone are forced.
pub open spec fn apply_request(identity: IdentityView, object: ObjectView) -> ApplyRequestView {
    ApplyRequestView {
        name: object_metadata(object).name->0,
        namespace: identity.namespace,
        field_manager: FIELD_MANAGER@,
        force: object is Service,
        object,
    }
}

/// The requests for the services that templates ask for.
pub open spec fn service_requests(
    identity: IdentityView,
    templates: Seq<ServiceTemplateView>,
) -> Seq<ApplyRequestView> {
    templates.map_values(
        |template: ServiceTemplateView|
            apply_request(identity, ObjectView::Service(service(identity, template))),
    )
}

/// All requests that bring a gateway up to date, in the order in which they are made: the config
/// map, the deployment, and the services in the order of their templates.
pub open spec fn plan(
    gateway: InrushGatewayView,
    settings: SettingsView,
    identity: IdentityView,
    rendered: Seq<char>,
) -> Seq<ApplyRequestView> {
    let image = chosen_image(gateway.spec.image, settings.image_name);
    seq![
        apply_request(identity, ObjectView::ConfigMap(config_map(identity, rendered))),
        apply_request(identity, ObjectView::Deployment(deployment(identity, image))),
    ] + service_requests(identity, elements(gateway.spec.service_templates))
}

/// The step that makes the first of some requests, or that ends the work where none is left.
pub open spec fn next_request(requests: Seq<ApplyRequestView>) -> StepView {
    if requests.len() == 0 {
        StepView::Requeue(RESYNC_SECONDS)
    } else {
        StepView::Apply(
            requests.first(),
            RolloutView {
                refusal: refusal(requests.first().object),
                remaining: requests.drop_first(),
            },
        )
    }
}

/// The step once the ingresses are available, or are known not to become so.
pub open spec fn step_after_store(
    gateway: InrushGatewayView,
    settings: SettingsView,
    ingresses: Option<Seq<IngressView>>,
) -> StepView {
    match ingresses {
        None => StepView::Fail(ReconcileError::StoreNotReady),
        Some(ingresses) => match identity(gateway) {
            Err(error) => StepView::Fail(error),
            Ok(identity) => StepView::Render(
                routes(identity.name, settings.cluster_domain, ingresses),
                identity,
            ),
        },
    }
}

/// The step once the configuration is rendered, or could not be.
pub open spec fn step_after_render(
    gateway: InrushGatewayView,
    settings: SettingsView,
    identity: IdentityView,
    rendered: Option<Seq<char>>,
) -> StepView {
    match rendered {
        None => StepView::Fail(ReconcileError::RenderFailed),
        Some(rendered) => next_request(plan(gateway, settings, identity, rendered)),
    }
}

/// The step once a request is answered.
pub open spec fn step_after_apply(rollout: RolloutView, accepted: bool) -> StepView {
    if accepted {
        next_request(rollout.remaining)
    } else {
        StepView::Fail(rollout.refusal)
    }
}

/// The ingresses hold everything that the gateway's configuration is made from, as far as the
/// gateway itself is complete.
pub open spec fn routable(gateway: InrushGatewayView, ingresses: Seq<IngressView>) -> bool {
    identity(gateway) matches Ok(identity) ==> complete(identity.name, ingresses)
}

fn make_apply_request(identity: &Identity, name: String, object: Object) -> (result: ApplyRequest)
    requires
        object_metadata(object.deep_view()).name == Some(name@),
    ensures
        result.deep_view() == apply_request(identity.deep_view(), object.deep_view()),
{
    let force = match &object {
        Object::Service(_) => true,
        _ => false,
    };
    ApplyRequest {
        name,
        namespace: identity.namespace.clone(),
        field_manager: FIELD_MANAGER.to_owned(),
        force,
        object,
    }
}

/// The name in the metadata of an object that has one.
fn name_of(metadata: &ObjectMeta) -> (result: String)
    requires
        metadata.name is Some,
    ensures
        metadata.deep_view().name == Some(result@),
{
    metadata.name.as_ref().unwrap().clone()
}

/// All requests that bring a gateway up to date, in the order in which they are made.
pub fn make_plan(
    gateway: &InrushGateway,
    settings: &Settings,
    identity: &Identity,
    rendered: String,
) -> (result: Vec<ApplyRequest>)
    ensures
        result.deep_view() == plan(
            gateway.deep_view(),
            settings.deep_view(),
            identity.deep_view(),
            rendered@,
        ),
{
    let ghost owner = identity.deep_view();
    let ghost expected = plan(gateway.deep_view(), settings.deep_view(), owner, rendered@);
    let mut result: Vec<ApplyRequest> = Vec::new();
    let config_map = identity.make_config_map(rendered);
    let name = name_of(&config_map.metadata);
    result.push(make_apply_request(identity, name, Object::ConfigMap(config_map)));
    let image = choose_image(&gateway.spec.image, &settings.image_name);
    let deployment = identity.make_deployment(image);
    let name = name_of(&deployment.metadata);
    result.push(make_apply_request(identity, name, Object::Deployment(deployment)));
    assert(result.deep_view() =~= expected.take(2));
    if let Some(templates) = &gateway.spec.service_templates {
        let ghost all = templates.deep_view();
        assert(elements(gateway.deep_view().spec.service_templates) == all);
        let mut i: usize = 0;
        while i < templates.len()
            invariant
                i <= templates.len(),
                all == templates.deep_view(),
                owner == identity.deep_view(),
                expected.len() == 2 + all.len(),
                forall|j: int|
                    0 <= j < all.len() ==> #[trigger] expected[2 + j] == apply_request(
                        owner,
                        ObjectView::Service(service(owner, all[j])),
                    ),
                result.deep_view() == expected.take(2 + i as int),
            decreases templates.len() - i,
        {
            let service = identity.make_service(&templates[i]);
            let name = name_of(&service.metadata);
            let request = make_apply_request(identity, name, Object::Service(service));
            let ghost before = result.deep_view();
            result.push(request);
            assert(request.deep_view() == expected[2 + i as int]);
            assert(result.deep_view() =~= before.push(request.deep_view()));
            assert(expected.take(2 + i + 1) =~= expected.take(2 + i as int).push(
                expected[2 + i as int],
            ));
            i += 1;
        }
    }
    assert(expected.take(expected.len() as int) =~= expected);
    result
}

/// The error if the cluster refuses the object.
fn refusal_of(object: &Object) -> (result: ReconcileError)
    ensures
        result == refusal(object.deep_view()),
{
    match object {
        Object::ConfigMap(_) => ReconcileError::ConfigMapFailed,
        Object::Deployment(_) => ReconcileError::DeploymentFailed,
        Object::Service(_) => ReconcileError::ServiceFailed,
    }
}

fn make_next_request(requests: Vec<ApplyRequest>) -> (result: Step)
    ensures
        result.deep_view() == next_request(requests.deep_view()),
{
    let mut remaining = requests;
    if remaining.len() == 0 {
        return Step::Requeue(RESYNC_SECONDS);
    }
    let request = remaining.remove(0);
    assert(remaining.deep_view() =~= requests.deep_view().drop_first());
    let refusal = refusal_of(&request.object);
    Step::Apply(request, Rollout { refusal, remaining })
}

/// Whether the ingresses hold everything that the gateway's configuration is made from; where they
/// do not, [`after_store`] has no answer.
pub fn is_routable(gateway: &InrushGateway, ingresses: &Vec<Ingress>) -> (result: bool)
    ensures
        result == routable(gateway.deep_view(), ingresses.deep_view()),
{
    match Identity::of(gateway) {
        Err(_) => true,
        Ok(identity) => routes_complete(&identity.name, ingresses),
    }
}

/// What has to be done once the ingresses of the cluster are available, or are known not to
/// become so.
pub fn after_store(
    gateway: &InrushGateway,
    settings: &Settings,
    ingresses: Option<&Vec<Ingress>>,
) -> (result: Step)
    requires
        ingresses matches Some(ingresses) ==> routable(
            gateway.deep_view(),
            ingresses.deep_view(),
        ),
    ensures
        result.deep_view() == step_after_store(
            gateway.deep_view(),
            settings.deep_view(),
            ingresses.deep_view(),
        ),
{
    match ingresses {
        None => Step::Fail(ReconcileError::StoreNotReady),
        Some(ingresses) => match Identity::of(gateway) {
            Err(error) => Step::Fail(error),
            Ok(identity) => {
                let metadata = collect_routes(&identity.name, &settings.cluster_domain, ingresses);
                Step::Render(metadata, identity)
            },
        },
    }
}

/// What has to be done once the proxy's configuration is rendered, or could not be.
pub fn after_render(
    gateway: &InrushGateway,
    settings: &Settings,
    identity: &Identity,
    rendered: Option<String>,
) -> (result: Step)
    ensures
        result.deep_view() == step_after_render(
            gateway.deep_view(),
            settings.deep_view(),
            identity.deep_view(),
            rendered.deep_view(),
        ),
{
    match rendered {
        None => Step::Fail(ReconcileError::RenderFailed),
        Some(rendered) => make_next_request(make_plan(gateway, settings, identity, rendered)),
    }
}

/// What has to be done once the cluster has accepted a request, or has refused it.
pub fn after_apply(rollout: Rollout, accepted: bool) -> (result: Step)
    ensures
        result.deep_view() == step_after_apply(rollout.deep_view(), accepted),
{
    if accepted {
        make_next_request(rollout.remaining)
    } else {
        Step::Fail(rollout.refusal)
    }
}

/// After how many seconds a gateway that could not be brought up to date is looked at again,
/// whatever the error was.
pub fn error_policy() -> (result: u64)
    ensures
        result == 1,
{
    RETRY_SECONDS
}

} // verus!
