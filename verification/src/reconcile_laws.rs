use crate::crd::{InrushGatewayView, ServiceTemplateView};
use crate::error::ReconcileError;
use crate::ingress::IngressView;
use crate::manifests::{
    config_map, identity, owner_reference, service, service_labels, service_name, IdentityView,
    CONFIG_FILE, INGRESS_LABEL,
};
use crate::reconcile::{
    next_request, object_metadata, plan, refusal, routable, step_after_apply, step_after_render,
    step_after_store, ApplyRequestView, ObjectView, RolloutView, SettingsView, StepView,
    CONCURRENCY, DEBOUNCE_SECONDS, RESYNC_SECONDS, RETRY_SECONDS,
};
use crate::routes::{complete, elements, routes};
use vstd::prelude::*;

verus! {

/// The step that the cluster's answers lead to, one answer for each request.
pub open spec fn step_after_answers(step: StepView, answers: Seq<bool>) -> StepView
    decreases answers.len(),
{
    if answers.len() == 0 {
        step
    } else {
        match step {
            StepView::Apply(_, rollout) => step_after_answers(
                step_after_apply(rollout, answers.first()),
                answers.drop_first(),
            ),
            _ => step,
        }
    }
}

/// The step that a gateway is at: the ingresses and the rendered configuration, each where it could
/// be had, and the cluster's answers so far.
pub open spec fn run(
    gateway: InrushGatewayView,
    settings: SettingsView,
    ingresses: Option<Seq<IngressView>>,
    rendered: Option<Seq<char>>,
    answers: Seq<bool>,
) -> StepView {
    match step_after_store(gateway, settings, ingresses) {
        StepView::Render(_, identity) => step_after_answers(
            step_after_render(gateway, settings, identity, rendered),
            answers,
        ),
        step => step,
    }
}

/// As many acceptances.
pub open spec fn acceptances(count: nat) -> Seq<bool> {
    Seq::new(count, |i: int| true)
}

proof fn lemma_acceptances(requests: Seq<ApplyRequestView>, count: nat, rest: Seq<bool>)
    requires
        count <= requests.len(),
    ensures
        step_after_answers(next_request(requests), acceptances(count) + rest)
            == step_after_answers(next_request(requests.skip(count as int)), rest),
    decreases count,
{
    if count == 0 {
        assert(acceptances(0) + rest =~= rest);
        assert(requests.skip(0) =~= requests);
    } else {
        let answers = acceptances(count) + rest;
        let fewer = (count - 1) as nat;
        assert(answers.first());
        assert(answers.drop_first() =~= acceptances(fewer) + rest);
        lemma_acceptances(requests.drop_first(), fewer, rest);
        assert(requests.drop_first().skip(fewer as int) =~= requests.skip(count as int));
    }
}

/// The requests of a gateway are made one after the other, in the order of the plan and each once
/// those before it are accepted; once all are accepted, the gateway is looked at again after five
/// minutes.
pub proof fn requests_are_made_in_order(
    gateway: InrushGatewayView,
    settings: SettingsView,
    ingresses: Seq<IngressView>,
    rendered: Seq<char>,
    accepted: nat,
)
    requires
        identity(gateway) is Ok,
        accepted <= plan(gateway, settings, identity(gateway)->Ok_0, rendered).len(),
    ensures
        ({
            let requests = plan(gateway, settings, identity(gateway)->Ok_0, rendered);
            let step = run(
                gateway,
                settings,
                Some(ingresses),
                Some(rendered),
                acceptances(accepted),
            );
            if accepted < requests.len() {
                step matches StepView::Apply(request, _) && request == requests[accepted as int]
            } else {
                step == StepView::Requeue(300)
            }
        }),
{
    let requests = plan(gateway, settings, identity(gateway)->Ok_0, rendered);
    lemma_acceptances(requests, accepted, Seq::empty());
    assert(acceptances(accepted) + Seq::<bool>::empty() =~= acceptances(accepted));
}

/// The first refusal ends the work: no request is made after it, and the error tells the kind of
/// the object that was refused.
pub proof fn first_refusal_ends_the_work(
    gateway: InrushGatewayView,
    settings: SettingsView,
    ingresses: Seq<IngressView>,
    rendered: Seq<char>,
    accepted: nat,
    rest: Seq<bool>,
)
    requires
        identity(gateway) is Ok,
        accepted < plan(gateway, settings, identity(gateway)->Ok_0, rendered).len(),
    ensures
        run(
            gateway,
            settings,
            Some(ingresses),
            Some(rendered),
            acceptances(accepted).push(false) + rest,
        ) == StepView::Fail(
            refusal(
                plan(
                    gateway,
                    settings,
                    identity(gateway)->Ok_0,
                    rendered,
                )[accepted as int].object,
            ),
        ),
{
    let requests = plan(gateway, settings, identity(gateway)->Ok_0, rendered);
    let tail = seq![false] + rest;
    assert(acceptances(accepted).push(false) + rest =~= acceptances(accepted) + tail);
    lemma_acceptances(requests, accepted, tail);
    reveal_with_fuel(step_after_answers, 2);
    assert(tail.drop_first() =~= rest);
    assert(!tail.first());
}

/// Nothing is applied where the ingresses do not become available, the gateway lacks its name,
/// namespace or identifier, or the configuration cannot be rendered; the first of these that holds
/// is the error.
pub proof fn nothing_is_applied_without_a_configuration(
    gateway: InrushGatewayView,
    settings: SettingsView,
    ingresses: Option<Seq<IngressView>>,
    rendered: Option<Seq<char>>,
    answers: Seq<bool>,
)
    requires
        ingresses is None || identity(gateway) is Err || rendered is None,
    ensures
        run(gateway, settings, ingresses, rendered, answers) == StepView::Fail(
            if ingresses is None {
                ReconcileError::StoreNotReady
            } else if identity(gateway) is Err {
                identity(gateway)->Err_0
            } else {
                ReconcileError::RenderFailed
            },
        ),
{
}

/// A plan is a config map, then a deployment, then a service for each template, in the order of the
/// templates. Services alone take over fields that another manager owns.
pub proof fn plan_order(
    gateway: InrushGatewayView,
    settings: SettingsView,
    identity: IdentityView,
    rendered: Seq<char>,
)
    ensures
        ({
            let requests = plan(gateway, settings, identity, rendered);
            let templates = elements(gateway.spec.service_templates);
            &&& requests.len() == 2 + templates.len()
            &&& requests[0].object == ObjectView::ConfigMap(config_map(identity, rendered))
            &&& requests[1].object is Deployment
            &&& forall|i: int|
                2 <= i < requests.len() ==> (#[trigger] requests[i]).object
                    == ObjectView::Service(service(identity, templates[i - 2]))
            &&& forall|i: int|
                0 <= i < requests.len() ==> (#[trigger] requests[i]).force == (i >= 2)
        }),
{
}

/// Every object of a gateway lies in the gateway's namespace, is applied under its own name,
/// belongs to the gateway alone, and carries the label by which the controller watches it.
///
/// The label's value is the gateway's name, unless the template of a service sets it itself.
pub proof fn objects_belong_to_the_gateway(
    gateway: InrushGatewayView,
    settings: SettingsView,
    rendered: Seq<char>,
    i: int,
)
    requires
        identity(gateway) is Ok,
        0 <= i < plan(gateway, settings, identity(gateway)->Ok_0, rendered).len(),
    ensures
        ({
            let identity = identity(gateway)->Ok_0;
            let request = plan(gateway, settings, identity, rendered)[i];
            let metadata = object_metadata(request.object);
            &&& metadata.name == Some(request.name)
            &&& metadata.namespace == Some(request.namespace)
            &&& gateway.metadata.namespace == Some(request.namespace)
            &&& metadata.owner_references == Some(seq![owner_reference(identity)])
            &&& gateway.metadata.name == Some(owner_reference(identity).name)
            &&& gateway.metadata.uid == Some(owner_reference(identity).uid)
            &&& metadata.labels matches Some(labels) && labels.contains_key(INGRESS_LABEL@) && (
            labels[INGRESS_LABEL@] == identity.name || {
                let template = elements(gateway.spec.service_templates)[i - 2];
                &&& i >= 2
                &&& template.metadata is Some
                &&& template.metadata->0.labels is Some
                &&& template.metadata->0.labels->0.contains_key(INGRESS_LABEL@)
                &&& labels[INGRESS_LABEL@] == template.metadata->0.labels->0[INGRESS_LABEL@]
            })
        }),
{
    let identity = identity(gateway)->Ok_0;
    let requests = plan(gateway, settings, identity, rendered);
    plan_order(gateway, settings, identity, rendered);
    assert(identity.labels.contains_key(INGRESS_LABEL@));
    assert(identity.labels[INGRESS_LABEL@] == identity.name);
    if i >= 2 {
        let template = elements(gateway.spec.service_templates)[i - 2];
        assert(requests[i].object == ObjectView::Service(service(identity, template)));
        let labels = service_labels(identity, template);
        assert(labels.contains_key(INGRESS_LABEL@));
    }
}

/// The labels of a gateway are on all its objects, but for the label that ties them to the
/// gateway and those that the template of a service sets itself.
pub proof fn gateway_labels_are_passed_on(
    gateway: InrushGatewayView,
    settings: SettingsView,
    rendered: Seq<char>,
    i: int,
    key: Seq<char>,
)
    requires
        identity(gateway) is Ok,
        0 <= i < plan(gateway, settings, identity(gateway)->Ok_0, rendered).len(),
        gateway.metadata.labels is Some,
        gateway.metadata.labels->0.contains_key(key),
        key != INGRESS_LABEL@,
        i >= 2 ==> (elements(gateway.spec.service_templates)[i - 2].metadata matches Some(metadata)
            ==> (metadata.labels matches Some(labels) ==> !labels.contains_key(key))),
    ensures
        object_metadata(
            plan(gateway, settings, identity(gateway)->Ok_0, rendered)[i].object,
        ).labels matches Some(labels) && labels.contains_key(key) && labels[key]
            == gateway.metadata.labels->0[key],
{
    let identity = identity(gateway)->Ok_0;
    plan_order(gateway, settings, identity, rendered);
    assert(identity.labels.contains_key(key));
    if i >= 2 {
        let template = elements(gateway.spec.service_templates)[i - 2];
        let labels = service_labels(identity, template);
        assert(labels.contains_key(key));
    }
}

/// The deployment of a gateway manages exactly the pods that it makes, and every service of the
/// gateway leads to them: the labels of the pods are the selector of both.
pub proof fn services_lead_to_the_pods(
    gateway: InrushGatewayView,
    settings: SettingsView,
    identity: IdentityView,
    rendered: Seq<char>,
    i: int,
)
    requires
        2 <= i < plan(gateway, settings, identity, rendered).len(),
    ensures
        ({
            let requests = plan(gateway, settings, identity, rendered);
            &&& requests[1].object matches ObjectView::Deployment(deployment)
            &&& requests[i].object matches ObjectView::Service(service)
            &&& deployment.spec matches Some(spec)
            &&& spec.template.metadata matches Some(pods)
            &&& pods.labels is Some
            &&& spec.selector.match_labels == pods.labels
            &&& service.spec matches Some(service_spec)
            &&& service_spec.selector == pods.labels
        }),
{
    plan_order(gateway, settings, identity, rendered);
}

/// The proxy runs on the configuration that was rendered: every mount of its container names a
/// volume of the pod, and the mounted file is the one that the applied config map holds.
pub proof fn proxy_reads_the_rendered_configuration(
    gateway: InrushGatewayView,
    settings: SettingsView,
    identity: IdentityView,
    rendered: Seq<char>,
)
    ensures
        ({
            let requests = plan(gateway, settings, identity, rendered);
            &&& requests[0].object matches ObjectView::ConfigMap(config_map)
            &&& requests[1].object matches ObjectView::Deployment(deployment)
            &&& deployment.spec matches Some(spec)
            &&& spec.template.spec matches Some(pod)
            &&& pod.volumes matches Some(volumes)
            &&& pod.containers.len() == 1
            &&& pod.containers[0].volume_mounts matches Some(mounts)
            &&& mounts.len() == volumes.len()
            &&& forall|j: int|
                0 <= j < mounts.len() ==> (#[trigger] mounts[j]).name == volumes[j].name
            &&& volumes[0].config_map matches Some(source)
            &&& config_map.metadata.name == Some(source.name)
            &&& mounts[0].sub_path matches Some(file)
            &&& config_map.data matches Some(files)
            &&& files.contains_key(file)
            &&& files[file] == rendered
        }),
{
    let requests = plan(gateway, settings, identity, rendered);
    plan_order(gateway, settings, identity, rendered);
    let files = config_map(identity, rendered).data->0;
    assert(files.contains_key(CONFIG_FILE@));
}

/// Templates of different names ask for services of different names.
pub proof fn service_names_are_distinct(
    identity: IdentityView,
    first: ServiceTemplateView,
    second: ServiceTemplateView,
)
    ensures
        service_name(identity, first) == service_name(identity, second) <==> first.name
            == second.name,
{
    let prefix = identity.name + "-"@;
    if service_name(identity, first) == service_name(identity, second) {
        let whole = service_name(identity, first);
        assert(whole.skip(prefix.len() as int) =~= first.name);
        assert(whole.skip(prefix.len() as int) =~= second.name);
    }
}

/// Work on a gateway starts with the routes that its own name and the settings' cluster domain give
/// it among the ingresses. It ends at once where the ingresses did not become available, or else
/// where the gateway lacks its name, its namespace or its identifier, in this order.
pub proof fn work_starts_with_the_routes(
    gateway: InrushGatewayView,
    settings: SettingsView,
    ingresses: Option<Seq<IngressView>>,
)
    ensures
        ({
            let step = step_after_store(gateway, settings, ingresses);
            if ingresses is None {
                step == StepView::Fail(ReconcileError::StoreNotReady)
            } else if gateway.metadata.name is None {
                step == StepView::Fail(ReconcileError::MissingName)
            } else if gateway.metadata.namespace is None {
                step == StepView::Fail(ReconcileError::MissingNamespace)
            } else if gateway.metadata.uid is None {
                step == StepView::Fail(ReconcileError::MissingUid)
            } else {
                &&& step matches StepView::Render(metadata, owner)
                &&& metadata == routes(
                    gateway.metadata.name->0,
                    settings.cluster_domain,
                    ingresses->0,
                )
                &&& owner.name == gateway.metadata.name->0
                &&& owner.namespace == gateway.metadata.namespace->0
                &&& owner.uid == gateway.metadata.uid->0
                &&& identity(gateway) == Ok::<IdentityView, ReconcileError>(owner)
            }
        }),
{
}

/// Once the configuration is rendered, the config map of the plan is applied and the rest of the
/// plan is kept, in its order; where the rendering failed, nothing is.
pub proof fn rendering_leads_to_the_plan(
    gateway: InrushGatewayView,
    settings: SettingsView,
    identity: IdentityView,
    rendered: Option<Seq<char>>,
)
    ensures
        match step_after_render(gateway, settings, identity, rendered) {
            StepView::Apply(request, rollout) => {
                &&& rendered is Some
                &&& seq![request] + rollout.remaining == plan(
                    gateway,
                    settings,
                    identity,
                    rendered->0,
                )
                &&& request.object is ConfigMap
                &&& rollout.refusal == ReconcileError::ConfigMapFailed
            },
            StepView::Fail(error) => rendered is None && error == ReconcileError::RenderFailed,
            _ => false,
        },
{
    if let Some(rendered) = rendered {
        let requests = plan(gateway, settings, identity, rendered);
        assert(seq![requests.first()] + requests.drop_first() =~= requests);
    }
}

/// An accepted request is followed by the first that remains, the others kept in their order, or by
/// five minutes of rest where none remains. A refused one ends the work with the error that was
/// kept for it.
pub proof fn answer_leads_to_the_next_request(rollout: RolloutView, accepted: bool)
    ensures
        match step_after_apply(rollout, accepted) {
            StepView::Apply(request, next) => {
                &&& accepted
                &&& seq![request] + next.remaining == rollout.remaining
                &&& next.refusal == ReconcileError::ConfigMapFailed <==> request.object is ConfigMap
                &&& next.refusal == ReconcileError::DeploymentFailed
                    <==> request.object is Deployment
                &&& next.refusal == ReconcileError::ServiceFailed <==> request.object is Service
            },
            StepView::Requeue(seconds) => accepted && rollout.remaining.len() == 0 && seconds
                == 300,
            StepView::Fail(error) => !accepted && error == rollout.refusal,
            StepView::Render(_, _) => false,
        },
{
    let requests = rollout.remaining;
    if requests.len() > 0 {
        assert(seq![requests.first()] + requests.drop_first() =~= requests);
    }
}

/// Ingresses can be routed exactly where the gateway lacks its name, namespace or identifier, which
/// is an error of its own, or where its locations can be made.
pub proof fn routable_where_the_locations_can_be_made(
    gateway: InrushGatewayView,
    ingresses: Seq<IngressView>,
)
    ensures
        routable(gateway, ingresses) <==> {
            ||| gateway.metadata.name is None
            ||| gateway.metadata.namespace is None
            ||| gateway.metadata.uid is None
            ||| complete(gateway.metadata.name->0, ingresses)
        },
{
}

/// At most two gateways are worked on at a time, each once five seconds have brought no further
/// change; one is looked at again five minutes after it was brought up to date, and one second
/// after it could not be.
pub proof fn pace_of_the_work()
    ensures
        CONCURRENCY == 2,
        DEBOUNCE_SECONDS == 5,
        RESYNC_SECONDS == 300,
        RETRY_SECONDS == 1,
{
}

} // verus!
