use crate::crd::{InrushGateway, ServiceTemplate};
use crate::domain::{
    cluster_domain, configured_cluster_domain, fallback_image, find_search_domain,
    found_domain_begins_with_svc, get_search_domain_from_resolv_conf, parsed_search, search_domain,
    DomainLookup, ResolvConfError,
};
use crate::error::{cause_lines, error_context, failure_report, ReconcileError};
use crate::ingress::Ingress;
use crate::manifests::{choose_image, config_map, deployment, identity, service, Identity};
use crate::objects::{ConfigMap, Deployment, Service};
use crate::reconcile::{
    after_apply, after_render, after_store, error_policy, is_routable, make_plan, plan, routable,
    step_after_apply, step_after_render, step_after_store, ApplyRequest, Rollout, Settings, Step,
};
use crate::routes::{
    collect_routes, complete, gateway_of, is_turned_away, routes, routes_complete, GatewayRef,
    InrushGatewayMetadata,
};
use vstd::prelude::*;

verus! {

/// A configured service domain is taken as it is and nothing is read; without one the search list
/// is.
pub proof fn configured_domain_is_taken(configured: Option<String>, result: DomainLookup)
    requires
        call_ensures(configured_cluster_domain, (configured,), result),
    ensures
        configured is None <==> result is ReadResolvConf,
        configured is Some ==> result->Known_0@ == configured->0@,
{
}

/// The service domain is the one that the search list gave, and without one that of a cluster that
/// nobody renamed.
pub proof fn domain_found_is_taken(found: Option<String>, result: String)
    requires
        call_ensures(cluster_domain, (found,), result),
    ensures
        found is Some ==> result@ == found->0@,
        found is None ==> result@ == "svc.cluster.local"@,
{
}

/// The image of gateways that name none is the configured one, and without one the stable nginx.
pub proof fn configured_image_is_taken(configured: Option<String>, result: String)
    requires
        call_ensures(fallback_image, (configured,), result),
    ensures
        configured is Some ==> result@ == configured->0@,
        configured is None ==> result@ == "nginx:stable"@,
{
}

/// The domain that is found begins with the four characters `svc.`, is an entry of the search list,
/// and comes before every other entry that begins so; none is found only where none begins so.
pub proof fn found_domain_is_the_first_service_domain(
    search: &Option<Vec<String>>,
    result: Option<String>,
)
    requires
        call_ensures(find_search_domain, (search,), result),
    ensures
        match result {
            Some(domain) => search is Some && exists|i: int|
                {
                    &&& 0 <= i < search->0@.len()
                    &&& (#[trigger] search->0@[i])@ == domain@
                    &&& domain@.len() >= 4 && domain@.take(4) == seq!['s', 'v', 'c', '.']
                    &&& forall|j: int|
                        0 <= j < i ==> !((#[trigger] search->0@[j])@.len() >= 4
                            && search->0@[j]@.take(4) == seq!['s', 'v', 'c', '.'])
                },
            None => search is Some ==> forall|j: int|
                0 <= j < search->0@.len() ==> !((#[trigger] search->0@[j])@.len() >= 4
                    && search->0@[j]@.take(4) == seq!['s', 'v', 'c', '.']),
        },
{
    let domains = search.deep_view();
    found_domain_begins_with_svc(domains);
    if search is Some {
        assert forall|j: int| 0 <= j < search->0@.len() implies (#[trigger] search->0@[j])@
            == domains->0[j] by {}
        if let Some(domain) = result {
            let i = choose|i: int|
                {
                    &&& 0 <= i < domains->0.len()
                    &&& #[trigger] domains->0[i] == domain@
                    &&& forall|j: int|
                        0 <= j < i ==> !((#[trigger] domains->0[j]).len() >= 4
                            && domains->0[j].take(4) == seq!['s', 'v', 'c', '.'])
                };
            assert(search->0@[i]@ == domain@);
            assert(domain@.take(4) =~= seq!['s', 'v', 'c', '.']);
        }
    }
}

/// Whatever the text of a `resolv.conf`, a domain that is found in it begins with `svc.`.
pub proof fn resolv_conf_gives_service_domains_only(
    contents: &str,
    result: Result<Option<String>, ResolvConfError>,
)
    requires
        call_ensures(get_search_domain_from_resolv_conf, (contents,), result),
    ensures
        result matches Ok(Some(domain)) ==> domain@.len() >= 4 && domain@.take(4) == seq![
            's',
            'v',
            'c',
            '.',
        ],
{
    if let Ok(Some(domain)) = result {
        let search = parsed_search(contents@)->Ok_0;
        found_domain_begins_with_svc(search);
        assert(search_domain(search) == Some(domain@));
        assert(domain@.take(4) =~= seq!['s', 'v', 'c', '.']);
    }
}

/// An ingress is turned away exactly where it names the gateway as its class and has a default
/// backend, of whatever kind.
pub proof fn default_backend_is_turned_away(gateway: &String, ingress: &Ingress, result: bool)
    requires
        call_ensures(is_turned_away, (gateway, ingress), result),
    ensures
        result <==> {
            &&& ingress.spec is Some
            &&& ingress.spec->0.ingress_class_name is Some
            &&& ingress.spec->0.ingress_class_name->0@ == gateway@
            &&& ingress.spec->0.default_backend is Some
        },
{
}

/// A changed ingress leads to the gateway that it names as its class, in its own namespace, and to
/// none where it names none.
pub proof fn changed_ingress_leads_to_its_gateway(ingress: &Ingress, result: Option<GatewayRef>)
    requires
        call_ensures(gateway_of, (ingress,), result),
        ingress.namespace is Some,
    ensures
        result is Some <==> ingress.spec is Some && ingress.spec->0.ingress_class_name is Some,
        result is Some ==> {
            &&& result->0.name@ == ingress.spec->0.ingress_class_name->0@
            &&& result->0.namespace@ == ingress.namespace->0@
        },
{
}

/// The routes are collected of the gateway, the cluster domain and the ingresses that are handed
/// in, and whether they can be is told of the same gateway and ingresses.
pub proof fn routes_are_those_of_the_arguments(
    gateway: &String,
    cluster_domain: &String,
    ingresses: &Vec<Ingress>,
    result: InrushGatewayMetadata,
    possible: bool,
)
    requires
        call_ensures(collect_routes, (gateway, cluster_domain, ingresses), result),
        call_ensures(routes_complete, (gateway, ingresses), possible),
    ensures
        result.deep_view() == routes(gateway@, cluster_domain@, ingresses.deep_view()),
        possible <==> complete(gateway@, ingresses.deep_view()),
{
}

/// The image that a gateway asks for is chosen, and the fallback only where it asks for none.
pub proof fn requested_image_is_chosen(
    requested: &Option<String>,
    fallback: &String,
    result: String,
)
    requires
        call_ensures(choose_image, (requested, fallback), result),
    ensures
        requested is Some ==> result@ == requested->0@,
        requested is None ==> result@ == fallback@,
{
}

/// What a gateway's objects have from it, or the error, is taken from the gateway that is handed
/// in; the plan is made of the gateway, the settings, the identity and the configuration that are.
pub proof fn plan_is_that_of_the_arguments(
    gateway: &InrushGateway,
    settings: &Settings,
    owner: &Identity,
    rendered: String,
    result: Vec<ApplyRequest>,
    found: Result<Identity, ReconcileError>,
)
    requires
        call_ensures(make_plan, (gateway, settings, owner, rendered), result),
        call_ensures(Identity::of, (gateway,), found),
    ensures
        result.deep_view() == plan(
            gateway.deep_view(),
            settings.deep_view(),
            owner.deep_view(),
            rendered@,
        ),
        found is Ok <==> identity(gateway.deep_view()) is Ok,
        found is Ok ==> found->Ok_0.deep_view() == identity(gateway.deep_view())->Ok_0,
        found is Err ==> found->Err_0 == identity(gateway.deep_view())->Err_0,
{
}

/// Each step is that of the state and the event that are handed in.
pub proof fn steps_are_those_of_the_arguments(
    gateway: &InrushGateway,
    settings: &Settings,
    ingresses: Option<&Vec<Ingress>>,
    owner: &Identity,
    rendered: Option<String>,
    rollout: Rollout,
    accepted: bool,
    steps: (Step, Step, Step),
)
    requires
        call_ensures(after_store, (gateway, settings, ingresses), steps.0),
        call_ensures(after_render, (gateway, settings, owner, rendered), steps.1),
        call_ensures(after_apply, (rollout, accepted), steps.2),
    ensures
        steps.0.deep_view() == step_after_store(
            gateway.deep_view(),
            settings.deep_view(),
            ingresses.deep_view(),
        ),
        steps.1.deep_view() == step_after_render(
            gateway.deep_view(),
            settings.deep_view(),
            owner.deep_view(),
            rendered.deep_view(),
        ),
        steps.2.deep_view() == step_after_apply(rollout.deep_view(), accepted),
{
}

/// Whether ingresses can be routed is told of the gateway and the ingresses that are handed in.
pub proof fn routability_is_that_of_the_arguments(
    gateway: &InrushGateway,
    ingresses: &Vec<Ingress>,
    result: bool,
)
    requires
        call_ensures(is_routable, (gateway, ingresses), result),
    ensures
        result <==> routable(gateway.deep_view(), ingresses.deep_view()),
{
}

/// A gateway that could not be brought up to date is looked at again after one second.
pub proof fn failed_gateway_is_retried_after_a_second(result: u64)
    requires
        call_ensures(error_policy, (), result),
    ensures
        result == 1,
{
}

/// A report begins with the message that is handed in and ends with the causes that are.
pub proof fn report_is_that_of_the_arguments(message: String, causes: &Vec<String>, result: String)
    requires
        call_ensures(failure_report, (message, causes), result),
    ensures
        result@ == message@ + cause_lines(causes.deep_view()),
{
}

/// What is said of an error is said of the one that is asked.
pub proof fn context_is_that_of_the_error(error: &ReconcileError, result: Option<String>)
    requires
        call_ensures(ReconcileError::context, (error,), result),
    ensures
        result.deep_view() == error_context(*error),
{
}

/// The objects of a gateway are made of the identity, and of the configuration, image or template,
/// that are handed in.
pub proof fn objects_are_those_of_the_arguments(
    owner: &Identity,
    rendered: String,
    image: String,
    template: &ServiceTemplate,
    objects: (ConfigMap, Deployment, Service),
)
    requires
        call_ensures(Identity::make_config_map, (owner, rendered), objects.0),
        call_ensures(Identity::make_deployment, (owner, image), objects.1),
        call_ensures(Identity::make_service, (owner, template), objects.2),
    ensures
        objects.0.deep_view() == config_map(owner.deep_view(), rendered@),
        objects.1.deep_view() == deployment(owner.deep_view(), image@),
        objects.2.deep_view() == service(owner.deep_view(), template.deep_view()),
{
}

} // verus!
