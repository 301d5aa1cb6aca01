use inrush::crd::{
    InrushGateway, InrushGatewaySpec, ServiceTemplate, ServiceTemplateMeta, ServiceTemplateSpec,
};
use inrush::error::{failure_report, ReconcileError};
use inrush::ingress::{
    HttpIngressPath, HttpIngressRuleValue, Ingress, IngressBackend, IngressRule,
    IngressServiceBackend, IngressSpec, ServiceBackendPort,
};
use inrush::manifests::{choose_image, Identity};
use inrush::objects::{ConfigMap, Deployment, ObjectMeta, Service};
use inrush::reconcile::{
    after_apply, after_render, after_store, error_policy, is_routable, make_plan, ApplyRequest,
    Object, Settings, Step,
};
use inrush::string_map::StringMap;

fn text(s: &str) -> String {
    s.to_string()
}

fn settings() -> Settings {
    Settings {
        cluster_domain: text("svc.cluster.local"),
        image_name: text("nginx:stable"),
    }
}

fn template(name: &str) -> ServiceTemplate {
    ServiceTemplate { name: text(name), ..Default::default() }
}

fn gateway(templates: Option<Vec<ServiceTemplate>>) -> InrushGateway {
    InrushGateway {
        metadata: ObjectMeta {
            name: Some(text("edge")),
            namespace: Some(text("infra")),
            uid: Some(text("1234")),
            labels: Some(StringMap::singleton(text("team"), text("web"))),
            annotations: None,
            owner_references: None,
        },
        spec: InrushGatewaySpec { image: None, service_templates: templates },
    }
}

fn identity() -> Identity {
    match Identity::of(&gateway(None)) {
        Ok(identity) => identity,
        Err(error) => panic!("{:?}", error),
    }
}

fn value<'a>(map: &'a Option<StringMap>, key: &str) -> Option<&'a str> {
    map.as_ref().and_then(|map| map.get(key)).map(|s| s.as_str())
}

fn is_owned(metadata: &ObjectMeta) {
    assert_eq!(metadata.namespace.as_deref(), Some("infra"));
    assert_eq!(metadata.uid, None);
    let owners = metadata.owner_references.as_ref().unwrap();
    assert_eq!(owners.len(), 1);
    assert_eq!(owners[0].api_version, "inrush.unrouted.uk/v1");
    assert_eq!(owners[0].kind, "InrushGateway");
    assert_eq!(owners[0].name, "edge");
    assert_eq!(owners[0].uid, "1234");
}

fn config_map(request: &ApplyRequest) -> &ConfigMap {
    match &request.object {
        Object::ConfigMap(object) => object,
        other => panic!("{:?}", other),
    }
}

fn deployment(request: &ApplyRequest) -> &Deployment {
    match &request.object {
        Object::Deployment(object) => object,
        other => panic!("{:?}", other),
    }
}

fn service(request: &ApplyRequest) -> &Service {
    match &request.object {
        Object::Service(object) => object,
        other => panic!("{:?}", other),
    }
}

fn failure(step: Step) -> ReconcileError {
    match step {
        Step::Fail(error) => error,
        other => panic!("{:?}", other),
    }
}

#[test]
fn identity_takes_the_labels_of_the_gateway() {
    let identity = identity();
    assert_eq!(identity.name, "edge");
    assert_eq!(identity.namespace, "infra");
    assert_eq!(identity.uid, "1234");
    assert_eq!(identity.labels.get("team"), Some(&text("web")));
    assert_eq!(identity.labels.get("inrush.unrouted.uk/ingress"), Some(&text("edge")));
    assert_eq!(identity.labels.entries().len(), 2);
}

#[test]
fn identity_overrides_the_tying_label() {
    let mut gateway = gateway(None);
    gateway.metadata.labels = Some(StringMap::singleton(
        text("inrush.unrouted.uk/ingress"),
        text("impostor"),
    ));
    match Identity::of(&gateway) {
        Ok(identity) => {
            assert_eq!(identity.labels.get("inrush.unrouted.uk/ingress"), Some(&text("edge")));
            assert_eq!(identity.labels.entries().len(), 1);
        }
        Err(error) => panic!("{:?}", error),
    }
}

#[test]
fn the_first_thing_that_a_gateway_lacks_is_reported() {
    let mut gateway = gateway(None);
    gateway.metadata.uid = None;
    assert_eq!(Identity::of(&gateway).err(), Some(ReconcileError::MissingUid));
    gateway.metadata.namespace = None;
    assert_eq!(Identity::of(&gateway).err(), Some(ReconcileError::MissingNamespace));
    gateway.metadata.name = None;
    assert_eq!(Identity::of(&gateway).err(), Some(ReconcileError::MissingName));
}

#[test]
fn config_map_holds_the_rendered_configuration() {
    let object = identity().make_config_map(text("events {}"));
    is_owned(&object.metadata);
    assert_eq!(object.metadata.name.as_deref(), Some("edge-config"));
    assert_eq!(value(&object.metadata.labels, "team"), Some("web"));
    assert_eq!(value(&object.metadata.labels, "inrush.unrouted.uk/ingress"), Some("edge"));
    assert!(object.metadata.annotations.is_none());
    assert_eq!(value(&object.data, "nginx.conf"), Some("events {}"));
    assert_eq!(object.data.unwrap().entries().len(), 1);
}

#[test]
fn deployment_runs_the_proxy() {
    let object = identity().make_deployment(text("nginx:1.27"));
    is_owned(&object.metadata);
    assert_eq!(object.metadata.name.as_deref(), Some("edge-nginx"));
    assert_eq!(
        value(&object.metadata.annotations, "configmap.reloader.stakater.com/reload"),
        Some("edge-config")
    );
    assert_eq!(
        value(&object.metadata.annotations, "secret.reloader.stakater.com/reload"),
        Some("tls")
    );
    let spec = object.spec.unwrap();
    assert_eq!(spec.replicas, Some(2));
    let strategy = spec.strategy.unwrap();
    assert_eq!(strategy.type_.as_deref(), Some("RollingUpdate"));
    let update = strategy.rolling_update.unwrap();
    assert_eq!(update.max_surge, Some(2));
    assert_eq!(update.max_unavailable, Some(1));
    assert_eq!(value(&spec.selector.match_labels, "inrush.unrouted.uk/ingress"), Some("edge"));
    assert_eq!(spec.selector.match_labels.unwrap().entries().len(), 1);
    let pods = spec.template.metadata.unwrap();
    assert_eq!(value(&pods.labels, "inrush.unrouted.uk/ingress"), Some("edge"));
    assert_eq!(pods.labels.unwrap().entries().len(), 1);
    let pod = spec.template.spec.unwrap();
    let volumes = pod.volumes.unwrap();
    assert_eq!(volumes.len(), 2);
    assert_eq!(volumes[0].name, "config");
    assert_eq!(volumes[0].config_map.as_ref().unwrap().name, "edge-config");
    assert!(volumes[0].secret.is_none());
    assert_eq!(volumes[1].name, "tls");
    assert!(volumes[1].config_map.is_none());
    assert_eq!(volumes[1].secret.as_ref().unwrap().secret_name.as_deref(), Some("tls"));
    assert_eq!(pod.containers.len(), 1);
    assert_eq!(pod.containers[0].name, "nginx");
    assert_eq!(pod.containers[0].image.as_deref(), Some("nginx:1.27"));
    let mounts = pod.containers[0].volume_mounts.as_ref().unwrap();
    assert_eq!(mounts.len(), 2);
    assert_eq!(mounts[0].name, "config");
    assert_eq!(mounts[0].mount_path, "/etc/nginx/nginx.conf");
    assert_eq!(mounts[0].sub_path.as_deref(), Some("nginx.conf"));
    assert_eq!(mounts[0].read_only, Some(true));
    assert_eq!(mounts[1].name, "tls");
    assert_eq!(mounts[1].mount_path, "/etc/nginx/tls");
    assert_eq!(mounts[1].sub_path, None);
    assert_eq!(mounts[1].read_only, Some(true));
}

#[test]
fn plain_service_has_the_labels_of_the_gateway() {
    let object = identity().make_service(&template("public"));
    is_owned(&object.metadata);
    assert_eq!(object.metadata.name.as_deref(), Some("edge-public"));
    assert_eq!(value(&object.metadata.labels, "team"), Some("web"));
    assert_eq!(value(&object.metadata.labels, "inrush.unrouted.uk/ingress"), Some("edge"));
    let spec = object.spec.unwrap();
    assert_eq!(value(&spec.selector, "inrush.unrouted.uk/ingress"), Some("edge"));
    let ports = spec.ports.unwrap();
    assert_eq!(ports.len(), 2);
    assert_eq!(ports[0].name.as_deref(), Some("http"));
    assert_eq!(ports[0].protocol.as_deref(), Some("TCP"));
    assert_eq!((ports[0].port, ports[0].target_port), (80, Some(80)));
    assert_eq!(ports[1].name.as_deref(), Some("https"));
    assert_eq!(ports[1].protocol.as_deref(), Some("TCP"));
    assert_eq!((ports[1].port, ports[1].target_port), (443, Some(443)));
    assert_eq!(spec.type_, None);
    assert_eq!(spec.load_balancer_class, None);
    assert_eq!(spec.internal_traffic_policy, None);
    assert_eq!(spec.external_traffic_policy, None);
}

#[test]
fn template_decides_over_labels_and_traffic() {
    let mut labels = StringMap::singleton(text("team"), text("network"));
    labels.insert(text("exposed"), text("yes"));
    labels.insert(text("inrush.unrouted.uk/ingress"), text("own"));
    let template = ServiceTemplate {
        name: text("lb"),
        metadata: Some(ServiceTemplateMeta { labels: Some(labels) }),
        spec: Some(ServiceTemplateSpec {
            load_balancer_class: Some(text("metal")),
            external_traffic_policy: Some(text("Local")),
            internal_traffic_policy: Some(text("Cluster")),
            type_: Some(text("LoadBalancer")),
        }),
    };
    let object = identity().make_service(&template.clone());
    assert_eq!(value(&object.metadata.labels, "team"), Some("network"));
    assert_eq!(value(&object.metadata.labels, "exposed"), Some("yes"));
    assert_eq!(value(&object.metadata.labels, "inrush.unrouted.uk/ingress"), Some("own"));
    let spec = object.spec.unwrap();
    assert_eq!(value(&spec.selector, "inrush.unrouted.uk/ingress"), Some("edge"));
    assert_eq!(spec.type_.as_deref(), Some("LoadBalancer"));
    assert_eq!(spec.load_balancer_class.as_deref(), Some("metal"));
    assert_eq!(spec.external_traffic_policy.as_deref(), Some("Local"));
    assert_eq!(spec.internal_traffic_policy.as_deref(), Some("Cluster"));
}

#[test]
fn image_of_the_gateway_goes_first() {
    assert_eq!(choose_image(&Some(text("own")), &text("fallback")), "own");
    assert_eq!(choose_image(&None, &text("fallback")), "fallback");
}

#[test]
fn plan_is_config_map_deployment_and_services_in_order() {
    let mut gateway = gateway(Some(vec![template("b"), template("a")]));
    gateway.spec.image = Some(text("custom"));
    let plan = make_plan(&gateway, &settings(), &identity(), text("conf"));
    let names: Vec<&str> = plan.iter().map(|request| request.name.as_str()).collect();
    assert_eq!(names, vec!["edge-config", "edge-nginx", "edge-b", "edge-a"]);
    let forced: Vec<bool> = plan.iter().map(|request| request.force).collect();
    assert_eq!(forced, vec![false, false, true, true]);
    for request in &plan {
        assert_eq!(request.namespace, "infra");
        assert_eq!(request.field_manager, "inrush.unrouted.uk");
    }
    assert_eq!(value(&config_map(&plan[0]).data, "nginx.conf"), Some("conf"));
    let pod = deployment(&plan[1]).spec.as_ref().unwrap().template.spec.as_ref().unwrap();
    assert_eq!(pod.containers[0].image.as_deref(), Some("custom"));
    assert_eq!(service(&plan[2]).metadata.name.as_deref(), Some("edge-b"));
    assert_eq!(service(&plan[3]).metadata.name.as_deref(), Some("edge-a"));
}

#[test]
fn plan_without_templates_has_no_service() {
    assert_eq!(make_plan(&gateway(None), &settings(), &identity(), text("")).len(), 2);
    assert_eq!(make_plan(&gateway(Some(vec![])), &settings(), &identity(), text("")).len(), 2);
}

fn one_ingress() -> Vec<Ingress> {
    vec![Ingress {
        namespace: Some(text("apps")),
        spec: Some(IngressSpec {
            ingress_class_name: Some(text("edge")),
            default_backend: None,
            tls: None,
            rules: Some(vec![IngressRule {
                host: Some(text("a.example")),
                http: Some(HttpIngressRuleValue {
                    paths: vec![HttpIngressPath {
                        path: Some(text("/")),
                        backend: IngressBackend {
                            service: Some(IngressServiceBackend {
                                name: text("web"),
                                port: Some(ServiceBackendPort { number: Some(8080) }),
                            }),
                        },
                    }],
                }),
            }]),
        }),
    }]
}

#[test]
fn accepted_requests_lead_to_a_resync_after_five_minutes() {
    let gateway = gateway(Some(vec![template("public")]));
    let settings = settings();
    let ingresses = one_ingress();
    assert!(is_routable(&gateway, &ingresses));
    let identity = match after_store(&gateway, &settings, Some(&ingresses)) {
        Step::Render(metadata, identity) => {
            assert_eq!(metadata.server_names, vec!["a.example"]);
            assert_eq!(metadata.locations.len(), 1);
            assert_eq!(metadata.locations[0].domain, "web.apps.svc.cluster.local");
            identity
        }
        other => panic!("{:?}", other),
    };
    let mut step = after_render(&gateway, &settings, &identity, Some(text("conf")));
    let mut names = Vec::new();
    loop {
        step = match step {
            Step::Apply(request, rollout) => {
                names.push(request.name);
                after_apply(rollout, true)
            }
            Step::Requeue(seconds) => {
                assert_eq!(seconds, 300);
                break;
            }
            other => panic!("{:?}", other),
        };
    }
    assert_eq!(names, vec!["edge-config", "edge-nginx", "edge-public"]);
}

#[test]
fn a_refusal_ends_the_work_with_the_error_of_its_kind() {
    let gateway = gateway(Some(vec![template("one"), template("two")]));
    let expected = [
        ReconcileError::ConfigMapFailed,
        ReconcileError::DeploymentFailed,
        ReconcileError::ServiceFailed,
        ReconcileError::ServiceFailed,
    ];
    for refused in 0..expected.len() {
        let mut step = after_render(&gateway, &settings(), &identity(), Some(text("conf")));
        for _ in 0..refused {
            step = match step {
                Step::Apply(_, rollout) => after_apply(rollout, true),
                other => panic!("{:?}", other),
            };
        }
        match step {
            Step::Apply(_, rollout) => {
                assert_eq!(failure(after_apply(rollout, false)), expected[refused]);
            }
            other => panic!("{:?}", other),
        }
    }
}

#[test]
fn nothing_is_applied_without_ingresses_identity_or_configuration() {
    let mut nameless = gateway(None);
    assert_eq!(
        failure(after_render(&nameless, &settings(), &identity(), None)),
        ReconcileError::RenderFailed
    );
    nameless.metadata.name = None;
    assert_eq!(
        failure(after_store(&nameless, &settings(), None)),
        ReconcileError::StoreNotReady
    );
    assert_eq!(
        failure(after_store(&nameless, &settings(), Some(&one_ingress()))),
        ReconcileError::MissingName
    );
}

#[test]
fn an_incomplete_ingress_is_noticed_for_a_complete_gateway() {
    let mut ingresses = one_ingress();
    ingresses[0].namespace = None;
    let mut gateway = gateway(None);
    assert!(!is_routable(&gateway, &ingresses));
    gateway.metadata.uid = None;
    assert!(is_routable(&gateway, &ingresses));
}

#[test]
fn errors_have_their_contexts() {
    let all = [
        (ReconcileError::StoreNotReady, Some("Waiting for ingress to be ready")),
        (ReconcileError::MissingName, Some("Missing object key .metadata.name")),
        (ReconcileError::MissingNamespace, Some("Missing object key .metadata.namespace")),
        (ReconcileError::MissingUid, Some("Mising object key .spec")),
        (ReconcileError::RenderFailed, None),
        (ReconcileError::ConfigMapFailed, Some("Failed to create or update config map")),
        (ReconcileError::DeploymentFailed, Some("Deployment update failed")),
        (ReconcileError::ServiceFailed, Some("Error creating service")),
    ];
    for (error, context) in all {
        assert_eq!(error.context().as_deref(), context);
    }
}

#[test]
fn a_failure_is_retried_after_a_second() {
    assert_eq!(error_policy(), 1);
}

#[test]
fn a_report_lists_the_causes() {
    assert_eq!(failure_report(text("failed"), &vec![]), "failed");
    assert_eq!(
        failure_report(text("failed"), &vec![text("refused"), text("timeout")]),
        "failed: refused\n: timeout\n"
    );
}

#[test]
fn defaults_are_empty() {
    let spec = InrushGatewaySpec::default();
    assert!(spec.image.is_none());
    assert!(spec.service_templates.is_none());
    assert_eq!(ServiceTemplate::default().name, "");
    assert!(ServiceTemplateMeta::default().labels.is_none());
    assert!(ServiceTemplateSpec::default().type_.is_none());
}

#[test]
fn a_clone_of_a_specification_keeps_everything() {
    let spec = InrushGatewaySpec {
        image: Some(text("custom")),
        service_templates: Some(vec![
            template("one"),
            ServiceTemplate {
                name: text("two"),
                metadata: Some(ServiceTemplateMeta {
                    labels: Some(StringMap::singleton(text("k"), text("v"))),
                }),
                spec: Some(ServiceTemplateSpec {
                    type_: Some(text("NodePort")),
                    ..Default::default()
                }),
            },
        ]),
    };
    let copy = spec.clone();
    assert_eq!(format!("{:?}", copy), format!("{:?}", spec));
}
