use inrush::ingress::{
    HttpIngressPath, HttpIngressRuleValue, Ingress, IngressBackend, IngressRule,
    IngressServiceBackend, IngressSpec, IngressTls, ServiceBackendPort,
};
use inrush::routes::{
    collect_routes, gateway_of, is_turned_away, routes_complete, GatewayRef, InrushGatewayMetadata,
};

fn text(s: &str) -> String {
    s.to_string()
}

fn path(path: &str, service: &str, port: i32) -> HttpIngressPath {
    HttpIngressPath {
        path: Some(text(path)),
        backend: IngressBackend {
            service: Some(IngressServiceBackend {
                name: text(service),
                port: Some(ServiceBackendPort { number: Some(port) }),
            }),
        },
    }
}

fn rule(host: Option<&str>, paths: Vec<HttpIngressPath>) -> IngressRule {
    IngressRule {
        host: host.map(text),
        http: Some(HttpIngressRuleValue { paths }),
    }
}

fn tls(hosts: &[&str]) -> IngressTls {
    IngressTls {
        hosts: Some(hosts.iter().map(|s| text(s)).collect()),
    }
}

fn ingress(class: &str, tls: Vec<IngressTls>, rules: Vec<IngressRule>) -> Ingress {
    Ingress {
        namespace: Some(text("apps")),
        spec: Some(IngressSpec {
            ingress_class_name: Some(text(class)),
            default_backend: None,
            tls: Some(tls),
            rules: Some(rules),
        }),
    }
}

fn collect(ingresses: &Vec<Ingress>) -> InrushGatewayMetadata {
    let gateway = text("edge");
    assert!(routes_complete(&gateway, ingresses));
    collect_routes(&gateway, &text("svc.cluster.local"), ingresses)
}

fn locations(metadata: &InrushGatewayMetadata) -> Vec<(&str, &str, i32)> {
    metadata
        .locations
        .iter()
        .map(|l| (l.path.as_str(), l.domain.as_str(), l.port))
        .collect()
}

#[test]
fn no_ingress_gives_no_routes() {
    let metadata = collect(&vec![]);
    assert!(metadata.locations.is_empty());
    assert!(metadata.server_names.is_empty());
}

#[test]
fn a_path_leads_to_the_service_in_the_namespace_of_the_ingress() {
    let metadata = collect(&vec![ingress(
        "edge",
        vec![],
        vec![rule(
            Some("a.example"),
            vec![path("/", "web", 8080), path("/api", "api", 9000)],
        )],
    )]);
    assert_eq!(
        locations(&metadata),
        vec![
            ("/", "web.apps.svc.cluster.local", 8080),
            ("/api", "api.apps.svc.cluster.local", 9000),
        ]
    );
    assert_eq!(metadata.server_names, vec!["a.example"]);
}

#[test]
fn every_host_is_named_once_certificates_first() {
    let metadata = collect(&vec![
        ingress(
            "edge",
            vec![tls(&["t.example", "a.example"]), tls(&["t.example"])],
            vec![rule(Some("b.example"), vec![]), rule(Some("a.example"), vec![])],
        ),
        ingress(
            "edge",
            vec![tls(&["c.example"])],
            vec![rule(Some("t.example"), vec![]), rule(Some("d.example"), vec![])],
        ),
    ]);
    assert_eq!(
        metadata.server_names,
        vec!["t.example", "a.example", "b.example", "c.example", "d.example"]
    );
}

#[test]
fn parts_that_are_absent_bring_nothing() {
    let mut bare = ingress("edge", vec![], vec![]);
    if let Some(spec) = &mut bare.spec {
        spec.tls = None;
        spec.rules = None;
    }
    let partial = ingress(
        "edge",
        vec![IngressTls { hosts: None }],
        vec![
            IngressRule { host: Some(text("only.example")), http: None },
            rule(None, vec![path("/x", "x", 1)]),
        ],
    );
    let metadata = collect(&vec![bare, partial]);
    assert_eq!(metadata.server_names, vec!["only.example"]);
    assert_eq!(locations(&metadata), vec![("/x", "x.apps.svc.cluster.local", 1)]);
}

#[test]
fn ingresses_of_other_gateways_change_nothing() {
    let mine = || ingress("edge", vec![], vec![rule(Some("a.example"), vec![path("/", "web", 80)])]);
    let other = ingress("other", vec![tls(&["o.example"])], vec![rule(None, vec![path("/o", "o", 1)])]);
    let mut classless = ingress("edge", vec![tls(&["n.example"])], vec![]);
    if let Some(spec) = &mut classless.spec {
        spec.ingress_class_name = None;
    }
    let without_spec = Ingress { namespace: Some(text("apps")), spec: None };
    let metadata = collect(&vec![other, mine(), classless, without_spec]);
    let alone = collect(&vec![mine()]);
    assert_eq!(locations(&metadata), locations(&alone));
    assert_eq!(metadata.server_names, alone.server_names);
}

#[test]
fn an_ingress_with_a_default_backend_is_left_out() {
    let mut unwelcome = ingress("edge", vec![tls(&["x.example"])], vec![rule(None, vec![path("/", "x", 1)])]);
    if let Some(spec) = &mut unwelcome.spec {
        spec.default_backend = Some(IngressBackend { service: None });
    }
    assert!(is_turned_away(&text("edge"), &unwelcome));
    assert!(!is_turned_away(&text("other"), &unwelcome));
    assert!(!is_turned_away(&text("edge"), &ingress("edge", vec![], vec![])));
    assert!(!is_turned_away(&text("edge"), &Ingress { namespace: None, spec: None }));
    let metadata = collect(&vec![unwelcome]);
    assert!(metadata.locations.is_empty());
    assert!(metadata.server_names.is_empty());
}

#[test]
fn a_path_without_a_service_has_no_location() {
    let resource = HttpIngressPath {
        path: None,
        backend: IngressBackend { service: None },
    };
    let mut ingress = ingress("edge", vec![], vec![rule(Some("a.example"), vec![resource])]);
    ingress.namespace = None;
    let metadata = collect(&vec![ingress]);
    assert!(metadata.locations.is_empty());
    assert_eq!(metadata.server_names, vec!["a.example"]);
}

#[test]
fn the_order_of_ingresses_does_not_matter() {
    let first = || ingress("edge", vec![], vec![rule(Some("a.example"), vec![path("/a", "a", 1)])]);
    let second = || ingress("edge", vec![tls(&["b.example"])], vec![rule(Some("a.example"), vec![path("/b", "b", 2)])]);
    let forward = collect(&vec![first(), second()]);
    let backward = collect(&vec![second(), first()]);
    let mut one = locations(&forward);
    let mut two = locations(&backward);
    one.sort();
    two.sort();
    assert_eq!(one, two);
    let mut one = forward.server_names.clone();
    let mut two = backward.server_names.clone();
    assert_eq!(one, vec!["a.example", "b.example"]);
    assert_eq!(two, vec!["b.example", "a.example"]);
    one.sort();
    two.sort();
    assert_eq!(one, two);
}

#[test]
fn a_served_path_needs_path_port_and_namespace() {
    let gateway = text("edge");
    let with = |p: HttpIngressPath| vec![ingress("edge", vec![], vec![rule(None, vec![p])])];
    let mut no_path = path("/", "web", 80);
    no_path.path = None;
    assert!(!routes_complete(&gateway, &with(no_path)));
    let mut named_port = path("/", "web", 80);
    if let Some(service) = &mut named_port.backend.service {
        service.port = Some(ServiceBackendPort { number: None });
    }
    assert!(!routes_complete(&gateway, &with(named_port)));
    let mut no_port = path("/", "web", 80);
    if let Some(service) = &mut no_port.backend.service {
        service.port = None;
    }
    assert!(!routes_complete(&gateway, &with(no_port)));
    let mut homeless = with(path("/", "web", 80));
    homeless[0].namespace = None;
    assert!(!routes_complete(&gateway, &homeless));
    assert!(routes_complete(&text("other"), &homeless));
    assert!(routes_complete(&gateway, &with(path("/", "web", 80))));
}

#[test]
fn an_ingress_concerns_the_gateway_that_its_class_names() {
    let found = gateway_of(&ingress("edge", vec![], vec![]));
    assert_eq!(
        found,
        Some(GatewayRef { name: text("edge"), namespace: text("apps") })
    );
    assert_eq!(gateway_of(&Ingress { namespace: None, spec: None }), None);
    let mut classless = ingress("edge", vec![], vec![]);
    if let Some(spec) = &mut classless.spec {
        spec.ingress_class_name = None;
    }
    classless.namespace = None;
    assert_eq!(gateway_of(&classless), None);
}
