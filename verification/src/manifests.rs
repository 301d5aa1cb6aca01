use crate::crd::{
    InrushGateway, InrushGatewayView, ServiceTemplate, ServiceTemplateView, API_VERSION, KIND,
};
use crate::error::ReconcileError;
use crate::objects::{
    ConfigMap, ConfigMapView, ConfigMapVolumeSource, ConfigMapVolumeSourceView, Container,
    ContainerView, Deployment, DeploymentSpec, DeploymentSpecView, DeploymentStrategy,
    DeploymentStrategyView, DeploymentView, LabelSelector, LabelSelectorView, ObjectMeta,
    ObjectMetaView, OwnerReference, OwnerReferenceView, PodSpec, PodSpecView, PodTemplateSpec,
    PodTemplateSpecView, RollingUpdateDeployment, RollingUpdateDeploymentView,
    SecretVolumeSource, SecretVolumeSourceView, Service, ServicePort, ServicePortView,
    ServiceSpec, ServiceSpecView, ServiceView, Volume, VolumeMount, VolumeMountView, VolumeView,
};
use crate::string_map::StringMap;
use crate::text::clone_option;
use vstd::prelude::*;
use vstd::string::StringExecFns;

verus! {

/// The label that ties objects and pods to their gateway.
pub const INGRESS_LABEL: &'static str = "inrush.unrouted.uk/ingress";

/// The file of the config map that the proxy reads.
pub const CONFIG_FILE: &'static str = "nginx.conf";

/// What the objects of a gateway have from it.
#[derive(Debug)]
pub struct Identity {
    pub name: String,
    pub namespace: String,
    pub uid: String,
    /// The gateway's own labels, and the one that ties an object to the gateway.
    pub labels: StringMap,
}

/// The view of an [`Identity`].
pub struct IdentityView {
    pub name: Seq<char>,
    pub namespace: Seq<char>,
    pub uid: Seq<char>,
    pub labels: Map<Seq<char>, Seq<char>>,
}

impl DeepView for Identity {
    type V = IdentityView;

    open spec fn deep_view(&self) -> IdentityView {
        IdentityView {
            name: self.name@,
            namespace: self.namespace@,
            uid: self.uid@,
            labels: self.labels@,
        }
    }
}

/// The labels of a gateway's objects.
pub open spec fn gateway_labels(
    labels: Option<Map<Seq<char>, Seq<char>>>,
    name: Seq<char>,
) -> Map<Seq<char>, Seq<char>> {
    match labels {
        Some(labels) => labels.insert(INGRESS_LABEL@, name),
        None => Map::empty().insert(INGRESS_LABEL@, name),
    }
}

/// What the objects of a gateway have from it, or the first thing that it lacks.
pub open spec fn identity(gateway: InrushGatewayView) -> Result<IdentityView, ReconcileError> {
    match (gateway.metadata.name, gateway.metadata.namespace, gateway.metadata.uid) {
        (None, _, _) => Err(ReconcileError::MissingName),
        (_, None, _) => Err(ReconcileError::MissingNamespace),
        (_, _, None) => Err(ReconcileError::MissingUid),
        (Some(name), Some(namespace), Some(uid)) => Ok(
            IdentityView {
                name,
                namespace,
                uid,
                labels: gateway_labels(gateway.metadata.labels, name),
            },
        ),
    }
}

/// The reference by which an object belongs to its gateway.
pub open spec fn owner_reference(identity: IdentityView) -> OwnerReferenceView {
    OwnerReferenceView {
        api_version: API_VERSION@,
        kind: KIND@,
        name: identity.name,
        uid: identity.uid,
    }
}

/// The metadata of an object that belongs to a gateway.
pub open spec fn owned_metadata(
    identity: IdentityView,
    name: Seq<char>,
    labels: Map<Seq<char>, Seq<char>>,
    annotations: Option<Map<Seq<char>, Seq<char>>>,
) -> ObjectMetaView {
    ObjectMetaView {
        name: Some(name),
        namespace: Some(identity.namespace),
        uid: None,
        labels: Some(labels),
        annotations,
        owner_references: Some(seq![owner_reference(identity)]),
    }
}

/// The labels by which the pods of a gateway are found.
pub open spec fn pod_labels(identity: IdentityView) -> Map<Seq<char>, Seq<char>> {
    Map::empty().insert(INGRESS_LABEL@, identity.name)
}

/// The name of a gateway's config map.
pub open spec fn config_map_name(identity: IdentityView) -> Seq<char> {
    identity.name + "-config"@
}

/// The name of a gateway's deployment.
pub open spec fn deployment_name(identity: IdentityView) -> Seq<char> {
    identity.name + "-nginx"@
}

/// The name of a service that a gateway asks for.
pub open spec fn service_name(identity: IdentityView, template: ServiceTemplateView) -> Seq<char> {
    identity.name + "-"@ + template.name
}

/// The config map that holds the proxy's configuration.
pub open spec fn config_map(identity: IdentityView, rendered: Seq<char>) -> ConfigMapView {
    ConfigMapView {
        metadata: owned_metadata(
            identity,
            config_map_name(identity),
            identity.labels,
            None,
        ),
        data: Some(Map::empty().insert(CONFIG_FILE@, rendered)),
    }
}

/// The image that the proxy runs: the one that the gateway asks for, else the fallback.
pub open spec fn chosen_image(requested: Option<Seq<char>>, fallback: Seq<char>) -> Seq<char> {
    match requested {
        Some(image) => image,
        None => fallback,
    }
}

/// The annotations by which the proxy is restarted when its configuration or certificate changes.
pub open spec fn reload_annotations(identity: IdentityView) -> Map<Seq<char>, Seq<char>> {
    Map::empty().insert(
        "configmap.reloader.stakater.com/reload"@,
        config_map_name(identity),
    ).insert("secret.reloader.stakater.com/reload"@, "tls"@)
}

/// The volumes of the proxy: its configuration, and the certificate.
pub open spec fn volumes(identity: IdentityView) -> Seq<VolumeView> {
    seq![
        VolumeView {
            name: "config"@,
            config_map: Some(ConfigMapVolumeSourceView { name: config_map_name(identity) }),
            secret: None,
        },
        VolumeView {
            name: "tls"@,
            config_map: None,
            secret: Some(SecretVolumeSourceView { secret_name: Some("tls"@) }),
        },
    ]
}

/// Where the proxy finds its configuration and the certificate.
pub open spec fn volume_mounts() -> Seq<VolumeMountView> {
    seq![
        VolumeMountView {
            name: "config"@,
            mount_path: "/etc/nginx/nginx.conf"@,
            sub_path: Some(CONFIG_FILE@),
            read_only: Some(true),
        },
        VolumeMountView {
            name: "tls"@,
            mount_path: "/etc/nginx/tls"@,
            sub_path: None,
            read_only: Some(true),
        },
    ]
}

/// What the proxy's pods are made from.
pub open spec fn pod_template(identity: IdentityView, image: Seq<char>) -> PodTemplateSpecView {
    PodTemplateSpecView {
        metadata: Some(
            ObjectMetaView {
                name: None,
                namespace: None,
                uid: None,
                labels: Some(pod_labels(identity)),
                annotations: None,
                owner_references: None,
            },
        ),
        spec: Some(
            PodSpecView {
                volumes: Some(volumes(identity)),
                containers: seq![
                    ContainerView {
                        name: "nginx"@,
                        image: Some(image),
                        volume_mounts: Some(volume_mounts()),
                    },
                ],
            },
        ),
    }
}

/// The deployment that runs the proxy.
pub open spec fn deployment(identity: IdentityView, image: Seq<char>) -> DeploymentView {
    DeploymentView {
        metadata: owned_metadata(
            identity,
            deployment_name(identity),
            identity.labels,
            Some(reload_annotations(identity)),
        ),
        spec: Some(
            DeploymentSpecView {
                replicas: Some(2),
                strategy: Some(
                    DeploymentStrategyView {
                        type_: Some("RollingUpdate"@),
                        rolling_update: Some(
                            RollingUpdateDeploymentView {
                                max_surge: Some(2),
                                max_unavailable: Some(1),
                            },
                        ),
                    },
                ),
                selector: LabelSelectorView { match_labels: Some(pod_labels(identity)) },
                template: pod_template(identity, image),
            },
        ),
    }
}

/// The labels of a service: those of all the gateway's objects, and over them the template's.
pub open spec fn service_labels(
    identity: IdentityView,
    template: ServiceTemplateView,
) -> Map<Seq<char>, Seq<char>> {
    match template.metadata {
        Some(metadata) => match metadata.labels {
            Some(labels) => identity.labels.union_prefer_right(labels),
            None => identity.labels,
        },
        None => identity.labels,
    }
}

/// A port of the proxy, served under the same number.
pub open spec fn service_port(name: Seq<char>, port: i32) -> ServicePortView {
    ServicePortView {
        name: Some(name),
        protocol: Some("TCP"@),
        port,
        target_port: Some(port),
    }
}

/// The specification of a service, as far as the template sets it.
pub open spec fn service_spec(
    identity: IdentityView,
    template: ServiceTemplateView,
) -> ServiceSpecView {
    let plain = ServiceSpecView {
        selector: Some(pod_labels(identity)),
        ports: Some(seq![service_port("http"@, 80), service_port("https"@, 443)]),
        type_: None,
        load_balancer_class: None,
        internal_traffic_policy: None,
        external_traffic_policy: None,
    };
    match template.spec {
        Some(spec) => ServiceSpecView {
            type_: spec.type_,
            load_balancer_class: spec.load_balancer_class,
            internal_traffic_policy: spec.internal_traffic_policy,
            external_traffic_policy: spec.external_traffic_policy,
            ..plain
        },
        None => plain,
    }
}

/// The service that a template asks for.
pub open spec fn service(identity: IdentityView, template: ServiceTemplateView) -> ServiceView {
    ServiceView {
        metadata: owned_metadata(
            identity,
            service_name(identity, template),
            service_labels(identity, template),
            None,
        ),
        spec: Some(service_spec(identity, template)),
    }
}

impl Identity {
    /// What the objects of a gateway have from it, or the first thing that it lacks.
    pub fn of(gateway: &InrushGateway) -> (result: Result<Identity, ReconcileError>)
        ensures
            match identity(gateway.deep_view()) {
                Ok(expected) => result matches Ok(found) && found.deep_view() == expected,
                Err(expected) => result matches Err(error) && error == expected,
            },
    {
        let name = match &gateway.metadata.name {
            Some(name) => name.clone(),
            None => return Err(ReconcileError::MissingName),
        };
        let namespace = match &gateway.metadata.namespace {
            Some(namespace) => namespace.clone(),
            None => return Err(ReconcileError::MissingNamespace),
        };
        let uid = match &gateway.metadata.uid {
            Some(uid) => uid.clone(),
            None => return Err(ReconcileError::MissingUid),
        };
        let mut labels = match &gateway.metadata.labels {
            Some(labels) => labels.clone(),
            None => StringMap::new(),
        };
        labels.insert(INGRESS_LABEL.to_owned(), name.clone());
        Ok(Identity { name, namespace, uid, labels })
    }

    fn make_owned_metadata(
        &self,
        name: String,
        labels: StringMap,
        annotations: Option<StringMap>,
    ) -> (result: ObjectMeta)
        ensures
            result.deep_view() == owned_metadata(
                self.deep_view(),
                name@,
                labels@,
                annotations.deep_view(),
            ),
    {
        let owner = OwnerReference {
            api_version: API_VERSION.to_owned(),
            kind: KIND.to_owned(),
            name: self.name.clone(),
            uid: self.uid.clone(),
        };
        let owners = vec![owner];
        assert(owners.deep_view() =~= seq![owner_reference(self.deep_view())]);
        ObjectMeta {
            name: Some(name),
            namespace: Some(self.namespace.clone()),
            uid: None,
            labels: Some(labels),
            annotations,
            owner_references: Some(owners),
        }
    }

    fn make_pod_labels(&self) -> (result: StringMap)
        ensures
            result@ == pod_labels(self.deep_view()),
    {
        StringMap::singleton(INGRESS_LABEL.to_owned(), self.name.clone())
    }

    fn make_config_map_name(&self) -> (result: String)
        ensures
            result@ == config_map_name(self.deep_view()),
    {
        self.name.clone().concat("-config")
    }

    /// The config map that holds the proxy's configuration.
    pub fn make_config_map(&self, rendered: String) -> (result: ConfigMap)
        ensures
            result.deep_view() == config_map(self.deep_view(), rendered@),
    {
        ConfigMap {
            metadata: self.make_owned_metadata(
                self.make_config_map_name(),
                self.labels.clone(),
                None,
            ),
            data: Some(StringMap::singleton(CONFIG_FILE.to_owned(), rendered)),
        }
    }

    fn make_reload_annotations(&self) -> (result: StringMap)
        ensures
            result@ == reload_annotations(self.deep_view()),
    {
        let mut annotations = StringMap::singleton(
            "configmap.reloader.stakater.com/reload".to_owned(),
            self.make_config_map_name(),
        );
        annotations.insert("secret.reloader.stakater.com/reload".to_owned(), "tls".to_owned());
        annotations
    }

    fn make_volumes(&self) -> (result: Vec<Volume>)
        ensures
            result.deep_view() == volumes(self.deep_view()),
    {
        let config = Volume {
            name: "config".to_owned(),
            config_map: Some(ConfigMapVolumeSource { name: self.make_config_map_name() }),
            secret: None,
        };
        let tls = Volume {
            name: "tls".to_owned(),
            config_map: None,
            secret: Some(SecretVolumeSource { secret_name: Some("tls".to_owned()) }),
        };
        let result = vec![config, tls];
        assert(result.deep_view() =~= volumes(self.deep_view()));
        result
    }

    fn make_volume_mounts() -> (result: Vec<VolumeMount>)
        ensures
            result.deep_view() == volume_mounts(),
    {
        let config = VolumeMount {
            name: "config".to_owned(),
            mount_path: "/etc/nginx/nginx.conf".to_owned(),
            sub_path: Some(CONFIG_FILE.to_owned()),
            read_only: Some(true),
        };
        let tls = VolumeMount {
            name: "tls".to_owned(),
            mount_path: "/etc/nginx/tls".to_owned(),
            sub_path: None,
            read_only: Some(true),
        };
        let result = vec![config, tls];
        assert(result.deep_view() =~= volume_mounts());
        result
    }

    fn make_pod_template(&self, image: String) -> (result: PodTemplateSpec)
        ensures
            result.deep_view() == pod_template(self.deep_view(), image@),
    {
        let container = Container {
            name: "nginx".to_owned(),
            image: Some(image),
            volume_mounts: Some(Identity::make_volume_mounts()),
        };
        let containers = vec![container];
        assert(containers.deep_view() =~= pod_template(
            self.deep_view(),
            image@,
        ).spec->0.containers);
        PodTemplateSpec {
            metadata: Some(
                ObjectMeta {
                    name: None,
                    namespace: None,
                    uid: None,
                    labels: Some(self.make_pod_labels()),
                    annotations: None,
                    owner_references: None,
                },
            ),
            spec: Some(PodSpec { volumes: Some(self.make_volumes()), containers }),
        }
    }

    /// The deployment that runs the proxy.
    pub fn make_deployment(&self, image: String) -> (result: Deployment)
        ensures
            result.deep_view() == deployment(self.deep_view(), image@),
    {
        Deployment {
            metadata: self.make_owned_metadata(
                self.name.clone().concat("-nginx"),
                self.labels.clone(),
                Some(self.make_reload_annotations()),
            ),
            spec: Some(
                DeploymentSpec {
                    replicas: Some(2),
                    strategy: Some(
                        DeploymentStrategy {
                            type_: Some("RollingUpdate".to_owned()),
                            rolling_update: Some(
                                RollingUpdateDeployment {
                                    max_surge: Some(2),
                                    max_unavailable: Some(1),
                                },
                            ),
                        },
                    ),
                    selector: LabelSelector { match_labels: Some(self.make_pod_labels()) },
                    template: self.make_pod_template(image),
                },
            ),
        }
    }

    fn make_service_labels(&self, template: &ServiceTemplate) -> (result: StringMap)
        ensures
            result@ == service_labels(self.deep_view(), template.deep_view()),
    {
        let mut labels = self.labels.clone();
        if let Some(metadata) = &template.metadata {
            if let Some(added) = &metadata.labels {
                labels.extend(added);
            }
        }
        labels
    }

    fn make_service_port(name: &str, port: i32) -> (result: ServicePort)
        ensures
            result.deep_view() == service_port(name@, port),
    {
        ServicePort {
            name: Some(name.to_owned()),
            protocol: Some("TCP".to_owned()),
            port,
            target_port: Some(port),
        }
    }

    fn make_service_spec(&self, template: &ServiceTemplate) -> (result: ServiceSpec)
        ensures
            result.deep_view() == service_spec(self.deep_view(), template.deep_view()),
    {
        let ports = vec![
            Identity::make_service_port("http", 80),
            Identity::make_service_port("https", 443),
        ];
        assert(ports.deep_view() =~= seq![
            service_port("http"@, 80),
            service_port("https"@, 443),
        ]);
        let mut spec = ServiceSpec {
            selector: Some(self.make_pod_labels()),
            ports: Some(ports),
            type_: None,
            load_balancer_class: None,
            internal_traffic_policy: None,
            external_traffic_policy: None,
        };
        if let Some(asked) = &template.spec {
            spec.type_ = clone_option(&asked.type_);
            spec.load_balancer_class = clone_option(&asked.load_balancer_class);
            spec.internal_traffic_policy = clone_option(&asked.internal_traffic_policy);
            spec.external_traffic_policy = clone_option(&asked.external_traffic_policy);
        }
        spec
    }

    /// The service that a template asks for.
    pub fn make_service(&self, template: &ServiceTemplate) -> (result: Service)
        ensures
            result.deep_view() == service(self.deep_view(), template.deep_view()),
    {
        let name = self.name.clone().concat("-").concat(template.name.as_str());
        Service {
            metadata: self.make_owned_metadata(name, self.make_service_labels(template), None),
            spec: Some(self.make_service_spec(template)),
        }
    }
}

/// The image that the proxy runs: the one that the gateway asks for, else the fallback.
pub fn choose_image(requested: &Option<String>, fallback: &String) -> (result: String)
    ensures
        result@ == chosen_image(requested.deep_view(), fallback@),
{
    match requested {
        Some(image) => image.clone(),
        None => fallback.clone(),
    }
}

} // verus!
