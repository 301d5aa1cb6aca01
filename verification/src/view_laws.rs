use crate::crd::{
    InrushGateway, InrushGatewaySpec, ServiceTemplate, ServiceTemplateMeta,
    ServiceTemplateSpec,
};
use crate::ingress::{
    HttpIngressPath, HttpIngressRuleValue, Ingress, IngressBackend, IngressRule,
    IngressServiceBackend, IngressSpec, IngressTls, ServiceBackendPort,
};
use crate::manifests::Identity;
use crate::objects::{
    ConfigMap, ConfigMapVolumeSource, Container, Deployment, DeploymentSpec,
    DeploymentStrategy, LabelSelector, ObjectMeta, OwnerReference, PodSpec, PodTemplateSpec,
    RollingUpdateDeployment, SecretVolumeSource, Service, ServicePort, ServiceSpec, Volume,
    VolumeMount,
};
use crate::reconcile::{ApplyRequest, Object, ObjectView, Rollout, Settings, Step, StepView};
use crate::routes::{GatewayRef, InrushGatewayMetadata, Location};
use vstd::prelude::*;

verus! {

/// The view of an ingress, and of everything in it, has each field as it is.
pub proof fn ingress_views_hide_nothing(
    ingress: Ingress,
    ingress_spec: IngressSpec,
    ingress_tls: IngressTls,
    ingress_rule: IngressRule,
    http_ingress_rule_value: HttpIngressRuleValue,
    http_ingress_path: HttpIngressPath,
    ingress_backend: IngressBackend,
    ingress_service_backend: IngressServiceBackend,
    service_backend_port: ServiceBackendPort,
)
    ensures
        ingress.deep_view().namespace == ingress.namespace.deep_view(),
        ingress.deep_view().spec == ingress.spec.deep_view(),
        ingress_spec.deep_view().ingress_class_name == ingress_spec.ingress_class_name.deep_view(),
        ingress_spec.deep_view().default_backend == ingress_spec.default_backend.deep_view(),
        ingress_spec.deep_view().tls == ingress_spec.tls.deep_view(),
        ingress_spec.deep_view().rules == ingress_spec.rules.deep_view(),
        ingress_tls.deep_view().hosts == ingress_tls.hosts.deep_view(),
        ingress_rule.deep_view().host == ingress_rule.host.deep_view(),
        ingress_rule.deep_view().http == ingress_rule.http.deep_view(),
        http_ingress_rule_value.deep_view().paths == http_ingress_rule_value.paths.deep_view(),
        http_ingress_path.deep_view().path == http_ingress_path.path.deep_view(),
        http_ingress_path.deep_view().backend == http_ingress_path.backend.deep_view(),
        ingress_backend.deep_view().service == ingress_backend.service.deep_view(),
        ingress_service_backend.deep_view().name == ingress_service_backend.name@,
        ingress_service_backend.deep_view().port == ingress_service_backend.port.deep_view(),
        service_backend_port.deep_view().number == service_backend_port.number.deep_view(),
{
}

/// The view of an object of the cluster, and of everything in it, has each field as it is.
pub proof fn object_views_hide_nothing(
    owner_reference: OwnerReference,
    object_meta: ObjectMeta,
    config_map: ConfigMap,
    deployment: Deployment,
    deployment_spec: DeploymentSpec,
    deployment_strategy: DeploymentStrategy,
    rolling_update_deployment: RollingUpdateDeployment,
    label_selector: LabelSelector,
    pod_template_spec: PodTemplateSpec,
    pod_spec: PodSpec,
    volume: Volume,
    config_map_volume_source: ConfigMapVolumeSource,
    secret_volume_source: SecretVolumeSource,
    container: Container,
    volume_mount: VolumeMount,
    service: Service,
    service_spec: ServiceSpec,
    service_port: ServicePort,
)
    ensures
        owner_reference.deep_view().api_version == owner_reference.api_version@,
        owner_reference.deep_view().kind == owner_reference.kind@,
        owner_reference.deep_view().name == owner_reference.name@,
        owner_reference.deep_view().uid == owner_reference.uid@,
        object_meta.deep_view().name == object_meta.name.deep_view(),
        object_meta.deep_view().namespace == object_meta.namespace.deep_view(),
        object_meta.deep_view().uid == object_meta.uid.deep_view(),
        object_meta.deep_view().labels == object_meta.labels.deep_view(),
        object_meta.deep_view().annotations == object_meta.annotations.deep_view(),
        object_meta.deep_view().owner_references == object_meta.owner_references.deep_view(),
        config_map.deep_view().metadata == config_map.metadata.deep_view(),
        config_map.deep_view().data == config_map.data.deep_view(),
        deployment.deep_view().metadata == deployment.metadata.deep_view(),
        deployment.deep_view().spec == deployment.spec.deep_view(),
        deployment_spec.deep_view().replicas == deployment_spec.replicas.deep_view(),
        deployment_spec.deep_view().strategy == deployment_spec.strategy.deep_view(),
        deployment_spec.deep_view().selector == deployment_spec.selector.deep_view(),
        deployment_spec.deep_view().template == deployment_spec.template.deep_view(),
        deployment_strategy.deep_view().type_ == deployment_strategy.type_.deep_view(),
        deployment_strategy.deep_view().rolling_update
            == deployment_strategy.rolling_update.deep_view(),
        rolling_update_deployment.deep_view().max_surge
            == rolling_update_deployment.max_surge.deep_view(),
        rolling_update_deployment.deep_view().max_unavailable
            == rolling_update_deployment.max_unavailable.deep_view(),
        label_selector.deep_view().match_labels == label_selector.match_labels.deep_view(),
        pod_template_spec.deep_view().metadata == pod_template_spec.metadata.deep_view(),
        pod_template_spec.deep_view().spec == pod_template_spec.spec.deep_view(),
        pod_spec.deep_view().volumes == pod_spec.volumes.deep_view(),
        pod_spec.deep_view().containers == pod_spec.containers.deep_view(),
        volume.deep_view().name == volume.name@,
        volume.deep_view().config_map == volume.config_map.deep_view(),
        volume.deep_view().secret == volume.secret.deep_view(),
        config_map_volume_source.deep_view().name == config_map_volume_source.name@,
        secret_volume_source.deep_view().secret_name
            == secret_volume_source.secret_name.deep_view(),
        container.deep_view().name == container.name@,
        container.deep_view().image == container.image.deep_view(),
        container.deep_view().volume_mounts == container.volume_mounts.deep_view(),
        volume_mount.deep_view().name == volume_mount.name@,
        volume_mount.deep_view().mount_path == volume_mount.mount_path@,
        volume_mount.deep_view().sub_path == volume_mount.sub_path.deep_view(),
        volume_mount.deep_view().read_only == volume_mount.read_only.deep_view(),
        service.deep_view().metadata == service.metadata.deep_view(),
        service.deep_view().spec == service.spec.deep_view(),
        service_spec.deep_view().selector == service_spec.selector.deep_view(),
        service_spec.deep_view().ports == service_spec.ports.deep_view(),
        service_spec.deep_view().type_ == service_spec.type_.deep_view(),
        service_spec.deep_view().load_balancer_class
            == service_spec.load_balancer_class.deep_view(),
        service_spec.deep_view().internal_traffic_policy
            == service_spec.internal_traffic_policy.deep_view(),
        service_spec.deep_view().external_traffic_policy
            == service_spec.external_traffic_policy.deep_view(),
        service_port.deep_view().name == service_port.name.deep_view(),
        service_port.deep_view().protocol == service_port.protocol.deep_view(),
        service_port.deep_view().port == service_port.port,
        service_port.deep_view().target_port == service_port.target_port.deep_view(),
{
}

/// The view of a gateway, and of everything that it asks for, has each field as it is.
pub proof fn gateway_views_hide_nothing(
    service_template_meta: ServiceTemplateMeta,
    service_template_spec: ServiceTemplateSpec,
    service_template: ServiceTemplate,
    inrush_gateway_spec: InrushGatewaySpec,
    inrush_gateway: InrushGateway,
)
    ensures
        service_template_meta.deep_view().labels == service_template_meta.labels.deep_view(),
        service_template_spec.deep_view().load_balancer_class
            == service_template_spec.load_balancer_class.deep_view(),
        service_template_spec.deep_view().external_traffic_policy
            == service_template_spec.external_traffic_policy.deep_view(),
        service_template_spec.deep_view().internal_traffic_policy
            == service_template_spec.internal_traffic_policy.deep_view(),
        service_template_spec.deep_view().type_ == service_template_spec.type_.deep_view(),
        service_template.deep_view().name == service_template.name@,
        service_template.deep_view().metadata == service_template.metadata.deep_view(),
        service_template.deep_view().spec == service_template.spec.deep_view(),
        inrush_gateway_spec.deep_view().image == inrush_gateway_spec.image.deep_view(),
        inrush_gateway_spec.deep_view().service_templates
            == inrush_gateway_spec.service_templates.deep_view(),
        inrush_gateway.deep_view().metadata == inrush_gateway.metadata.deep_view(),
        inrush_gateway.deep_view().spec == inrush_gateway.spec.deep_view(),
{
}

/// The view of a gateway's routes, and of a reference to a gateway, has each field as it is.
pub proof fn route_views_hide_nothing(
    location: Location,
    inrush_gateway_metadata: InrushGatewayMetadata,
    gateway_ref: GatewayRef,
)
    ensures
        location.deep_view().path == location.path@,
        location.deep_view().domain == location.domain@,
        location.deep_view().port == location.port,
        inrush_gateway_metadata.deep_view().locations
            == inrush_gateway_metadata.locations.deep_view(),
        inrush_gateway_metadata.deep_view().server_names
            == inrush_gateway_metadata.server_names.deep_view(),
        gateway_ref.deep_view().name == gateway_ref.name@,
        gateway_ref.deep_view().namespace == gateway_ref.namespace@,
{
}

/// The view of what a step of the work holds has each field as it is.
pub proof fn step_views_hide_nothing(
    identity: Identity,
    settings: Settings,
    apply_request: ApplyRequest,
    rollout: Rollout,
    object: Object,
    step: Step,
)
    ensures
        identity.deep_view().name == identity.name@,
        identity.deep_view().namespace == identity.namespace@,
        identity.deep_view().uid == identity.uid@,
        identity.deep_view().labels == identity.labels@,
        settings.deep_view().cluster_domain == settings.cluster_domain@,
        settings.deep_view().image_name == settings.image_name@,
        apply_request.deep_view().name == apply_request.name@,
        apply_request.deep_view().namespace == apply_request.namespace@,
        apply_request.deep_view().field_manager == apply_request.field_manager@,
        apply_request.deep_view().force == apply_request.force,
        apply_request.deep_view().object == apply_request.object.deep_view(),
        rollout.deep_view().refusal == rollout.refusal,
        rollout.deep_view().remaining == rollout.remaining.deep_view(),
        match object {
            Object::ConfigMap(inner) => object.deep_view() == ObjectView::ConfigMap(
                inner.deep_view(),
            ),
            Object::Deployment(inner) => object.deep_view() == ObjectView::Deployment(
                inner.deep_view(),
            ),
            Object::Service(inner) => object.deep_view() == ObjectView::Service(
                inner.deep_view(),
            ),
        },
        match step {
            Step::Render(metadata, owner) => step.deep_view() == StepView::Render(
                metadata.deep_view(),
                owner.deep_view(),
            ),
            Step::Apply(request, rest) => step.deep_view() == StepView::Apply(
                request.deep_view(),
                rest.deep_view(),
            ),
            Step::Requeue(seconds) => step.deep_view() == StepView::Requeue(seconds),
            Step::Fail(error) => step.deep_view() == StepView::Fail(error),
        },
{
}

} // verus!
