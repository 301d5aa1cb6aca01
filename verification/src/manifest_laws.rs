use crate::crd::InrushGatewayView;
use crate::error::ReconcileError;
use crate::manifests::{chosen_image, config_map, deployment, identity, service, IdentityView};
use crate::objects::{
    ConfigMapVolumeSourceView, ObjectMetaView, OwnerReferenceView, RollingUpdateDeploymentView,
    SecretVolumeSourceView, ServicePortView,
};
use crate::reconcile::{plan, ObjectView, SettingsView};
use vstd::prelude::*;

verus! {

/// The objects of a gateway are made from the gateway's own name, namespace and identifier, and the
/// first of these that is missing, in this order, is the error.
pub proof fn identity_is_the_gateways_own(gateway: InrushGatewayView)
    ensures
        match identity(gateway) {
            Ok(identity) => {
                &&& gateway.metadata.name == Some(identity.name)
                &&& gateway.metadata.namespace == Some(identity.namespace)
                &&& gateway.metadata.uid == Some(identity.uid)
            },
            Err(error) => {
                ||| error == ReconcileError::MissingName && gateway.metadata.name is None
                ||| error == ReconcileError::MissingNamespace && gateway.metadata.name is Some
                    && gateway.metadata.namespace is None
                ||| error == ReconcileError::MissingUid && gateway.metadata.name is Some
                    && gateway.metadata.namespace is Some && gateway.metadata.uid is None
            },
        },
{
}

/// The labels of a gateway's objects are the gateway's own, and the one label that ties them to the
/// gateway, whose value is the gateway's name whatever the gateway has under that key.
pub proof fn labels_are_the_gateways_and_one_more(gateway: InrushGatewayView, key: Seq<char>)
    requires
        identity(gateway) is Ok,
    ensures
        ({
            let labels = identity(gateway)->Ok_0.labels;
            let own = gateway.metadata.labels;
            if key == "inrush.unrouted.uk/ingress"@ {
                labels.contains_key(key) && Some(labels[key]) == gateway.metadata.name
            } else if own is Some && own->0.contains_key(key) {
                labels.contains_key(key) && labels[key] == own->0[key]
            } else {
                !labels.contains_key(key)
            }
        }),
{
}

/// There is a request for the configuration, one for the deployment, and one for each template, of
/// these kinds and in this order. Each goes to the gateway's namespace and in the controller's
/// name; those for services alone are forced.
pub proof fn one_request_for_each_object(
    gateway: InrushGatewayView,
    settings: SettingsView,
    identity: IdentityView,
    rendered: Seq<char>,
)
    ensures
        ({
            let requests = plan(gateway, settings, identity, rendered);
            &&& gateway.spec.service_templates is None ==> requests.len() == 2
            &&& gateway.spec.service_templates matches Some(templates) ==> requests.len() == 2
                + templates.len()
            &&& forall|i: int|
                0 <= i < requests.len() ==> {
                    &&& (#[trigger] requests[i]).namespace == identity.namespace
                    &&& requests[i].field_manager == "inrush.unrouted.uk"@
                    &&& requests[i].force <==> i >= 2
                    &&& requests[i].object is ConfigMap <==> i == 0
                    &&& requests[i].object is Deployment <==> i == 1
                    &&& requests[i].object is Service <==> i >= 2
                }
        }),
{
}

/// The first request applies the config map, named after the gateway: it belongs to the gateway,
/// carries the labels of the gateway's objects, and holds the rendered configuration as its one
/// file.
pub proof fn config_map_holds_the_configuration(
    gateway: InrushGatewayView,
    settings: SettingsView,
    identity: IdentityView,
    rendered: Seq<char>,
)
    ensures
        ({
            let request = plan(gateway, settings, identity, rendered)[0];
            &&& request.name == identity.name + "-config"@
            &&& request.object matches ObjectView::ConfigMap(object)
            &&& object == config_map(identity, rendered)
            &&& object.metadata.name == Some(identity.name + "-config"@)
            &&& object.metadata.namespace == Some(identity.namespace)
            &&& object.metadata.uid is None
            &&& object.metadata.labels == Some(identity.labels)
            &&& object.metadata.annotations is None
            &&& object.metadata.owner_references == Some(
                seq![
                    OwnerReferenceView {
                        api_version: "inrush.unrouted.uk/v1"@,
                        kind: "InrushGateway"@,
                        name: identity.name,
                        uid: identity.uid,
                    },
                ],
            )
            &&& object.data matches Some(files)
            &&& files.contains_key("nginx.conf"@)
            &&& files["nginx.conf"@] == rendered
            &&& forall|file: Seq<char>| #[trigger]
                files.contains_key(file) ==> file == "nginx.conf"@
        }),
{
}

/// The second request applies the deployment, named after the gateway: it belongs to the gateway
/// and carries the labels of the gateway's objects. Its annotations name the config map and the
/// secret on whose change the pods are restarted.
pub proof fn deployment_belongs_to_the_gateway(
    gateway: InrushGatewayView,
    settings: SettingsView,
    identity: IdentityView,
    rendered: Seq<char>,
)
    ensures
        ({
            let request = plan(gateway, settings, identity, rendered)[1];
            &&& request.name == identity.name + "-nginx"@
            &&& request.object matches ObjectView::Deployment(object)
            &&& object.metadata.name == Some(identity.name + "-nginx"@)
            &&& object.metadata.namespace == Some(identity.namespace)
            &&& object.metadata.uid is None
            &&& object.metadata.labels == Some(identity.labels)
            &&& object.metadata.owner_references == Some(
                seq![
                    OwnerReferenceView {
                        api_version: "inrush.unrouted.uk/v1"@,
                        kind: "InrushGateway"@,
                        name: identity.name,
                        uid: identity.uid,
                    },
                ],
            )
            &&& object.metadata.annotations matches Some(annotations)
            &&& annotations.contains_key("configmap.reloader.stakater.com/reload"@)
            &&& annotations["configmap.reloader.stakater.com/reload"@] == identity.name
                + "-config"@
            &&& annotations.contains_key("secret.reloader.stakater.com/reload"@)
            &&& annotations["secret.reloader.stakater.com/reload"@] == "tls"@
            &&& forall|key: Seq<char>| #[trigger]
                annotations.contains_key(key) ==> key == "configmap.reloader.stakater.com/reload"@
                    || key == "secret.reloader.stakater.com/reload"@
        }),
{
    reveal_strlit("configmap.reloader.stakater.com/reload");
    reveal_strlit("secret.reloader.stakater.com/reload");
    assert("configmap.reloader.stakater.com/reload"@[0] == 'c');
    assert("secret.reloader.stakater.com/reload"@[0] == 's');
}

/// In every plan the one container of the deployment's pods runs the image that the gateway names,
/// and the one of the settings where the gateway names none.
pub proof fn container_runs_the_chosen_image(
    gateway: InrushGatewayView,
    settings: SettingsView,
    identity: IdentityView,
    rendered: Seq<char>,
)
    ensures
        ({
            let requests = plan(gateway, settings, identity, rendered);
            let image = if gateway.spec.image is Some {
                gateway.spec.image->0
            } else {
                settings.image_name
            };
            &&& chosen_image(gateway.spec.image, settings.image_name) == image
            &&& requests[1].object == ObjectView::Deployment(deployment(identity, image))
            &&& requests[1].object matches ObjectView::Deployment(object)
            &&& object.spec matches Some(spec)
            &&& spec.template.spec matches Some(pod)
            &&& pod.containers.len() == 1
            &&& pod.containers[0].image == Some(image)
        }),
{
}

/// The deployment runs two pods and replaces them in steps, at most two more and at most one fewer
/// at a time. Its pods, and only they, carry the gateway's name under the one label that it selects
/// them by.
pub proof fn deployment_runs_two_pods(
    gateway: InrushGatewayView,
    settings: SettingsView,
    identity: IdentityView,
    rendered: Seq<char>,
)
    ensures
        ({
            let request = plan(gateway, settings, identity, rendered)[1];
            &&& request.object matches ObjectView::Deployment(object)
            &&& object.spec matches Some(spec)
            &&& spec.replicas == Some(2i32)
            &&& spec.strategy matches Some(strategy)
            &&& strategy.type_ == Some("RollingUpdate"@)
            &&& strategy.rolling_update == Some(
                RollingUpdateDeploymentView { max_surge: Some(2), max_unavailable: Some(1) },
            )
            &&& spec.selector.match_labels matches Some(selector)
            &&& selector.contains_key("inrush.unrouted.uk/ingress"@)
            &&& selector["inrush.unrouted.uk/ingress"@] == identity.name
            &&& forall|key: Seq<char>| #[trigger]
                selector.contains_key(key) ==> key == "inrush.unrouted.uk/ingress"@
            &&& spec.template.metadata matches Some(pods)
            &&& pods == (ObjectMetaView {
                name: None,
                namespace: None,
                uid: None,
                labels: Some(selector),
                annotations: None,
                owner_references: None,
            })
        }),
{
}

/// The container of the deployment's pods finds its configuration, out of the config map, and the
/// certificate, out of the secret, where the proxy reads them, and cannot write to either.
pub proof fn container_mounts_configuration_and_certificate(
    gateway: InrushGatewayView,
    settings: SettingsView,
    identity: IdentityView,
    rendered: Seq<char>,
)
    ensures
        ({
            let request = plan(gateway, settings, identity, rendered)[1];
            &&& request.object matches ObjectView::Deployment(object)
            &&& object.spec matches Some(spec)
            &&& spec.template.spec matches Some(pod)
            &&& pod.volumes matches Some(volumes)
            &&& volumes.len() == 2
            &&& volumes[0].name == "config"@
            &&& volumes[0].config_map == Some(
                ConfigMapVolumeSourceView { name: identity.name + "-config"@ },
            )
            &&& volumes[0].secret is None
            &&& volumes[1].name == "tls"@
            &&& volumes[1].config_map is None
            &&& volumes[1].secret == Some(SecretVolumeSourceView { secret_name: Some("tls"@) })
            &&& pod.containers.len() == 1
            &&& pod.containers[0].name == "nginx"@
            &&& pod.containers[0].volume_mounts matches Some(mounts)
            &&& mounts.len() == 2
            &&& mounts[0].name == "config"@
            &&& mounts[0].mount_path == "/etc/nginx/nginx.conf"@
            &&& mounts[0].sub_path == Some("nginx.conf"@)
            &&& mounts[0].read_only == Some(true)
            &&& mounts[1].name == "tls"@
            &&& mounts[1].mount_path == "/etc/nginx/tls"@
            &&& mounts[1].sub_path is None
            &&& mounts[1].read_only == Some(true)
        }),
{
}

/// The request for a template applies a service with the template's own type, load balancer class
/// and traffic policies, each as the template has it; all four are absent where the template has no
/// specification.
pub proof fn service_has_the_templates_settings(
    gateway: InrushGatewayView,
    settings: SettingsView,
    identity: IdentityView,
    rendered: Seq<char>,
    i: int,
)
    requires
        gateway.spec.service_templates is Some,
        0 <= i < gateway.spec.service_templates->0.len(),
    ensures
        ({
            let template = gateway.spec.service_templates->0[i];
            let request = plan(gateway, settings, identity, rendered)[2 + i];
            &&& request.object matches ObjectView::Service(object)
            &&& object == service(identity, template)
            &&& object.spec matches Some(spec)
            &&& template.spec matches Some(wanted) ==> {
                &&& spec.type_ == wanted.type_
                &&& spec.load_balancer_class == wanted.load_balancer_class
                &&& spec.internal_traffic_policy == wanted.internal_traffic_policy
                &&& spec.external_traffic_policy == wanted.external_traffic_policy
            }
            &&& template.spec is None ==> {
                &&& spec.type_ is None
                &&& spec.load_balancer_class is None
                &&& spec.internal_traffic_policy is None
                &&& spec.external_traffic_policy is None
            }
        }),
{
}

/// Whatever the template, its service serves HTTP and HTTPS over TCP, each under its own number,
/// and leads to what carries the gateway's name under the gateway's label.
pub proof fn service_leads_to_the_proxy(
    gateway: InrushGatewayView,
    settings: SettingsView,
    identity: IdentityView,
    rendered: Seq<char>,
    i: int,
)
    requires
        gateway.spec.service_templates is Some,
        0 <= i < gateway.spec.service_templates->0.len(),
    ensures
        ({
            let request = plan(gateway, settings, identity, rendered)[2 + i];
            &&& request.object matches ObjectView::Service(object)
            &&& object.spec matches Some(spec)
            &&& spec.ports == Some(
                seq![
                    ServicePortView {
                        name: Some("http"@),
                        protocol: Some("TCP"@),
                        port: 80,
                        target_port: Some(80),
                    },
                    ServicePortView {
                        name: Some("https"@),
                        protocol: Some("TCP"@),
                        port: 443,
                        target_port: Some(443),
                    },
                ],
            )
            &&& spec.selector matches Some(selector)
            &&& selector.contains_key("inrush.unrouted.uk/ingress"@)
            &&& selector["inrush.unrouted.uk/ingress"@] == identity.name
            &&& forall|key: Seq<char>| #[trigger]
                selector.contains_key(key) ==> key == "inrush.unrouted.uk/ingress"@
        }),
{
}

/// The service for a template is named after the gateway and the template, and belongs to the
/// gateway. Its labels are the template's, and those of the gateway's objects under the keys that
/// the template does not set.
pub proof fn service_is_named_and_labelled(
    gateway: InrushGatewayView,
    settings: SettingsView,
    identity: IdentityView,
    rendered: Seq<char>,
    i: int,
    key: Seq<char>,
)
    requires
        gateway.spec.service_templates is Some,
        0 <= i < gateway.spec.service_templates->0.len(),
    ensures
        ({
            let template = gateway.spec.service_templates->0[i];
            let request = plan(gateway, settings, identity, rendered)[2 + i];
            &&& request.name == identity.name + "-"@ + template.name
            &&& request.object matches ObjectView::Service(object)
            &&& object.metadata.name == Some(identity.name + "-"@ + template.name)
            &&& object.metadata.namespace == Some(identity.namespace)
            &&& object.metadata.uid is None
            &&& object.metadata.annotations is None
            &&& object.metadata.owner_references == Some(
                seq![
                    OwnerReferenceView {
                        api_version: "inrush.unrouted.uk/v1"@,
                        kind: "InrushGateway"@,
                        name: identity.name,
                        uid: identity.uid,
                    },
                ],
            )
            &&& object.metadata.labels matches Some(labels)
            &&& if template.metadata is Some && template.metadata->0.labels is Some
                && template.metadata->0.labels->0.contains_key(key) {
                labels.contains_key(key) && labels[key] == template.metadata->0.labels->0[key]
            } else if identity.labels.contains_key(key) {
                labels.contains_key(key) && labels[key] == identity.labels[key]
            } else {
                !labels.contains_key(key)
            }
        }),
{
}

} // verus!
