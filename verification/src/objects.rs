use crate::string_map::StringMap;
use vstd::prelude::*;

verus! {

/// The object that another one belongs to, and goes with.
#[derive(Debug)]
pub struct OwnerReference {
    pub api_version: String,
    pub kind: String,
    pub name: String,
    pub uid: String,
}

/// The metadata of an object of the cluster.
#[derive(Debug)]
pub struct ObjectMeta {
    pub name: Option<String>,
    pub namespace: Option<String>,
    pub uid: Option<String>,
    pub labels: Option<StringMap>,
    pub annotations: Option<StringMap>,
    pub owner_references: Option<Vec<OwnerReference>>,
}

/// Configuration files.
#[derive(Debug)]
pub struct ConfigMap {
    pub metadata: ObjectMeta,
    /// The files by name.
    pub data: Option<StringMap>,
}

/// A set of equal pods, kept running.
#[derive(Debug)]
pub struct Deployment {
    pub metadata: ObjectMeta,
    pub spec: Option<DeploymentSpec>,
}

#[derive(Debug)]
pub struct DeploymentSpec {
    pub replicas: Option<i32>,
    pub strategy: Option<DeploymentStrategy>,
    /// The pods that belong to the deployment.
    pub selector: LabelSelector,
    pub template: PodTemplateSpec,
}

/// How pods are replaced when the deployment changes.
#[derive(Debug)]
pub struct DeploymentStrategy {
    pub type_: Option<String>,
    pub rolling_update: Option<RollingUpdateDeployment>,
}

/// How many pods a rolling update may add and take away, in whole pods.
#[derive(Debug)]
pub struct RollingUpdateDeployment {
    pub max_surge: Option<i32>,
    pub max_unavailable: Option<i32>,
}

/// The objects that carry all of the labels.
#[derive(Debug)]
pub struct LabelSelector {
    pub match_labels: Option<StringMap>,
}

/// What the pods of a deployment are made from.
#[derive(Debug)]
pub struct PodTemplateSpec {
    pub metadata: Option<ObjectMeta>,
    pub spec: Option<PodSpec>,
}

#[derive(Debug)]
pub struct PodSpec {
    pub volumes: Option<Vec<Volume>>,
    pub containers: Vec<Container>,
}

/// Files that the containers of a pod can mount.
#[derive(Debug)]
pub struct Volume {
    pub name: String,
    pub config_map: Option<ConfigMapVolumeSource>,
    pub secret: Option<SecretVolumeSource>,
}

/// The config map that a volume's files come from.
#[derive(Debug)]
pub struct ConfigMapVolumeSource {
    pub name: String,
}

/// The secret that a volume's files come from.
#[derive(Debug)]
pub struct SecretVolumeSource {
    pub secret_name: Option<String>,
}

#[derive(Debug)]
pub struct Container {
    pub name: String,
    pub image: Option<String>,
    pub volume_mounts: Option<Vec<VolumeMount>>,
}

/// Where a container finds the files of a volume.
#[derive(Debug)]
pub struct VolumeMount {
    /// The volume.
    pub name: String,
    pub mount_path: String,
    /// The one file of the volume that is mounted, in place of them all.
    pub sub_path: Option<String>,
    pub read_only: Option<bool>,
}

/// An address that leads to pods.
#[derive(Debug)]
pub struct Service {
    pub metadata: ObjectMeta,
    pub spec: Option<ServiceSpec>,
}

#[derive(Debug)]
pub struct ServiceSpec {
    /// The pods that the service leads to.
    pub selector: Option<StringMap>,
    pub ports: Option<Vec<ServicePort>>,
    pub type_: Option<String>,
    pub load_balancer_class: Option<String>,
    pub internal_traffic_policy: Option<String>,
    pub external_traffic_policy: Option<String>,
}

#[derive(Debug)]
pub struct ServicePort {
    pub name: Option<String>,
    pub protocol: Option<String>,
    pub port: i32,
    /// The port of the pods, by number.
    pub target_port: Option<i32>,
}

/// The view of an [`OwnerReference`].
pub struct OwnerReferenceView {
    pub api_version: Seq<char>,
    pub kind: Seq<char>,
    pub name: Seq<char>,
    pub uid: Seq<char>,
}

/// The view of an [`ObjectMeta`].
pub struct ObjectMetaView {
    pub name: Option<Seq<char>>,
    pub namespace: Option<Seq<char>>,
    pub uid: Option<Seq<char>>,
    pub labels: Option<Map<Seq<char>, Seq<char>>>,
    pub annotations: Option<Map<Seq<char>, Seq<char>>>,
    pub owner_references: Option<Seq<OwnerReferenceView>>,
}

/// The view of a [`ConfigMap`].
pub struct ConfigMapView {
    pub metadata: ObjectMetaView,
    pub data: Option<Map<Seq<char>, Seq<char>>>,
}

/// The view of a [`Deployment`].
pub struct DeploymentView {
    pub metadata: ObjectMetaView,
    pub spec: Option<DeploymentSpecView>,
}

/// The view of a [`DeploymentSpec`].
pub struct DeploymentSpecView {
    pub replicas: Option<i32>,
    pub strategy: Option<DeploymentStrategyView>,
    pub selector: LabelSelectorView,
    pub template: PodTemplateSpecView,
}

/// The view of a [`DeploymentStrategy`].
pub struct DeploymentStrategyView {
    pub type_: Option<Seq<char>>,
    pub rolling_update: Option<RollingUpdateDeploymentView>,
}

/// The view of a [`RollingUpdateDeployment`].
pub struct RollingUpdateDeploymentView {
    pub max_surge: Option<i32>,
    pub max_unavailable: Option<i32>,
}

/// The view of a [`LabelSelector`].
pub struct LabelSelectorView {
    pub match_labels: Option<Map<Seq<char>, Seq<char>>>,
}

/// The view of a [`PodTemplateSpec`].
pub struct PodTemplateSpecView {
    pub metadata: Option<ObjectMetaView>,
    pub spec: Option<PodSpecView>,
}

/// The view of a [`PodSpec`].
pub struct PodSpecView {
    pub volumes: Option<Seq<VolumeView>>,
    pub containers: Seq<ContainerView>,
}

/// The view of a [`Volume`].
pub struct VolumeView {
    pub name: Seq<char>,
    pub config_map: Option<ConfigMapVolumeSourceView>,
    pub secret: Option<SecretVolumeSourceView>,
}

/// The view of a [`ConfigMapVolumeSource`].
pub struct ConfigMapVolumeSourceView {
    pub name: Seq<char>,
}

/// The view of a [`SecretVolumeSource`].
pub struct SecretVolumeSourceView {
    pub secret_name: Option<Seq<char>>,
}

/// The view of a [`Container`].
pub struct ContainerView {
    pub name: Seq<char>,
    pub image: Option<Seq<char>>,
    pub volume_mounts: Option<Seq<VolumeMountView>>,
}

/// The view of a [`VolumeMount`].
pub struct VolumeMountView {
    pub name: Seq<char>,
    pub mount_path: Seq<char>,
    pub sub_path: Option<Seq<char>>,
    pub read_only: Option<bool>,
}

/// The view of a [`Service`].
pub struct ServiceView {
    pub metadata: ObjectMetaView,
    pub spec: Option<ServiceSpecView>,
}

/// The view of a [`ServiceSpec`].
pub struct ServiceSpecView {
    pub selector: Option<Map<Seq<char>, Seq<char>>>,
    pub ports: Option<Seq<ServicePortView>>,
    pub type_: Option<Seq<char>>,
    pub load_balancer_class: Option<Seq<char>>,
    pub internal_traffic_policy: Option<Seq<char>>,
    pub external_traffic_policy: Option<Seq<char>>,
}

/// The view of a [`ServicePort`].
pub struct ServicePortView {
    pub name: Option<Seq<char>>,
    pub protocol: Option<Seq<char>>,
    pub port: i32,
    pub target_port: Option<i32>,
}

impl DeepView for OwnerReference {
    type V = OwnerReferenceView;

    open spec fn deep_view(&self) -> OwnerReferenceView {
        OwnerReferenceView {
            api_version: self.api_version.deep_view(),
            kind: self.kind.deep_view(),
            name: self.name.deep_view(),
            uid: self.uid.deep_view(),
        }
    }
}

impl DeepView for ObjectMeta {
    type V = ObjectMetaView;

    open spec fn deep_view(&self) -> ObjectMetaView {
        ObjectMetaView {
            name: self.name.deep_view(),
            namespace: self.namespace.deep_view(),
            uid: self.uid.deep_view(),
            labels: self.labels.deep_view(),
            annotations: self.annotations.deep_view(),
            owner_references: self.owner_references.deep_view(),
        }
    }
}

impl DeepView for ConfigMap {
    type V = ConfigMapView;

    open spec fn deep_view(&self) -> ConfigMapView {
        ConfigMapView { metadata: self.metadata.deep_view(), data: self.data.deep_view() }
    }
}

impl DeepView for Deployment {
    type V = DeploymentView;

    open spec fn deep_view(&self) -> DeploymentView {
        DeploymentView { metadata: self.metadata.deep_view(), spec: self.spec.deep_view() }
    }
}

impl DeepView for DeploymentSpec {
    type V = DeploymentSpecView;

    open spec fn deep_view(&self) -> DeploymentSpecView {
        DeploymentSpecView {
            replicas: self.replicas.deep_view(),
            strategy: self.strategy.deep_view(),
            selector: self.selector.deep_view(),
            template: self.template.deep_view(),
        }
    }
}

impl DeepView for DeploymentStrategy {
    type V = DeploymentStrategyView;

    open spec fn deep_view(&self) -> DeploymentStrategyView {
        DeploymentStrategyView {
            type_: self.type_.deep_view(),
            rolling_update: self.rolling_update.deep_view(),
        }
    }
}

impl DeepView for RollingUpdateDeployment {
    type V = RollingUpdateDeploymentView;

    open spec fn deep_view(&self) -> RollingUpdateDeploymentView {
        RollingUpdateDeploymentView {
            max_surge: self.max_surge.deep_view(),
            max_unavailable: self.max_unavailable.deep_view(),
        }
    }
}

impl DeepView for LabelSelector {
    type V = LabelSelectorView;

    open spec fn deep_view(&self) -> LabelSelectorView {
        LabelSelectorView { match_labels: self.match_labels.deep_view() }
    }
}

impl DeepView for PodTemplateSpec {
    type V = PodTemplateSpecView;

    open spec fn deep_view(&self) -> PodTemplateSpecView {
        PodTemplateSpecView { metadata: self.metadata.deep_view(), spec: self.spec.deep_view() }
    }
}

impl DeepView for PodSpec {
    type V = PodSpecView;

    open spec fn deep_view(&self) -> PodSpecView {
        PodSpecView { volumes: self.volumes.deep_view(), containers: self.containers.deep_view() }
    }
}

impl DeepView for Volume {
    type V = VolumeView;

    open spec fn deep_view(&self) -> VolumeView {
        VolumeView {
            name: self.name.deep_view(),
            config_map: self.config_map.deep_view(),
            secret: self.secret.deep_view(),
        }
    }
}

impl DeepView for ConfigMapVolumeSource {
    type V = ConfigMapVolumeSourceView;

    open spec fn deep_view(&self) -> ConfigMapVolumeSourceView {
        ConfigMapVolumeSourceView { name: self.name.deep_view() }
    }
}

impl DeepView for SecretVolumeSource {
    type V = SecretVolumeSourceView;

    open spec fn deep_view(&self) -> SecretVolumeSourceView {
        SecretVolumeSourceView { secret_name: self.secret_name.deep_view() }
    }
}

impl DeepView for Container {
    type V = ContainerView;

    open spec fn deep_view(&self) -> ContainerView {
        ContainerView {
            name: self.name.deep_view(),
            image: self.image.deep_view(),
            volume_mounts: self.volume_mounts.deep_view(),
        }
    }
}

impl DeepView for VolumeMount {
    type V = VolumeMountView;

    open spec fn deep_view(&self) -> VolumeMountView {
        VolumeMountView {
            name: self.name.deep_view(),
            mount_path: self.mount_path.deep_view(),
            sub_path: self.sub_path.deep_view(),
            read_only: self.read_only.deep_view(),
        }
    }
}

impl DeepView for Service {
    type V = ServiceView;

    open spec fn deep_view(&self) -> ServiceView {
        ServiceView { metadata: self.metadata.deep_view(), spec: self.spec.deep_view() }
    }
}

impl DeepView for ServiceSpec {
    type V = ServiceSpecView;

    open spec fn deep_view(&self) -> ServiceSpecView {
        ServiceSpecView {
            selector: self.selector.deep_view(),
            ports: self.ports.deep_view(),
            type_: self.type_.deep_view(),
            load_balancer_class: self.load_balancer_class.deep_view(),
            internal_traffic_policy: self.internal_traffic_policy.deep_view(),
            external_traffic_policy: self.external_traffic_policy.deep_view(),
        }
    }
}

impl DeepView for ServicePort {
    type V = ServicePortView;

    open spec fn deep_view(&self) -> ServicePortView {
        ServicePortView {
            name: self.name.deep_view(),
            protocol: self.protocol.deep_view(),
            port: self.port.deep_view(),
            target_port: self.target_port.deep_view(),
        }
    }
}

} // verus!
