use vstd::prelude::*;

verus! {

/// An ingress of the cluster, as far as a gateway reads it.
#[derive(Debug)]
pub struct Ingress {
    /// The namespace that the ingress lives in.
    pub namespace: Option<String>,
    pub spec: Option<IngressSpec>,
}

#[derive(Debug)]
pub struct IngressSpec {
    /// The gateway that serves the ingress.
    pub ingress_class_name: Option<String>,
    /// What serves the requests that no rule matches.
    pub default_backend: Option<IngressBackend>,
    pub tls: Option<Vec<IngressTls>>,
    pub rules: Option<Vec<IngressRule>>,
}

#[derive(Debug)]
pub struct IngressTls {
    /// The hosts that the certificate covers.
    pub hosts: Option<Vec<String>>,
}

#[derive(Debug)]
pub struct IngressRule {
    /// The host that the rule is for.
    pub host: Option<String>,
    pub http: Option<HttpIngressRuleValue>,
}

#[derive(Debug)]
pub struct HttpIngressRuleValue {
    pub paths: Vec<HttpIngressPath>,
}

#[derive(Debug)]
pub struct HttpIngressPath {
    pub path: Option<String>,
    pub backend: IngressBackend,
}

/// What serves requests; a service, or a resource of another kind.
#[derive(Debug)]
pub struct IngressBackend {
    pub service: Option<IngressServiceBackend>,
}

#[derive(Debug)]
pub struct IngressServiceBackend {
    pub name: String,
    pub port: Option<ServiceBackendPort>,
}

/// The port of a service, by number where it is not by name.
#[derive(Debug)]
pub struct ServiceBackendPort {
    pub number: Option<i32>,
}

/// The view of an [`Ingress`].
pub struct IngressView {
    pub namespace: Option<Seq<char>>,
    pub spec: Option<IngressSpecView>,
}

/// The view of an [`IngressSpec`].
pub struct IngressSpecView {
    pub ingress_class_name: Option<Seq<char>>,
    pub default_backend: Option<IngressBackendView>,
    pub tls: Option<Seq<IngressTlsView>>,
    pub rules: Option<Seq<IngressRuleView>>,
}

/// The view of an [`IngressTls`].
pub struct IngressTlsView {
    pub hosts: Option<Seq<Seq<char>>>,
}

/// The view of an [`IngressRule`].
pub struct IngressRuleView {
    pub host: Option<Seq<char>>,
    pub http: Option<HttpIngressRuleValueView>,
}

/// The view of an [`HttpIngressRuleValue`].
pub struct HttpIngressRuleValueView {
    pub paths: Seq<HttpIngressPathView>,
}

/// The view of an [`HttpIngressPath`].
pub struct HttpIngressPathView {
    pub path: Option<Seq<char>>,
    pub backend: IngressBackendView,
}

/// The view of an [`IngressBackend`].
pub struct IngressBackendView {
    pub service: Option<IngressServiceBackendView>,
}

/// The view of an [`IngressServiceBackend`].
pub struct IngressServiceBackendView {
    pub name: Seq<char>,
    pub port: Option<ServiceBackendPortView>,
}

/// The view of a [`ServiceBackendPort`].
pub struct ServiceBackendPortView {
    pub number: Option<i32>,
}

impl DeepView for Ingress {
    type V = IngressView;

    open spec fn deep_view(&self) -> IngressView {
        IngressView { namespace: self.namespace.deep_view(), spec: self.spec.deep_view() }
    }
}

impl DeepView for IngressSpec {
    type V = IngressSpecView;

    open spec fn deep_view(&self) -> IngressSpecView {
        IngressSpecView {
            ingress_class_name: self.ingress_class_name.deep_view(),
            default_backend: self.default_backend.deep_view(),
            tls: self.tls.deep_view(),
            rules: self.rules.deep_view(),
        }
    }
}

impl DeepView for IngressTls {
    type V = IngressTlsView;

    open spec fn deep_view(&self) -> IngressTlsView {
        IngressTlsView { hosts: self.hosts.deep_view() }
    }
}

impl DeepView for IngressRule {
    type V = IngressRuleView;

    open spec fn deep_view(&self) -> IngressRuleView {
        IngressRuleView { host: self.host.deep_view(), http: self.http.deep_view() }
    }
}

impl DeepView for HttpIngressRuleValue {
    type V = HttpIngressRuleValueView;

    open spec fn deep_view(&self) -> HttpIngressRuleValueView {
        HttpIngressRuleValueView { paths: self.paths.deep_view() }
    }
}

impl DeepView for HttpIngressPath {
    type V = HttpIngressPathView;

    open spec fn deep_view(&self) -> HttpIngressPathView {
        HttpIngressPathView { path: self.path.deep_view(), backend: self.backend.deep_view() }
    }
}

impl DeepView for IngressBackend {
    type V = IngressBackendView;

    open spec fn deep_view(&self) -> IngressBackendView {
        IngressBackendView { service: self.service.deep_view() }
    }
}

impl DeepView for IngressServiceBackend {
    type V = IngressServiceBackendView;

    open spec fn deep_view(&self) -> IngressServiceBackendView {
        IngressServiceBackendView { name: self.name.deep_view(), port: self.port.deep_view() }
    }
}

impl DeepView for ServiceBackendPort {
    type V = ServiceBackendPortView;

    open spec fn deep_view(&self) -> ServiceBackendPortView {
        ServiceBackendPortView { number: self.number.deep_view() }
    }
}

} // verus!
