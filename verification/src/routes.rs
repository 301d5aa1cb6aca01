use crate::ingress::{
    HttpIngressPath, HttpIngressPathView, Ingress, IngressRule, IngressRuleView, IngressSpec,
    IngressSpecView, IngressTls, IngressTlsView, IngressView,
};
use vstd::prelude::*;
use vstd::string::StringExecFns;

verus! {

/// A path that the gateway passes on to a service.
#[derive(Debug)]
pub struct Location {
    pub path: String,
    /// The host name of the service.
    pub domain: String,
    pub port: i32,
}

/// What the configuration of a gateway's proxy is made from.
#[derive(Debug)]
pub struct InrushGatewayMetadata {
    pub locations: Vec<Location>,
    pub server_names: Vec<String>,
}

/// The view of a [`Location`].
pub struct LocationView {
    pub path: Seq<char>,
    pub domain: Seq<char>,
    pub port: i32,
}

/// The view of an [`InrushGatewayMetadata`].
pub struct InrushGatewayMetadataView {
    pub locations: Seq<LocationView>,
    pub server_names: Seq<Seq<char>>,
}

impl DeepView for Location {
    type V = LocationView;

    open spec fn deep_view(&self) -> LocationView {
        LocationView { path: self.path@, domain: self.domain@, port: self.port }
    }
}

impl DeepView for InrushGatewayMetadata {
    type V = InrushGatewayMetadataView;

    open spec fn deep_view(&self) -> InrushGatewayMetadataView {
        InrushGatewayMetadataView {
            locations: self.locations.deep_view(),
            server_names: self.server_names.deep_view(),
        }
    }
}

/// The class that an ingress names.
pub open spec fn ingress_class(ingress: IngressView) -> Option<Seq<char>> {
    match ingress.spec {
        Some(spec) => spec.ingress_class_name,
        None => None,
    }
}

/// The gateway serves the ingress: it is named as the ingress's class, and the ingress has no
/// default backend.
pub open spec fn serves(gateway: Seq<char>, ingress: IngressView) -> bool {
    ingress.spec matches Some(spec) && spec.ingress_class_name == Some(gateway)
        && spec.default_backend is None
}

/// The ingress names the gateway as its class, but has a default backend, which makes no sense for
/// a gateway that many ingresses share.
pub open spec fn turns_away(gateway: Seq<char>, ingress: IngressView) -> bool {
    ingress_class(ingress) == Some(gateway) && ingress.spec->0.default_backend is Some
}

/// The elements of a sequence that may be absent.
pub open spec fn elements<A>(sequence: Option<Seq<A>>) -> Seq<A> {
    match sequence {
        Some(sequence) => sequence,
        None => Seq::empty(),
    }
}

/// The element that may be present.
pub open spec fn element<A>(value: Option<A>) -> Seq<A> {
    match value {
        Some(value) => seq![value],
        None => Seq::empty(),
    }
}

/// The hosts of the certificates.
pub open spec fn tls_hosts(rows: Seq<IngressTlsView>) -> Seq<Seq<char>> {
    rows.flat_map(|row: IngressTlsView| elements(row.hosts))
}

/// The hosts of the rules.
pub open spec fn rule_hosts(rules: Seq<IngressRuleView>) -> Seq<Seq<char>> {
    rules.flat_map(|rule: IngressRuleView| element(rule.host))
}

/// The hosts that an ingress names: those of its certificates, then those of its rules.
pub open spec fn spec_hosts(spec: IngressSpecView) -> Seq<Seq<char>> {
    tls_hosts(elements(spec.tls)) + rule_hosts(elements(spec.rules))
}

/// The hosts that an ingress brings to a gateway.
pub open spec fn ingress_hosts(gateway: Seq<char>, ingress: IngressView) -> Seq<Seq<char>> {
    if serves(gateway, ingress) {
        spec_hosts(ingress.spec->0)
    } else {
        Seq::empty()
    }
}

/// The hosts that the ingresses bring to a gateway, repetitions included.
pub open spec fn hosts(gateway: Seq<char>, ingresses: Seq<IngressView>) -> Seq<Seq<char>> {
    ingresses.flat_map(|ingress: IngressView| ingress_hosts(gateway, ingress))
}

/// The host name of a service.
pub open spec fn service_domain(
    service: Seq<char>,
    namespace: Seq<char>,
    cluster_domain: Seq<char>,
) -> Seq<char> {
    service + "."@ + namespace + "."@ + cluster_domain
}

/// The location of a path, where a service serves it.
pub open spec fn path_locations(
    path: HttpIngressPathView,
    namespace: Option<Seq<char>>,
    cluster_domain: Seq<char>,
) -> Seq<LocationView> {
    match path.backend.service {
        Some(service) => seq![
            LocationView {
                path: path.path->0,
                domain: service_domain(service.name, namespace->0, cluster_domain),
                port: service.port->0.number->0,
            },
        ],
        None => Seq::empty(),
    }
}

/// The paths of a rule.
pub open spec fn rule_paths(rule: IngressRuleView) -> Seq<HttpIngressPathView> {
    match rule.http {
        Some(http) => http.paths,
        None => Seq::empty(),
    }
}

/// The locations of paths.
pub open spec fn paths_locations(
    paths: Seq<HttpIngressPathView>,
    namespace: Option<Seq<char>>,
    cluster_domain: Seq<char>,
) -> Seq<LocationView> {
    paths.flat_map(
        |path: HttpIngressPathView| path_locations(path, namespace, cluster_domain),
    )
}

/// The locations of rules.
pub open spec fn rules_locations(
    rules: Seq<IngressRuleView>,
    namespace: Option<Seq<char>>,
    cluster_domain: Seq<char>,
) -> Seq<LocationView> {
    rules.flat_map(
        |rule: IngressRuleView| paths_locations(rule_paths(rule), namespace, cluster_domain),
    )
}

/// The locations that an ingress brings to a gateway.
pub open spec fn ingress_locations(
    gateway: Seq<char>,
    cluster_domain: Seq<char>,
    ingress: IngressView,
) -> Seq<LocationView> {
    if serves(gateway, ingress) {
        rules_locations(elements(ingress.spec->0.rules), ingress.namespace, cluster_domain)
    } else {
        Seq::empty()
    }
}

/// The locations that the ingresses bring to a gateway.
pub open spec fn locations(
    gateway: Seq<char>,
    cluster_domain: Seq<char>,
    ingresses: Seq<IngressView>,
) -> Seq<LocationView> {
    ingresses.flat_map(
        |ingress: IngressView| ingress_locations(gateway, cluster_domain, ingress),
    )
}

/// `more` appended to `names`, each element that is not there yet.
pub open spec fn extend_distinct(names: Seq<Seq<char>>, more: Seq<Seq<char>>) -> Seq<Seq<char>>
    decreases more.len(),
{
    if more.len() == 0 {
        names
    } else {
        let extended = extend_distinct(names, more.drop_last());
        if extended.contains(more.last()) {
            extended
        } else {
            extended.push(more.last())
        }
    }
}

/// The first occurrence of every element.
pub open spec fn distinct(names: Seq<Seq<char>>) -> Seq<Seq<char>> {
    extend_distinct(Seq::empty(), names)
}

/// What a gateway's proxy is configured from, given the ingresses of the cluster.
pub open spec fn routes(
    gateway: Seq<char>,
    cluster_domain: Seq<char>,
    ingresses: Seq<IngressView>,
) -> InrushGatewayMetadataView {
    InrushGatewayMetadataView {
        locations: locations(gateway, cluster_domain, ingresses),
        server_names: distinct(hosts(gateway, ingresses)),
    }
}

/// Everything is there that the location of the path is made from.
pub open spec fn path_complete(path: HttpIngressPathView, namespace: Option<Seq<char>>) -> bool {
    path.backend.service matches Some(service) ==> {
        &&& path.path is Some
        &&& namespace is Some
        &&& service.port matches Some(port) && port.number is Some
    }
}

/// Everything is there that the locations of the rule are made from.
pub open spec fn rule_complete(rule: IngressRuleView, namespace: Option<Seq<char>>) -> bool {
    forall|i: int|
        0 <= i < rule_paths(rule).len() ==> path_complete(
            #[trigger] rule_paths(rule)[i],
            namespace,
        )
}

/// Everything is there that the locations of the rules are made from.
pub open spec fn rules_complete(
    rules: Seq<IngressRuleView>,
    namespace: Option<Seq<char>>,
) -> bool {
    forall|i: int| 0 <= i < rules.len() ==> rule_complete(#[trigger] rules[i], namespace)
}

/// Everything is there that the ingress's locations are made from, if the gateway serves it.
pub open spec fn ingress_complete(gateway: Seq<char>, ingress: IngressView) -> bool {
    serves(gateway, ingress) ==> rules_complete(
        elements(ingress.spec->0.rules),
        ingress.namespace,
    )
}

/// Everything is there that the gateway's locations are made from.
///
/// A path that a service serves needs the path itself, the number of the service's port and the
/// namespace of its ingress.
pub open spec fn complete(gateway: Seq<char>, ingresses: Seq<IngressView>) -> bool {
    forall|i: int|
        0 <= i < ingresses.len() ==> ingress_complete(gateway, #[trigger] ingresses[i])
}

/// Extending by one more is extending, then adding the one.
proof fn lemma_extend_distinct_push(names: Seq<Seq<char>>, more: Seq<Seq<char>>, name: Seq<char>)
    ensures
        extend_distinct(names, more.push(name)) == extend_distinct(
            extend_distinct(names, more),
            seq![name],
        ),
{
    assert(more.push(name).drop_last() =~= more);
    assert(seq![name].drop_last() =~= Seq::<Seq<char>>::empty());
    assert(extend_distinct(extend_distinct(names, more), Seq::empty()) == extend_distinct(
        names,
        more,
    ));
}

/// Extending twice is extending by both.
pub(crate) proof fn lemma_extend_distinct_add(
    names: Seq<Seq<char>>,
    first: Seq<Seq<char>>,
    second: Seq<Seq<char>>,
)
    ensures
        extend_distinct(extend_distinct(names, first), second) == extend_distinct(
            names,
            first + second,
        ),
    decreases second.len(),
{
    if second.len() == 0 {
        assert(first + second =~= first);
    } else {
        lemma_extend_distinct_add(names, first, second.drop_last());
        assert((first + second).drop_last() =~= first + second.drop_last());
    }
}

/// Appends `host` unless it is there.
fn add_host(names: &mut Vec<String>, host: &String)
    ensures
        final(names).deep_view() == extend_distinct(old(names).deep_view(), seq![host@]),
{
    let ghost before = names.deep_view();
    proof {
        assert(seq![host@].drop_last() =~= Seq::<Seq<char>>::empty());
        assert(extend_distinct(before, Seq::empty()) == before);
    }
    let mut i: usize = 0;
    while i < names.len()
        invariant
            i <= names.len(),
            names.deep_view() == before,
            forall|j: int| 0 <= j < i ==> #[trigger] before[j] != host@,
            extend_distinct(before, seq![host@]) == (if before.contains(host@) {
                before
            } else {
                before.push(host@)
            }),
        decreases names.len() - i,
    {
        if names[i] == *host {
            assert(before[i as int] == host@);
            return;
        }
        i += 1;
    }
    names.push(host.clone());
    assert(names.deep_view() =~= before.push(host@));
}

/// Appends the hosts that are not there yet.
fn add_hosts(names: &mut Vec<String>, hosts: &Vec<String>)
    ensures
        final(names).deep_view() == extend_distinct(old(names).deep_view(), hosts.deep_view()),
{
    let ghost before = names.deep_view();
    let ghost all = hosts.deep_view();
    let mut i: usize = 0;
    assert(all.take(0) =~= Seq::<Seq<char>>::empty());
    while i < hosts.len()
        invariant
            i <= hosts.len(),
            all == hosts.deep_view(),
            names.deep_view() == extend_distinct(before, all.take(i as int)),
        decreases hosts.len() - i,
    {
        add_host(names, &hosts[i]);
        proof {
            lemma_extend_distinct_push(before, all.take(i as int), all[i as int]);
            assert(all.take(i + 1) =~= all.take(i as int).push(all[i as int]));
        }
        i += 1;
    }
    assert(all.take(i as int) =~= all);
}

/// Appends the hosts of the certificates that are not there yet.
fn add_tls_hosts(names: &mut Vec<String>, tls: &Vec<IngressTls>)
    ensures
        final(names).deep_view() == extend_distinct(
            old(names).deep_view(),
            tls_hosts(tls.deep_view()),
        ),
{
    let ghost before = names.deep_view();
    let ghost all = tls.deep_view();
    let mut i: usize = 0;
    assert(all.take(0) =~= Seq::<IngressTlsView>::empty());
    while i < tls.len()
        invariant
            i <= tls.len(),
            all == tls.deep_view(),
            names.deep_view() == extend_distinct(before, tls_hosts(all.take(i as int))),
        decreases tls.len() - i,
    {
        let row = &tls[i];
        proof {
            all.lemma_flat_map_take_append(|row: IngressTlsView| elements(row.hosts), i as int);
        }
        assert(tls_hosts(all.take(i + 1)) == tls_hosts(all.take(i as int)) + elements(
            all[i as int].hosts,
        ));
        proof {
            lemma_extend_distinct_add(
                before,
                tls_hosts(all.take(i as int)),
                elements(all[i as int].hosts),
            );
        }
        if let Some(hosts) = &row.hosts {
            add_hosts(names, hosts);
        }
        i += 1;
    }
    assert(all.take(i as int) =~= all);
}

/// The host name of a service.
fn make_service_domain(service: &String, namespace: &String, cluster_domain: &String) -> (result:
    String)
    ensures
        result@ == service_domain(service@, namespace@, cluster_domain@),
{
    service.clone().concat(".").concat(namespace.as_str()).concat(".").concat(
        cluster_domain.as_str(),
    )
}

/// Appends the locations of the paths.
fn add_paths(
    locations: &mut Vec<Location>,
    paths: &Vec<HttpIngressPath>,
    namespace: &Option<String>,
    cluster_domain: &String,
)
    requires
        forall|i: int|
            0 <= i < paths.deep_view().len() ==> path_complete(
                #[trigger] paths.deep_view()[i],
                namespace.deep_view(),
            ),
    ensures
        final(locations).deep_view() == old(locations).deep_view() + paths_locations(
            paths.deep_view(),
            namespace.deep_view(),
            cluster_domain@,
        ),
{
    let ghost before = locations.deep_view();
    let ghost all = paths.deep_view();
    let ghost space = namespace.deep_view();
    let mut i: usize = 0;
    assert(all.take(0) =~= Seq::<HttpIngressPathView>::empty());
    assert(before + paths_locations(all.take(0), space, cluster_domain@) =~= before);
    while i < paths.len()
        invariant
            i <= paths.len(),
            all == paths.deep_view(),
            space == namespace.deep_view(),
            forall|j: int| 0 <= j < all.len() ==> path_complete(#[trigger] all[j], space),
            locations.deep_view() == before + paths_locations(
                all.take(i as int),
                space,
                cluster_domain@,
            ),
        decreases paths.len() - i,
    {
        let path = &paths[i];
        let ghost now = locations.deep_view();
        assert(path_complete(all[i as int], space));
        proof {
            all.lemma_flat_map_take_append(
                |path: HttpIngressPathView| path_locations(path, space, cluster_domain@),
                i as int,
            );
        }
        assert(paths_locations(all.take(i + 1), space, cluster_domain@) == paths_locations(
            all.take(i as int),
            space,
            cluster_domain@,
        ) + path_locations(all[i as int], space, cluster_domain@));
        if let Some(service) = &path.backend.service {
            let location = Location {
                path: path.path.as_ref().unwrap().clone(),
                domain: make_service_domain(
                    &service.name,
                    namespace.as_ref().unwrap(),
                    cluster_domain,
                ),
                port: service.port.as_ref().unwrap().number.unwrap(),
            };
            locations.push(location);
            assert(locations.deep_view() =~= now.push(location.deep_view()));
        }
        assert(locations.deep_view() =~= now + path_locations(
            all[i as int],
            space,
            cluster_domain@,
        ));
        i += 1;
    }
    assert(all.take(i as int) =~= all);
}

/// Appends the hosts of the rules that are not there yet, and the locations of the rules.
fn add_rules(
    metadata: &mut InrushGatewayMetadata,
    rules: &Vec<IngressRule>,
    namespace: &Option<String>,
    cluster_domain: &String,
)
    requires
        rules_complete(rules.deep_view(), namespace.deep_view()),
    ensures
        final(metadata).server_names.deep_view() == extend_distinct(
            old(metadata).server_names.deep_view(),
            rule_hosts(rules.deep_view()),
        ),
        final(metadata).locations.deep_view() == old(metadata).locations.deep_view()
            + rules_locations(rules.deep_view(), namespace.deep_view(), cluster_domain@),
{
    let ghost names = metadata.server_names.deep_view();
    let ghost placed = metadata.locations.deep_view();
    let ghost all = rules.deep_view();
    let ghost space = namespace.deep_view();
    let mut i: usize = 0;
    assert(all.take(0) =~= Seq::<IngressRuleView>::empty());
    assert(placed + rules_locations(all.take(0), space, cluster_domain@) =~= placed);
    while i < rules.len()
        invariant
            i <= rules.len(),
            all == rules.deep_view(),
            space == namespace.deep_view(),
            rules_complete(all, space),
            metadata.server_names.deep_view() == extend_distinct(
                names,
                rule_hosts(all.take(i as int)),
            ),
            metadata.locations.deep_view() == placed + rules_locations(
                all.take(i as int),
                space,
                cluster_domain@,
            ),
        decreases rules.len() - i,
    {
        let rule = &rules[i];
        let ghost rule_view = all[i as int];
        assert(rule_complete(rule_view, space));
        proof {
            all.lemma_flat_map_take_append(
                |rule: IngressRuleView| element(rule.host),
                i as int,
            );
            all.lemma_flat_map_take_append(
                |rule: IngressRuleView| paths_locations(rule_paths(rule), space, cluster_domain@),
                i as int,
            );
        }
        assert(rule_hosts(all.take(i + 1)) == rule_hosts(all.take(i as int)) + element(
            rule_view.host,
        ));
        assert(rules_locations(all.take(i + 1), space, cluster_domain@) == rules_locations(
            all.take(i as int),
            space,
            cluster_domain@,
        ) + paths_locations(rule_paths(rule_view), space, cluster_domain@));
        proof {
            lemma_extend_distinct_add(
                names,
                rule_hosts(all.take(i as int)),
                element(rule_view.host),
            );
        }
        if let Some(host) = &rule.host {
            add_host(&mut metadata.server_names, host);
        }
        let ghost now = metadata.locations.deep_view();
        if let Some(http) = &rule.http {
            add_paths(&mut metadata.locations, &http.paths, namespace, cluster_domain);
        }
        assert(metadata.locations.deep_view() =~= now + paths_locations(
            rule_paths(rule_view),
            space,
            cluster_domain@,
        ));
        i += 1;
    }
    assert(all.take(i as int) =~= all);
}

/// Whether the gateway serves an ingress with this specification.
fn is_served(gateway: &String, spec: &IngressSpec) -> (result: bool)
    ensures
        result == (spec.ingress_class_name.deep_view() == Some(gateway@)
            && spec.default_backend is None),
{
    match &spec.ingress_class_name {
        Some(class) => *class == *gateway && spec.default_backend.is_none(),
        None => false,
    }
}

/// Whether the gateway leaves the ingress out for its default backend.
pub fn is_turned_away(gateway: &String, ingress: &Ingress) -> (result: bool)
    ensures
        result == turns_away(gateway@, ingress.deep_view()),
{
    match &ingress.spec {
        Some(spec) => match &spec.ingress_class_name {
            Some(class) => *class == *gateway && spec.default_backend.is_some(),
            None => false,
        },
        None => false,
    }
}

/// Gathers what the gateway's proxy is configured from: the locations of the paths that services
/// serve, and every host once, in the order in which the ingresses name them.
pub fn collect_routes(
    gateway: &String,
    cluster_domain: &String,
    ingresses: &Vec<Ingress>,
) -> (result: InrushGatewayMetadata)
    requires
        complete(gateway@, ingresses.deep_view()),
    ensures
        result.deep_view() == routes(gateway@, cluster_domain@, ingresses.deep_view()),
{
    let ghost all = ingresses.deep_view();
    let mut result = InrushGatewayMetadata { locations: Vec::new(), server_names: Vec::new() };
    let mut i: usize = 0;
    assert(all.take(0) =~= Seq::<IngressView>::empty());
    assert(result.locations.deep_view() =~= Seq::<LocationView>::empty());
    assert(result.server_names.deep_view() =~= Seq::<Seq<char>>::empty());
    while i < ingresses.len()
        invariant
            i <= ingresses.len(),
            all == ingresses.deep_view(),
            complete(gateway@, all),
            result.deep_view() == routes(gateway@, cluster_domain@, all.take(i as int)),
        decreases ingresses.len() - i,
    {
        let ingress = &ingresses[i];
        let ghost view = all[i as int];
        let ghost names = result.server_names.deep_view();
        let ghost placed = result.locations.deep_view();
        let ghost done = hosts(gateway@, all.take(i as int));
        assert(ingress_complete(gateway@, view));
        proof {
            all.lemma_flat_map_take_append(
                |ingress: IngressView| ingress_hosts(gateway@, ingress),
                i as int,
            );
            all.lemma_flat_map_take_append(
                |ingress: IngressView| ingress_locations(gateway@, cluster_domain@, ingress),
                i as int,
            );
        }
        assert(hosts(gateway@, all.take(i + 1)) == done + ingress_hosts(gateway@, view));
        assert(locations(gateway@, cluster_domain@, all.take(i + 1)) == placed
            + ingress_locations(gateway@, cluster_domain@, view));
        proof {
            lemma_extend_distinct_add(Seq::empty(), done, ingress_hosts(gateway@, view));
        }
        if let Some(spec) = &ingress.spec {
            if is_served(gateway, spec) {
                let ghost spec_view = spec.deep_view();
                proof {
                    lemma_extend_distinct_add(
                        names,
                        tls_hosts(elements(spec_view.tls)),
                        rule_hosts(elements(spec_view.rules)),
                    );
                    assert(tls_hosts(Seq::empty()) =~= Seq::empty());
                    assert(rule_hosts(Seq::empty()) =~= Seq::empty());
                    assert(rules_locations(Seq::empty(), view.namespace, cluster_domain@)
                        =~= Seq::empty());
                }
                if let Some(tls) = &spec.tls {
                    add_tls_hosts(&mut result.server_names, tls);
                }
                if let Some(rules) = &spec.rules {
                    add_rules(&mut result, rules, &ingress.namespace, cluster_domain);
                }
            }
        }
        assert(result.locations.deep_view() =~= placed + ingress_locations(
            gateway@,
            cluster_domain@,
            view,
        ));
        i += 1;
    }
    assert(all.take(i as int) =~= all);
    result
}

/// Whether everything is there that the locations of the paths are made from.
fn are_paths_complete(paths: &Vec<HttpIngressPath>, namespace: &Option<String>) -> (result: bool)
    ensures
        result == forall|i: int|
            0 <= i < paths.deep_view().len() ==> path_complete(
                #[trigger] paths.deep_view()[i],
                namespace.deep_view(),
            ),
{
    let ghost all = paths.deep_view();
    let ghost space = namespace.deep_view();
    let mut i: usize = 0;
    while i < paths.len()
        invariant
            i <= paths.len(),
            all == paths.deep_view(),
            space == namespace.deep_view(),
            forall|j: int| 0 <= j < i ==> path_complete(#[trigger] all[j], space),
        decreases paths.len() - i,
    {
        let path = &paths[i];
        if let Some(service) = &path.backend.service {
            let has_port = match &service.port {
                Some(port) => port.number.is_some(),
                None => false,
            };
            if path.path.is_none() || namespace.is_none() || !has_port {
                assert(!path_complete(all[i as int], space));
                return false;
            }
        }
        i += 1;
    }
    true
}

/// Whether everything is there that the locations of the rules are made from.
fn are_rules_complete(rules: &Vec<IngressRule>, namespace: &Option<String>) -> (result: bool)
    ensures
        result == rules_complete(rules.deep_view(), namespace.deep_view()),
{
    let ghost all = rules.deep_view();
    let ghost space = namespace.deep_view();
    let mut i: usize = 0;
    while i < rules.len()
        invariant
            i <= rules.len(),
            all == rules.deep_view(),
            space == namespace.deep_view(),
            forall|j: int| 0 <= j < i ==> rule_complete(#[trigger] all[j], space),
        decreases rules.len() - i,
    {
        let rule = &rules[i];
        if let Some(http) = &rule.http {
            assert(rule_paths(all[i as int]) == http.paths.deep_view());
            if !are_paths_complete(&http.paths, namespace) {
                assert(!rule_complete(all[i as int], space));
                return false;
            }
        }
        assert(rule_complete(all[i as int], space));
        i += 1;
    }
    true
}

/// Whether everything is there that the gateway's locations are made from; where it is not,
/// [`collect_routes`] has no answer.
pub fn routes_complete(gateway: &String, ingresses: &Vec<Ingress>) -> (result: bool)
    ensures
        result == complete(gateway@, ingresses.deep_view()),
{
    let ghost all = ingresses.deep_view();
    let mut i: usize = 0;
    while i < ingresses.len()
        invariant
            i <= ingresses.len(),
            all == ingresses.deep_view(),
            forall|j: int| 0 <= j < i ==> ingress_complete(gateway@, #[trigger] all[j]),
        decreases ingresses.len() - i,
    {
        let ingress = &ingresses[i];
        if let Some(spec) = &ingress.spec {
            if is_served(gateway, spec) {
                if let Some(rules) = &spec.rules {
                    if !are_rules_complete(rules, &ingress.namespace) {
                        assert(!ingress_complete(gateway@, all[i as int]));
                        return false;
                    }
                }
            }
        }
        assert(ingress_complete(gateway@, all[i as int]));
        i += 1;
    }
    true
}

/// The gateway that an ingress concerns.
#[derive(Debug, PartialEq, Eq)]
pub struct GatewayRef {
    pub name: String,
    pub namespace: String,
}

/// The view of a [`GatewayRef`].
pub struct GatewayRefView {
    pub name: Seq<char>,
    pub namespace: Seq<char>,
}

impl DeepView for GatewayRef {
    type V = GatewayRefView;

    open spec fn deep_view(&self) -> GatewayRefView {
        GatewayRefView { name: self.name@, namespace: self.namespace@ }
    }
}

/// The gateway that has to be looked at again when an ingress changes: the one that is named as
/// the ingress's class, in the ingress's own namespace.
pub open spec fn concerned_gateway(ingress: IngressView) -> Option<GatewayRefView> {
    match ingress_class(ingress) {
        Some(class) => Some(GatewayRefView { name: class, namespace: ingress.namespace->0 }),
        None => None,
    }
}

/// The gateway that has to be looked at again when the ingress changes.
pub fn gateway_of(ingress: &Ingress) -> (result: Option<GatewayRef>)
    requires
        ingress_class(ingress.deep_view()) is Some ==> ingress.namespace is Some,
    ensures
        result.deep_view() == concerned_gateway(ingress.deep_view()),
{
    match &ingress.spec {
        Some(spec) => match &spec.ingress_class_name {
            Some(class) => Some(
                GatewayRef {
                    name: class.clone(),
                    namespace: ingress.namespace.as_ref().unwrap().clone(),
                },
            ),
            None => None,
        },
        None => None,
    }
}

} // verus!
