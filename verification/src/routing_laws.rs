use crate::ingress::{
    HttpIngressPathView, HttpIngressRuleValueView, IngressRuleView, IngressSpecView,
    IngressTlsView, IngressView,
};
use crate::routes::{
    complete, concerned_gateway, distinct, element, elements, extend_distinct, hosts,
    ingress_complete, ingress_hosts, ingress_locations, locations, path_complete, path_locations,
    paths_locations, routes, rule_complete, rule_hosts, rule_paths, rules_complete,
    rules_locations, serves, tls_hosts, turns_away, LocationView,
};
use crate::routes_laws::{
    lemma_extend_distinct, lemma_flat_map_add, lemma_flat_map_contains,
    unserved_ingress_changes_nothing,
};
use vstd::prelude::*;

verus! {

/// A gateway serves exactly the ingresses that name it as their class and set no default backend,
/// of whatever kind.
pub proof fn served_by_class_without_default_backend(gateway: Seq<char>, ingress: IngressView)
    ensures
        serves(gateway, ingress) <==> {
            &&& ingress.spec is Some
            &&& ingress.spec->0.ingress_class_name is Some
            &&& ingress.spec->0.ingress_class_name->0 == gateway
            &&& ingress.spec->0.default_backend is None
        },
{
}

/// A gateway turns away exactly the ingresses that name it as their class and set a default
/// backend, of whatever kind.
pub proof fn turned_away_by_default_backend(gateway: Seq<char>, ingress: IngressView)
    ensures
        turns_away(gateway, ingress) <==> {
            &&& ingress.spec is Some
            &&& ingress.spec->0.ingress_class_name is Some
            &&& ingress.spec->0.ingress_class_name->0 == gateway
            &&& ingress.spec->0.default_backend is Some
        },
{
}

/// An ingress without a specification, without a class, of another class, or with a default
/// backend of whatever kind brings nothing, wherever it stands.
pub proof fn unserved_ingress_brings_nothing(
    gateway: Seq<char>,
    cluster_domain: Seq<char>,
    before: Seq<IngressView>,
    ingress: IngressView,
    after: Seq<IngressView>,
)
    requires
        ingress.spec matches Some(spec) ==> {
            ||| spec.default_backend is Some
            ||| spec.ingress_class_name is None
            ||| spec.ingress_class_name->0 != gateway
        },
    ensures
        routes(gateway, cluster_domain, before + seq![ingress] + after) == routes(
            gateway,
            cluster_domain,
            before + after,
        ),
{
    unserved_ingress_changes_nothing(gateway, cluster_domain, before, ingress, after);
    assert(before + seq![ingress] + after =~= before.push(ingress) + after);
}

/// Every location is that of a path with a service behind it, in a rule of an ingress that names
/// the gateway as its class and sets no default backend. The location has the path's path and the
/// number of the service's port; its domain is the service's name, the ingress's own namespace and
/// the cluster domain that was handed in, with a dot between each two.
pub proof fn every_location_has_its_path(
    gateway: Seq<char>,
    cluster_domain: Seq<char>,
    ingresses: Seq<IngressView>,
    k: int,
)
    requires
        0 <= k < routes(gateway, cluster_domain, ingresses).locations.len(),
    ensures
        exists|i: int, r: int, p: int|
            {
                let location = routes(gateway, cluster_domain, ingresses).locations[k];
                let ingress = ingresses[i];
                let rule = ingress.spec->0.rules->0[r];
                let path = #[trigger] ingresses[i].spec->0.rules->0[r].http->0.paths[p];
                let service = path.backend.service->0;
                &&& 0 <= i < ingresses.len()
                &&& ingress.spec is Some
                &&& ingress.spec->0.ingress_class_name == Some(gateway)
                &&& ingress.spec->0.default_backend is None
                &&& ingress.spec->0.rules is Some
                &&& 0 <= r < ingress.spec->0.rules->0.len()
                &&& rule.http is Some
                &&& 0 <= p < rule.http->0.paths.len()
                &&& path.backend.service is Some
                &&& location.path == path.path->0
                &&& location.domain == service.name + seq!['.'] + ingress.namespace->0 + seq!['.']
                    + cluster_domain
                &&& location.port == service.port->0.number->0
            },
{
    let location = routes(gateway, cluster_domain, ingresses).locations[k];
    let g = |ingress: IngressView| ingress_locations(gateway, cluster_domain, ingress);
    lemma_flat_map_contains(ingresses, g, location);
    assert(routes(gateway, cluster_domain, ingresses).locations.contains(location));
    let i = choose|i: int|
        0 <= i < ingresses.len() && g(#[trigger] ingresses[i]).contains(location);
    let ingress = ingresses[i];
    let rules = elements(ingress.spec->0.rules);
    let h = |rule: IngressRuleView|
        paths_locations(rule_paths(rule), ingress.namespace, cluster_domain);
    assert(serves(gateway, ingress));
    lemma_flat_map_contains(rules, h, location);
    let r = choose|r: int| 0 <= r < rules.len() && h(#[trigger] rules[r]).contains(location);
    let paths = rule_paths(rules[r]);
    let q = |path: HttpIngressPathView| path_locations(path, ingress.namespace, cluster_domain);
    lemma_flat_map_contains(paths, q, location);
    let p = choose|p: int| 0 <= p < paths.len() && q(#[trigger] paths[p]).contains(location);
    let path = ingresses[i].spec->0.rules->0[r].http->0.paths[p];
    assert(path == paths[p]);
    assert(path_locations(path, ingress.namespace, cluster_domain).contains(location));
    reveal_strlit(".");
    assert("."@ =~= seq!['.']);
}

/// Every path with a service behind it, in a rule of an ingress that names the gateway as its class
/// and sets no default backend, has its location.
pub proof fn every_served_path_has_its_location(
    gateway: Seq<char>,
    cluster_domain: Seq<char>,
    ingresses: Seq<IngressView>,
    i: int,
    r: int,
    p: int,
)
    requires
        0 <= i < ingresses.len(),
        ingresses[i].spec is Some,
        ingresses[i].spec->0.ingress_class_name == Some(gateway),
        ingresses[i].spec->0.default_backend is None,
        ingresses[i].spec->0.rules is Some,
        0 <= r < ingresses[i].spec->0.rules->0.len(),
        ingresses[i].spec->0.rules->0[r].http is Some,
        0 <= p < ingresses[i].spec->0.rules->0[r].http->0.paths.len(),
        ingresses[i].spec->0.rules->0[r].http->0.paths[p].backend.service is Some,
    ensures
        ({
            let path = ingresses[i].spec->0.rules->0[r].http->0.paths[p];
            let service = path.backend.service->0;
            routes(gateway, cluster_domain, ingresses).locations.contains(
                LocationView {
                    path: path.path->0,
                    domain: service.name + seq!['.'] + ingresses[i].namespace->0 + seq!['.']
                        + cluster_domain,
                    port: service.port->0.number->0,
                },
            )
        }),
{
    let ingress = ingresses[i];
    let rules = ingress.spec->0.rules->0;
    let paths = rules[r].http->0.paths;
    let service = paths[p].backend.service->0;
    let location = LocationView {
        path: paths[p].path->0,
        domain: service.name + seq!['.'] + ingress.namespace->0 + seq!['.'] + cluster_domain,
        port: service.port->0.number->0,
    };
    reveal_strlit(".");
    assert("."@ =~= seq!['.']);
    let g = |ingress: IngressView| ingress_locations(gateway, cluster_domain, ingress);
    let h = |rule: IngressRuleView|
        paths_locations(rule_paths(rule), ingress.namespace, cluster_domain);
    let q = |path: HttpIngressPathView| path_locations(path, ingress.namespace, cluster_domain);
    assert(q(paths[p])[0] == location);
    assert(q(paths[p]).contains(location));
    lemma_flat_map_contains(paths, q, location);
    assert(h(rules[r]).contains(location));
    lemma_flat_map_contains(rules, h, location);
    assert(g(ingresses[i]).contains(location));
    lemma_flat_map_contains(ingresses, g, location);
}

/// Where each element brings the same, changed in one way, all of them do.
proof fn lemma_flat_map_changed<A, B>(
    s: Seq<A>,
    f: spec_fn(A) -> Seq<B>,
    g: spec_fn(A) -> Seq<B>,
    h: spec_fn(B) -> B,
)
    requires
        forall|a: A| #[trigger] g(a) == f(a).map_values(h),
    ensures
        s.flat_map(g) == s.flat_map(f).map_values(h),
    decreases s.len(),
{
    if s.len() == 0 {
        assert(s.flat_map(g) =~= s.flat_map(f).map_values(h));
    } else {
        let rest = s.drop_last();
        lemma_flat_map_changed(rest, f, g, h);
        rest.lemma_flat_map_push(f, s.last());
        rest.lemma_flat_map_push(g, s.last());
        assert(rest.push(s.last()) =~= s);
        assert(g(s.last()) == f(s.last()).map_values(h));
        assert(s.flat_map(g) =~= s.flat_map(f).map_values(h));
    }
}

/// The cluster domain is what every location's domain ends in and plays no other part: with a
/// cluster domain the locations are those with none, with it behind each domain. So two cluster
/// domains give the same domain only where they are the same, and the server names stay.
pub proof fn cluster_domain_ends_every_domain(
    gateway: Seq<char>,
    cluster_domain: Seq<char>,
    ingresses: Seq<IngressView>,
)
    ensures
        ({
            let with = routes(gateway, cluster_domain, ingresses);
            let without = routes(gateway, Seq::empty(), ingresses);
            &&& with.server_names == without.server_names
            &&& with.locations.len() == without.locations.len()
            &&& forall|k: int|
                0 <= k < with.locations.len() ==> {
                    &&& (#[trigger] with.locations[k]).path == without.locations[k].path
                    &&& with.locations[k].port == without.locations[k].port
                    &&& with.locations[k].domain == without.locations[k].domain + cluster_domain
                }
        }),
{
    let none = Seq::<char>::empty();
    let h = |location: LocationView|
        LocationView { domain: location.domain + cluster_domain, ..location };
    assert forall|path: HttpIngressPathView, namespace: Option<Seq<char>>| #[trigger]
        path_locations(path, namespace, cluster_domain) == path_locations(
            path,
            namespace,
            none,
        ).map_values(h) by {
        if let Some(service) = path.backend.service {
            let start = service.name + "."@ + namespace->0 + "."@;
            assert(start + none + cluster_domain =~= start + cluster_domain);
        }
        assert(path_locations(path, namespace, cluster_domain) =~= path_locations(
            path,
            namespace,
            none,
        ).map_values(h));
    }
    assert forall|paths: Seq<HttpIngressPathView>, namespace: Option<Seq<char>>| #[trigger]
        paths_locations(paths, namespace, cluster_domain) == paths_locations(
            paths,
            namespace,
            none,
        ).map_values(h) by {
        lemma_flat_map_changed(
            paths,
            |path: HttpIngressPathView| path_locations(path, namespace, none),
            |path: HttpIngressPathView| path_locations(path, namespace, cluster_domain),
            h,
        );
    }
    assert forall|rules: Seq<IngressRuleView>, namespace: Option<Seq<char>>| #[trigger]
        rules_locations(rules, namespace, cluster_domain) == rules_locations(
            rules,
            namespace,
            none,
        ).map_values(h) by {
        lemma_flat_map_changed(
            rules,
            |rule: IngressRuleView| paths_locations(rule_paths(rule), namespace, none),
            |rule: IngressRuleView| paths_locations(rule_paths(rule), namespace, cluster_domain),
            h,
        );
    }
    assert forall|ingress: IngressView| #[trigger]
        ingress_locations(gateway, cluster_domain, ingress) == ingress_locations(
            gateway,
            none,
            ingress,
        ).map_values(h) by {
        assert(ingress_locations(gateway, cluster_domain, ingress) =~= ingress_locations(
            gateway,
            none,
            ingress,
        ).map_values(h));
    }
    lemma_flat_map_changed(
        ingresses,
        |ingress: IngressView| ingress_locations(gateway, none, ingress),
        |ingress: IngressView| ingress_locations(gateway, cluster_domain, ingress),
        h,
    );
}

/// Under two cluster domains a location has the same domain only where the two are the same.
pub proof fn different_cluster_domains_give_different_domains(
    gateway: Seq<char>,
    cluster_domains: (Seq<char>, Seq<char>),
    ingresses: Seq<IngressView>,
    k: int,
)
    requires
        0 <= k < routes(gateway, cluster_domains.0, ingresses).locations.len(),
    ensures
        routes(gateway, cluster_domains.1, ingresses).locations.len() == routes(
            gateway,
            cluster_domains.0,
            ingresses,
        ).locations.len(),
        routes(gateway, cluster_domains.0, ingresses).locations[k].domain == routes(
            gateway,
            cluster_domains.1,
            ingresses,
        ).locations[k].domain <==> cluster_domains.0 == cluster_domains.1,
{
    cluster_domain_ends_every_domain(gateway, cluster_domains.0, ingresses);
    cluster_domain_ends_every_domain(gateway, cluster_domains.1, ingresses);
    let start = routes(gateway, Seq::empty(), ingresses).locations[k].domain;
    let first = routes(gateway, cluster_domains.0, ingresses).locations[k].domain;
    let second = routes(gateway, cluster_domains.1, ingresses).locations[k].domain;
    assert(first.skip(start.len() as int) =~= cluster_domains.0);
    assert(second.skip(start.len() as int) =~= cluster_domains.1);
}

/// What is new in a second list, behind a first.
proof fn lemma_distinct_add(first: Seq<Seq<char>>, second: Seq<Seq<char>>)
    ensures
        distinct(first + second) == distinct(first) + distinct(second).filter(
            |name: Seq<char>| !distinct(first).contains(name),
        ),
    decreases second.len(),
{
    let is_new = |name: Seq<char>| !distinct(first).contains(name);
    let none = Seq::<Seq<char>>::empty();
    reveal(Seq::filter);
    if second.len() == 0 {
        assert(first + second =~= first);
        assert(distinct(second) =~= none);
        assert(distinct(first) + none.filter(is_new) =~= distinct(first));
    } else {
        let rest = second.drop_last();
        let name = second.last();
        lemma_distinct_add(first, rest);
        assert((first + second).drop_last() =~= first + rest);
        let front = distinct(first);
        let back = distinct(rest).filter(is_new);
        let before = front + back;
        assert(distinct(first + rest) == before);
        assert(before.contains(name) <==> front.contains(name) || distinct(rest).contains(
            name,
        )) by {
            if before.contains(name) {
                let i = choose|i: int| 0 <= i < before.len() && before[i] == name;
                if i < front.len() {
                    assert(front[i] == name);
                } else {
                    assert(back[i - front.len()] == name);
                    assert(back.contains(name));
                    distinct(rest).lemma_filter_contains_rev(is_new, name);
                }
            }
            if front.contains(name) {
                let i = choose|i: int| 0 <= i < front.len() && front[i] == name;
                assert(before[i] == name);
            } else if distinct(rest).contains(name) {
                let j = choose|j: int| 0 <= j < distinct(rest).len() && distinct(rest)[j] == name;
                distinct(rest).lemma_filter_contains(is_new, j);
                assert(back.contains(name));
                let i = choose|i: int| 0 <= i < back.len() && back[i] == name;
                assert(before[front.len() + i] == name);
            }
        }
        if !distinct(rest).contains(name) {
            assert(distinct(second) == distinct(rest).push(name));
            assert(distinct(rest).push(name).drop_last() =~= distinct(rest));
            if front.contains(name) {
                assert(distinct(second).filter(is_new) == back);
            } else {
                assert(distinct(second).filter(is_new) == back.push(name));
                assert(front + back.push(name) =~= before.push(name));
            }
        }
    }
}

/// Two lists of ingresses in a row bring the locations of the first, then those of the second, and
/// the server names of the first, then those of the second that are new.
pub proof fn routes_of_two_lists(
    gateway: Seq<char>,
    cluster_domain: Seq<char>,
    first: Seq<IngressView>,
    second: Seq<IngressView>,
)
    ensures
        ({
            let one = routes(gateway, cluster_domain, first);
            let two = routes(gateway, cluster_domain, second);
            let both = routes(gateway, cluster_domain, first + second);
            &&& both.locations == one.locations + two.locations
            &&& both.server_names == one.server_names + two.server_names.filter(
                |name: Seq<char>| !one.server_names.contains(name),
            )
        }),
{
    let f = |ingress: IngressView| ingress_hosts(gateway, ingress);
    let g = |ingress: IngressView| ingress_locations(gateway, cluster_domain, ingress);
    lemma_flat_map_add(first, second, f);
    lemma_flat_map_add(first, second, g);
    lemma_distinct_add(hosts(gateway, first), hosts(gateway, second));
}

proof fn lemma_one(gateway: Seq<char>, cluster_domain: Seq<char>, ingress: IngressView)
    ensures
        hosts(gateway, seq![ingress]) == ingress_hosts(gateway, ingress),
        locations(gateway, cluster_domain, seq![ingress]) == ingress_locations(
            gateway,
            cluster_domain,
            ingress,
        ),
{
    let one = seq![ingress];
    one.lemma_flat_map_singleton(|ingress: IngressView| ingress_hosts(gateway, ingress));
    one.lemma_flat_map_singleton(
        |ingress: IngressView| ingress_locations(gateway, cluster_domain, ingress),
    );
}

proof fn lemma_two(
    gateway: Seq<char>,
    cluster_domain: Seq<char>,
    first: IngressView,
    second: IngressView,
)
    ensures
        hosts(gateway, seq![first, second]) == ingress_hosts(gateway, first) + ingress_hosts(
            gateway,
            second,
        ),
        locations(gateway, cluster_domain, seq![first, second]) == ingress_locations(
            gateway,
            cluster_domain,
            first,
        ) + ingress_locations(gateway, cluster_domain, second),
{
    lemma_one(gateway, cluster_domain, first);
    lemma_one(gateway, cluster_domain, second);
    assert(seq![first] + seq![second] =~= seq![first, second]);
    lemma_flat_map_add(
        seq![first],
        seq![second],
        |ingress: IngressView| ingress_hosts(gateway, ingress),
    );
    lemma_flat_map_add(
        seq![first],
        seq![second],
        |ingress: IngressView| ingress_locations(gateway, cluster_domain, ingress),
    );
}

proof fn lemma_nothing(namespace: Option<Seq<char>>, cluster_domain: Seq<char>)
    ensures
        tls_hosts(Seq::empty()) == Seq::<Seq<char>>::empty(),
        rule_hosts(Seq::empty()) == Seq::<Seq<char>>::empty(),
        rules_locations(Seq::empty(), namespace, cluster_domain) == Seq::<LocationView>::empty(),
        paths_locations(Seq::empty(), namespace, cluster_domain) == Seq::<LocationView>::empty(),
{
    assert(tls_hosts(Seq::empty()) =~= Seq::empty());
    assert(rule_hosts(Seq::empty()) =~= Seq::empty());
    assert(rules_locations(Seq::empty(), namespace, cluster_domain) =~= Seq::empty());
    assert(paths_locations(Seq::empty(), namespace, cluster_domain) =~= Seq::empty());
}

/// An ingress brings what one with its certificates and then one with its rules would bring.
pub proof fn certificates_come_before_rules(
    gateway: Seq<char>,
    cluster_domain: Seq<char>,
    namespace: Option<Seq<char>>,
    spec: IngressSpecView,
)
    ensures
        routes(
            gateway,
            cluster_domain,
            seq![IngressView { namespace, spec: Some(spec) }],
        ) == routes(
            gateway,
            cluster_domain,
            seq![
                IngressView { namespace, spec: Some(IngressSpecView { rules: None, ..spec }) },
                IngressView { namespace, spec: Some(IngressSpecView { tls: None, ..spec }) },
            ],
        ),
{
    let whole = IngressView { namespace, spec: Some(spec) };
    let first = IngressView { namespace, spec: Some(IngressSpecView { rules: None, ..spec }) };
    let second = IngressView { namespace, spec: Some(IngressSpecView { tls: None, ..spec }) };
    lemma_one(gateway, cluster_domain, whole);
    lemma_two(gateway, cluster_domain, first, second);
    lemma_nothing(namespace, cluster_domain);
    assert(ingress_hosts(gateway, whole) =~= ingress_hosts(gateway, first) + ingress_hosts(
        gateway,
        second,
    ));
    assert(ingress_locations(gateway, cluster_domain, whole) =~= ingress_locations(
        gateway,
        cluster_domain,
        first,
    ) + ingress_locations(gateway, cluster_domain, second));
}

/// An ingress with more than one certificate or rule brings what ingresses with some of them each
/// would bring, one after the other.
pub proof fn certificates_and_rules_come_one_by_one(
    gateway: Seq<char>,
    cluster_domain: Seq<char>,
    namespace: Option<Seq<char>>,
    spec: IngressSpecView,
    tls: (Seq<IngressTlsView>, Seq<IngressTlsView>),
    rules: (Seq<IngressRuleView>, Seq<IngressRuleView>),
)
    ensures
        routes(
            gateway,
            cluster_domain,
            seq![
                IngressView {
                    namespace,
                    spec: Some(IngressSpecView { tls: Some(tls.0 + tls.1), rules: None, ..spec }),
                },
            ],
        ) == routes(
            gateway,
            cluster_domain,
            seq![
                IngressView {
                    namespace,
                    spec: Some(IngressSpecView { tls: Some(tls.0), rules: None, ..spec }),
                },
                IngressView {
                    namespace,
                    spec: Some(IngressSpecView { tls: Some(tls.1), rules: None, ..spec }),
                },
            ],
        ),
        routes(
            gateway,
            cluster_domain,
            seq![
                IngressView {
                    namespace,
                    spec: Some(
                        IngressSpecView { tls: None, rules: Some(rules.0 + rules.1), ..spec },
                    ),
                },
            ],
        ) == routes(
            gateway,
            cluster_domain,
            seq![
                IngressView {
                    namespace,
                    spec: Some(IngressSpecView { tls: None, rules: Some(rules.0), ..spec }),
                },
                IngressView {
                    namespace,
                    spec: Some(IngressSpecView { tls: None, rules: Some(rules.1), ..spec }),
                },
            ],
        ),
{
    lemma_nothing(namespace, cluster_domain);
    let a = IngressView {
        namespace,
        spec: Some(IngressSpecView { tls: Some(tls.0 + tls.1), rules: None, ..spec }),
    };
    let a1 = IngressView {
        namespace,
        spec: Some(IngressSpecView { tls: Some(tls.0), rules: None, ..spec }),
    };
    let a2 = IngressView {
        namespace,
        spec: Some(IngressSpecView { tls: Some(tls.1), rules: None, ..spec }),
    };
    lemma_one(gateway, cluster_domain, a);
    lemma_two(gateway, cluster_domain, a1, a2);
    lemma_flat_map_add(tls.0, tls.1, |row: IngressTlsView| elements(row.hosts));
    assert(ingress_hosts(gateway, a) =~= ingress_hosts(gateway, a1) + ingress_hosts(gateway, a2));
    assert(ingress_locations(gateway, cluster_domain, a) =~= ingress_locations(
        gateway,
        cluster_domain,
        a1,
    ) + ingress_locations(gateway, cluster_domain, a2));
    let b = IngressView {
        namespace,
        spec: Some(IngressSpecView { tls: None, rules: Some(rules.0 + rules.1), ..spec }),
    };
    let b1 = IngressView {
        namespace,
        spec: Some(IngressSpecView { tls: None, rules: Some(rules.0), ..spec }),
    };
    let b2 = IngressView {
        namespace,
        spec: Some(IngressSpecView { tls: None, rules: Some(rules.1), ..spec }),
    };
    lemma_one(gateway, cluster_domain, b);
    lemma_two(gateway, cluster_domain, b1, b2);
    lemma_flat_map_add(rules.0, rules.1, |rule: IngressRuleView| element(rule.host));
    lemma_flat_map_add(
        rules.0,
        rules.1,
        |rule: IngressRuleView| paths_locations(rule_paths(rule), namespace, cluster_domain),
    );
    assert(ingress_hosts(gateway, b) =~= ingress_hosts(gateway, b1) + ingress_hosts(gateway, b2));
    assert(ingress_locations(gateway, cluster_domain, b) =~= ingress_locations(
        gateway,
        cluster_domain,
        b1,
    ) + ingress_locations(gateway, cluster_domain, b2));
}

/// A certificate for many hosts brings what certificates for some of them each would bring; a rule
/// with a host and paths what a rule with the host and one with the paths would; and a rule with
/// many paths what rules with some of them each would: one after the other.
pub proof fn hosts_and_paths_come_one_by_one(
    gateway: Seq<char>,
    cluster_domain: Seq<char>,
    namespace: Option<Seq<char>>,
    spec: IngressSpecView,
    names: (Seq<Seq<char>>, Seq<Seq<char>>),
    rule: IngressRuleView,
    paths: (Seq<HttpIngressPathView>, Seq<HttpIngressPathView>),
)
    ensures
        routes(
            gateway,
            cluster_domain,
            seq![
                IngressView {
                    namespace,
                    spec: Some(
                        IngressSpecView {
                            tls: Some(seq![IngressTlsView { hosts: Some(names.0 + names.1) }]),
                            ..spec
                        },
                    ),
                },
            ],
        ) == routes(
            gateway,
            cluster_domain,
            seq![
                IngressView {
                    namespace,
                    spec: Some(
                        IngressSpecView {
                            tls: Some(
                                seq![
                                    IngressTlsView { hosts: Some(names.0) },
                                    IngressTlsView { hosts: Some(names.1) },
                                ],
                            ),
                            ..spec
                        },
                    ),
                },
            ],
        ),
        routes(
            gateway,
            cluster_domain,
            seq![
                IngressView {
                    namespace,
                    spec: Some(IngressSpecView { rules: Some(seq![rule]), ..spec }),
                },
            ],
        ) == routes(
            gateway,
            cluster_domain,
            seq![
                IngressView {
                    namespace,
                    spec: Some(
                        IngressSpecView {
                            rules: Some(
                                seq![
                                    IngressRuleView { http: None, ..rule },
                                    IngressRuleView { host: None, ..rule },
                                ],
                            ),
                            ..spec
                        },
                    ),
                },
            ],
        ),
        routes(
            gateway,
            cluster_domain,
            seq![
                IngressView {
                    namespace,
                    spec: Some(
                        IngressSpecView {
                            rules: Some(
                                seq![
                                    IngressRuleView {
                                        host: None,
                                        http: Some(
                                            HttpIngressRuleValueView { paths: paths.0 + paths.1 },
                                        ),
                                    },
                                ],
                            ),
                            ..spec
                        },
                    ),
                },
            ],
        ) == routes(
            gateway,
            cluster_domain,
            seq![
                IngressView {
                    namespace,
                    spec: Some(
                        IngressSpecView {
                            rules: Some(
                                seq![
                                    IngressRuleView {
                                        host: None,
                                        http: Some(HttpIngressRuleValueView { paths: paths.0 }),
                                    },
                                    IngressRuleView {
                                        host: None,
                                        http: Some(HttpIngressRuleValueView { paths: paths.1 }),
                                    },
                                ],
                            ),
                            ..spec
                        },
                    ),
                },
            ],
        ),
{
    lemma_nothing(namespace, cluster_domain);
    let row = IngressTlsView { hosts: Some(names.0 + names.1) };
    let row1 = IngressTlsView { hosts: Some(names.0) };
    let row2 = IngressTlsView { hosts: Some(names.1) };
    let f = |row: IngressTlsView| elements(row.hosts);
    seq![row].lemma_flat_map_singleton(f);
    seq![row1].lemma_flat_map_singleton(f);
    seq![row2].lemma_flat_map_singleton(f);
    lemma_flat_map_add(seq![row1], seq![row2], f);
    assert(seq![row1] + seq![row2] =~= seq![row1, row2]);
    assert(tls_hosts(seq![row]) == tls_hosts(seq![row1, row2]));
    let s = IngressView {
        namespace,
        spec: Some(IngressSpecView { tls: Some(seq![row]), ..spec }),
    };
    let t = IngressView {
        namespace,
        spec: Some(IngressSpecView { tls: Some(seq![row1, row2]), ..spec }),
    };
    lemma_one(gateway, cluster_domain, s);
    lemma_one(gateway, cluster_domain, t);

    let host = IngressRuleView { http: None, ..rule };
    let http = IngressRuleView { host: None, ..rule };
    lemma_two_rules(rule, host, http, namespace, cluster_domain);
    let s = IngressView {
        namespace,
        spec: Some(IngressSpecView { rules: Some(seq![rule]), ..spec }),
    };
    let t = IngressView {
        namespace,
        spec: Some(IngressSpecView { rules: Some(seq![host, http]), ..spec }),
    };
    lemma_one(gateway, cluster_domain, s);
    lemma_one(gateway, cluster_domain, t);

    let all = IngressRuleView {
        host: None,
        http: Some(HttpIngressRuleValueView { paths: paths.0 + paths.1 }),
    };
    let rule1 = IngressRuleView {
        host: None,
        http: Some(HttpIngressRuleValueView { paths: paths.0 }),
    };
    let rule2 = IngressRuleView {
        host: None,
        http: Some(HttpIngressRuleValueView { paths: paths.1 }),
    };
    lemma_flat_map_add(
        paths.0,
        paths.1,
        |path: HttpIngressPathView| path_locations(path, namespace, cluster_domain),
    );
    lemma_two_rules(all, rule1, rule2, namespace, cluster_domain);
    let s = IngressView {
        namespace,
        spec: Some(IngressSpecView { rules: Some(seq![all]), ..spec }),
    };
    let t = IngressView {
        namespace,
        spec: Some(IngressSpecView { rules: Some(seq![rule1, rule2]), ..spec }),
    };
    lemma_one(gateway, cluster_domain, s);
    lemma_one(gateway, cluster_domain, t);
}

/// A rule that brings what two others bring in a row can stand for them.
proof fn lemma_two_rules(
    whole: IngressRuleView,
    first: IngressRuleView,
    second: IngressRuleView,
    namespace: Option<Seq<char>>,
    cluster_domain: Seq<char>,
)
    requires
        element(whole.host) =~= element(first.host) + element(second.host),
        paths_locations(rule_paths(whole), namespace, cluster_domain) =~= paths_locations(
            rule_paths(first),
            namespace,
            cluster_domain,
        ) + paths_locations(rule_paths(second), namespace, cluster_domain),
    ensures
        rule_hosts(seq![whole]) == rule_hosts(seq![first, second]),
        rules_locations(seq![whole], namespace, cluster_domain) == rules_locations(
            seq![first, second],
            namespace,
            cluster_domain,
        ),
{
    let h = |rule: IngressRuleView| element(rule.host);
    let l = |rule: IngressRuleView| paths_locations(rule_paths(rule), namespace, cluster_domain);
    seq![whole].lemma_flat_map_singleton(h);
    seq![first].lemma_flat_map_singleton(h);
    seq![second].lemma_flat_map_singleton(h);
    lemma_flat_map_add(seq![first], seq![second], h);
    seq![whole].lemma_flat_map_singleton(l);
    seq![first].lemma_flat_map_singleton(l);
    seq![second].lemma_flat_map_singleton(l);
    lemma_flat_map_add(seq![first], seq![second], l);
    assert(seq![first] + seq![second] =~= seq![first, second]);
}

/// The one host of a certificate, or of a rule, is the server name.
pub proof fn one_host_is_the_server_name(
    gateway: Seq<char>,
    cluster_domain: Seq<char>,
    namespace: Option<Seq<char>>,
    host: Seq<char>,
)
    ensures
        ({
            let by_certificate = routes(
                gateway,
                cluster_domain,
                seq![
                    IngressView {
                        namespace,
                        spec: Some(
                            IngressSpecView {
                                ingress_class_name: Some(gateway),
                                default_backend: None,
                                tls: Some(seq![IngressTlsView { hosts: Some(seq![host]) }]),
                                rules: None,
                            },
                        ),
                    },
                ],
            );
            let by_rule = routes(
                gateway,
                cluster_domain,
                seq![
                    IngressView {
                        namespace,
                        spec: Some(
                            IngressSpecView {
                                ingress_class_name: Some(gateway),
                                default_backend: None,
                                tls: None,
                                rules: Some(
                                    seq![IngressRuleView { host: Some(host), http: None }],
                                ),
                            },
                        ),
                    },
                ],
            );
            &&& by_certificate.server_names == seq![host]
            &&& by_certificate.locations == Seq::<LocationView>::empty()
            &&& by_rule.server_names == seq![host]
            &&& by_rule.locations == Seq::<LocationView>::empty()
        }),
{
    lemma_nothing(namespace, cluster_domain);
    assert(seq![host].drop_last() =~= Seq::empty());
    reveal_with_fuel(extend_distinct, 2);
    assert(distinct(seq![host]) =~= seq![host]);

    let row = IngressTlsView { hosts: Some(seq![host]) };
    let by_certificate = IngressView {
        namespace,
        spec: Some(
            IngressSpecView {
                ingress_class_name: Some(gateway),
                default_backend: None,
                tls: Some(seq![row]),
                rules: None,
            },
        ),
    };
    lemma_one(gateway, cluster_domain, by_certificate);
    seq![row].lemma_flat_map_singleton(|row: IngressTlsView| elements(row.hosts));
    assert(ingress_hosts(gateway, by_certificate) =~= seq![host]);

    let rule = IngressRuleView { host: Some(host), http: None };
    let by_rule = IngressView {
        namespace,
        spec: Some(
            IngressSpecView {
                ingress_class_name: Some(gateway),
                default_backend: None,
                tls: None,
                rules: Some(seq![rule]),
            },
        ),
    };
    lemma_one(gateway, cluster_domain, by_rule);
    seq![rule].lemma_flat_map_singleton(|rule: IngressRuleView| element(rule.host));
    seq![rule].lemma_flat_map_singleton(
        |rule: IngressRuleView| paths_locations(rule_paths(rule), namespace, cluster_domain),
    );
    assert(ingress_hosts(gateway, by_rule) =~= seq![host]);
}

/// The one path of a rule without a host brings the one location where a service serves it, and
/// nothing where something else does.
pub proof fn one_path_is_the_location(
    gateway: Seq<char>,
    cluster_domain: Seq<char>,
    namespace: Option<Seq<char>>,
    path: HttpIngressPathView,
)
    ensures
        ({
            let found = routes(
                gateway,
                cluster_domain,
                seq![
                    IngressView {
                        namespace,
                        spec: Some(
                            IngressSpecView {
                                ingress_class_name: Some(gateway),
                                default_backend: None,
                                tls: None,
                                rules: Some(
                                    seq![
                                        IngressRuleView {
                                            host: None,
                                            http: Some(
                                                HttpIngressRuleValueView { paths: seq![path] },
                                            ),
                                        },
                                    ],
                                ),
                            },
                        ),
                    },
                ],
            );
            &&& found.server_names == Seq::<Seq<char>>::empty()
            &&& path.backend.service is None ==> found.locations.len() == 0
            &&& path.backend.service matches Some(service) ==> {
                &&& found.locations.len() == 1
                &&& found.locations[0].path == path.path->0
                &&& found.locations[0].domain == service.name + seq!['.'] + namespace->0 + seq![
                    '.',
                ] + cluster_domain
                &&& found.locations[0].port == service.port->0.number->0
            }
        }),
{
    lemma_nothing(namespace, cluster_domain);
    reveal_strlit(".");
    assert("."@ =~= seq!['.']);
    let rule = IngressRuleView {
        host: None,
        http: Some(HttpIngressRuleValueView { paths: seq![path] }),
    };
    let ingress = IngressView {
        namespace,
        spec: Some(
            IngressSpecView {
                ingress_class_name: Some(gateway),
                default_backend: None,
                tls: None,
                rules: Some(seq![rule]),
            },
        ),
    };
    lemma_one(gateway, cluster_domain, ingress);
    seq![rule].lemma_flat_map_singleton(|rule: IngressRuleView| element(rule.host));
    seq![rule].lemma_flat_map_singleton(
        |rule: IngressRuleView| paths_locations(rule_paths(rule), namespace, cluster_domain),
    );
    seq![path].lemma_flat_map_singleton(
        |path: HttpIngressPathView| path_locations(path, namespace, cluster_domain),
    );
    assert(ingress_hosts(gateway, ingress) =~= Seq::empty());
}

/// No ingress brings nothing, and neither does one without certificates and rules, one whose
/// certificate lists no hosts, or one whose rule has neither host nor paths.
pub proof fn what_is_absent_brings_nothing(
    gateway: Seq<char>,
    cluster_domain: Seq<char>,
    namespace: Option<Seq<char>>,
    row: IngressTlsView,
    rule: IngressRuleView,
    spec: IngressSpecView,
)
    requires
        row.hosts matches Some(hosts) ==> hosts.len() == 0,
        rule.host is None,
        rule.http matches Some(http) ==> http.paths.len() == 0,
        spec.tls matches Some(tls) ==> tls.len() == 0 || tls == seq![row],
        spec.rules matches Some(rules) ==> rules.len() == 0 || rules == seq![rule],
    ensures
        routes(gateway, cluster_domain, Seq::empty()).locations.len() == 0,
        routes(gateway, cluster_domain, Seq::empty()).server_names.len() == 0,
        routes(
            gateway,
            cluster_domain,
            seq![IngressView { namespace, spec: Some(spec) }],
        ).locations.len() == 0,
        routes(
            gateway,
            cluster_domain,
            seq![IngressView { namespace, spec: Some(spec) }],
        ).server_names.len() == 0,
{
    assert(hosts(gateway, Seq::empty()) =~= Seq::empty());
    assert(locations(gateway, cluster_domain, Seq::empty()) =~= Seq::empty());
    lemma_nothing(namespace, cluster_domain);
    let ingress = IngressView { namespace, spec: Some(spec) };
    lemma_one(gateway, cluster_domain, ingress);
    seq![row].lemma_flat_map_singleton(|row: IngressTlsView| elements(row.hosts));
    seq![rule].lemma_flat_map_singleton(|rule: IngressRuleView| element(rule.host));
    seq![rule].lemma_flat_map_singleton(
        |rule: IngressRuleView| paths_locations(rule_paths(rule), namespace, cluster_domain),
    );
    assert(elements(row.hosts) =~= Seq::empty());
    assert(rule_paths(rule) =~= Seq::empty());
    assert(tls_hosts(elements(spec.tls)).len() == 0) by {
        if elements(spec.tls).len() == 0 {
            assert(elements(spec.tls) =~= Seq::empty());
        }
    }
    assert(rule_hosts(elements(spec.rules)).len() == 0 && rules_locations(
        elements(spec.rules),
        namespace,
        cluster_domain,
    ).len() == 0) by {
        if elements(spec.rules).len() == 0 {
            assert(elements(spec.rules) =~= Seq::empty());
        }
    }
    assert(ingress_hosts(gateway, ingress) =~= Seq::empty());
}

/// No server name comes twice, and the server names are exactly the hosts of certificates and of
/// rules in the ingresses that name the gateway as their class and set no default backend.
pub proof fn server_names_are_hosts_of_certificates_and_rules(
    gateway: Seq<char>,
    cluster_domain: Seq<char>,
    ingresses: Seq<IngressView>,
    name: Seq<char>,
)
    ensures
        routes(gateway, cluster_domain, ingresses).server_names.no_duplicates(),
        routes(gateway, cluster_domain, ingresses).server_names.contains(name) <==> {
            ||| exists|i: int, r: int, h: int|
                {
                    let spec = ingresses[i].spec->0;
                    &&& 0 <= i < ingresses.len()
                    &&& ingresses[i].spec is Some
                    &&& spec.ingress_class_name == Some(gateway)
                    &&& spec.default_backend is None
                    &&& spec.tls is Some
                    &&& 0 <= r < spec.tls->0.len()
                    &&& spec.tls->0[r].hosts is Some
                    &&& 0 <= h < spec.tls->0[r].hosts->0.len()
                    &&& #[trigger] ingresses[i].spec->0.tls->0[r].hosts->0[h] == name
                }
            ||| exists|i: int, r: int|
                {
                    let spec = ingresses[i].spec->0;
                    &&& 0 <= i < ingresses.len()
                    &&& ingresses[i].spec is Some
                    &&& spec.ingress_class_name == Some(gateway)
                    &&& spec.default_backend is None
                    &&& spec.rules is Some
                    &&& 0 <= r < spec.rules->0.len()
                    &&& (#[trigger] ingresses[i].spec->0.rules->0[r]).host == Some(name)
                }
        },
{
    let names = routes(gateway, cluster_domain, ingresses).server_names;
    let all = hosts(gateway, ingresses);
    lemma_extend_distinct(Seq::empty(), all);
    let f = |ingress: IngressView| ingress_hosts(gateway, ingress);
    let g = |row: IngressTlsView| elements(row.hosts);
    let k = |rule: IngressRuleView| element(rule.host);
    lemma_flat_map_contains(ingresses, f, name);
    assert(names.contains(name) <==> all.contains(name));
    if names.contains(name) {
        let i = choose|i: int|
            0 <= i < ingresses.len() && f(#[trigger] ingresses[i]).contains(name);
        let spec = ingresses[i].spec->0;
        let rows = elements(spec.tls);
        let rules = elements(spec.rules);
        assert(serves(gateway, ingresses[i]));
        lemma_flat_map_contains(rows, g, name);
        lemma_flat_map_contains(rules, k, name);
        let both = tls_hosts(rows) + rule_hosts(rules);
        assert(both.contains(name));
        let j = choose|j: int| 0 <= j < both.len() && both[j] == name;
        if j < tls_hosts(rows).len() {
            assert(tls_hosts(rows)[j] == name);
            let r = choose|r: int| 0 <= r < rows.len() && g(#[trigger] rows[r]).contains(name);
            let found = elements(rows[r].hosts);
            let h = choose|h: int| 0 <= h < found.len() && found[h] == name;
            assert(ingresses[i].spec->0.tls->0[r].hosts->0[h] == name);
        } else {
            assert(rule_hosts(rules)[j - tls_hosts(rows).len()] == name);
            let r = choose|r: int| 0 <= r < rules.len() && k(#[trigger] rules[r]).contains(name);
            assert(ingresses[i].spec->0.rules->0[r].host == Some(name));
        }
    }
    assert forall|i: int|
        0 <= i < ingresses.len() && serves(gateway, ingresses[i]) && (tls_hosts(
            elements(ingresses[i].spec->0.tls),
        ).contains(name) || rule_hosts(elements(ingresses[i].spec->0.rules)).contains(
            name,
        )) implies f(#[trigger] ingresses[i]).contains(name) by {
        let spec = ingresses[i].spec->0;
        let first = tls_hosts(elements(spec.tls));
        let second = rule_hosts(elements(spec.rules));
        if first.contains(name) {
            let j = choose|j: int| 0 <= j < first.len() && first[j] == name;
            assert((first + second)[j] == name);
        } else {
            let j = choose|j: int| 0 <= j < second.len() && second[j] == name;
            assert((first + second)[first.len() + j] == name);
        }
    }
    assert forall|i: int, r: int, h: int|
        {
            let spec = ingresses[i].spec->0;
            &&& 0 <= i < ingresses.len()
            &&& ingresses[i].spec is Some
            &&& spec.ingress_class_name == Some(gateway)
            &&& spec.default_backend is None
            &&& spec.tls is Some
            &&& 0 <= r < spec.tls->0.len()
            &&& spec.tls->0[r].hosts is Some
            &&& 0 <= h < spec.tls->0[r].hosts->0.len()
            &&& #[trigger] ingresses[i].spec->0.tls->0[r].hosts->0[h] == name
        } implies names.contains(name) by {
        let rows = ingresses[i].spec->0.tls->0;
        lemma_flat_map_contains(rows, g, name);
        assert(g(rows[r]).contains(name));
        assert(f(ingresses[i]).contains(name));
    }
    assert forall|i: int, r: int|
        {
            let spec = ingresses[i].spec->0;
            &&& 0 <= i < ingresses.len()
            &&& ingresses[i].spec is Some
            &&& spec.ingress_class_name == Some(gateway)
            &&& spec.default_backend is None
            &&& spec.rules is Some
            &&& 0 <= r < spec.rules->0.len()
            &&& (#[trigger] ingresses[i].spec->0.rules->0[r]).host == Some(name)
        } implies names.contains(name) by {
        let rules = ingresses[i].spec->0.rules->0;
        lemma_flat_map_contains(rules, k, name);
        assert(k(rules[r])[0] == name);
        assert(k(rules[r]).contains(name));
        assert(f(ingresses[i]).contains(name));
    }
}

/// The gateway's locations can be made exactly where every path with a service behind it, in a rule
/// of an ingress that names the gateway as its class and sets no default backend, has a path, a
/// port with a number, and a namespace around it.
pub proof fn complete_where_every_served_path_is(gateway: Seq<char>, ingresses: Seq<IngressView>)
    ensures
        complete(gateway, ingresses) <==> forall|i: int, r: int, p: int|
            {
                let spec = ingresses[i].spec->0;
                &&& 0 <= i < ingresses.len()
                &&& ingresses[i].spec is Some
                &&& spec.ingress_class_name == Some(gateway)
                &&& spec.default_backend is None
                &&& spec.rules is Some
                &&& 0 <= r < spec.rules->0.len()
                &&& spec.rules->0[r].http is Some
                &&& 0 <= p < spec.rules->0[r].http->0.paths.len()
                &&& spec.rules->0[r].http->0.paths[p].backend.service is Some
            } ==> {
                let path = #[trigger] ingresses[i].spec->0.rules->0[r].http->0.paths[p];
                &&& path.path is Some
                &&& path.backend.service->0.port is Some
                &&& path.backend.service->0.port->0.number is Some
                &&& ingresses[i].namespace is Some
            },
{
    if complete(gateway, ingresses) {
        assert forall|i: int, r: int, p: int|
            {
                let spec = ingresses[i].spec->0;
                &&& 0 <= i < ingresses.len()
                &&& ingresses[i].spec is Some
                &&& spec.ingress_class_name == Some(gateway)
                &&& spec.default_backend is None
                &&& spec.rules is Some
                &&& 0 <= r < spec.rules->0.len()
                &&& spec.rules->0[r].http is Some
                &&& 0 <= p < spec.rules->0[r].http->0.paths.len()
                &&& spec.rules->0[r].http->0.paths[p].backend.service is Some
            } implies {
            let path = #[trigger] ingresses[i].spec->0.rules->0[r].http->0.paths[p];
            &&& path.path is Some
            &&& path.backend.service->0.port is Some
            &&& path.backend.service->0.port->0.number is Some
            &&& ingresses[i].namespace is Some
        } by {
            let rule = ingresses[i].spec->0.rules->0[r];
            assert(ingress_complete(gateway, ingresses[i]));
            assert(rule_complete(rule, ingresses[i].namespace));
            assert(path_complete(rule_paths(rule)[p], ingresses[i].namespace));
        }
    } else {
        let i = choose|i: int|
            0 <= i < ingresses.len() && !ingress_complete(gateway, #[trigger] ingresses[i]);
        let rules = elements(ingresses[i].spec->0.rules);
        let namespace = ingresses[i].namespace;
        assert(!rules_complete(rules, namespace));
        let r = choose|r: int|
            0 <= r < rules.len() && !rule_complete(#[trigger] rules[r], namespace);
        let paths = rule_paths(rules[r]);
        let p = choose|p: int|
            0 <= p < paths.len() && !path_complete(#[trigger] paths[p], namespace);
        let path = ingresses[i].spec->0.rules->0[r].http->0.paths[p];
        assert(path == paths[p]);
    }
}

/// A change of an ingress concerns the gateway that it names as its class, in its own namespace,
/// whatever else it holds; without a class it concerns none.
pub proof fn ingress_concerns_its_class(ingress: IngressView)
    ensures
        match concerned_gateway(ingress) {
            Some(gateway) => {
                &&& ingress.spec is Some
                &&& ingress.spec->0.ingress_class_name == Some(gateway.name)
                &&& ingress.namespace is Some ==> ingress.namespace == Some(gateway.namespace)
            },
            None => ingress.spec is None || ingress.spec->0.ingress_class_name is None,
        },
{
}

} // verus!
