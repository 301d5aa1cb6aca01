use crate::ingress::{
    HttpIngressPathView, IngressRuleView, IngressSpecView, IngressTlsView, IngressView,
};
use crate::routes::{
    concerned_gateway, distinct, element, elements, extend_distinct, hosts, ingress_class,
    ingress_hosts, ingress_locations, path_locations, paths_locations, routes, rule_hosts, rule_paths,
    serves, spec_hosts, tls_hosts, turns_away, LocationView,
};
use vstd::prelude::*;

verus! {

/// Extending keeps what is there in front, adds exactly what is new, and brings no repetition.
pub(crate) proof fn lemma_extend_distinct(names: Seq<Seq<char>>, more: Seq<Seq<char>>)
    requires
        names.no_duplicates(),
    ensures
        extend_distinct(names, more).no_duplicates(),
        names.is_prefix_of(extend_distinct(names, more)),
        forall|name: Seq<char>| #[trigger]
            extend_distinct(names, more).contains(name) <==> names.contains(name)
                || more.contains(name),
    decreases more.len(),
{
    let extended = extend_distinct(names, more);
    if more.len() == 0 {
        assert(names =~= names.take(names.len() as int));
    } else {
        let rest = more.drop_last();
        let before = extend_distinct(names, rest);
        lemma_extend_distinct(names, rest);
        assert(extended.len() >= before.len());
        assert(names =~= extended.take(names.len() as int)) by {
            assert(names =~= before.take(names.len() as int));
            assert forall|i: int| 0 <= i < names.len() implies names[i] == extended[i] by {
                assert(before.take(names.len() as int)[i] == before[i]);
            }
        }
        assert forall|name: Seq<char>| #[trigger]
            extended.contains(name) <==> names.contains(name) || more.contains(name) by {
            assert(more.contains(name) <==> rest.contains(name) || name == more.last()) by {
                assert(more =~= rest.push(more.last()));
                if more.contains(name) {
                    let i = choose|i: int| 0 <= i < more.len() && more[i] == name;
                    if i < rest.len() {
                        assert(rest[i] == name);
                    }
                }
                if rest.contains(name) {
                    let i = choose|i: int| 0 <= i < rest.len() && rest[i] == name;
                    assert(more[i] == name);
                }
                assert(more[more.len() - 1] == more.last());
            }
            if !before.contains(more.last()) {
                assert(extended == before.push(more.last()));
                if extended.contains(name) {
                    let i = choose|i: int| 0 <= i < extended.len() && extended[i] == name;
                    if i < before.len() {
                        assert(before[i] == name);
                    }
                }
                if before.contains(name) {
                    let i = choose|i: int| 0 <= i < before.len() && before[i] == name;
                    assert(extended[i] == name);
                }
                assert(extended[before.len() as int] == more.last());
            }
        }
        assert(extended.no_duplicates()) by {
            if !before.contains(more.last()) {
                assert forall|i: int, j: int|
                    0 <= i < extended.len() && 0 <= j < extended.len() && i
                        != j implies extended[i] != extended[j] by {
                    if i < before.len() && j < before.len() {
                        assert(before[i] != before[j]);
                    } else if i < before.len() {
                        assert(before.contains(before[i]));
                    } else {
                        assert(before.contains(before[j]));
                    }
                }
            }
        }
    }
}

/// An element of a flattened map comes from an element of the sequence.
pub(crate) proof fn lemma_flat_map_contains<A, B>(s: Seq<A>, f: spec_fn(A) -> Seq<B>, b: B)
    ensures
        s.flat_map(f).contains(b) <==> exists|i: int|
            0 <= i < s.len() && f(#[trigger] s[i]).contains(b),
    decreases s.len(),
{
    if s.len() == 0 {
        assert(s.flat_map(f) =~= Seq::empty());
    } else {
        let rest = s.drop_last();
        lemma_flat_map_contains(rest, f, b);
        rest.lemma_flat_map_push(f, s.last());
        assert(rest.push(s.last()) =~= s);
        let flat = rest.flat_map(f);
        let last = f(s.last());
        assert(s.flat_map(f) == flat + last);
        if s.flat_map(f).contains(b) {
            let i = choose|i: int| 0 <= i < (flat + last).len() && (flat + last)[i] == b;
            if i < flat.len() {
                assert(flat[i] == b);
                let j = choose|j: int| 0 <= j < rest.len() && f(#[trigger] rest[j]).contains(b);
                assert(s[j] == rest[j]);
            } else {
                assert(last[i - flat.len()] == b);
                assert(f(s[s.len() - 1]).contains(b));
            }
        }
        if exists|i: int| 0 <= i < s.len() && f(#[trigger] s[i]).contains(b) {
            let i = choose|i: int| 0 <= i < s.len() && f(#[trigger] s[i]).contains(b);
            if i < rest.len() {
                assert(f(rest[i]).contains(b));
                let j = choose|j: int| 0 <= j < flat.len() && flat[j] == b;
                assert((flat + last)[j] == b);
            } else {
                let j = choose|j: int| 0 <= j < last.len() && last[j] == b;
                assert((flat + last)[flat.len() + j] == b);
            }
        }
    }
}

/// Mapping and flattening two sequences in a row.
pub(crate) proof fn lemma_flat_map_add<A, B>(s: Seq<A>, t: Seq<A>, f: spec_fn(A) -> Seq<B>)
    ensures
        (s + t).flat_map(f) == s.flat_map(f) + t.flat_map(f),
    decreases t.len(),
{
    if t.len() == 0 {
        assert(s + t =~= s);
        assert(t.flat_map(f) =~= Seq::empty());
    } else {
        let rest = t.drop_last();
        lemma_flat_map_add(s, rest, f);
        (s + rest).lemma_flat_map_push(f, t.last());
        rest.lemma_flat_map_push(f, t.last());
        assert((s + rest).push(t.last()) =~= s + t);
        assert(rest.push(t.last()) =~= t);
        assert((s.flat_map(f) + rest.flat_map(f)) + f(t.last()) =~= s.flat_map(f) + (
        rest.flat_map(f) + f(t.last())));
    }
}

/// How often an element comes out does not depend on the order of the sequence.
proof fn lemma_flat_map_multiset<A, B>(s: Seq<A>, t: Seq<A>, f: spec_fn(A) -> Seq<B>)
    requires
        s.to_multiset() == t.to_multiset(),
    ensures
        s.flat_map(f).to_multiset() == t.flat_map(f).to_multiset(),
    decreases s.len(),
{
    broadcast use vstd::seq_lib::group_to_multiset_ensures;

    if s.len() == 0 {
        assert(t.len() == t.to_multiset().len());
        assert(s =~= t);
    } else {
        let x = s.last();
        let rest = s.drop_last();
        assert(rest.push(x) =~= s);
        assert(t.to_multiset().count(x) > 0);
        assert(t.contains(x));
        let i = t.index_of(x);
        let before = t.take(i);
        let after = t.skip(i + 1);
        assert(t.remove(i) =~= before + after);
        assert((before + after).to_multiset() =~= rest.to_multiset()) by {
            assert(s.to_multiset() =~= rest.to_multiset().insert(x));
            assert(t.remove(i).to_multiset() =~= t.to_multiset().remove(x));
        }
        lemma_flat_map_multiset(rest, before + after, f);
        rest.lemma_flat_map_push(f, x);
        lemma_flat_map_add(before, after, f);
        lemma_flat_map_add(before.push(x), after, f);
        before.lemma_flat_map_push(f, x);
        assert(before.push(x) + after =~= t);
        let a = before.flat_map(f);
        let b = after.flat_map(f);
        vstd::seq_lib::lemma_multiset_commutative(rest.flat_map(f), f(x));
        vstd::seq_lib::lemma_multiset_commutative(a, b);
        vstd::seq_lib::lemma_multiset_commutative(a + f(x), b);
        vstd::seq_lib::lemma_multiset_commutative(a, f(x));
        assert(s.flat_map(f).to_multiset() =~= t.flat_map(f).to_multiset());
    }
}

/// The hosts that an ingress names are those of its certificates and those of its rules.
pub proof fn hosts_of_an_ingress(spec: IngressSpecView, host: Seq<char>)
    ensures
        spec_hosts(spec).contains(host) <==> {
            ||| exists|i: int|
                0 <= i < elements(spec.tls).len() && elements(
                    (#[trigger] elements(spec.tls)[i]).hosts,
                ).contains(host)
            ||| exists|i: int|
                0 <= i < elements(spec.rules).len() && (#[trigger] elements(spec.rules)[i]).host
                    == Some(host)
        },
{
    let tls = elements(spec.tls);
    let rules = elements(spec.rules);
    let f = |row: IngressTlsView| elements(row.hosts);
    let g = |rule: IngressRuleView| element(rule.host);
    lemma_flat_map_contains(tls, f, host);
    lemma_flat_map_contains(rules, g, host);
    let first = tls_hosts(tls);
    let second = rule_hosts(rules);
    assert(spec_hosts(spec).contains(host) <==> first.contains(host) || second.contains(host)) by {
        if first.contains(host) {
            let i = choose|i: int| 0 <= i < first.len() && first[i] == host;
            assert((first + second)[i] == host);
        }
        if second.contains(host) {
            let i = choose|i: int| 0 <= i < second.len() && second[i] == host;
            assert((first + second)[first.len() + i] == host);
        }
    }
    if exists|i: int| 0 <= i < tls.len() && elements((#[trigger] tls[i]).hosts).contains(host) {
        let i = choose|i: int|
            0 <= i < tls.len() && elements((#[trigger] tls[i]).hosts).contains(host);
        assert(f(tls[i]).contains(host));
    }
    if first.contains(host) {
        let i = choose|i: int| 0 <= i < tls.len() && f(#[trigger] tls[i]).contains(host);
        assert(elements(tls[i].hosts).contains(host));
    }
    if exists|i: int| 0 <= i < rules.len() && (#[trigger] rules[i]).host == Some(host) {
        let i = choose|i: int| 0 <= i < rules.len() && (#[trigger] rules[i]).host == Some(host);
        assert(element(rules[i].host)[0] == host);
        assert(g(rules[i]).contains(host));
    }
    if second.contains(host) {
        let i = choose|i: int| 0 <= i < rules.len() && g(#[trigger] rules[i]).contains(host);
        assert(element(rules[i].host).contains(host));
        assert(rules[i].host == Some(host));
    }
}

/// The server names are the hosts of the ingresses that the gateway serves, each once, and hosts
/// that come later do not reorder those that came before.
pub proof fn server_names_are_the_hosts(
    gateway: Seq<char>,
    cluster_domain: Seq<char>,
    ingresses: Seq<IngressView>,
    more: Seq<IngressView>,
)
    ensures
        routes(gateway, cluster_domain, ingresses).server_names.no_duplicates(),
        forall|host: Seq<char>| #[trigger]
            routes(gateway, cluster_domain, ingresses).server_names.contains(host) <==> exists|
                i: int,
            |
                0 <= i < ingresses.len() && serves(gateway, #[trigger] ingresses[i]) && spec_hosts(
                    ingresses[i].spec->0,
                ).contains(host),
        routes(gateway, cluster_domain, ingresses).server_names.is_prefix_of(
            routes(gateway, cluster_domain, ingresses + more).server_names,
        ),
{
    let all = hosts(gateway, ingresses);
    let names = distinct(all);
    let f = |ingress: IngressView| ingress_hosts(gateway, ingress);
    lemma_extend_distinct(Seq::empty(), all);
    assert forall|host: Seq<char>| #[trigger] names.contains(host) <==> exists|i: int|
        0 <= i < ingresses.len() && serves(gateway, #[trigger] ingresses[i]) && spec_hosts(
            ingresses[i].spec->0,
        ).contains(host) by {
        assert(!Seq::<Seq<char>>::empty().contains(host));
        lemma_flat_map_contains(ingresses, f, host);
        if names.contains(host) {
            let i = choose|i: int| 0 <= i < ingresses.len() && f(#[trigger] ingresses[i]).contains(host);
            assert(ingress_hosts(gateway, ingresses[i]).contains(host));
            assert(serves(gateway, ingresses[i]));
        }
        if exists|i: int|
            0 <= i < ingresses.len() && serves(gateway, #[trigger] ingresses[i]) && spec_hosts(
                ingresses[i].spec->0,
            ).contains(host) {
            let i = choose|i: int|
                0 <= i < ingresses.len() && serves(gateway, #[trigger] ingresses[i]) && spec_hosts(
                    ingresses[i].spec->0,
                ).contains(host);
            assert(f(ingresses[i]).contains(host));
        }
    }
    lemma_flat_map_add(ingresses, more, f);
    crate::routes::lemma_extend_distinct_add(Seq::empty(), all, hosts(gateway, more));
    lemma_extend_distinct(names, hosts(gateway, more));
}

/// An ingress that the gateway does not serve, of another class or with a default backend, changes
/// nothing, wherever it stands.
pub proof fn unserved_ingress_changes_nothing(
    gateway: Seq<char>,
    cluster_domain: Seq<char>,
    before: Seq<IngressView>,
    ingress: IngressView,
    after: Seq<IngressView>,
)
    requires
        !serves(gateway, ingress),
    ensures
        routes(gateway, cluster_domain, before.push(ingress) + after) == routes(
            gateway,
            cluster_domain,
            before + after,
        ),
{
    let f = |ingress: IngressView| ingress_hosts(gateway, ingress);
    let g = |ingress: IngressView| ingress_locations(gateway, cluster_domain, ingress);
    before.lemma_flat_map_push(f, ingress);
    before.lemma_flat_map_push(g, ingress);
    assert(before.push(ingress).flat_map(f) =~= before.flat_map(f));
    assert(before.push(ingress).flat_map(g) =~= before.flat_map(g));
    lemma_flat_map_add(before.push(ingress), after, f);
    lemma_flat_map_add(before, after, f);
    lemma_flat_map_add(before.push(ingress), after, g);
    lemma_flat_map_add(before, after, g);
}

/// The order in which the ingresses come does not matter: the same locations come out equally
/// often, and the same server names.
pub proof fn ingress_order_does_not_matter(
    gateway: Seq<char>,
    cluster_domain: Seq<char>,
    first: Seq<IngressView>,
    second: Seq<IngressView>,
)
    requires
        first.to_multiset() == second.to_multiset(),
    ensures
        routes(gateway, cluster_domain, first).locations.to_multiset() == routes(
            gateway,
            cluster_domain,
            second,
        ).locations.to_multiset(),
        routes(gateway, cluster_domain, first).server_names.to_set() == routes(
            gateway,
            cluster_domain,
            second,
        ).server_names.to_set(),
{
    broadcast use vstd::seq_lib::group_to_multiset_ensures;

    let f = |ingress: IngressView| ingress_hosts(gateway, ingress);
    let g = |ingress: IngressView| ingress_locations(gateway, cluster_domain, ingress);
    lemma_flat_map_multiset(first, second, f);
    lemma_flat_map_multiset(first, second, g);
    let a = hosts(gateway, first);
    let b = hosts(gateway, second);
    lemma_extend_distinct(Seq::empty(), a);
    lemma_extend_distinct(Seq::empty(), b);
    assert forall|host: Seq<char>| distinct(a).contains(host) == distinct(b).contains(host) by {
        assert(!Seq::<Seq<char>>::empty().contains(host));
        assert(a.contains(host) <==> a.to_multiset().count(host) > 0);
        assert(b.contains(host) <==> b.to_multiset().count(host) > 0);
    }
    assert(distinct(a).to_set() =~= distinct(b).to_set());
}

/// The location comes from a path of the ingress that a service serves.
pub open spec fn is_location_of(
    location: LocationView,
    ingress: IngressView,
    rule: IngressRuleView,
    path: HttpIngressPathView,
    cluster_domain: Seq<char>,
) -> bool {
    &&& elements(ingress.spec->0.rules).contains(rule)
    &&& rule_paths(rule).contains(path)
    &&& path_locations(path, ingress.namespace, cluster_domain).contains(location)
}

/// The locations are those of the paths, in the rules of the ingresses that the gateway serves,
/// that a service serves.
pub proof fn locations_are_the_paths(
    gateway: Seq<char>,
    cluster_domain: Seq<char>,
    ingresses: Seq<IngressView>,
    location: LocationView,
)
    ensures
        routes(gateway, cluster_domain, ingresses).locations.contains(location) <==> exists|
            i: int,
            rule: IngressRuleView,
            path: HttpIngressPathView,
        |
            0 <= i < ingresses.len() && serves(gateway, ingresses[i]) && #[trigger] is_location_of(
                location,
                ingresses[i],
                rule,
                path,
                cluster_domain,
            ),
{
    let g = |ingress: IngressView| ingress_locations(gateway, cluster_domain, ingress);
    lemma_flat_map_contains(ingresses, g, location);
    if routes(gateway, cluster_domain, ingresses).locations.contains(location) {
        let i = choose|i: int|
            0 <= i < ingresses.len() && g(#[trigger] ingresses[i]).contains(location);
        let ingress = ingresses[i];
        let rules = elements(ingress.spec->0.rules);
        let h = |rule: IngressRuleView|
            paths_locations(rule_paths(rule), ingress.namespace, cluster_domain);
        assert(serves(gateway, ingress));
        lemma_flat_map_contains(rules, h, location);
        let j = choose|j: int| 0 <= j < rules.len() && h(#[trigger] rules[j]).contains(location);
        let paths = rule_paths(rules[j]);
        let k = |path: HttpIngressPathView|
            path_locations(path, ingress.namespace, cluster_domain);
        lemma_flat_map_contains(paths, k, location);
        let l = choose|l: int| 0 <= l < paths.len() && k(#[trigger] paths[l]).contains(location);
        assert(is_location_of(location, ingresses[i], rules[j], paths[l], cluster_domain));
    }
    if exists|i: int, rule: IngressRuleView, path: HttpIngressPathView|
        0 <= i < ingresses.len() && serves(gateway, ingresses[i]) && #[trigger] is_location_of(
            location,
            ingresses[i],
            rule,
            path,
            cluster_domain,
        ) {
        let (i, rule, path) = choose|i: int, rule: IngressRuleView, path: HttpIngressPathView|
            0 <= i < ingresses.len() && serves(gateway, ingresses[i]) && #[trigger] is_location_of(
                location,
                ingresses[i],
                rule,
                path,
                cluster_domain,
            );
        let ingress = ingresses[i];
        let rules = elements(ingress.spec->0.rules);
        let h = |rule: IngressRuleView|
            paths_locations(rule_paths(rule), ingress.namespace, cluster_domain);
        let paths = rule_paths(rule);
        let k = |path: HttpIngressPathView|
            path_locations(path, ingress.namespace, cluster_domain);
        let j = choose|j: int| 0 <= j < rules.len() && rules[j] == rule;
        let l = choose|l: int| 0 <= l < paths.len() && paths[l] == path;
        assert(k(paths[l]).contains(location));
        lemma_flat_map_contains(paths, k, location);
        assert(h(rules[j]).contains(location));
        lemma_flat_map_contains(rules, h, location);
        assert(g(ingresses[i]).contains(location));
    }
}

/// An ingress that names a gateway as its class is either served by it or turned away, and no
/// other ingress is either.
pub proof fn named_gateway_serves_or_turns_away(gateway: Seq<char>, ingress: IngressView)
    ensures
        ingress_class(ingress) == Some(gateway) <==> serves(gateway, ingress) || turns_away(
            gateway,
            ingress,
        ),
        !(serves(gateway, ingress) && turns_away(gateway, ingress)),
{
}

/// A change of an ingress that a gateway serves brings up the gateway of that name in the ingress's
/// namespace, wherever the gateway that serves it lies.
pub proof fn served_ingress_concerns_the_gateway(gateway: Seq<char>, ingress: IngressView)
    requires
        serves(gateway, ingress),
    ensures
        concerned_gateway(ingress) matches Some(found) && found.name == gateway && (
        ingress.namespace matches Some(namespace) ==> found.namespace == namespace),
{
}

} // verus!
