use inrush::domain::{
    cluster_domain, configured_cluster_domain, fallback_image, find_search_domain,
    get_search_domain_from_resolv_conf, DomainLookup, ResolvConfError,
};

fn texts(all: &[&str]) -> Vec<String> {
    all.iter().map(|s| s.to_string()).collect()
}

#[test]
fn the_first_service_domain_of_the_search_list_is_found() {
    let contents = "nameserver 10.96.0.10\n\
        search apps.svc.cluster.local svc.cluster.local svc.other cluster.local\n\
        options ndots:5\n";
    assert_eq!(
        get_search_domain_from_resolv_conf(contents),
        Ok(Some("svc.cluster.local".to_string()))
    );
}

#[test]
fn the_last_search_directive_counts() {
    let contents = "search svc.first\nsearch svc.second\n";
    assert_eq!(
        get_search_domain_from_resolv_conf(contents),
        Ok(Some("svc.second".to_string()))
    );
}

#[test]
fn comments_are_left_out() {
    let contents = "# search svc.comment\nsearch example.com ; svc.late\n";
    assert_eq!(get_search_domain_from_resolv_conf(contents), Ok(None));
}

#[test]
fn no_search_list_gives_no_domain() {
    assert_eq!(get_search_domain_from_resolv_conf(""), Ok(None));
    assert_eq!(
        get_search_domain_from_resolv_conf("domain svc.cluster.local\n"),
        Ok(None)
    );
    assert_eq!(get_search_domain_from_resolv_conf("search\n"), Ok(None));
}

#[test]
fn malformed_lines_are_reported() {
    assert_eq!(
        get_search_domain_from_resolv_conf("search svc.a\nnameserver\n"),
        Err(ResolvConfError::InvalidValue(1))
    );
    assert_eq!(
        get_search_domain_from_resolv_conf("options ndots:many\n"),
        Err(ResolvConfError::InvalidOptionValue(0))
    );
    assert_eq!(
        get_search_domain_from_resolv_conf("\n\noptions frobnicate\n"),
        Err(ResolvConfError::InvalidOption(2))
    );
    assert_eq!(
        get_search_domain_from_resolv_conf("frobnicate svc.a\n"),
        Err(ResolvConfError::InvalidDirective(0))
    );
    assert_eq!(
        get_search_domain_from_resolv_conf("nameserver nowhere\n"),
        Err(ResolvConfError::InvalidIp(0))
    );
    assert_eq!(
        get_search_domain_from_resolv_conf("domain a b\n"),
        Err(ResolvConfError::ExtraData(0))
    );
}

#[test]
fn the_first_fault_is_the_one_reported() {
    assert_eq!(
        get_search_domain_from_resolv_conf("search svc.a\ndomain a b\nfrobnicate\n"),
        Err(ResolvConfError::ExtraData(1))
    );
}

#[test]
fn only_the_prefix_makes_a_service_domain() {
    assert_eq!(find_search_domain(&None), None);
    assert_eq!(find_search_domain(&Some(texts(&[]))), None);
    assert_eq!(
        find_search_domain(&Some(texts(&["svc", "SVC.a", "a.svc.b", "", "svd.x"]))),
        None
    );
    assert_eq!(
        find_search_domain(&Some(texts(&["a", "svc.", "svc.b"]))),
        Some("svc.".to_string())
    );
    assert_eq!(
        find_search_domain(&Some(texts(&["\u{e9}vc.a", "svc.\u{e9}"]))),
        Some("svc.\u{e9}".to_string())
    );
}

#[test]
fn a_configured_domain_is_taken_as_it_is() {
    assert_eq!(
        configured_cluster_domain(Some("example.org".to_string())),
        DomainLookup::Known("example.org".to_string())
    );
    assert_eq!(configured_cluster_domain(None), DomainLookup::ReadResolvConf);
}

#[test]
fn without_a_search_domain_the_usual_one_is_taken() {
    assert_eq!(cluster_domain(None), "svc.cluster.local");
    assert_eq!(cluster_domain(Some("svc.k8s".to_string())), "svc.k8s");
}

#[test]
fn without_a_configured_image_the_stable_one_is_taken() {
    assert_eq!(fallback_image(None), "nginx:stable");
    assert_eq!(fallback_image(Some("nginx:1.27".to_string())), "nginx:1.27");
}
