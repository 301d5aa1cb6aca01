use crate::text::starts_with;
use vstd::prelude::*;

verus! {

/// What the search domain of a cluster's services begins with.
const SERVICE_DOMAIN_PREFIX: &'static str = "svc.";

/// The service domain where nothing says otherwise.
const DEFAULT_DOMAIN: &'static str = "svc.cluster.local";

/// The image where nothing says otherwise.
const DEFAULT_IMAGE: &'static str = "nginx:stable";

/// Why the text of a `resolv.conf` was refused, each with the number of the line, counted from
/// zero.
#[derive(Debug, Clone, Copy, PartialEq, Eq)]
pub enum ResolvConfError {
    /// The line is not UTF-8.
    InvalidUtf8(usize),
    /// A directive has no value or a malformed one.
    InvalidValue(usize),
    /// An option has a malformed value.
    InvalidOptionValue(usize),
    /// The option is not known.
    InvalidOption(usize),
    /// The directive is not known.
    InvalidDirective(usize),
    /// An address is malformed.
    InvalidIp(usize),
    /// Something follows the value.
    ExtraData(usize),
}

/// What `resolv_conf::Config::parse` makes of a text: the list of the last `search` directive, if
/// there is such a directive, or the first fault.
pub uninterp spec fn parsed_search(
    contents: Seq<char>,
) -> Result<Option<Seq<Seq<char>>>, ResolvConfError>;

/// Calls `resolv_conf::Config::parse`, and hands on what `resolv_conf::Config::get_search` reads
/// out of the configuration, or the error by its variant and line.
///
/// Claimed of the parser: the search list, or the error, is a function of the text alone. What that
/// function is on a given text is not stated.
#[verifier::external_body]
fn parse_search(contents: &str) -> (result: Result<Option<Vec<String>>, ResolvConfError>)
    ensures
        match result {
            Ok(search) => parsed_search(contents@)
                == Ok::<Option<Seq<Seq<char>>>, ResolvConfError>(search.deep_view()),
            Err(error) => parsed_search(contents@)
                == Err::<Option<Seq<Seq<char>>>, ResolvConfError>(error),
        },
{
    match resolv_conf::Config::parse(contents) {
        Ok(config) => Ok(config.get_search().cloned()),
        Err(resolv_conf::ParseError::InvalidUtf8(n, _)) => Err(ResolvConfError::InvalidUtf8(n)),
        Err(resolv_conf::ParseError::InvalidValue(n)) => Err(ResolvConfError::InvalidValue(n)),
        Err(resolv_conf::ParseError::InvalidOptionValue(n)) => Err(ResolvConfError::InvalidOptionValue(n)),
        Err(resolv_conf::ParseError::InvalidOption(n)) => Err(ResolvConfError::InvalidOption(n)),
        Err(resolv_conf::ParseError::InvalidDirective(n)) => Err(ResolvConfError::InvalidDirective(n)),
        Err(resolv_conf::ParseError::InvalidIp(n, _)) => Err(ResolvConfError::InvalidIp(n)),
        Err(resolv_conf::ParseError::ExtraData(n)) => Err(ResolvConfError::ExtraData(n)),
    }
}

/// A domain that holds a cluster's services.
pub open spec fn is_service_domain(domain: Seq<char>) -> bool {
    "svc."@.is_prefix_of(domain)
}

/// The first of the domains that holds a cluster's services.
pub open spec fn first_service_domain(domains: Seq<Seq<char>>) -> Option<Seq<char>>
    decreases domains.len(),
{
    if domains.len() == 0 {
        None
    } else if is_service_domain(domains.first()) {
        Some(domains.first())
    } else {
        first_service_domain(domains.drop_first())
    }
}

/// The first service domain of a search list that may be absent.
pub open spec fn search_domain(search: Option<Seq<Seq<char>>>) -> Option<Seq<char>> {
    match search {
        Some(domains) => first_service_domain(domains),
        None => None,
    }
}

/// The first domain of the search list that begins with `svc.`.
pub fn find_search_domain(search: &Option<Vec<String>>) -> (result: Option<String>)
    ensures
        result.deep_view() == search_domain(search.deep_view()),
{
    if let Some(domains) = search {
        let ghost all = domains.deep_view();
        let mut i: usize = 0;
        assert(all.skip(0) =~= all);
        while i < domains.len()
            invariant
                i <= domains.len(),
                all == domains.deep_view(),
                search.deep_view() == Some(all),
                first_service_domain(all) == first_service_domain(all.skip(i as int)),
            decreases domains.len() - i,
        {
            let domain = &domains[i];
            assert(all.skip(i as int).first() == domain@);
            assert(all.skip(i as int).drop_first() =~= all.skip(i + 1));
            if starts_with(domain.as_str(), SERVICE_DOMAIN_PREFIX) {
                return Some(domain.clone());
            }
            i += 1;
        }
    }
    None
}

/// The first domain that begins with `svc.` in the search list of a `resolv.conf`.
pub fn get_search_domain_from_resolv_conf(contents: &str) -> (result: Result<
    Option<String>,
    ResolvConfError,
>)
    ensures
        match parsed_search(contents@) {
            Ok(search) => result matches Ok(found) && found.deep_view() == search_domain(search),
            Err(error) => result matches Err(reported) && reported == error,
        },
{
    match parse_search(contents) {
        Ok(search) => Ok(find_search_domain(&search)),
        Err(error) => Err(error),
    }
}

/// Whether the service domain is known, or has to be looked for in `resolv.conf`.
#[derive(Debug, PartialEq, Eq)]
pub enum DomainLookup {
    /// The domain is known.
    Known(String),
    /// The search list of `resolv.conf` decides.
    ReadResolvConf,
}

/// A configured service domain is taken as it is; without one `resolv.conf` is read.
pub fn configured_cluster_domain(configured: Option<String>) -> (result: DomainLookup)
    ensures
        match configured {
            Some(domain) => result matches DomainLookup::Known(known) && known@ == domain@,
            None => result is ReadResolvConf,
        },
{
    match configured {
        Some(domain) => DomainLookup::Known(domain),
        None => DomainLookup::ReadResolvConf,
    }
}

/// The service domain, given what the search list holds.
pub fn cluster_domain(found: Option<String>) -> (result: String)
    ensures
        result@ == match found {
            Some(domain) => domain@,
            None => "svc.cluster.local"@,
        },
{
    match found {
        Some(domain) => domain,
        None => DEFAULT_DOMAIN.to_owned(),
    }
}

/// The image that gateways run where they do not name one.
pub fn fallback_image(configured: Option<String>) -> (result: String)
    ensures
        result@ == match configured {
            Some(image) => image@,
            None => "nginx:stable"@,
        },
{
    match configured {
        Some(image) => image,
        None => DEFAULT_IMAGE.to_owned(),
    }
}

/// The domain found is in the search list and begins with `svc.`, and no earlier one does; where
/// none is found, none begins so.
pub proof fn search_domain_is_the_first(domains: Seq<Seq<char>>)
    ensures
        match first_service_domain(domains) {
            Some(domain) => exists|i: int|
                {
                    &&& 0 <= i < domains.len()
                    &&& #[trigger] domains[i] == domain
                    &&& is_service_domain(domain)
                    &&& forall|j: int| 0 <= j < i ==> !is_service_domain(#[trigger] domains[j])
                },
            None => forall|i: int|
                0 <= i < domains.len() ==> !is_service_domain(#[trigger] domains[i]),
        },
    decreases domains.len(),
{
    if domains.len() > 0 && !is_service_domain(domains.first()) {
        let rest = domains.drop_first();
        search_domain_is_the_first(rest);
        assert forall|j: int| 0 < j < domains.len() implies domains[j] == #[trigger] rest[j - 1] by {}
        match first_service_domain(domains) {
            Some(domain) => {
                let i = choose|i: int|
                    {
                        &&& 0 <= i < rest.len()
                        &&& #[trigger] rest[i] == domain
                        &&& is_service_domain(domain)
                        &&& forall|j: int| 0 <= j < i ==> !is_service_domain(#[trigger] rest[j])
                    };
                assert(domains[i + 1] == domain);
                assert forall|j: int| 0 <= j < i + 1 implies !is_service_domain(
                    #[trigger] domains[j],
                ) by {
                    if j > 0 {
                        assert(rest[j - 1] == domains[j]);
                    }
                }
            },
            None => {
                assert forall|j: int| 0 <= j < domains.len() implies !is_service_domain(
                    #[trigger] domains[j],
                ) by {
                    if j > 0 {
                        assert(rest[j - 1] == domains[j]);
                    }
                }
            },
        }
    } else if domains.len() > 0 {
        assert(domains[0] == domains.first());
    }
}

/// Where a domain is found, it is an entry of the search list, its first four characters are
/// `svc.`, and no earlier entry begins with these; where none is found, no entry begins with them.
pub proof fn found_domain_begins_with_svc(search: Option<Seq<Seq<char>>>)
    ensures
        match search_domain(search) {
            Some(domain) => search is Some && exists|i: int|
                {
                    &&& 0 <= i < search->0.len()
                    &&& #[trigger] search->0[i] == domain
                    &&& domain.len() >= 4
                    &&& domain[0] == 's' && domain[1] == 'v' && domain[2] == 'c' && domain[3] == '.'
                    &&& forall|j: int|
                        0 <= j < i ==> !((#[trigger] search->0[j]).len() >= 4 && search->0[j].take(
                            4,
                        ) == seq!['s', 'v', 'c', '.'])
                },
            None => search matches Some(domains) ==> forall|j: int|
                0 <= j < domains.len() ==> !((#[trigger] domains[j]).len() >= 4 && domains[j].take(
                    4,
                ) == seq!['s', 'v', 'c', '.']),
        },
{
    reveal_strlit("svc.");
    assert("svc."@ =~= seq!['s', 'v', 'c', '.']);
    assert forall|domain: Seq<char>| #[trigger]
        is_service_domain(domain) == (domain.len() >= 4 && domain.take(4) == seq![
            's',
            'v',
            'c',
            '.',
        ]) by {}
    if let Some(domains) = search {
        search_domain_is_the_first(domains);
        if let Some(domain) = search_domain(search) {
            let i = choose|i: int|
                {
                    &&& 0 <= i < domains.len()
                    &&& #[trigger] domains[i] == domain
                    &&& is_service_domain(domain)
                    &&& forall|j: int| 0 <= j < i ==> !is_service_domain(#[trigger] domains[j])
                };
            assert(search->0[i] == domain);
            assert forall|j: int| 0 <= j < i implies !((#[trigger] search->0[j]).len() >= 4
                && search->0[j].take(4) == seq!['s', 'v', 'c', '.']) by {
                assert(!is_service_domain(domains[j]));
            }
            let four = domain.take(4);
            assert(four[0] == 's' && four[1] == 'v' && four[2] == 'c' && four[3] == '.');
        } else {
            assert forall|j: int| 0 <= j < domains.len() implies !((
            #[trigger] domains[j]).len() >= 4 && domains[j].take(4) == seq![
                's',
                'v',
                'c',
                '.',
            ]) by {
                assert(!is_service_domain(domains[j]));
            }
        }
    }
}

} // verus!
