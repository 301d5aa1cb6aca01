use vstd::prelude::*;
use vstd::string::StringExecFns;

verus! {

/// Why a gateway was not brought up to date.
#[derive(Debug, Clone, Copy, PartialEq, Eq)]
pub enum ReconcileError {
    /// The ingresses of the cluster did not become available.
    StoreNotReady,
    /// The gateway has no name.
    MissingName,
    /// The gateway has no namespace.
    MissingNamespace,
    /// The gateway has no unique identifier.
    MissingUid,
    /// The proxy's configuration could not be rendered.
    RenderFailed,
    /// The cluster refused the config map.
    ConfigMapFailed,
    /// The cluster refused the deployment.
    DeploymentFailed,
    /// The cluster refused a service.
    ServiceFailed,
}

impl DeepView for ReconcileError {
    type V = ReconcileError;

    open spec fn deep_view(&self) -> ReconcileError {
        *self
    }
}

/// What is said of an error, in front of what caused it; of a failed rendering nothing is said.
pub open spec fn error_context(error: ReconcileError) -> Option<Seq<char>> {
    match error {
        ReconcileError::StoreNotReady => Some("Waiting for ingress to be ready"@),
        ReconcileError::MissingName => Some("Missing object key .metadata.name"@),
        ReconcileError::MissingNamespace => Some("Missing object key .metadata.namespace"@),
        ReconcileError::MissingUid => Some("Mising object key .spec"@),
        ReconcileError::RenderFailed => None,
        ReconcileError::ConfigMapFailed => Some("Failed to create or update config map"@),
        ReconcileError::DeploymentFailed => Some("Deployment update failed"@),
        ReconcileError::ServiceFailed => Some("Error creating service"@),
    }
}

impl ReconcileError {
    /// What is said of the error, in front of what caused it.
    pub fn context(&self) -> (result: Option<String>)
        ensures
            result.deep_view() == error_context(*self),
    {
        match self {
            ReconcileError::StoreNotReady => Some("Waiting for ingress to be ready".to_owned()),
            ReconcileError::MissingName => Some("Missing object key .metadata.name".to_owned()),
            ReconcileError::MissingNamespace => Some(
                "Missing object key .metadata.namespace".to_owned(),
            ),
            ReconcileError::MissingUid => Some("Mising object key .spec".to_owned()),
            ReconcileError::RenderFailed => None,
            ReconcileError::ConfigMapFailed => Some(
                "Failed to create or update config map".to_owned(),
            ),
            ReconcileError::DeploymentFailed => Some("Deployment update failed".to_owned()),
            ReconcileError::ServiceFailed => Some("Error creating service".to_owned()),
        }
    }
}

/// One cause of a failure, as a report lists it.
pub open spec fn cause_line(cause: Seq<char>) -> Seq<char> {
    ": "@ + cause + "\n"@
}

/// The lines of the causes.
pub open spec fn cause_lines(causes: Seq<Seq<char>>) -> Seq<char> {
    causes.flat_map(|cause: Seq<char>| cause_line(cause))
}

/// The report of a failure: its message, then each of its causes, from the nearest to the
/// farthest, behind a colon and with its own end of line.
pub fn failure_report(message: String, causes: &Vec<String>) -> (result: String)
    ensures
        result@ == message@ + cause_lines(causes.deep_view()),
{
    let ghost all = causes.deep_view();
    let ghost head = message@;
    let mut result = message;
    let mut i: usize = 0;
    assert(all.take(0) =~= Seq::<Seq<char>>::empty());
    assert(head + cause_lines(all.take(0)) =~= head);
    while i < causes.len()
        invariant
            i <= causes.len(),
            all == causes.deep_view(),
            result@ == head + cause_lines(all.take(i as int)),
        decreases causes.len() - i,
    {
        proof {
            all.lemma_flat_map_take_append(|cause: Seq<char>| cause_line(cause), i as int);
        }
        result = result.concat(": ").concat(causes[i].as_str()).concat("\n");
        assert(result@ =~= head + (cause_lines(all.take(i as int)) + cause_line(all[i as int])));
        i += 1;
    }
    assert(all.take(i as int) =~= all);
    result
}

} // verus!
