use crate::error::{cause_line, cause_lines, error_context, ReconcileError};
use crate::routes_laws::lemma_flat_map_add;
use vstd::prelude::*;

verus! {

/// A report lists its causes one after the other: nothing for none, each behind a colon and a space
/// and with its own end of line, and those of a longer list in the order of the list.
pub proof fn causes_are_listed_in_order(
    cause: Seq<char>,
    first: Seq<Seq<char>>,
    second: Seq<Seq<char>>,
)
    ensures
        cause_lines(Seq::empty()) == Seq::<char>::empty(),
        cause_lines(seq![cause]) == seq![':', ' '] + cause + seq!['\n'],
        cause_lines(first + second) == cause_lines(first) + cause_lines(second),
{
    let f = |cause: Seq<char>| cause_line(cause);
    assert(cause_lines(Seq::empty()) =~= Seq::empty());
    seq![cause].lemma_flat_map_singleton(f);
    lemma_flat_map_add(first, second, f);
    reveal_strlit(": ");
    reveal_strlit("\n");
    assert(": "@ =~= seq![':', ' ']);
    assert("\n"@ =~= seq!['\n']);
}

/// What is said of an error: nothing exactly of a failed rendering, and else what could not be had
/// or done.
pub proof fn errors_say_what_failed(error: ReconcileError)
    ensures
        error_context(error) is None <==> error is RenderFailed,
        error is StoreNotReady ==> error_context(error)->0 == "Waiting for ingress to be ready"@,
        error is MissingName ==> error_context(error)->0 == "Missing object key .metadata.name"@,
        error is MissingNamespace ==> error_context(error)->0
            == "Missing object key .metadata.namespace"@,
        error is MissingUid ==> error_context(error)->0 == "Mising object key .spec"@,
        error is ConfigMapFailed ==> error_context(error)->0
            == "Failed to create or update config map"@,
        error is DeploymentFailed ==> error_context(error)->0 == "Deployment update failed"@,
        error is ServiceFailed ==> error_context(error)->0 == "Error creating service"@,
{
}

} // verus!
