use vstd::prelude::*;
use vstd::string::StrSliceExecFns;

verus! {

/// Whether `text` begins with `prefix`.
pub(crate) fn starts_with(text: &str, prefix: &str) -> (result: bool)
    ensures
        result == prefix@.is_prefix_of(text@),
{
    let length: usize = prefix.unicode_len();
    if text.unicode_len() < length {
        return false;
    }
    let mut i: usize = 0;
    while i < length
        invariant
            i <= length,
            length == prefix@.len(),
            length <= text@.len(),
            prefix@.take(i as int) == text@.take(i as int),
        decreases length - i,
    {
        if text.get_char(i) != prefix.get_char(i) {
            assert(text@.take(length as int)[i as int] == text@[i as int]);
            return false;
        }
        assert(prefix@.take(i + 1) =~= prefix@.take(i as int).push(prefix@[i as int]));
        assert(text@.take(i + 1) =~= text@.take(i as int).push(text@[i as int]));
        i += 1;
    }
    assert(prefix@.take(i as int) =~= prefix@);
    true
}

/// A copy of a text that may be absent.
pub(crate) fn clone_option(text: &Option<String>) -> (result: Option<String>)
    ensures
        result.deep_view() == text.deep_view(),
{
    match text {
        Some(text) => Some(text.clone()),
        None => None,
    }
}

} // verus!
