//
// An identity inline macro for the Cairo host compiler: the expansion of a
// call site is exactly the token stream that stood there, and the expansion
// carries no auxiliary data, no diagnostics and no full-path markers.
//
use vstd::prelude::*;

use cairo_lang_macro::Diagnostic;
use cairo_lang_macro::ProcMacroResult;
use cairo_lang_macro::TokenStream;

pub mod cairo;

verus! {

/// What the macro promises of its result: the result wraps the input token
/// stream unchanged, and every other part of the result is empty.
pub open spec fn is_identity_expansion(input: TokenStream, result: ProcMacroResult) -> bool {
    &&& result.token_stream == input
    &&& result.aux_data is None
    &&& result.diagnostics@ == Seq::<Diagnostic>::empty()
    &&& result.full_path_markers@ == Seq::<String>::empty()
}

/// The expansion of the macro: a success result wrapping the input token
/// stream, unmodified. The operation is total, raises no diagnostics and has
/// no side effects.
pub fn some(token_stream: TokenStream) -> (result: ProcMacroResult)
    ensures
        is_identity_expansion(token_stream, result),
        result.token_stream == token_stream,
{
    ProcMacroResult::new(token_stream)
}

/// The expansion is deterministic: any two results that the macro may return
/// for the same input token stream agree on every field. Together with
/// [`is_identity_expansion`] this pins the result down completely, so two
/// invocations on the same input yield the same result.
pub proof fn lemma_expansion_deterministic(
    input: TokenStream,
    first: ProcMacroResult,
    second: ProcMacroResult,
)
    requires
        is_identity_expansion(input, first),
        is_identity_expansion(input, second),
    ensures
        first.token_stream == second.token_stream,
        first.aux_data == second.aux_data,
        first.diagnostics@ == second.diagnostics@,
        first.full_path_markers@ == second.full_path_markers@,
{
}

} // verus!
