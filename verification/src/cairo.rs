//
// The boundary to the `cairo_lang_macro` crate: the types that a macro
// receives from and hands back to the host compiler, together with the one
// contract this library assumes about them.
//
use vstd::prelude::*;

verus! {

#[verifier::external_type_specification]
#[verifier::external_body]
pub struct ExTokenStream(cairo_lang_macro::TokenStream);

#[verifier::external_type_specification]
#[verifier::external_body]
pub struct ExAuxData(cairo_lang_macro::AuxData);

#[verifier::external_type_specification]
#[verifier::external_body]
pub struct ExDiagnostic(cairo_lang_macro::Diagnostic);

#[verifier::external_type_specification]
pub struct ExProcMacroResult(cairo_lang_macro::ProcMacroResult);

/// Relies on `cairo_lang_macro::ProcMacroResult::new`: it stores the given
/// token stream in the `token_stream` field and leaves every other field at
/// its default, that is no auxiliary data, no diagnostics and no full-path
/// markers.
pub assume_specification[ cairo_lang_macro::ProcMacroResult::new ](
    token_stream: cairo_lang_macro::TokenStream,
) -> (result: cairo_lang_macro::ProcMacroResult)
    ensures
        result.token_stream == token_stream,
        result.aux_data is None,
        result.diagnostics@ == Seq::<cairo_lang_macro::Diagnostic>::empty(),
        result.full_path_markers@ == Seq::<String>::empty(),
;

} // verus!
