use vstd::prelude::*;
use crate::model::DeclVis;

verus! {

/// The sentinel tokens of the runtime metadata's visibility enumeration.
/// `Unknown` is the forward-compatibility sentinel for source forms the
/// translator does not recognize.
#[derive(Clone, Copy, PartialEq, Eq, Structural, Debug)]
pub enum VisSentinel {
    Public,
    Crate,
    Restricted,
    Inherited,
    Unknown,
}

/// What the visibility translator returns for each source form.
pub open spec fn translate_visibility_spec(v: DeclVis) -> VisSentinel {
    match v {
        DeclVis::Public => VisSentinel::Public,
        DeclVis::Crate => VisSentinel::Crate,
        DeclVis::Restricted => VisSentinel::Restricted,
        DeclVis::Inherited => VisSentinel::Inherited,
        DeclVis::Unrecognized => VisSentinel::Unknown,
    }
}

/// Maps each of the four known source-visibility forms one-to-one to its
/// sentinel token; any unrecognized form maps to `Unknown`. Translation never
/// fails.
pub fn translate_visibility(v: &DeclVis) -> (r: VisSentinel)
    ensures
        r == translate_visibility_spec(*v),
{
    match v {
        DeclVis::Public => VisSentinel::Public,
        DeclVis::Crate => VisSentinel::Crate,
        DeclVis::Restricted => VisSentinel::Restricted,
        DeclVis::Inherited => VisSentinel::Inherited,
        DeclVis::Unrecognized => VisSentinel::Unknown,
    }
}

/// Law: a public item always translates to the `Public` sentinel, and a
/// private (unmodified) item always translates to the `Inherited` sentinel.
pub proof fn lemma_visibility_round_trip()
    ensures
        translate_visibility_spec(DeclVis::Public) == VisSentinel::Public,
        translate_visibility_spec(DeclVis::Inherited) == VisSentinel::Inherited,
{
}

} // verus!
