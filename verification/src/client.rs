//! What the provider asks of an Unleash client.

use vstd::prelude::*;

use crate::context::{UnleashContext, UnleashContextView};
use crate::payload::{Variant, VariantView};

verus! {

/// A client that decides flags. What it decides may change from one call to the next, as flags
/// are edited and loaded anew, so its answers are described by what may be answered.
pub trait UnleashClient {
    /// The client may answer `enabled` for the flag in the context. A client that does not say
    /// otherwise may give any answer.
    open spec fn may_enable(
        &self,
        flag_key: Seq<char>,
        context: Option<UnleashContextView>,
        default: bool,
        enabled: bool,
    ) -> bool {
        true
    }

    /// The client may select the variant for the flag in the context. A client that does not say
    /// otherwise may select any.
    open spec fn may_select(
        &self,
        flag_key: Seq<char>,
        context: UnleashContextView,
        variant: VariantView,
    ) -> bool {
        true
    }

    /// Resolves a boolean flag.
    fn is_enabled(
        &self,
        flag_key: &str,
        context: Option<&UnleashContext>,
        default: bool,
    ) -> (enabled: bool)
        ensures
            self.may_enable(
                flag_key@,
                match context {
                    Some(context) => Some(context@),
                    None => None,
                },
                default,
                enabled,
            ),
    ;

    /// Resolves a variant by flag key.
    fn get_variant(&self, flag_key: &str, context: &UnleashContext) -> (variant: Variant)
        ensures
            self.may_select(flag_key@, context@, variant@),
    ;
}

} // verus!
