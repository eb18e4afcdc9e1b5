//! The provider: evaluation contexts in, resolved flags out.

use vstd::prelude::*;

use crate::client::UnleashClient;
use crate::context::{to_unleash_context, unleash_context, EvaluationContext};
use crate::evaluation::{describes, EvaluationResult, ResolutionDetails};
use crate::payload::{
    bool_details, int_details, int_of_variant, number_details, number_types, object_details,
    object_of_variant, selected_payload, string_details, string_of_variant, struct_details,
    struct_of_variant, variant_details, VariantView,
};
use crate::text::texts;
use crate::value::{FlagValue, StructValue};

verus! {

/// What a provider says of itself.
#[derive(Debug)]
pub struct ProviderMetadata {
    pub name: String,
}

/// Resolves flags through an Unleash client.
pub struct UnleashFlagProvider<C> {
    client: C,
    metadata: ProviderMetadata,
}

/// The client may select the variant for the flag in the evaluation context.
pub open spec fn selects<C: UnleashClient>(
    client: C,
    flag_key: Seq<char>,
    evaluation_context: EvaluationContext,
    variant: VariantView,
) -> bool {
    client.may_select(flag_key, unleash_context(evaluation_context@), variant)
}

impl<C> UnleashFlagProvider<C> {
    /// The client behind the provider.
    pub closed spec fn spec_client(&self) -> C {
        self.client
    }

    /// The metadata of the provider.
    pub closed spec fn spec_metadata(&self) -> ProviderMetadata {
        self.metadata
    }
}

impl<C: UnleashClient> UnleashFlagProvider<C> {
    /// A provider that asks `client`.
    pub fn new(client: C) -> (provider: Self)
        ensures
            provider.spec_client() == client,
            provider.spec_metadata().name@ == "Unleash OpenFeature Provider"@,
    {
        UnleashFlagProvider {
            client,
            metadata: ProviderMetadata { name: "Unleash OpenFeature Provider".to_owned() },
        }
    }

    /// The metadata of the provider.
    pub fn metadata(&self) -> (metadata: &ProviderMetadata)
        ensures
            *metadata == self.spec_metadata(),
    {
        &self.metadata
    }

    /// Resolves whether a flag is enabled, with `false` as the default that the client is given.
    pub fn resolve_bool_value(
        &self,
        flag_key: &str,
        evaluation_context: &EvaluationContext,
    ) -> (result: EvaluationResult<ResolutionDetails<bool>>)
        ensures
            result matches Ok(details) && self.spec_client().may_enable(
                flag_key@,
                Some(unleash_context(evaluation_context@)),
                false,
                details.value,
            ) && describes(details, None),
    {
        let context = to_unleash_context(evaluation_context);
        let value = self.client.is_enabled(flag_key, Some(&context), false);
        Ok(bool_details(value))
    }

    /// Resolves a flag to what `convert` makes of the payload of its variant.
    pub fn resolve_variant_value<T, F: FnOnce(&str) -> EvaluationResult<T>>(
        &self,
        flag_key: &str,
        evaluation_context: &EvaluationContext,
        payload_types: &[&str],
        convert: F,
    ) -> (result: EvaluationResult<ResolutionDetails<T>>)
        requires
            forall|text: &str| #[trigger] convert.requires((text,)),
        ensures
            exists|variant: VariantView| #[trigger]
                selects(self.spec_client(), flag_key@, *evaluation_context, variant)
                    && match selected_payload(variant, texts(payload_types@)) {
                    Ok(payload) => exists|text: &str, outcome: EvaluationResult<T>|
                        text@ == payload && #[trigger] convert.ensures((text,), outcome)
                            && match outcome {
                            Ok(value) => result matches Ok(details) && details.value == value
                                && describes(details, Some(variant.name)),
                            Err(error) => result == EvaluationResult::<ResolutionDetails<T>>::Err(
                                error,
                            ),
                        },
                    Err(expected) => result matches Err(error) && error@ == expected,
                },
    {
        let context = to_unleash_context(evaluation_context);
        let variant = self.client.get_variant(flag_key, &context);
        assert(selects(self.spec_client(), flag_key@, *evaluation_context, variant@));
        variant_details(&variant, payload_types, convert)
    }

    /// Resolves a flag to an integer.
    pub fn resolve_int_value(
        &self,
        flag_key: &str,
        evaluation_context: &EvaluationContext,
    ) -> (result: EvaluationResult<ResolutionDetails<i64>>)
        ensures
            exists|variant: VariantView| #[trigger]
                selects(self.spec_client(), flag_key@, *evaluation_context, variant)
                    && match int_of_variant(variant) {
                    Ok(expected) => result matches Ok(details) && details.value == expected
                        && describes(details, Some(variant.name)),
                    Err(expected) => result matches Err(error) && error@ == expected,
                },
    {
        let context = to_unleash_context(evaluation_context);
        let variant = self.client.get_variant(flag_key, &context);
        assert(selects(self.spec_client(), flag_key@, *evaluation_context, variant@));
        int_details(&variant)
    }

    /// Resolves a flag to a floating-point number, in the type that `parse` knows.
    pub fn resolve_float_value<T, F: FnOnce(&str) -> EvaluationResult<T>>(
        &self,
        flag_key: &str,
        evaluation_context: &EvaluationContext,
        parse: F,
    ) -> (result: EvaluationResult<ResolutionDetails<T>>)
        requires
            forall|text: &str| #[trigger] parse.requires((text,)),
        ensures
            exists|variant: VariantView| #[trigger]
                selects(self.spec_client(), flag_key@, *evaluation_context, variant)
                    && match selected_payload(variant, number_types()) {
                    Ok(payload) => exists|text: &str, outcome: EvaluationResult<T>|
                        text@ == payload && #[trigger] parse.ensures((text,), outcome)
                            && match outcome {
                            Ok(value) => result matches Ok(details) && details.value == value
                                && describes(details, Some(variant.name)),
                            Err(error) => result == EvaluationResult::<ResolutionDetails<T>>::Err(
                                error,
                            ),
                        },
                    Err(expected) => result matches Err(error) && error@ == expected,
                },
    {
        let context = to_unleash_context(evaluation_context);
        let variant = self.client.get_variant(flag_key, &context);
        assert(selects(self.spec_client(), flag_key@, *evaluation_context, variant@));
        number_details(&variant, parse)
    }

    /// Resolves a flag to a text.
    pub fn resolve_string_value(
        &self,
        flag_key: &str,
        evaluation_context: &EvaluationContext,
    ) -> (result: EvaluationResult<ResolutionDetails<String>>)
        ensures
            exists|variant: VariantView| #[trigger]
                selects(self.spec_client(), flag_key@, *evaluation_context, variant)
                    && match string_of_variant(variant) {
                    Ok(expected) => result matches Ok(details) && details.value@ == expected
                        && describes(details, Some(variant.name)),
                    Err(expected) => result matches Err(error) && error@ == expected,
                },
    {
        let context = to_unleash_context(evaluation_context);
        let variant = self.client.get_variant(flag_key, &context);
        assert(selects(self.spec_client(), flag_key@, *evaluation_context, variant@));
        string_details(&variant)
    }

    /// Resolves a flag to a value of any kind.
    pub fn resolve_object_value_details(
        &self,
        flag_key: &str,
        evaluation_context: &EvaluationContext,
    ) -> (result: EvaluationResult<ResolutionDetails<FlagValue>>)
        ensures
            exists|variant: VariantView| #[trigger]
                selects(self.spec_client(), flag_key@, *evaluation_context, variant)
                    && match object_of_variant(variant) {
                    Ok(expected) => result matches Ok(details) && details.value@ == expected
                        && describes(details, Some(variant.name)),
                    Err(expected) => result matches Err(error) && error@ == expected,
                },
    {
        let context = to_unleash_context(evaluation_context);
        let variant = self.client.get_variant(flag_key, &context);
        assert(selects(self.spec_client(), flag_key@, *evaluation_context, variant@));
        object_details(&variant)
    }

    /// Resolves a flag to a structure.
    pub fn resolve_struct_value(
        &self,
        flag_key: &str,
        evaluation_context: &EvaluationContext,
    ) -> (result: EvaluationResult<ResolutionDetails<StructValue>>)
        ensures
            exists|variant: VariantView| #[trigger]
                selects(self.spec_client(), flag_key@, *evaluation_context, variant)
                    && match struct_of_variant(variant) {
                    Ok(expected) => result matches Ok(details) && details.value@ == expected
                        && describes(details, Some(variant.name)),
                    Err(expected) => result matches Err(error) && error@ == expected,
                },
    {
        match self.resolve_object_value_details(flag_key, evaluation_context) {
            Ok(details) => struct_details(details),
            Err(error) => Err(error),
        }
    }
}

} // verus!
