//! Where an input came from and on whose authority it is submitted.

use vstd::prelude::*;

verus! {

/// The trusted origin assigned to an input.
///
/// Naming an origin grants nothing: admission separately checks a [`SubmissionAuthority`].
#[derive(Clone, Copy, Debug, PartialEq, Eq, Structural)]
pub enum InputOrigin {
    HumanExternalClient,
    HumanVoice,
    CorrelatedResponse,
    InternalAgent,
    SystemContinuation,
    Unknown,
}

/// The effect requested by an input.
#[derive(Clone, Copy, Debug, PartialEq, Eq, Structural)]
pub enum InputEffect {
    StartTurn,
    Say,
    Steer,
    Continue,
}

/// Authority of the code path that submits an input.
///
/// `AdministrativeRecovery` is distinct from every other authority and never obtains a permit.
#[derive(Clone, Copy, Debug, PartialEq, Eq, Structural)]
pub enum SubmissionAuthority {
    ExternalClient,
    Voice,
    CorrelatedResponse,
    InternalAgent,
    System,
    AdministrativeRecovery,
    Unknown,
}

/// Semantic class of an input, independent of the requested effect.
#[derive(Clone, Copy, Debug, PartialEq, Eq, Structural)]
pub enum InputClass {
    ExternalHuman,
    VoiceHuman,
    CorrelatedResponse,
    InternalAgent,
    SystemContinuation,
    Unknown,
}

/// Trusted provenance attached to work before admission is evaluated.
#[derive(Clone, Copy, Debug, PartialEq, Eq, Structural)]
pub struct InputProvenance {
    pub origin: InputOrigin,
    pub effect: InputEffect,
}

/// The class of each origin.
pub open spec fn class_of_origin(origin: InputOrigin) -> InputClass {
    match origin {
        InputOrigin::HumanExternalClient => InputClass::ExternalHuman,
        InputOrigin::HumanVoice => InputClass::VoiceHuman,
        InputOrigin::CorrelatedResponse => InputClass::CorrelatedResponse,
        InputOrigin::InternalAgent => InputClass::InternalAgent,
        InputOrigin::SystemContinuation => InputClass::SystemContinuation,
        InputOrigin::Unknown => InputClass::Unknown,
    }
}

impl InputProvenance {
    /// The class of the input. The requested effect plays no part in it.
    pub fn input_class(self) -> (class: InputClass)
        ensures
            class == class_of_origin(self.origin),
    {
        match self.origin {
            InputOrigin::HumanExternalClient => InputClass::ExternalHuman,
            InputOrigin::HumanVoice => InputClass::VoiceHuman,
            InputOrigin::CorrelatedResponse => InputClass::CorrelatedResponse,
            InputOrigin::InternalAgent => InputClass::InternalAgent,
            InputOrigin::SystemContinuation => InputClass::SystemContinuation,
            InputOrigin::Unknown => InputClass::Unknown,
        }
    }
}

/// The class of an input follows from its origin alone, and says of the party what the origin says:
/// who is human and who is not, and through what they speak.
pub proof fn a_class_says_what_the_origin_says(origin: InputOrigin)
    ensures
        class_of_origin(origin) is ExternalHuman <==> origin is HumanExternalClient,
        class_of_origin(origin) is VoiceHuman <==> origin is HumanVoice,
        class_of_origin(origin) is CorrelatedResponse <==> origin is CorrelatedResponse,
        class_of_origin(origin) is InternalAgent <==> origin is InternalAgent,
        class_of_origin(origin) is SystemContinuation <==> origin is SystemContinuation,
        class_of_origin(origin) is Unknown <==> origin is Unknown,
{
}

/// Distinct origins have distinct classes, so a class identifies the origin it was assigned from.
pub proof fn distinct_origins_have_distinct_classes(a: InputOrigin, b: InputOrigin)
    ensures
        class_of_origin(a) == class_of_origin(b) <==> a == b,
{
}

} // verus!
