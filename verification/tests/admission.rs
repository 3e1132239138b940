//! Tickets, the effect boundary, stopping fences and the lease as the controller governs them.

use voice_admission::voice_control::admission::{
    AdmissionController, AdmissionRequest, AdmissionTicket, BeginLeaseAcquireError,
    BeginStoppingError, CommitmentState, EffectBoundary, FencingError, FinishLeaseCloseError,
    IdleEpoch, NotSubmittedReason, ResolveEffectError, SubmissionResolution,
};
use voice_admission::voice_control::lease::{
    LeaseGeneration, VoiceLeaseId, VoiceLeaseState, VoiceLeaseTransitionError,
};
use voice_admission::voice_control::provenance::{
    InputEffect, InputOrigin, InputProvenance, SubmissionAuthority,
};

/// A moment on the clock, and how far a second is on it.
const NOW: u64 = 1_000_000;
const SECOND: u64 = 1_000_000_000;

#[derive(Default)]
struct ActiveTurn;

fn request(
    origin: InputOrigin,
    effect: InputEffect,
    authority: SubmissionAuthority,
    voice_lease_id: Option<VoiceLeaseId>,
) -> AdmissionRequest {
    AdmissionRequest {
        provenance: InputProvenance { origin, effect },
        authority,
        voice_lease_id,
    }
}

fn issue(
    controller: &AdmissionController,
    guard: &Option<ActiveTurn>,
    request: AdmissionRequest,
    now: u64,
) -> Result<AdmissionTicket, NotSubmittedReason> {
    controller.issue_ticket(guard, request, now, 10 * SECOND)
}

#[test]
fn voice_disabled_preserves_external_upstream_baseline() {
    let guard: Option<ActiveTurn> = None;
    let mut controller = AdmissionController::default();
    let now: u64 = NOW;
    let ticket = issue(
        &controller,
        &guard,
        request(
            InputOrigin::HumanExternalClient,
            InputEffect::StartTurn,
            SubmissionAuthority::ExternalClient,
            None,
        ),
        now,
    )
    .expect("baseline ticket");

    assert_eq!(ticket.commitment(), CommitmentState::Prepared);
    let boundary = controller
        .enter_effect_boundary(&guard, ticket, now)
        .expect("effect boundary");
    assert_eq!(boundary.commitment(), CommitmentState::Committing);
    assert_eq!(
        controller.resolve_effect_known(&guard, &boundary),
        Ok(SubmissionResolution::KnownResult)
    );
}

#[test]
fn active_lease_governs_external_unknown_and_voice_effects() {
    let guard: Option<ActiveTurn> = None;
    let mut controller = AdmissionController::default();
    let owner = VoiceLeaseId::new("owner");
    controller
        .begin_lease_acquire(&guard, owner.clone())
        .expect("acquire");
    controller.activate_lease(&guard, &owner).expect("activate");
    let now: u64 = NOW;
    let denied = [
        request(
            InputOrigin::HumanExternalClient,
            InputEffect::StartTurn,
            SubmissionAuthority::ExternalClient,
            None,
        ),
        request(
            InputOrigin::HumanExternalClient,
            InputEffect::Steer,
            SubmissionAuthority::ExternalClient,
            None,
        ),
        request(
            InputOrigin::HumanVoice,
            InputEffect::Say,
            SubmissionAuthority::Voice,
            Some(VoiceLeaseId::new("wrong")),
        ),
        request(
            InputOrigin::Unknown,
            InputEffect::StartTurn,
            SubmissionAuthority::Unknown,
            None,
        ),
        request(
            InputOrigin::Unknown,
            InputEffect::Continue,
            SubmissionAuthority::Unknown,
            None,
        ),
    ];

    assert!(denied.into_iter().all(|request| {
        issue(&controller, &guard, request, now).unwrap_err()
            == NotSubmittedReason::PermissionDenied
    }));
    assert!(
        issue(
            &controller,
            &guard,
            request(
                InputOrigin::HumanVoice,
                InputEffect::Say,
                SubmissionAuthority::Voice,
                Some(owner),
            ),
            now,
        )
        .is_ok()
    );
}

#[test]
fn voice_input_without_a_lease_is_denied() {
    let guard: Option<ActiveTurn> = None;
    let controller = AdmissionController::default();

    assert_eq!(
        issue(
            &controller,
            &guard,
            request(
                InputOrigin::HumanVoice,
                InputEffect::Say,
                SubmissionAuthority::Voice,
                None,
            ),
            NOW,
        )
        .unwrap_err(),
        NotSubmittedReason::PermissionDenied
    );
}

#[test]
fn administrative_recovery_never_receives_an_input_permit() {
    let guard: Option<ActiveTurn> = None;
    let controller = AdmissionController::default();
    let now: u64 = NOW;
    let attempts = [
        (InputOrigin::HumanExternalClient, InputEffect::StartTurn),
        (InputOrigin::HumanVoice, InputEffect::Say),
        (InputOrigin::HumanExternalClient, InputEffect::Steer),
        (InputOrigin::Unknown, InputEffect::Continue),
        (InputOrigin::InternalAgent, InputEffect::Continue),
        (InputOrigin::CorrelatedResponse, InputEffect::Continue),
    ];

    assert!(attempts.into_iter().all(|(origin, effect)| {
        issue(
            &controller,
            &guard,
            request(
                origin,
                effect,
                SubmissionAuthority::AdministrativeRecovery,
                None,
            ),
            now,
        )
        .unwrap_err()
            == NotSubmittedReason::PermissionDenied
    }));
}

#[test]
fn stale_generation_and_idle_epoch_are_rejected() {
    let guard: Option<ActiveTurn> = None;
    let mut controller = AdmissionController::default();
    let now: u64 = NOW;
    let external = || {
        request(
            InputOrigin::HumanExternalClient,
            InputEffect::StartTurn,
            SubmissionAuthority::ExternalClient,
            None,
        )
    };
    let generation_ticket = issue(&controller, &guard, external(), now).expect("ticket");
    controller
        .begin_lease_acquire(&guard, VoiceLeaseId::new("voice-session"))
        .expect("acquire");
    assert_eq!(
        controller
            .enter_effect_boundary(&guard, generation_ticket, now)
            .unwrap_err(),
        NotSubmittedReason::StaleGeneration
    );

    let mut controller = AdmissionController::default();
    let epoch_ticket = issue(&controller, &guard, external(), now).expect("ticket");
    controller
        .record_idle_transition(&guard)
        .expect("idle transition");
    assert_eq!(
        controller
            .enter_effect_boundary(&guard, epoch_ticket, now)
            .unwrap_err(),
        NotSubmittedReason::StaleIdleEpoch
    );
}

#[test]
fn deadline_is_checked_deterministically_before_the_effect_boundary() {
    let guard: Option<ActiveTurn> = None;
    let mut controller = AdmissionController::default();
    let now: u64 = NOW;
    let ticket = controller
        .issue_ticket(
            &guard,
            request(
                InputOrigin::HumanExternalClient,
                InputEffect::StartTurn,
                SubmissionAuthority::ExternalClient,
                None,
            ),
            now,
            5 * SECOND,
        )
        .expect("ticket");

    assert_eq!(
        controller
            .enter_effect_boundary(&guard, ticket, now + 5 * SECOND,)
            .unwrap_err(),
        NotSubmittedReason::TicketExpired
    );
}

#[test]
fn waiter_loss_after_effect_boundary_is_unknown_not_busy() {
    let guard: Option<ActiveTurn> = None;
    let mut controller = AdmissionController::default();
    let now: u64 = NOW;
    let ticket = issue(
        &controller,
        &guard,
        request(
            InputOrigin::HumanExternalClient,
            InputEffect::StartTurn,
            SubmissionAuthority::ExternalClient,
            None,
        ),
        now,
    )
    .expect("ticket");
    let boundary = controller
        .enter_effect_boundary(&guard, ticket, now)
        .expect("effect boundary");

    assert_eq!(
        controller.resolve_effect_unknown(&guard, &boundary),
        Ok(SubmissionResolution::UnknownResult)
    );
}

#[test]
fn stopping_fence_rejects_replacement_and_stale_finalizers() {
    let mut guard: Option<ActiveTurn> = None;
    let mut controller = AdmissionController::default();
    let generation = controller
        .begin_stopping(&guard, "turn-a".to_string())
        .expect("stopping fence");

    assert_eq!(
        controller.begin_stopping(&guard, "turn-b".to_string()),
        Err(BeginStoppingError::AlreadyStopping)
    );
    assert!(!controller.finish_stopping(&guard, "turn-b", generation));
    assert!(!controller.finish_stopping(&guard, "turn-a", generation + 1));
    guard = Some(ActiveTurn::default());
    assert!(!controller.finish_stopping(&guard, "turn-a", generation));
    guard = None;
    assert!(controller.finish_stopping(&guard, "turn-a", generation));
    assert!(!controller.finish_stopping(&guard, "turn-a", generation));
    let successor_generation = controller
        .begin_stopping(&guard, "turn-b".to_string())
        .expect("successor fence");
    assert!(!controller.finish_stopping(&guard, "turn-a", generation));
    assert!(controller.finish_stopping(&guard, "turn-b", successor_generation));
}

#[test]
fn provenance_and_authority_must_match_explicitly() {
    let guard: Option<ActiveTurn> = None;
    let controller = AdmissionController::default();
    let now: u64 = NOW;
    let cases = [
        (
            InputOrigin::InternalAgent,
            SubmissionAuthority::InternalAgent,
            true,
        ),
        (
            InputOrigin::SystemContinuation,
            SubmissionAuthority::System,
            true,
        ),
        (
            InputOrigin::CorrelatedResponse,
            SubmissionAuthority::CorrelatedResponse,
            true,
        ),
        (
            InputOrigin::InternalAgent,
            SubmissionAuthority::ExternalClient,
            false,
        ),
        (
            InputOrigin::SystemContinuation,
            SubmissionAuthority::InternalAgent,
            false,
        ),
        (
            InputOrigin::CorrelatedResponse,
            SubmissionAuthority::System,
            false,
        ),
        (
            InputOrigin::HumanExternalClient,
            SubmissionAuthority::Unknown,
            false,
        ),
        (
            InputOrigin::Unknown,
            SubmissionAuthority::ExternalClient,
            false,
        ),
    ];

    assert!(cases.into_iter().all(|(origin, authority, expected)| {
        issue(
            &controller,
            &guard,
            request(origin, InputEffect::Continue, authority, None),
            now,
        )
        .is_ok()
            == expected
    }));
}

#[test]
fn lease_acquisition_requires_idle_without_a_stopping_fence() {
    let mut guard: Option<ActiveTurn> = Some(ActiveTurn::default());
    let mut controller = AdmissionController::default();

    assert_eq!(
        controller.begin_lease_acquire(&guard, VoiceLeaseId::new("busy")),
        Err(BeginLeaseAcquireError::Busy)
    );
    guard = None;
    controller
        .begin_stopping(&guard, "stopping-turn".to_string())
        .expect("stopping fence");
    assert_eq!(
        controller.begin_lease_acquire(&guard, VoiceLeaseId::new("stopping")),
        Err(BeginLeaseAcquireError::Stopping)
    );

    let mut controller = AdmissionController::default();
    assert!(
        controller
            .begin_lease_acquire(&guard, VoiceLeaseId::new("idle"))
            .is_ok()
    );
}

#[test]
fn epoch_and_stopping_generation_overflow_fail_closed() {
    let guard: Option<ActiveTurn> = None;
    let mut controller = AdmissionController::default();
    controller
        .authority
        .idle_epoch = IdleEpoch(u64::MAX);
    assert_eq!(
        controller.record_idle_transition(&guard),
        Err(FencingError::GenerationExhausted)
    );
    assert_eq!(
        issue(
            &controller,
            &guard,
            request(
                InputOrigin::HumanExternalClient,
                InputEffect::StartTurn,
                SubmissionAuthority::ExternalClient,
                None,
            ),
            NOW,
        )
        .unwrap_err(),
        NotSubmittedReason::FencingExhausted
    );

    let mut controller = AdmissionController::default();
    controller
        .authority
        .stopping_generation = u64::MAX;
    assert_eq!(
        controller.begin_stopping(&guard, "turn".to_string()),
        Err(BeginStoppingError::GenerationExhausted)
    );
    assert_eq!(
        issue(
            &controller,
            &guard,
            request(
                InputOrigin::HumanExternalClient,
                InputEffect::StartTurn,
                SubmissionAuthority::ExternalClient,
                None,
            ),
            NOW,
        )
        .unwrap_err(),
        NotSubmittedReason::FencingExhausted
    );

    let mut controller = AdmissionController::default();
    let now: u64 = NOW;
    let ticket = issue(
        &controller,
        &guard,
        request(
            InputOrigin::HumanExternalClient,
            InputEffect::StartTurn,
            SubmissionAuthority::ExternalClient,
            None,
        ),
        now,
    )
    .expect("ticket");
    controller
        .authority
        .next_effect_operation_id = u64::MAX;
    assert_eq!(
        controller
            .enter_effect_boundary(&guard, ticket, now)
            .unwrap_err(),
        NotSubmittedReason::FencingExhausted
    );
}

fn activate_voice_lease(
    controller: &mut AdmissionController,
    guard: &Option<ActiveTurn>,
    lease_id: &VoiceLeaseId,
) {
    controller
        .begin_lease_acquire(guard, lease_id.clone())
        .expect("acquire");
    controller
        .activate_lease(guard, lease_id)
        .expect("activate");
}

fn open_voice_effect(
    controller: &mut AdmissionController,
    guard: &Option<ActiveTurn>,
    lease_id: &VoiceLeaseId,
    now: u64,
) -> EffectBoundary {
    let ticket = issue(
        controller,
        guard,
        request(
            InputOrigin::HumanVoice,
            InputEffect::Say,
            SubmissionAuthority::Voice,
            Some(lease_id.clone()),
        ),
        now,
    )
    .expect("voice ticket");
    controller
        .enter_effect_boundary(guard, ticket, now)
        .expect("effect boundary")
}

#[test]
fn finish_close_requires_no_active_turn_or_stopping_fence() {
    let mut guard: Option<ActiveTurn> = None;
    let mut controller = AdmissionController::default();
    let lease_id = VoiceLeaseId::new("voice-session");
    activate_voice_lease(&mut controller, &guard, &lease_id);
    controller
        .begin_lease_close(&guard, &lease_id)
        .expect("begin close");

    guard = Some(ActiveTurn::default());
    assert_eq!(
        controller.finish_lease_close(&guard, &lease_id),
        Err(FinishLeaseCloseError::ActiveTurn)
    );
    guard = None;
    controller
        .begin_stopping(&guard, "turn".to_string())
        .expect("stopping fence");
    assert_eq!(
        controller.finish_lease_close(&guard, &lease_id),
        Err(FinishLeaseCloseError::Stopping)
    );
}

#[test]
fn open_effect_boundary_prevents_close_until_exact_known_resolution() {
    let guard: Option<ActiveTurn> = None;
    let mut controller = AdmissionController::default();
    let lease_id = VoiceLeaseId::new("voice-session");
    activate_voice_lease(&mut controller, &guard, &lease_id);
    let now: u64 = NOW;
    let first = open_voice_effect(&mut controller, &guard, &lease_id, now);
    let second = open_voice_effect(&mut controller, &guard, &lease_id, now);
    controller
        .begin_lease_close(&guard, &lease_id)
        .expect("begin close");

    assert_eq!(
        controller.finish_lease_close(&guard, &lease_id),
        Err(FinishLeaseCloseError::EffectInFlight)
    );
    assert_eq!(
        controller.resolve_effect_known(&guard, &first),
        Ok(SubmissionResolution::KnownResult)
    );
    assert_eq!(
        controller.resolve_effect_known(&guard, &first),
        Err(ResolveEffectError::UnknownOperation)
    );
    assert_eq!(
        controller.finish_lease_close(&guard, &lease_id),
        Err(FinishLeaseCloseError::EffectInFlight)
    );
    assert_eq!(
        controller.resolve_effect_known(&guard, &second),
        Ok(SubmissionResolution::KnownResult)
    );
    assert_eq!(controller.finish_lease_close(&guard, &lease_id), Ok(()));
}

#[test]
fn stale_handle_cannot_resolve_a_successor_operation() {
    let guard: Option<ActiveTurn> = None;
    let mut controller = AdmissionController::default();
    let lease_id = VoiceLeaseId::new("voice-session");
    activate_voice_lease(&mut controller, &guard, &lease_id);
    let now: u64 = NOW;
    let stale = open_voice_effect(&mut controller, &guard, &lease_id, now);
    controller
        .resolve_effect_known(&guard, &stale)
        .expect("resolve first effect");
    let successor = open_voice_effect(&mut controller, &guard, &lease_id, now);

    assert_eq!(
        controller.resolve_effect_known(&guard, &stale),
        Err(ResolveEffectError::UnknownOperation)
    );
    controller
        .begin_lease_close(&guard, &lease_id)
        .expect("begin close");
    assert_eq!(
        controller.finish_lease_close(&guard, &lease_id),
        Err(FinishLeaseCloseError::EffectInFlight)
    );
    assert_eq!(
        controller.resolve_effect_known(&guard, &successor),
        Ok(SubmissionResolution::KnownResult)
    );
}

#[test]
fn unknown_effect_requires_recovery_and_never_releases_automatically() {
    let guard: Option<ActiveTurn> = None;
    let mut controller = AdmissionController::default();
    let lease_id = VoiceLeaseId::new("voice-session");
    activate_voice_lease(&mut controller, &guard, &lease_id);
    let boundary = open_voice_effect(&mut controller, &guard, &lease_id, NOW);
    controller
        .begin_lease_close(&guard, &lease_id)
        .expect("begin close");

    assert_eq!(
        controller.resolve_effect_unknown(&guard, &boundary),
        Ok(SubmissionResolution::UnknownResult)
    );
    assert_eq!(
        controller.resolve_effect_unknown(&guard, &boundary),
        Err(ResolveEffectError::AlreadyResolved)
    );
    assert_eq!(
        controller.finish_lease_close(&guard, &lease_id),
        Err(FinishLeaseCloseError::RecoveryRequired)
    );
    assert_eq!(
        controller.begin_lease_acquire(&guard, VoiceLeaseId::new("successor")),
        Err(BeginLeaseAcquireError::RecoveryRequired)
    );
    assert!(matches!(
        controller
            .authority
            .lease
            .state(),
        VoiceLeaseState::RecoveryRequired { .. }
    ));
}

fn external() -> AdmissionRequest {
    request(
        InputOrigin::HumanExternalClient,
        InputEffect::StartTurn,
        SubmissionAuthority::ExternalClient,
        None,
    )
}

#[test]
fn a_busy_session_prepares_and_delivers_nothing() {
    let mut guard: Option<ActiveTurn> = None;
    let mut controller = AdmissionController::default();
    let ticket = issue(&controller, &guard, external(), NOW).expect("ticket");
    guard = Some(ActiveTurn::default());
    assert_eq!(
        issue(&controller, &guard, external(), NOW).unwrap_err(),
        NotSubmittedReason::Busy
    );
    assert_eq!(
        controller.enter_effect_boundary(&guard, ticket, NOW).unwrap_err(),
        NotSubmittedReason::Busy
    );
}

#[test]
fn a_stopping_fence_holds_tickets_and_deliveries() {
    let guard: Option<ActiveTurn> = None;
    let mut controller = AdmissionController::default();
    let ticket = issue(&controller, &guard, external(), NOW).expect("ticket");
    let generation = controller.begin_stopping(&guard, "turn".to_string()).expect("fence");
    assert_eq!(generation, 1);
    assert_eq!(
        issue(&controller, &guard, external(), NOW).unwrap_err(),
        NotSubmittedReason::Stopping
    );
    assert_eq!(
        controller.enter_effect_boundary(&guard, ticket, NOW).unwrap_err(),
        NotSubmittedReason::Stopping
    );
    let ticket = {
        assert!(controller.finish_stopping(&guard, "turn", generation));
        issue(&controller, &guard, external(), NOW).expect("ticket after the fence")
    };
    assert!(controller.enter_effect_boundary(&guard, ticket, NOW).is_ok());
}

#[test]
fn a_deadline_beyond_the_clock_has_passed_at_once() {
    let guard: Option<ActiveTurn> = None;
    let mut controller = AdmissionController::default();
    let ticket = controller.issue_ticket(&guard, external(), NOW, u64::MAX).expect("ticket");
    assert_eq!(
        controller.enter_effect_boundary(&guard, ticket, NOW).unwrap_err(),
        NotSubmittedReason::TicketExpired
    );
    let ticket = controller.issue_ticket(&guard, external(), NOW, 5).expect("ticket");
    assert!(controller.enter_effect_boundary(&guard, ticket, NOW + 4).is_ok());
}

#[test]
fn an_open_delivery_keeps_the_lease_from_being_acquired() {
    let guard: Option<ActiveTurn> = None;
    let mut controller = AdmissionController::default();
    let ticket = issue(&controller, &guard, external(), NOW).expect("ticket");
    let boundary = controller.enter_effect_boundary(&guard, ticket, NOW).expect("boundary");
    assert_eq!(
        controller.begin_lease_acquire(&guard, VoiceLeaseId::new("voice-session")),
        Err(BeginLeaseAcquireError::EffectInFlight)
    );
    controller.resolve_effect_known(&guard, &boundary).expect("resolved");
    assert_eq!(
        controller.begin_lease_acquire(&guard, VoiceLeaseId::new("voice-session")),
        Ok(LeaseGeneration(1))
    );
    assert_eq!(
        controller.begin_lease_acquire(&guard, VoiceLeaseId::new("second")),
        Err(BeginLeaseAcquireError::LeaseTransition(VoiceLeaseTransitionError::NotFree))
    );
    assert_eq!(
        controller.finish_lease_close(&guard, &VoiceLeaseId::new("voice-session")),
        Err(FinishLeaseCloseError::LeaseTransition(VoiceLeaseTransitionError::WrongState))
    );
}

#[test]
fn a_handle_of_another_generation_resolves_nothing() {
    let guard: Option<ActiveTurn> = None;
    let lease_id = VoiceLeaseId::new("voice-session");
    let mut other = AdmissionController::default();
    let ticket = issue(&other, &guard, external(), NOW).expect("ticket");
    let foreign = other.enter_effect_boundary(&guard, ticket, NOW).expect("boundary");
    let mut controller = AdmissionController::default();
    activate_voice_lease(&mut controller, &guard, &lease_id);
    let own = open_voice_effect(&mut controller, &guard, &lease_id, NOW);
    assert_eq!(
        controller.resolve_effect_known(&guard, &foreign),
        Err(ResolveEffectError::StaleGeneration)
    );
    assert_eq!(
        controller.resolve_effect_known(&guard, &own),
        Ok(SubmissionResolution::KnownResult)
    );
}

#[test]
fn exhausted_fencing_holds_everything_for_good() {
    let guard: Option<ActiveTurn> = None;
    let lease_id = VoiceLeaseId::new("voice-session");
    let mut controller = AdmissionController::default();
    activate_voice_lease(&mut controller, &guard, &lease_id);
    controller.authority.lease.generation = LeaseGeneration(u64::MAX);
    let boundary = open_voice_effect(&mut controller, &guard, &lease_id, NOW);
    assert_eq!(
        controller.resolve_effect_unknown(&guard, &boundary),
        Err(ResolveEffectError::FencingExhausted)
    );
    assert_eq!(
        controller.begin_lease_acquire(&guard, lease_id.clone()),
        Err(BeginLeaseAcquireError::FencingExhausted)
    );
    assert_eq!(
        controller.finish_lease_close(&guard, &lease_id),
        Err(FinishLeaseCloseError::FencingExhausted)
    );

    let mut controller = AdmissionController::default();
    let generation = controller.begin_stopping(&guard, "turn".to_string()).expect("fence");
    controller.authority.idle_epoch = IdleEpoch(u64::MAX);
    assert!(!controller.finish_stopping(&guard, "turn", generation));
    assert!(controller.authority.fencing_exhausted);
    assert!(controller.authority.stopping.is_some());
}

#[test]
fn every_fence_has_a_generation_of_its_own() {
    let guard: Option<ActiveTurn> = None;
    let mut controller = AdmissionController::default();
    for expected in 1..=3 {
        let generation = controller.begin_stopping(&guard, "turn".to_string()).expect("fence");
        assert_eq!(generation, expected);
        assert!(controller.begin_stopping(&guard, "other".to_string()).is_err());
        assert!(controller.finish_stopping(&guard, "turn", generation));
    }
    assert_eq!(controller.authority.stopping_generation, 3);
}
