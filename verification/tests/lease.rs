//! The voice lease on its own.

use voice_admission::voice_control::lease::{
    LeaseGeneration, VoiceLease, VoiceLeaseId, VoiceLeaseState, VoiceLeaseTransitionError,
};

#[test]
fn lease_follows_the_explicit_lifecycle() {
    let lease_id = VoiceLeaseId::new("voice-session");
    let mut lease = VoiceLease::default();

    let acquired_generation = lease.begin_acquire(lease_id.clone()).expect("acquire");
    assert_eq!(lease.state(), &VoiceLeaseState::Acquiring { lease_id: lease_id.clone() });
    lease.activate(&lease_id).expect("activate");
    assert_eq!(lease.state(), &VoiceLeaseState::Active { lease_id: lease_id.clone() });
    lease.begin_close(&lease_id).expect("begin close");
    assert_eq!(lease.state(), &VoiceLeaseState::Closing { lease_id: lease_id.clone() });
    lease.finish_close(&lease_id).expect("finish close");

    assert_eq!(lease.state(), &VoiceLeaseState::Free);
    assert_ne!(lease.generation(), Ok(acquired_generation));
    assert_eq!(lease.generation(), Ok(LeaseGeneration(2)));
}

#[test]
fn uncertainty_fails_closed_instead_of_releasing_the_lease() {
    let lease_id = VoiceLeaseId::new("voice-session");
    let mut lease = VoiceLease::default();
    lease.begin_acquire(lease_id.clone()).expect("acquire");
    lease.activate(&lease_id).expect("activate");

    lease.mark_recovery_required().expect("recovery");

    assert_eq!(lease.state(), &VoiceLeaseState::RecoveryRequired { lease_id: Some(lease_id) });
}

#[test]
fn another_owner_cannot_advance_or_release_a_lease() {
    let owner = VoiceLeaseId::new("owner");
    let other = VoiceLeaseId::new("other");
    let mut lease = VoiceLease::default();
    lease.begin_acquire(owner.clone()).expect("acquire");

    assert_eq!(lease.activate(&other), Err(VoiceLeaseTransitionError::WrongOwner));
    assert_eq!(lease.state(), &VoiceLeaseState::Acquiring { lease_id: owner });
}

#[test]
fn every_transition_is_refused_in_the_wrong_state() {
    let id = VoiceLeaseId::new("voice-session");
    let mut lease = VoiceLease::default();
    assert_eq!(lease.activate(&id), Err(VoiceLeaseTransitionError::WrongState));
    assert_eq!(lease.begin_close(&id), Err(VoiceLeaseTransitionError::WrongState));
    assert_eq!(lease.finish_close(&id), Err(VoiceLeaseTransitionError::WrongState));
    lease.begin_acquire(id.clone()).unwrap();
    assert_eq!(lease.begin_acquire(id.clone()), Err(VoiceLeaseTransitionError::NotFree));
    assert_eq!(lease.finish_close(&id), Err(VoiceLeaseTransitionError::WrongState));
    assert_eq!(lease.generation(), Ok(LeaseGeneration(1)));
}

#[test]
fn an_exhausted_generation_leaves_the_lease_in_recovery() {
    let id = VoiceLeaseId::new("voice-session");
    let mut lease = VoiceLease::default();
    lease.generation = LeaseGeneration(u64::MAX);
    assert_eq!(lease.begin_acquire(id), Err(VoiceLeaseTransitionError::GenerationExhausted));
    assert_eq!(lease.generation(), Err(VoiceLeaseTransitionError::GenerationExhausted));
    assert_eq!(lease.state(), &VoiceLeaseState::RecoveryRequired { lease_id: None });
}

#[test]
fn recovery_is_not_undone_by_its_former_owner() {
    let id = VoiceLeaseId::new("voice-session");
    let mut lease = VoiceLease::default();
    lease.begin_acquire(id.clone()).unwrap();
    lease.mark_recovery_required().unwrap();
    assert_eq!(lease.begin_acquire(id.clone()), Err(VoiceLeaseTransitionError::NotFree));
    assert_eq!(lease.activate(&id), Err(VoiceLeaseTransitionError::WrongState));
    lease.mark_recovery_required().unwrap();
    assert_eq!(lease.state(), &VoiceLeaseState::RecoveryRequired { lease_id: Some(id) });
}

#[test]
fn transition_errors_have_messages() {
    assert_eq!(VoiceLeaseTransitionError::NotFree.message(), "voice lease is not free");
    assert_eq!(
        VoiceLeaseTransitionError::WrongState.message(),
        "voice lease is in the wrong state for this transition"
    );
    assert_eq!(
        VoiceLeaseTransitionError::WrongOwner.message(),
        "voice lease is owned by another session"
    );
    assert_eq!(
        VoiceLeaseTransitionError::GenerationExhausted.message(),
        "voice lease generation exhausted"
    );
}
