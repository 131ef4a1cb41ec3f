use meraki_contract::api::{
    ContractStatus, UpdateMilestonePayload, UpdateStartupPayload, UpdateUserPayload,
};

#[test]
fn default_updates_change_nothing() {
    let u = UpdateUserPayload::default();
    assert!(u.full_name.is_none() && u.wallet_public_key.is_none());
    let s = UpdateStartupPayload::default();
    assert!(s.name.is_none() && s.slogan.is_none() && s.description.is_none());
    assert!(s.problem.is_none() && s.logo_url.is_none() && s.video_pitch_url.is_none());
    let m = UpdateMilestonePayload::default();
    assert!(m.title.is_none() && m.description.is_none());
}

#[test]
fn contract_status_compares_by_variant() {
    assert_eq!(ContractStatus::Draft, ContractStatus::Draft);
    assert_ne!(ContractStatus::Active, ContractStatus::Cancelled);
}
