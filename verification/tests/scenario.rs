use yas_deploy::artifact::ClassArtifact;
use yas_deploy::deploy::{default_udc_address, Deployer};
use yas_deploy::felt::Felt;
use yas_deploy::flow::{standard_parameters, Progress, Work};
use yas_deploy::gateway::ClassLookup;
use yas_deploy::plan::full_plan;
use yas_deploy::registrar::{declare_contract, DeclareAction, DeclareEvent, DeclarePhase};

#[test]
fn provisioning_builds_every_unit_in_order() {
    let owner = Felt::from_u128(0xabc);
    let deployer = Deployer { account: Felt::from_u128(0xacc), udc: default_udc_address() };
    let parameters = standard_parameters(owner);
    let mut progress = Progress::new();
    let mut calls = Vec::new();
    let mut nonce: u64 = 0;
    let mut classes: u128 = 0;
    for step in full_plan() {
        let salt = Felt::from_u64(nonce);
        let result = match progress.work_for(step, &parameters, salt).unwrap() {
            Work::Declare(_) => {
                classes += 1;
                Felt::from_u128(classes)
            }
            Work::Deploy(unit) => {
                assert_eq!(unit.salt, Felt::from_u64(nonce));
                nonce += 1;
                unit.deployed_address(&deployer)
            }
            Work::Invoke(call) => {
                nonce += 1;
                calls.push(call);
                Felt::zero()
            }
        };
        progress = progress.record(step, result);
    }
    let (token_0, token_1) = (progress.token_0.unwrap(), progress.token_1.unwrap());
    let (router, pool) = (progress.router.unwrap(), progress.pool.unwrap());
    assert_ne!(token_0, token_1);
    assert_ne!(router, pool);
    assert_eq!(calls.len(), 5);
    assert_eq!(calls[0].to, pool);
    assert_eq!(
        calls[0].calldata,
        vec![Felt::from_u128(79228162514264337593543950336), Felt::zero(), Felt::zero()]
    );
    assert_eq!((calls[1].to, calls[2].to), (token_0, token_1));
    assert_eq!(calls[3].to, router);
    assert_eq!(
        calls[3].calldata,
        vec![
            pool,
            owner,
            Felt::from_u128(887220),
            Felt::one(),
            Felt::from_u128(887220),
            Felt::zero(),
            Felt::from_u128(2000000000000000000),
        ]
    );
    assert_eq!(calls[4].to, router);
    assert_eq!(calls[4].calldata[..3], [pool, owner, Felt::one()]);
}

#[test]
fn corrupted_artifact_never_reaches_a_submit() {
    let loaded = ClassArtifact::load(b"{ \"sierra_program\": ");
    assert!(loaded.is_err());
    let mut submits = 0;
    if let Ok(artifact) = loaded {
        let (phase, _) = declare_contract(DeclarePhase::Ready, DeclareEvent::Begin(artifact.class_id));
        if let (_, DeclareAction::SubmitDeclare(_)) =
            declare_contract(phase, DeclareEvent::Looked(ClassLookup::Found))
        {
            submits += 1;
        }
    }
    assert_eq!(submits, 0);
}
