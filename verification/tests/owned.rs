use oracle_contracts::host::{MessageInfo, StdError};
use oracle_contracts::owned::{Auth, Error};

fn info(sender: &str) -> MessageInfo {
    MessageInfo { sender: sender.to_string() }
}

#[test]
fn initialize_owner() {
    let mut control = Auth::new("foo");

    // initialize and check
    let owner = "owner".to_string();
    control.initialize(owner.clone()).unwrap();
    let got = control.get().unwrap();
    assert_eq!(owner, got.owner);
}

#[test]
fn owner_checks() {
    let mut control = Auth::new("foo");
    let owner = "big boss".to_string();
    let imposter = "imposter".to_string();

    // ensure checks proper with owner set
    control.initialize(owner.clone()).unwrap();
    assert!(control.is_owner(&owner).unwrap());
    assert!(!(control.is_owner(&imposter).unwrap()));
    control.assert_owner(&owner).unwrap();
    let err = control.assert_owner(&imposter).unwrap_err();
    assert_eq!(Error::Unauthorized, err);
}

#[test]
fn transfer_accept_ownership() {
    // initial setup
    let mut control = Auth::new("foo");
    let owner = "big boss".to_string();
    let imposter = "imposter".to_string();
    let friend = "buddy".to_string();
    control.initialize(owner.clone()).unwrap();

    // query shows results
    let res = control.query_owner().unwrap();
    assert_eq!(owner, res);

    // imposter cannot initiate transfer
    let new_owner = friend.clone();
    let err = control
        .execute_transfer_ownership(info(&imposter), new_owner.clone())
        .unwrap_err();
    assert_eq!(Error::Unauthorized, err);

    // owner can initiate transfer
    let res = control
        .execute_transfer_ownership(info(&owner), new_owner.clone())
        .unwrap();
    assert_eq!(0, res.messages.len());

    // query still shows the first owner
    let res = control.query_owner().unwrap();
    assert_eq!(owner, res);

    // imposter cannot accept transfer
    let err = control.execute_accept_ownership(info(&imposter)).unwrap_err();
    assert_eq!(Error::Unauthorized, err);

    // proposed owner can accept transfer
    let res = control.execute_accept_ownership(info(&new_owner)).unwrap();
    assert_eq!(0, res.messages.len());

    // query now shows new owner
    let res = control.query_owner().unwrap();
    assert_eq!(new_owner, res);
}

#[test]
fn uninitialized_owner_is_not_found() {
    let mut control = Auth::new("owner");
    assert_eq!(control.namespace, "owner");
    assert_eq!(control.get().unwrap_err(), StdError::NotFound);
    assert_eq!(control.query_owner().unwrap_err(), StdError::NotFound);
    assert_eq!(control.is_owner(&"a".to_string()).unwrap_err(), StdError::NotFound);
    assert_eq!(
        control.assert_owner(&"a".to_string()).unwrap_err(),
        Error::Std(StdError::NotFound)
    );
    assert_eq!(
        control.execute_transfer_ownership(info("a"), "b".to_string()).unwrap_err(),
        Error::Std(StdError::NotFound)
    );
    assert_eq!(
        control.execute_accept_ownership(info("a")).unwrap_err(),
        Error::Std(StdError::NotFound)
    );
}

#[test]
fn ownership_events_and_overwritten_proposal() {
    let mut control = Auth::new("owner");
    control.initialize("alice".to_string()).unwrap();
    let res = control
        .execute_transfer_ownership(info("alice"), "bob".to_string())
        .unwrap();
    assert_eq!(res.events.len(), 1);
    assert_eq!(res.events[0].ty, "ownership_transfer_requested");
    assert_eq!(res.events[0].attributes[0].key, "from");
    assert_eq!(res.events[0].attributes[0].value, "alice");
    assert_eq!(res.events[0].attributes[1].key, "to");
    assert_eq!(res.events[0].attributes[1].value, "bob");
    // a second proposal replaces the first
    control
        .execute_transfer_ownership(info("alice"), "carol".to_string())
        .unwrap();
    assert_eq!(
        control.execute_accept_ownership(info("bob")).unwrap_err(),
        Error::Unauthorized
    );
    let res = control.execute_accept_ownership(info("carol")).unwrap();
    assert_eq!(res.events[0].attributes[0].value, "alice");
    assert_eq!(res.events[0].attributes[1].value, "carol");
    let state = control.get().unwrap();
    assert_eq!(state.owner, "carol");
    assert_eq!(state.proposed_owner, None);
    assert_eq!(Error::Unauthorized.to_string(), "Unauthorized");
    assert_eq!(Error::Std(StdError::NotFound).to_string(), "not found");
}
