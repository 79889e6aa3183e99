use account_info::admins::{is_active, next_count_after_add, next_count_after_disable, require_admin};
use account_info::{Admins, CallStackElement, ContractError, Identity};

fn id(byte: u8) -> Identity {
    Identity::new([byte; 32])
}

fn called_by(caller: &Identity) -> [CallStackElement; 2] {
    [
        CallStackElement::Session {
            account_hash: *caller,
        },
        CallStackElement::StoredContract,
    ]
}

/// The number of identities among `known` that are active.
fn count_active(admins: &Admins, known: &[Identity]) -> u32 {
    let mut n = 0;
    for account in known {
        if admins.is_admin(account) {
            n += 1;
        }
    }
    n
}

#[test]
fn deployer_is_the_only_admin() {
    let admins = Admins::new(&id(1));
    assert_eq!(admins.admins_count(), 1);
    assert!(admins.is_admin(&id(1)));
    assert!(!admins.is_admin(&id(2)));
}

#[test]
fn add_counts_one_more() {
    let mut admins = Admins::new(&id(1));
    assert_eq!(admins.add(&id(2)), Ok(()));
    assert_eq!(admins.admins_count(), 2);
    assert!(admins.is_admin(&id(2)));
    assert_eq!(admins.add(&id(3)), Ok(()));
    assert_eq!(admins.admins_count(), 3);
}

#[test]
fn add_active_admin_is_refused() {
    let mut admins = Admins::new(&id(1));
    assert_eq!(admins.add(&id(1)), Err(ContractError::AdminExists));
    assert_eq!(admins.admins_count(), 1);
    assert!(admins.is_admin(&id(1)));
}

#[test]
fn disable_counts_one_less() {
    let mut admins = Admins::new(&id(1));
    admins.add(&id(2)).unwrap();
    assert_eq!(admins.disable(&id(1)), Ok(()));
    assert_eq!(admins.admins_count(), 1);
    assert!(!admins.is_admin(&id(1)));
    assert!(admins.is_admin(&id(2)));
}

#[test]
fn last_admin_cannot_be_disabled() {
    let mut admins = Admins::new(&id(1));
    assert_eq!(admins.disable(&id(1)), Err(ContractError::AdminCountTooLow));
    assert_eq!(admins.admins_count(), 1);
    assert!(admins.is_admin(&id(1)));
}

#[test]
fn low_count_has_priority_over_unknown_target() {
    let mut admins = Admins::new(&id(1));
    // The target is no administrator, but only one administrator is left.
    assert_eq!(admins.disable(&id(9)), Err(ContractError::AdminCountTooLow));
    assert_eq!(admins.admins_count(), 1);
}

#[test]
fn disable_of_stranger_is_refused_with_two_admins() {
    let mut admins = Admins::new(&id(1));
    admins.add(&id(2)).unwrap();
    assert_eq!(admins.disable(&id(9)), Err(ContractError::AdminDoesntExist));
    assert_eq!(admins.admins_count(), 2);
    assert!(!admins.is_admin(&id(9)));
}

#[test]
fn disable_of_disabled_admin_is_refused() {
    let mut admins = Admins::new(&id(1));
    admins.add(&id(2)).unwrap();
    admins.add(&id(3)).unwrap();
    admins.disable(&id(2)).unwrap();
    assert_eq!(admins.disable(&id(2)), Err(ContractError::AdminDoesntExist));
    assert_eq!(admins.admins_count(), 2);
}

#[test]
fn disabled_admin_can_be_added_again() {
    let mut admins = Admins::new(&id(1));
    admins.add(&id(2)).unwrap();
    assert_eq!(admins.disable(&id(2)), Ok(()));
    assert!(!admins.is_admin(&id(2)));
    assert_eq!(admins.admins_count(), 1);
    assert_eq!(admins.add(&id(2)), Ok(()));
    assert!(admins.is_admin(&id(2)));
    assert_eq!(admins.admins_count(), 2);
}

#[test]
fn count_is_number_of_active_admins() {
    let known = [id(1), id(2), id(3), id(4), id(5)];
    let mut admins = Admins::new(&known[0]);
    assert_eq!(admins.admins_count(), count_active(&admins, &known));
    let steps: [(bool, usize); 12] = [
        (true, 1),
        (true, 2),
        (true, 1),
        (false, 0),
        (false, 0),
        (true, 3),
        (false, 4),
        (false, 2),
        (false, 1),
        (false, 3),
        (true, 0),
        (false, 3),
    ];
    for (add, who) in steps {
        let before = admins.admins_count();
        let result = if add {
            admins.add(&known[who])
        } else {
            admins.disable(&known[who])
        };
        let after = admins.admins_count();
        assert_eq!(after, count_active(&admins, &known));
        assert!(after >= 1);
        if result.is_err() {
            assert_eq!(after, before);
        }
    }
    assert_eq!(admins.admins_count(), 1);
    assert!(admins.is_admin(&known[0]));
}

#[test]
fn assert_caller_is_admin_checks_the_caller() {
    let mut admins = Admins::new(&id(1));
    assert_eq!(admins.assert_caller_is_admin(&called_by(&id(1))), Ok(()));
    assert_eq!(
        admins.assert_caller_is_admin(&called_by(&id(2))),
        Err(ContractError::PermissionDenied)
    );
    admins.add(&id(2)).unwrap();
    admins.disable(&id(1)).unwrap();
    assert_eq!(
        admins.assert_caller_is_admin(&called_by(&id(1))),
        Err(ContractError::PermissionDenied)
    );
    assert_eq!(admins.assert_caller_is_admin(&called_by(&id(2))), Ok(()));
}

#[test]
fn assert_caller_is_admin_needs_an_account() {
    let admins = Admins::new(&id(1));
    let from_contract = [
        CallStackElement::Session {
            account_hash: id(1),
        },
        CallStackElement::StoredContract,
        CallStackElement::StoredContract,
    ];
    assert_eq!(
        admins.assert_caller_is_admin(&from_contract),
        Err(ContractError::CallerIsNotAccount)
    );
    assert_eq!(
        admins.assert_caller_is_admin(&[]),
        Err(ContractError::CallerIsNotAccount)
    );
}

#[test]
fn stored_entry_marks_active_admin() {
    assert!(is_active(Some(&true)));
    assert!(!is_active(Some(&false)));
    assert!(!is_active(None));
}

#[test]
fn count_after_add() {
    assert_eq!(next_count_after_add(false, 1), Ok(2));
    assert_eq!(next_count_after_add(false, 0), Ok(1));
    assert_eq!(next_count_after_add(false, u32::MAX - 1), Ok(u32::MAX));
    assert_eq!(next_count_after_add(true, 1), Err(ContractError::AdminExists));
}

#[test]
fn count_after_disable() {
    assert_eq!(next_count_after_disable(true, 2), Ok(1));
    assert_eq!(next_count_after_disable(true, u32::MAX), Ok(u32::MAX - 1));
    assert_eq!(
        next_count_after_disable(true, 1),
        Err(ContractError::AdminCountTooLow)
    );
    assert_eq!(
        next_count_after_disable(false, 1),
        Err(ContractError::AdminCountTooLow)
    );
    assert_eq!(
        next_count_after_disable(true, 0),
        Err(ContractError::AdminCountTooLow)
    );
    assert_eq!(
        next_count_after_disable(false, 2),
        Err(ContractError::AdminDoesntExist)
    );
}

#[test]
fn only_admins_pass() {
    assert_eq!(require_admin(true), Ok(()));
    assert_eq!(require_admin(false), Err(ContractError::PermissionDenied));
}
