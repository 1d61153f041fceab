use rpgpie_sop::cascade::{attempt_order, Attempt, Cascade};
use rpgpie_sop::error::SopError;

#[test]
fn passwords_before_keys() {
    let order = attempt_order(2, 1, 1, 2);
    assert_eq!(
        order,
        vec![
            Attempt::Password { password: 0, skesk: 0 },
            Attempt::Password { password: 1, skesk: 0 },
            Attempt::Key { key: 0, pkesk: 0 },
            Attempt::Key { key: 0, pkesk: 1 },
        ]
    );
    assert_eq!(attempt_order(3, 0, 0, 5), vec![]);
}

#[test]
fn first_success_wins() {
    let mut c = Cascade::new(4);
    let outcomes = [false, true, true, false];
    let mut tried = 0;
    while let Some(i) = c.next() {
        c.report(outcomes[i]);
        tried += 1;
    }
    assert_eq!(tried, 2);
    assert_eq!(c.result(), Ok(1));
}

#[test]
fn no_candidate_decrypts() {
    let mut c = Cascade::new(2);
    while let Some(_) = c.next() {
        c.report(false);
    }
    assert_eq!(c.tried, 2);
    assert_eq!(c.result(), Err(SopError::CannotDecrypt));
}
