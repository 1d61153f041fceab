use rpgpie_sop::error::SopError;
use rpgpie_sop::pin::{run_session, PinSession, PinState};
use std::collections::HashMap;

#[test]
fn rejected_pin_is_dropped_and_not_retried() {
    let mut store: HashMap<String, Vec<u8>> = HashMap::new();
    store.insert("0005:0000A835".to_string(), b"123456".to_vec());
    let ident = "0005:0000A835".to_string();

    let (reply, presentations) = run_session(store.get(&ident).cloned(), false);
    assert_eq!(presentations, 1);
    assert_eq!(reply.result, Err(SopError::AuthenticationFailed));
    assert!(reply.drop_pin);
    if reply.drop_pin {
        store.remove(&ident);
    }

    let (reply, presentations) = run_session(store.get(&ident).cloned(), false);
    assert_eq!(presentations, 0);
    assert_eq!(reply.result, Err(SopError::NoPinConfigured));
    assert!(!reply.drop_pin);
}

#[test]
fn accepted_pin_is_kept() {
    let (reply, presentations) = run_session(Some(b"123456".to_vec()), true);
    assert_eq!(presentations, 1);
    assert_eq!(reply.result, Ok(()));
    assert!(!reply.drop_pin);
}

#[test]
fn session_steps() {
    let mut s = PinSession::new();
    assert_eq!(s.on_lookup(Some(b"1234".to_vec())), Ok(b"1234".to_vec()));
    assert_eq!(s.state, PinState::Presenting);
    let r = s.on_reply(false);
    assert!(r.drop_pin);
    assert_eq!(s.state, PinState::Failed);
    let mut s = PinSession::new();
    assert_eq!(s.on_lookup(None), Err(SopError::NoPinConfigured));
    assert_eq!(s.presentations, 0);
}
