use staker_plugin::{registration, unwrap_decoded, wrap_decoded, Wrapper};

#[test]
fn wrap_then_unwrap_gives_the_value_back() {
    let v: Vec<u64> = vec![5, 0, 21];
    let w = Wrapper::new(v.clone());
    assert_eq!(w.0, v);
    assert_eq!(w.into_inner(), v);
}

#[test]
fn decoded_contract_round_trips() {
    let direct: Result<String, u32> = Ok(String::from("stake"));
    let through = unwrap_decoded(wrap_decoded(direct.clone()));
    assert_eq!(through, direct);
}

#[test]
fn wrapped_outcome_holds_the_same_value() {
    let w = wrap_decoded::<u64, String>(Ok(42));
    match w {
        Ok(inner) => assert_eq!(inner.0, 42),
        Err(_) => panic!("a decoded value must stay decoded"),
    }
}

#[test]
fn decoding_error_passes_unchanged() {
    let err: Result<u64, String> = Err(String::from("missing field `timeout`"));
    match wrap_decoded(err.clone()) {
        Ok(_) => panic!("a rejected input must stay rejected"),
        Err(e) => assert_eq!(e, "missing field `timeout`"),
    }
    assert_eq!(unwrap_decoded(wrap_decoded(err.clone())), err);
}

#[test]
fn unwrap_decoded_keeps_error() {
    let w: Result<Wrapper<u8>, i32> = Err(-3);
    assert_eq!(unwrap_decoded(w), Err(-3));
}

#[test]
fn registration_names_the_logo() {
    let r = registration();
    assert_eq!(r.logo, "logo.png");
    assert!(!r.logo.is_empty());
}
