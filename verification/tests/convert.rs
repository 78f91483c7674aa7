use fn_block::{IntoOk, IntoSome};

#[test]
fn into_ok() {
    let r: Result<&str, u16> = "foo".into_ok();
    assert_eq!("foo", r.expect("result is Ok"));
}

#[test]
fn into_some() {
    let r: Option<u32> = 42.into_some();
    assert_eq!(42, r.expect("result is Some"));
}

#[test]
fn into_some_round_trip() {
    assert_eq!(5, 5.into_some().unwrap());
    assert_eq!("foo", "foo".into_some().unwrap());
    assert_eq!(vec![1u8, 2, 3], vec![1u8, 2, 3].into_some().unwrap());
    assert_eq!((), ().into_some().unwrap());
    assert_eq!(u64::MAX, u64::MAX.into_some().unwrap());
}

#[test]
fn into_ok_round_trip() {
    let five: Result<u32, ()> = 5.into_ok();
    assert_eq!(5, five.unwrap());
    let text: Result<String, u8> = String::from("foo").into_ok();
    assert_eq!("foo", text.unwrap());
    let nested: Result<Option<i8>, String> = Some(-1i8).into_ok();
    assert_eq!(Some(-1), nested.unwrap());
}

#[test]
fn into_some_is_some() {
    let five = 5.into_some();
    assert_eq!(Some(5), five);
    assert!(five.is_some());
}

#[test]
fn into_ok_is_ok_for_any_error_type() {
    let a: Result<u32, ()> = 5.into_ok();
    let b: Result<u32, String> = 5.into_ok();
    let c: Result<u32, std::num::ParseIntError> = 5.into_ok();
    assert_eq!(Ok(5), a);
    assert_eq!(Ok(5), b);
    assert_eq!(Ok(5), c);
}

#[test]
fn into_some_of_an_option_nests() {
    let absent: Option<u8> = None;
    assert_eq!(Some(None), absent.into_some());
    assert_eq!(Some(Some(3u8)), Some(3u8).into_some());
}

#[test]
fn into_ok_of_a_failure_is_still_ok() {
    let failed: Result<u8, u8> = Err(7);
    let wrapped: Result<Result<u8, u8>, ()> = failed.into_ok();
    assert_eq!(Ok(Err(7)), wrapped);
}

#[test]
fn into_some_at_the_end_of_a_chain() {
    let o: Option<String> = "foo bar ".trim().to_uppercase().into_some();
    assert_eq!("FOO BAR", o.unwrap());
}

#[test]
fn into_ok_at_the_end_of_a_chain() {
    let res: Result<String, ()> = "foo bar ".trim().to_uppercase().into_ok();
    assert_eq!("FOO BAR", res.unwrap());
}
