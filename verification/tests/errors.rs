use tokio_ctrlc_error::errors::{IoError, KeyboardInterrupt, RaceError};

#[test]
fn keyboard_interrupt_converts_into_unified_error() {
    let e: RaceError<String> = RaceError::from(KeyboardInterrupt);
    assert!(matches!(e, RaceError::Interrupt(KeyboardInterrupt)));
}

#[test]
fn io_error_converts_into_unified_error() {
    let fault = IoError::new(String::from("no signal delivery"));
    let e: RaceError<String> = RaceError::from(fault);
    match e {
        RaceError::Subscription(inner) => {
            assert_eq!(inner.message().as_str(), "no signal delivery");
        }
        _ => panic!("expected a subscription fault"),
    }
}

#[test]
fn conversions_go_through_into_as_well() {
    let e: RaceError<u8> = KeyboardInterrupt.into();
    assert!(matches!(e, RaceError::Interrupt(KeyboardInterrupt)));
    let f: RaceError<u8> = IoError::new(String::from("closed")).into();
    assert!(matches!(f, RaceError::Subscription(_)));
}

#[test]
fn keyboard_interrupt_message() {
    assert_eq!(KeyboardInterrupt.message(), "keyboard interrupt");
}

#[test]
fn io_error_keeps_its_description() {
    let fault = IoError::new(String::from("interrupted system call"));
    assert_eq!(fault.message().as_str(), "interrupted system call");
    let copy = fault.clone();
    assert_eq!(copy.message().as_str(), "interrupted system call");
}
