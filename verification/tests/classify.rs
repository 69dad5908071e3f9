use romio::classify::{classify, classify_error};
use romio::operation::Attempt;
use std::io::{Error, ErrorKind};

#[test]
fn success_is_done_with_its_value() {
    match classify(Ok::<usize, Error>(65507)) {
        Attempt::Done(n) => assert_eq!(n, 65507),
        other => panic!("{:?}", other),
    }
    match classify(Ok::<usize, Error>(0)) {
        Attempt::Done(n) => assert_eq!(n, 0),
        other => panic!("{:?}", other),
    }
}

#[test]
fn an_error_of_kind_would_block_is_absorbed() {
    let result: Result<usize, Error> = Err(Error::from(ErrorKind::WouldBlock));
    assert!(matches!(classify(result), Attempt::WouldBlock));
    let result: Result<usize, Error> = Err(Error::new(ErrorKind::WouldBlock, "try again"));
    assert!(matches!(classify(result), Attempt::WouldBlock));
}

#[test]
fn the_systems_would_block_code_is_absorbed() {
    let result: Result<usize, Error> = Err(Error::from_raw_os_error(libc::EWOULDBLOCK));
    assert!(matches!(classify(result), Attempt::WouldBlock));
    let result: Result<usize, Error> = Err(Error::from_raw_os_error(libc::EAGAIN));
    assert!(matches!(classify(result), Attempt::WouldBlock));
}

#[test]
fn address_in_use_passes_through_unmodified() {
    let result: Result<usize, Error> = Err(Error::from_raw_os_error(libc::EADDRINUSE));
    match classify(result) {
        Attempt::Failed(e) => {
            assert_eq!(e.kind(), ErrorKind::AddrInUse);
            assert_eq!(e.raw_os_error(), Some(libc::EADDRINUSE));
        }
        other => panic!("{:?}", other),
    }
}

#[test]
fn other_errors_pass_through_unmodified() {
    let codes = [
        libc::EACCES,
        libc::ECONNRESET,
        libc::ECONNREFUSED,
        libc::EINVAL,
        libc::ENETUNREACH,
        libc::ENOPROTOOPT,
        libc::EMSGSIZE,
    ];
    for code in codes {
        let result: Result<(usize, u8), Error> = Err(Error::from_raw_os_error(code));
        match classify(result) {
            Attempt::Failed(e) => assert_eq!(e.raw_os_error(), Some(code)),
            other => panic!("{:?}", other),
        }
    }
    let result: Result<usize, Error> = Err(Error::new(ErrorKind::Other, "reactor gone"));
    match classify(result) {
        Attempt::Failed(e) => {
            assert_eq!(e.kind(), ErrorKind::Other);
            assert_eq!(e.to_string(), "reactor gone");
        }
        other => panic!("{:?}", other),
    }
}

#[test]
fn a_failure_is_classified_by_the_flag_it_comes_with() {
    let absorbed: Attempt<usize, &str> = classify_error("dropped", true);
    assert_eq!(absorbed, Attempt::WouldBlock);
    let kept: Attempt<usize, &str> = classify_error("kept", false);
    assert_eq!(kept, Attempt::Failed("kept"));
}
