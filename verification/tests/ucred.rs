use romio::uds::ucred::{from_option, from_peer_ids, option_len, LookupError, UCred};

const NATIVE_SIZE: usize = 12;

#[test]
fn test_socket_pair() {
    // Both ends of a pair made by one process are answered with the ids of
    // that process.
    let uid: libc::uid_t = 1000;
    let gid: libc::gid_t = 100;
    let cred_a = from_option(0, 12, NATIVE_SIZE, uid, gid).unwrap();
    let cred_b = from_option(0, 12, NATIVE_SIZE, uid, gid).unwrap();
    assert_eq!(cred_a, cred_b);

    assert_eq!(cred_a.uid, uid);
    assert_eq!(cred_a.gid, gid);
}

#[test]
fn the_two_strategies_agree_on_a_good_answer() {
    let by_option = from_option(0, 12, NATIVE_SIZE, 501, 20);
    let by_primitive = from_peer_ids(0, 501, 20);
    assert_eq!(by_option, Ok(UCred { uid: 501, gid: 20 }));
    assert_eq!(by_primitive, by_option);
}

#[test]
fn the_ids_are_taken_over_as_they_are() {
    assert_eq!(from_option(0, 12, NATIVE_SIZE, 0, 0), Ok(UCred { uid: 0, gid: 0 }));
    assert_eq!(
        from_option(0, 12, NATIVE_SIZE, u32::MAX, 7),
        Ok(UCred { uid: u32::MAX, gid: 7 })
    );
    assert_eq!(from_peer_ids(0, 7, u32::MAX), Ok(UCred { uid: 7, gid: u32::MAX }));
}

#[test]
fn a_failed_option_query_is_refused() {
    assert_eq!(from_option(-1, 12, NATIVE_SIZE, 1000, 100), Err(LookupError::Refused));
    assert_eq!(from_option(1, 12, NATIVE_SIZE, 1000, 100), Err(LookupError::Refused));
    assert_eq!(from_option(i32::MIN, 12, NATIVE_SIZE, 1000, 100), Err(LookupError::Refused));
}

#[test]
fn a_failed_query_is_refused_whatever_its_length() {
    assert_eq!(from_option(-1, 0, NATIVE_SIZE, 1000, 100), Err(LookupError::Refused));
    assert_eq!(from_option(-1, 13, NATIVE_SIZE, 1000, 100), Err(LookupError::Refused));
}

#[test]
fn a_structure_of_another_size_is_an_error() {
    assert_eq!(from_option(0, 11, NATIVE_SIZE, 1000, 100), Err(LookupError::SizeMismatch));
    assert_eq!(from_option(0, 13, NATIVE_SIZE, 1000, 100), Err(LookupError::SizeMismatch));
    assert_eq!(from_option(0, 0, NATIVE_SIZE, 1000, 100), Err(LookupError::SizeMismatch));
    assert_eq!(from_option(0, u32::MAX, NATIVE_SIZE, 1000, 100), Err(LookupError::SizeMismatch));
}

#[test]
fn a_native_size_beyond_any_option_length_never_matches() {
    if usize::BITS > 32 {
        let huge = (u32::MAX as usize) + 1;
        assert_eq!(from_option(0, 0, huge, 1, 1), Err(LookupError::SizeMismatch));
        assert_eq!(from_option(0, u32::MAX, huge, 1, 1), Err(LookupError::SizeMismatch));
    }
}

#[test]
fn a_failed_primitive_is_refused() {
    assert_eq!(from_peer_ids(-1, 1000, 100), Err(LookupError::Refused));
    assert_eq!(from_peer_ids(2, 1000, 100), Err(LookupError::Refused));
}

#[test]
fn option_len_of_a_size_that_fits() {
    assert_eq!(option_len(0), Some(0));
    assert_eq!(option_len(12), Some(12));
    assert_eq!(option_len(u32::MAX as usize), Some(u32::MAX));
}

#[test]
fn option_len_of_a_size_that_does_not_fit() {
    if usize::BITS > 32 {
        assert_eq!(option_len((u32::MAX as usize) + 1), None);
        assert_eq!(option_len(usize::MAX), None);
    }
}

#[test]
fn credentials_are_plain_values() {
    let cred = UCred { uid: 3, gid: 4 };
    let copy = cred;
    assert_eq!(cred, copy);
    assert_ne!(cred, UCred { uid: 4, gid: 3 });
    assert_eq!(format!("{:?}", cred), "UCred { uid: 3, gid: 4 }");
}
