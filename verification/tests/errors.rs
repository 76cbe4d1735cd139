use hostcalls::error::{
    ErrorKind, EFAULT, EINVAL, EIO, ENOTRECOVERABLE, ENOTSUP, ESUCCESS,
};

const ALL: [ErrorKind; 5] = [
    ErrorKind::InvalidArgument,
    ErrorKind::Unsupported,
    ErrorKind::ResourceFault,
    ErrorKind::SystemFault,
    ErrorKind::Internal,
];

#[test]
fn success_is_the_all_zero_status() {
    assert_eq!(ESUCCESS, 0);
}

#[test]
fn each_failure_has_its_code() {
    assert_eq!(ErrorKind::InvalidArgument.as_wasi_errno(), 28);
    assert_eq!(ErrorKind::Unsupported.as_wasi_errno(), 58);
    assert_eq!(ErrorKind::ResourceFault.as_wasi_errno(), 21);
    assert_eq!(ErrorKind::SystemFault.as_wasi_errno(), 29);
    assert_eq!(ErrorKind::Internal.as_wasi_errno(), 56);
}

#[test]
fn the_named_codes_are_the_codes() {
    assert_eq!(ErrorKind::InvalidArgument.as_wasi_errno(), EINVAL);
    assert_eq!(ErrorKind::Unsupported.as_wasi_errno(), ENOTSUP);
    assert_eq!(ErrorKind::ResourceFault.as_wasi_errno(), EFAULT);
    assert_eq!(ErrorKind::SystemFault.as_wasi_errno(), EIO);
    assert_eq!(ErrorKind::Internal.as_wasi_errno(), ENOTRECOVERABLE);
}

#[test]
fn no_failure_looks_like_success() {
    for e in ALL {
        assert_ne!(e.as_wasi_errno(), ESUCCESS);
    }
}

#[test]
fn no_two_failures_share_a_code() {
    for (i, a) in ALL.iter().enumerate() {
        for (j, b) in ALL.iter().enumerate() {
            assert_eq!(i == j, a.as_wasi_errno() == b.as_wasi_errno());
        }
    }
}
