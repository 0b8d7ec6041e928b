use binstalk_downloader::error::{DownloadError, IoCause, IoError, IoErrorKind, RemoteError, ZipError};

fn unzip() -> DownloadError {
    DownloadError::Unzip(ZipError { message: "bad central directory".to_string() })
}

fn remote() -> DownloadError {
    DownloadError::Remote(RemoteError { message: "connection reset".to_string() })
}

#[test]
fn precise_error_survives_wrap_and_unwrap() {
    for e in [unzip(), remote()] {
        let expected = match &e {
            DownloadError::Unzip(z) => DownloadError::Unzip(z.clone()),
            DownloadError::Remote(r) => DownloadError::Remote(r.clone()),
            DownloadError::Io(_) => unreachable!(),
        };
        let generic = IoError::from(e);
        assert_eq!(generic.kind, IoErrorKind::Other);
        assert!(matches!(generic.cause, IoCause::Download(_)));
        assert_eq!(DownloadError::from(generic), expected);
    }
}

#[test]
fn io_variant_unwraps_to_its_failure() {
    let e = DownloadError::Io(IoError::bare(IoErrorKind::NotFound));
    assert_eq!(IoError::from(e), IoError::bare(IoErrorKind::NotFound));
}

#[test]
fn plain_failure_keeps_its_kind() {
    let f = IoError::bare(IoErrorKind::PermissionDenied);
    let d = DownloadError::from(f);
    assert_eq!(d, DownloadError::Io(IoError::bare(IoErrorKind::PermissionDenied)));
    let back = IoError::from(d);
    assert_eq!(back.kind, IoErrorKind::PermissionDenied);
    assert_eq!(back.cause, IoCause::Bare);
}

#[test]
fn foreign_cause_is_kept() {
    let f = IoError { kind: IoErrorKind::InvalidData, cause: IoCause::Message("corrupt deflate stream".to_string()) };
    let d = DownloadError::from(f);
    assert_eq!(
        d,
        DownloadError::Io(IoError {
            kind: IoErrorKind::InvalidData,
            cause: IoCause::Message("corrupt deflate stream".to_string()),
        })
    );
}
