use binstalk_types::cargo_toml_binstall::{PkgFmt, PkgFmtDecomposed, TarBasedFmt};
use bytes::Bytes;

use binstalk_downloader::error::{DownloadError, IoError, IoErrorKind, RemoteError};
use binstalk_downloader::format::select_strategy;
use binstalk_downloader::pipeline::{Action, Pulled, Session};

fn chunk(s: &'static str) -> Bytes {
    Bytes::from_static(s.as_bytes())
}

fn corrupt() -> DownloadError {
    DownloadError::Io(IoError::bare(IoErrorKind::InvalidData))
}

#[test]
fn strategy_per_format() {
    assert_eq!(select_strategy(PkgFmt::Tgz), PkgFmtDecomposed::Tar(TarBasedFmt::Tgz));
    assert_eq!(select_strategy(PkgFmt::Txz), PkgFmtDecomposed::Tar(TarBasedFmt::Txz));
    assert_eq!(select_strategy(PkgFmt::Tar), PkgFmtDecomposed::Tar(TarBasedFmt::Tar));
    assert_eq!(select_strategy(PkgFmt::Zip), PkgFmtDecomposed::Zip);
    assert_eq!(select_strategy(PkgFmt::Bin), PkgFmtDecomposed::Bin);
}

#[test]
fn chunks_are_delivered_and_verified() {
    let mut s = Session::new(true);
    assert_eq!(s.on_item(Pulled::Chunk(chunk("ab"))), Action::Deliver { chunk: chunk("ab"), verify: true });
    let e = RemoteError { message: "reset".to_string() };
    assert_eq!(
        s.on_item(Pulled::Failed(e.clone())),
        Action::DeliverError(DownloadError::Remote(e))
    );
    assert!(!s.is_exhausted());
    assert_eq!(s.on_item(Pulled::End), Action::DeliverEnd);
    assert!(s.is_exhausted());
    assert_eq!(s.on_extraction(Ok(())), Action::Succeed);
    assert!(s.is_done());
}

#[test]
fn failed_extraction_drains_for_the_verifier() {
    let mut s = Session::new(true);
    let mut verified = Vec::new();
    for c in ["one", "two"] {
        match s.on_item(Pulled::Chunk(chunk(c))) {
            Action::Deliver { chunk, verify: true } => verified.push(chunk),
            other => panic!("unexpected {other:?}"),
        }
    }
    assert_eq!(s.on_extraction(Err(corrupt())), Action::Pull);
    assert!(!s.is_done());
    let rest = vec![
        Pulled::Chunk(chunk("three")),
        Pulled::Failed(RemoteError { message: "timeout".to_string() }),
        Pulled::Chunk(chunk("four")),
        Pulled::End,
    ];
    let mut last = None;
    for item in rest {
        match s.on_item(item) {
            Action::VerifyAndPull(b) => verified.push(b),
            Action::Pull => {}
            other => last = Some(other),
        }
    }
    assert_eq!(last, Some(Action::Fail(corrupt())));
    assert!(s.is_done());
    assert!(s.is_exhausted());
    assert_eq!(verified, vec![chunk("one"), chunk("two"), chunk("three"), chunk("four")]);
}

#[test]
fn failed_extraction_without_verifier_fails_at_once() {
    let mut s = Session::new(false);
    assert_eq!(s.on_item(Pulled::Chunk(chunk("x"))), Action::Deliver { chunk: chunk("x"), verify: false });
    assert_eq!(s.on_extraction(Err(corrupt())), Action::Fail(corrupt()));
    assert!(s.is_done());
    assert!(!s.is_exhausted());
}

#[test]
fn failure_after_end_does_not_drain() {
    let mut s = Session::new(true);
    assert_eq!(s.on_item(Pulled::End), Action::DeliverEnd);
    assert_eq!(s.on_extraction(Err(corrupt())), Action::Fail(corrupt()));
    assert!(s.is_done());
}

#[test]
fn visitor_stopping_early_succeeds() {
    let mut s = Session::new(true);
    assert_eq!(
        s.on_item(Pulled::Chunk(chunk("first entry"))),
        Action::Deliver { chunk: chunk("first entry"), verify: true }
    );
    // The visitor is satisfied after the first of three entries.
    assert_eq!(s.on_extraction(Ok(())), Action::Succeed);
    assert!(s.is_done());
    assert!(!s.is_exhausted());
}
