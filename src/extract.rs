//! The decision each to-disk extractor makes for one archive entry: whether it
//! is written, where under the destination, and how the ledger records it.
use vstd::prelude::*;
use crate::error::{DownloadError, IoCause, IoError, IoErrorKind};
use crate::extracted_files::{record_dir, record_file, ExtractedFiles};
use crate::path::{contained, resolve_within_root};

verus! {

/// The type of an archive entry.
#[derive(Debug, Clone, Copy, PartialEq, Eq, Structural)]
pub enum TarEntryType {
    Regular,
    Directory,
    Symlink,
    Other,
}

/// The error for an entry that cannot be written under the destination: its path
/// leaves the destination, or names the destination itself as a file.
pub open spec fn entry_error() -> DownloadError {
    DownloadError::Io(IoError { kind: IoErrorKind::InvalidData, cause: IoCause::Bare })
}

/// Account for one entry extracted to disk. Only regular files and directories
/// are written: for those the entry's place under the destination is returned
/// and recorded in the ledger; an entry of another type is passed over.
pub fn accept_entry(files: &mut ExtractedFiles, kind: TarEntryType, path: &str) -> (r: Result<
    Option<Vec<String>>,
    DownloadError,
>)
    requires
        old(files).wf(),
    ensures
        final(files).wf(),
        (kind is Symlink || kind is Other) ==> r == Ok::<Option<Vec<String>>, DownloadError>(None)
            && final(files)@ == old(files)@,
        kind is Regular ==> match contained(path@) {
            Some(k) if k.len() > 0 => r is Ok && r->Ok_0 is Some && r->Ok_0->Some_0.deep_view() == k
                && final(files)@ == record_file(old(files)@, k),
            _ => r == Err::<Option<Vec<String>>, DownloadError>(entry_error()) && final(files)@ == old(files)@,
        },
        kind is Directory ==> match contained(path@) {
            Some(k) => r is Ok && r->Ok_0 is Some && r->Ok_0->Some_0.deep_view() == k
                && final(files)@ == record_dir(old(files)@, k),
            None => r == Err::<Option<Vec<String>>, DownloadError>(entry_error()) && final(files)@ == old(files)@,
        },
{
    match kind {
        TarEntryType::Regular | TarEntryType::Directory => {},
        _ => return Ok(None),
    }
    let resolved = resolve_within_root(path);
    match resolved {
        None => Err(DownloadError::Io(IoError::bare(IoErrorKind::InvalidData))),
        Some(key) => {
            if key.len() == 0 && kind == TarEntryType::Regular {
                return Err(DownloadError::Io(IoError::bare(IoErrorKind::InvalidData)));
            }
            let place = crate::extracted_files::copy_path(&key);
            if kind == TarEntryType::Regular {
                files.add_file_key(key);
            } else {
                files.add_dir_key(key);
            }
            Ok(Some(place))
        },
    }
}

} // verus!
