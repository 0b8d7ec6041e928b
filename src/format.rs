//! Dispatch of a declared package format to an extraction strategy.
use vstd::prelude::*;
use binstalk_types::cargo_toml_binstall::{PkgFmt, PkgFmtDecomposed, TarBasedFmt};

verus! {

#[verifier::external_type_specification]
pub struct ExPkgFmt(PkgFmt);

#[verifier::external_type_specification]
pub struct ExTarBasedFmt(TarBasedFmt);

#[verifier::external_type_specification]
pub struct ExPkgFmtDecomposed(PkgFmtDecomposed);

/// The strategy for each format: the tar family by its compression variant,
/// zip and raw binary by themselves.
pub open spec fn decomposition(fmt: PkgFmt) -> PkgFmtDecomposed {
    match fmt {
        PkgFmt::Tar => PkgFmtDecomposed::Tar(TarBasedFmt::Tar),
        PkgFmt::Tbz2 => PkgFmtDecomposed::Tar(TarBasedFmt::Tbz2),
        PkgFmt::Tgz => PkgFmtDecomposed::Tar(TarBasedFmt::Tgz),
        PkgFmt::Txz => PkgFmtDecomposed::Tar(TarBasedFmt::Txz),
        PkgFmt::Tzstd => PkgFmtDecomposed::Tar(TarBasedFmt::Tzstd),
        PkgFmt::Zip => PkgFmtDecomposed::Zip,
        PkgFmt::Bin => PkgFmtDecomposed::Bin,
    }
}

/// Relies on binstalk_types' `PkgFmt::decompose`, a total match from each format
/// to its strategy.
pub assume_specification[ PkgFmt::decompose ](fmt: PkgFmt) -> (r: PkgFmtDecomposed)
    ensures
        r == decomposition(fmt),
;

/// Pick the extraction strategy for a declared package format.
pub fn select_strategy(fmt: PkgFmt) -> (r: PkgFmtDecomposed)
    ensures
        r == decomposition(fmt),
        r is Tar <==> !(fmt is Zip || fmt is Bin),
{
    fmt.decompose()
}

} // verus!
