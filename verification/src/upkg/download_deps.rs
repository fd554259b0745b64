use vstd::prelude::*;
use crate::errors::PkgError;
use crate::lua_types::{Package, Proto};
use crate::progress::ProgressSink;
use crate::proto::git_clone::git_sync_with_remote;

verus! {

/// The download stage: processes the package's source entries strictly in
/// declaration order. A git source is synchronized into
/// build_dir/<name>; a url source is a declared extension point and
/// surfaces as explicitly unimplemented; a file source needs no
/// acquisition. The first failure halts the stage: acquisition is
/// all-or-nothing per run.
pub fn download<S: ProgressSink>(pkg: &Package, build_dir: &str, sink: &mut S) -> (r: Result<
    (),
    PkgError,
>)
    ensures
        (forall|i: int|
            0 <= i < pkg.source.0@.len() ==> #[trigger] pkg.source.0@[i].proto == Proto::file)
            ==> r is Ok,
        (exists|i: int|
            0 <= i < pkg.source.0@.len() && #[trigger] pkg.source.0@[i].proto == Proto::url && (
            forall|j: int| 0 <= j < i ==> #[trigger] pkg.source.0@[j].proto == Proto::file)) ==> (
        r matches Err(e) && e is UnimplementedProtocol),
{
    let n = pkg.source.0.len();
    let mut i: usize = 0;
    while i < n
        invariant
            i <= n,
            n == pkg.source.0@.len(),
            forall|j: int| 0 <= j < i ==> #[trigger] pkg.source.0@[j].proto != Proto::url,
        decreases n - i,
    {
        match pkg.source.0[i].proto {
            Proto::git => {
                let name: Option<&str> = match &pkg.source.0[i].repo_name {
                    Some(s) => Some(s.as_str()),
                    None => None,
                };
                match git_sync_with_remote(
                    pkg.source.0[i].location.as_str(),
                    build_dir,
                    name,
                    &pkg.source.0[i].checkout,
                    sink,
                ) {
                    Ok(_) => {},
                    Err(e) => return Err(e),
                }
            },
            Proto::url => {
                return Err(
                    PkgError::UnimplementedProtocol(
                        String::from_str("fetching sources over a url is not implemented"),
                    ),
                );
            },
            Proto::file => {},
        }
        i = i + 1;
    }
    Ok(())
}

} // verus!
