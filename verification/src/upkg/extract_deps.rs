use vstd::prelude::*;
use crate::errors::PkgError;
use crate::lua_types::{Package, Proto};

verus! {

/// The extract stage. A git source's working tree is already in place and
/// a file source is already local, so neither needs extraction; a url
/// source would carry a fetched archive, and unpacking it is a declared
/// extension point that surfaces as explicitly unimplemented.
pub fn extract(pkg: &Package, _pkgbuild: &str) -> (r: Result<(), PkgError>)
    ensures
        r is Ok <==> (forall|i: int|
            0 <= i < pkg.source.0@.len() ==> #[trigger] pkg.source.0@[i].proto != Proto::url),
        r matches Err(e) ==> e is UnimplementedProtocol,
{
    let n = pkg.source.0.len();
    let mut i: usize = 0;
    while i < n
        invariant
            i <= n,
            n == pkg.source.0@.len(),
            forall|j: int| 0 <= j < i ==> #[trigger] pkg.source.0@[j].proto != Proto::url,
        decreases n - i,
    {
        match pkg.source.0[i].proto {
            Proto::git => {},
            Proto::url => {
                return Err(
                    PkgError::UnimplementedProtocol(
                        String::from_str("extracting data received from a server is not implemented"),
                    ),
                );
            },
            Proto::file => {},
        }
        i = i + 1;
    }
    Ok(())
}

} // verus!
