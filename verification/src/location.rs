//! Classification of a repository location as local or remote.

use crate::text::starts_with;
use vstd::prelude::*;

verus! {

/// A location is remote when it begins with the scheme of one of restic's
/// storage backends. The test is literal and case-sensitive.
pub open spec fn is_remote(location: Seq<char>) -> bool {
    ||| "azure:"@.is_prefix_of(location)
    ||| "b2:"@.is_prefix_of(location)
    ||| "gs:"@.is_prefix_of(location)
    ||| "rclone:"@.is_prefix_of(location)
    ||| "s3:"@.is_prefix_of(location)
    ||| "sftp:"@.is_prefix_of(location)
    ||| "swift:"@.is_prefix_of(location)
}

/// Every location that is not remote is a path on the local file system.
pub open spec fn is_local(location: Seq<char>) -> bool {
    !is_remote(location)
}

/// Whether a repository location is a path on the local file system.
pub fn is_local_repository(location: &str) -> (result: bool)
    ensures
        result == is_local(location@),
{
    !starts_with(location, "azure:") && !starts_with(location, "b2:") && !starts_with(
        location,
        "gs:",
    ) && !starts_with(location, "rclone:") && !starts_with(location, "s3:") && !starts_with(
        location,
        "sftp:",
    ) && !starts_with(location, "swift:")
}

/// A location without a colon names no backend, so it is local: absolute
/// paths and paths that begin with a systemd specifier such as `%h` are
/// local unless a colon occurs in them.
pub proof fn lemma_location_without_colon_is_local(location: Seq<char>)
    requires
        !location.contains(':'),
    ensures
        is_local(location),
{
    reveal_strlit("azure:");
    reveal_strlit("b2:");
    reveal_strlit("gs:");
    reveal_strlit("rclone:");
    reveal_strlit("s3:");
    reveal_strlit("sftp:");
    reveal_strlit("swift:");
    if "azure:"@.is_prefix_of(location) {
        assert(location.subrange(0, 6)[5] == ':');
        assert(location[5] == ':');
    }
    if "b2:"@.is_prefix_of(location) {
        assert(location.subrange(0, 3)[2] == ':');
        assert(location[2] == ':');
    }
    if "gs:"@.is_prefix_of(location) {
        assert(location.subrange(0, 3)[2] == ':');
        assert(location[2] == ':');
    }
    if "rclone:"@.is_prefix_of(location) {
        assert(location.subrange(0, 7)[6] == ':');
        assert(location[6] == ':');
    }
    if "s3:"@.is_prefix_of(location) {
        assert(location.subrange(0, 3)[2] == ':');
        assert(location[2] == ':');
    }
    if "sftp:"@.is_prefix_of(location) {
        assert(location.subrange(0, 5)[4] == ':');
        assert(location[4] == ':');
    }
    if "swift:"@.is_prefix_of(location) {
        assert(location.subrange(0, 6)[5] == ':');
        assert(location[5] == ':');
    }
}

/// A location that begins with a character that no backend scheme begins
/// with is local, whatever follows: among them `/` and `%`.
pub proof fn lemma_path_is_local(location: Seq<char>)
    requires
        location.len() > 0,
        location[0] == '/' || location[0] == '%' || location[0] == '.' || location[0] == '~',
    ensures
        is_local(location),
{
    reveal_strlit("azure:");
    reveal_strlit("b2:");
    reveal_strlit("gs:");
    reveal_strlit("rclone:");
    reveal_strlit("s3:");
    reveal_strlit("sftp:");
    reveal_strlit("swift:");
    if "azure:"@.is_prefix_of(location) {
        assert(location.subrange(0, 6)[0] == 'a');
    }
    if "b2:"@.is_prefix_of(location) {
        assert(location.subrange(0, 3)[0] == 'b');
    }
    if "gs:"@.is_prefix_of(location) {
        assert(location.subrange(0, 3)[0] == 'g');
    }
    if "rclone:"@.is_prefix_of(location) {
        assert(location.subrange(0, 7)[0] == 'r');
    }
    if "s3:"@.is_prefix_of(location) {
        assert(location.subrange(0, 3)[0] == 's');
    }
    if "sftp:"@.is_prefix_of(location) {
        assert(location.subrange(0, 5)[0] == 's');
    }
    if "swift:"@.is_prefix_of(location) {
        assert(location.subrange(0, 6)[0] == 's');
    }
}

} // verus!
