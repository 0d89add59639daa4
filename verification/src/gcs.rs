//! Addressing for the object-storage-backed variant.

use vstd::prelude::*;
use vstd::string::StringExecFns;

verus! {

/// The `gs://{bucket}/{object}` location descriptor the object-storage
/// variant reports for a stored object. The network transfer itself lives
/// with the embedding process; the descriptor it reports is computed here.
pub fn gcs_location(bucket: &String, object_name: &String) -> (r: String)
    ensures
        r@ == "gs://"@ + bucket@ + "/"@ + object_name@,
{
    let mut r = "gs://".to_owned();
    r.append(bucket.as_str());
    r.append("/");
    r.append(object_name.as_str());
    r
}

} // verus!
