//! Addressing for the filesystem-backed storage variant.

use vstd::prelude::*;
use vstd::string::StringExecFns;

verus! {

/// The filesystem-backed storage variant's addressing: objects live under a
/// single root directory configured at construction, and the namespace is
/// ignored. The byte copies themselves are plain file I/O and live with the
/// embedding process; what stands here is where the bytes go and the
/// location descriptor reported for them.
#[derive(Debug)]
pub struct LocalFileStorage {
    base_path: String,
}

impl LocalFileStorage {
    /// The root directory all object keys are joined onto.
    pub closed spec fn base(self) -> Seq<char> {
        self.base_path@
    }

    pub fn new(base_path: String) -> (r: LocalFileStorage)
        ensures
            r.base() == base_path@,
    {
        LocalFileStorage { base_path }
    }

    /// The filesystem destination of an object key: the key joined onto the
    /// root directory.
    pub fn destination(&self, object_name: &String) -> (r: String)
        ensures
            r@ == self.base() + "/"@ + object_name@,
    {
        let mut r = self.base_path.clone();
        r.append("/");
        r.append(object_name.as_str());
        r
    }

    /// The `local://` location descriptor reported for a stored object: the
    /// scheme prefixed onto the destination path.
    pub fn location_of(&self, object_name: &String) -> (r: String)
        ensures
            r@ == "local://"@ + self.base() + "/"@ + object_name@,
    {
        let mut r = "local://".to_owned();
        r.append(self.base_path.as_str());
        r.append("/");
        r.append(object_name.as_str());
        r
    }
}

impl Clone for LocalFileStorage {
    fn clone(&self) -> (r: Self)
        ensures
            r == *self,
    {
        LocalFileStorage { base_path: self.base_path.clone() }
    }
}

} // verus!
