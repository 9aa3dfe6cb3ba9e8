//! An in-memory model of the element-backed device files: a map from device
//! path to stored text. It stands in for the device-file transport mechanism,
//! so the storage lifecycle — write, read back, remove — can be stated,
//! proved, and exercised without touching a real device.

use vstd::prelude::*;
use vstd::hash_map::StringHashMap;

verus! {

/// The failure text a read reports for a path that holds nothing.
pub open spec fn missing_path_text() -> Seq<char> {
    "no such device path"@
}

/// The store: each well-known device path maps to the text last written
/// there. Abstractly a `Map` from path to content.
pub struct DeviceStore {
    inner: StringHashMap<String>,
}

impl View for DeviceStore {
    type V = Map<Seq<char>, Seq<char>>;

    closed spec fn view(&self) -> Map<Seq<char>, Seq<char>> {
        self.inner@.map_values(|v: String| v@)
    }
}

impl DeviceStore {
    /// An empty store: no device path holds anything.
    pub fn new() -> (s: Self)
        ensures
            s@ == Map::<Seq<char>, Seq<char>>::empty(),
    {
        let s = DeviceStore { inner: StringHashMap::new() };
        proof {
            assert(s@ =~= Map::<Seq<char>, Seq<char>>::empty());
        }
        s
    }

    /// Writes `content` to `path`, replacing whatever the path held.
    pub fn write(&mut self, path: &str, content: String)
        ensures
            final (self)@ == old(self)@.insert(path@, content@),
    {
        let key = String::from_str(path);
        self.inner.insert(key, content);
        proof {
            assert(self@ =~= old(self)@.insert(path@, content@));
        }
    }

    /// Reads the text stored at `path`: the stored text if the path holds
    /// one, and the missing-path failure otherwise — never an empty success.
    pub fn read(&self, path: &str) -> (r: Result<String, String>)
        ensures
            self@.contains_key(path@) ==> (r matches Ok(c) && c@ == self@[path@]),
            !self@.contains_key(path@) ==> (r matches Err(e) && e@ == missing_path_text()),
    {
        match self.inner.get(path) {
            Some(v) => Ok(v.clone()),
            None => Err(String::from_str("no such device path")),
        }
    }

    /// Erases whatever `path` holds. Confirms the removal when the path held
    /// something, and reports the missing-path failure when it did not.
    pub fn remove(&mut self, path: &str) -> (r: Result<(), String>)
        ensures
            final (self)@ == old(self)@.remove(path@),
            r is Ok <==> old(self)@.contains_key(path@),
            r matches Err(e) ==> e@ == missing_path_text(),
    {
        let present = self.inner.contains_key(path);
        self.inner.remove(path);
        proof {
            assert(self@ =~= old(self)@.remove(path@));
        }
        if present {
            Ok(())
        } else {
            Err(String::from_str("no such device path"))
        }
    }
}

} // verus!
