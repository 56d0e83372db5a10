//! The shared-memory capability interface and its in-process backend.
//!
//! A simulator publishes telemetry in named shared-memory regions. The
//! `SharedMemoryOpener` trait abstracts how a region is resolved by name and
//! mapped; `SharedMemory` is one mapped region exposing its bytes. The
//! in-process backend here backs regions with plain byte buffers, which is
//! what the tests run against; a platform backend (for example one over the
//! Win32 file-mapping API) lives outside the verified library and implements
//! the same traits.

use crate::utils::text::contains_text;
use vstd::prelude::*;

verus! {

/// Why a named region could not be opened.
#[derive(Debug)]
pub enum SharedMemoryError {
    /// The named region does not exist (the producer is not running, or has
    /// not created it yet). Carries a message that names the missing region.
    SharedMemoryNotFound(String),
    /// The region exists but could not be mapped at the requested size.
    ConnectionFailed(String),
}

/// One mapped shared-memory region: a fixed run of bytes that stays readable
/// for the life of the handle.
pub trait SharedMemory: Sized {
    /// The bytes currently visible through this mapping.
    spec fn contents(&self) -> Seq<u8>;

    /// Exposes the mapped bytes. Never blocks and never copies.
    fn as_slice(&self) -> (r: &[u8])
        ensures
            r@ == self.contents(),
    ;
}

/// A backend that resolves a named region and maps `size` bytes of it.
///
/// The opener never creates a region: the producer process is solely
/// responsible for that. `has_region` and `region_bytes` are the backend's
/// model of which names exist and what they hold.
pub trait SharedMemoryOpener: Sized {
    type Region: SharedMemory;

    /// Whether an object of this name currently exists in the backend.
    spec fn has_region(&self, name: Seq<char>) -> bool;

    /// The bytes of the named object, when it exists.
    spec fn region_bytes(&self, name: Seq<char>) -> Seq<u8>;

    /// Whether mapping `size` bytes of `name` is guaranteed to succeed.
    ///
    /// The in-process backend owes success exactly when the object exists
    /// and holds at least `size` bytes; a backend over an OS primitive that
    /// can refuse a mapping for reasons outside its model may define this
    /// more weakly, down to never.
    spec fn can_open(&self, name: Seq<char>, size: usize) -> bool;

    /// Looks up `name` and maps its first `size` bytes.
    ///
    /// Every outcome is pinned to the backend's model: a mapping shows the
    /// object's leading bytes, a `SharedMemoryNotFound` proves the name
    /// absent and echoes it, a `ConnectionFailed` can only arise for a
    /// name that does exist, and wherever the backend owes success
    /// (`can_open`), the mapping is returned.
    fn open(&self, name: &str, size: usize) -> (r: Result<Self::Region, SharedMemoryError>)
        ensures
            self.can_open(name@, size) ==> r is Ok,
            r matches Ok(m) ==> self.has_region(name@) && size <= self.region_bytes(name@).len()
                && m.contents() == self.region_bytes(name@).subrange(0, size as int),
            r matches Err(SharedMemoryError::SharedMemoryNotFound(msg)) ==> !self.has_region(name@)
                && contains_text(msg@, name@),
            r matches Err(SharedMemoryError::ConnectionFailed(msg)) ==> self.has_region(name@),
    ;
}

/// A region mapped by the in-process backend: a plain byte buffer.
pub struct InMemoryRegion {
    bytes: Vec<u8>,
}

impl SharedMemory for InMemoryRegion {
    closed spec fn contents(&self) -> Seq<u8> {
        self.bytes@
    }

    fn as_slice(&self) -> (r: &[u8]) {
        self.bytes.as_slice()
    }
}

/// An in-process shared-memory backend: named regions backed by byte
/// buffers owned by the opener itself.
///
/// This is the backend the tests run against; it follows the platform
/// mapping primitive's behaviour exactly, including failing to map more
/// bytes than the named object holds.
pub struct InMemoryOpener {
    regions: Vec<(String, Vec<u8>)>,
}

impl InMemoryOpener {
    /// Which entry holds `name`, searching front to back.
    spec fn find(regions: Seq<(String, Vec<u8>)>, name: Seq<char>) -> Option<int>
        decreases regions.len(),
    {
        if regions.len() == 0 {
            None
        } else if regions[0].0@ == name {
            Some(0)
        } else {
            match Self::find(regions.drop_first(), name) {
                Some(i) => Some(i + 1),
                None => None,
            }
        }
    }

    proof fn lemma_find_in_range(regions: Seq<(String, Vec<u8>)>, name: Seq<char>)
        ensures
            Self::find(regions, name) matches Some(i) ==> 0 <= i < regions.len() && regions[i].0@
                == name,
        decreases regions.len(),
    {
        if regions.len() > 0 {
            Self::lemma_find_in_range(regions.drop_first(), name);
        }
    }

    /// A backend with no regions at all.
    pub fn new() -> (r: Self)
        ensures
            forall|name: Seq<char>| !r.has_region(name),
    {
        let r = InMemoryOpener { regions: Vec::new() };
        proof {
            assert forall|name: Seq<char>| !r.has_region(name) by {
                assert(Self::find(r.regions@, name) is None);
            }
        }
        r
    }

    /// Publishes `bytes` under `name`, as the producer process would.
    ///
    /// A newer region of the same name shadows an older one.
    pub fn publish(&mut self, name: &str, bytes: Vec<u8>)
        ensures
            final(self).has_region(name@),
            final(self).region_bytes(name@) == bytes@,
            forall|other: Seq<char>|
                other != name@ ==> #[trigger] final(self).has_region(other)
                    == old(self).has_region(other),
            forall|other: Seq<char>|
                other != name@ && old(self).has_region(other)
                    ==> #[trigger] final(self).region_bytes(other)
                    == old(self).region_bytes(other),
    {
        let ghost old_regions = self.regions@;
        let entry = (name.to_owned(), bytes);
        self.regions.insert(0, entry);
        proof {
            assert(self.regions@.drop_first() =~= old_regions);
            assert(Self::find(self.regions@, name@) == Some(0int));
            assert forall|other: Seq<char>| other != name@ implies #[trigger] self.has_region(other)
                == Self::find(old_regions, other) is Some by {
                assert(self.regions@[0].0@ == name@);
            }
            assert forall|other: Seq<char>|
                other != name@ && Self::find(old_regions, other) is Some implies #[trigger] self.region_bytes(
                other,
            ) == (match Self::find(old_regions, other) {
                Some(i) => old_regions[i].1@,
                None => Seq::empty(),
            }) by {
                Self::lemma_find_in_range(old_regions, other);
                assert(self.regions@[0].0@ == name@);
                let i = Self::find(old_regions, other)->Some_0;
                assert(Self::find(self.regions@, other) == Some(i + 1));
                assert(self.regions@[i + 1] == old_regions[i]);
            }
        }
    }

    /// Looks `name` up and hands back the entry's bytes.
    fn lookup(&self, name: &str) -> (r: Option<&Vec<u8>>)
        ensures
            r is Some <==> self.has_region(name@),
            r matches Some(v) ==> v@ == self.region_bytes(name@),
    {
        let n = self.regions.len();
        let mut k: usize = 0;
        while k < n
            invariant
                k <= n == self.regions@.len(),
                forall|j: int| 0 <= j < k ==> #[trigger] self.regions@[j].0@ != name@,
            decreases n - k,
        {
            if str_eq(self.regions[k].0.as_str(), name) {
                proof {
                    Self::lemma_find_skip(self.regions@, name@, k as int);
                    assert(Self::find(self.regions@, name@) == Some(k as int));
                }
                return Some(&self.regions[k].1);
            }
            k = k + 1;
        }
        proof {
            Self::lemma_find_skip(self.regions@, name@, n as int);
            Self::lemma_find_in_range(self.regions@, name@);
        }
        None
    }

    /// `find` on the whole list agrees with `find` on the part not yet
    /// scanned, as long as the scanned prefix held no match.
    proof fn lemma_find_skip(regions: Seq<(String, Vec<u8>)>, name: Seq<char>, k: int)
        requires
            0 <= k <= regions.len(),
            forall|j: int| 0 <= j < k ==> #[trigger] regions[j].0@ != name,
        ensures
            Self::find(regions, name) == match Self::find(regions.skip(k), name) {
                Some(i) => Some(i + k),
                None => None::<int>,
            },
        decreases k,
    {
        if k == 0 {
            assert(regions.skip(0) =~= regions);
        } else {
            assert(regions.len() > 0);
            assert(regions[0].0@ != name);
            Self::lemma_find_skip(regions.drop_first(), name, k - 1);
            assert(regions.drop_first().skip(k - 1) =~= regions.skip(k));
        }
    }
}

impl SharedMemoryOpener for InMemoryOpener {
    type Region = InMemoryRegion;

    closed spec fn has_region(&self, name: Seq<char>) -> bool {
        Self::find(self.regions@, name) is Some
    }

    closed spec fn region_bytes(&self, name: Seq<char>) -> Seq<u8> {
        match Self::find(self.regions@, name) {
            Some(i) => self.regions@[i].1@,
            None => Seq::empty(),
        }
    }

    /// In-process mappings cannot fail for outside reasons: success is owed
    /// exactly when the object exists and holds at least `size` bytes.
    open spec fn can_open(&self, name: Seq<char>, size: usize) -> bool {
        self.has_region(name) && size <= self.region_bytes(name).len()
    }

    fn open(&self, name: &str, size: usize) -> (r: Result<Self::Region, SharedMemoryError>) {
        proof {
            Self::lemma_find_in_range(self.regions@, name@);
        }
        match self.lookup(name) {
            None => {
                let msg = name.to_owned();
                proof {
                    crate::utils::text::lemma_contains_text_refl(name@);
                }
                Err(SharedMemoryError::SharedMemoryNotFound(msg))
            },
            Some(stored) => {
                if size > stored.len() {
                    Err(SharedMemoryError::ConnectionFailed(name.to_owned()))
                } else {
                    let mut bytes: Vec<u8> = Vec::new();
                    let mut k: usize = 0;
                    while k < size
                        invariant
                            k <= size <= stored@.len(),
                            bytes@ == stored@.subrange(0, k as int),
                        decreases size - k,
                    {
                        bytes.push(stored[k]);
                        k = k + 1;
                        assert(bytes@ =~= stored@.subrange(0, k as int));
                    }
                    Ok(InMemoryRegion { bytes })
                }
            },
        }
    }
}

/// Whether two string slices hold the same characters.
fn str_eq(a: &str, b: &str) -> (r: bool)
    ensures
        r == (a@ == b@),
{
    let sa = a.to_owned();
    let sb = b.to_owned();
    sa == sb
}

} // verus!
