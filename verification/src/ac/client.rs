//! The Assetto Corsa telemetry client.
//!
//! A client holds up to three named shared-memory regions (physics,
//! graphics, static session info) opened through a pluggable backend.
//! Connecting is all-or-nothing: if any one region fails to open, every
//! region already opened in that call is released and the client stays
//! disconnected. Reads decode the region's current bytes into a snapshot
//! by value; a read on a region that is not held reports absence, not an
//! error.

use crate::ac::types::Graphics;
use crate::ac::types::Physics;
use crate::ac::types::StaticInfo;
use crate::ac::types::GRAPHICS_SIZE;
use crate::ac::types::PHYSICS_SIZE;
use crate::ac::types::STATIC_INFO_SIZE;
use crate::ac::AssettoCorsaError;
use crate::utils::shared_memory::SharedMemory;
use crate::utils::shared_memory::SharedMemoryError;
use crate::utils::shared_memory::SharedMemoryOpener;
use crate::utils::text::contains_text;
use vstd::prelude::*;

verus! {

/// The producer-defined name of the physics region.
pub open spec fn spec_physics_region_name() -> Seq<char> {
    "Local\\acpmf_physics"@
}

/// The producer-defined name of the graphics region.
pub open spec fn spec_graphics_region_name() -> Seq<char> {
    "Local\\acpmf_graphics"@
}

/// The producer-defined name of the static-info region.
pub open spec fn spec_static_region_name() -> Seq<char> {
    "Local\\acpmf_static"@
}

pub fn physics_region_name() -> (r: &'static str)
    ensures
        r@ == spec_physics_region_name(),
{
    "Local\\acpmf_physics"
}

pub fn graphics_region_name() -> (r: &'static str)
    ensures
        r@ == spec_graphics_region_name(),
{
    "Local\\acpmf_graphics"
}

pub fn static_region_name() -> (r: &'static str)
    ensures
        r@ == spec_static_region_name(),
{
    "Local\\acpmf_static"
}

/// A telemetry client for one simulator instance, generic over the
/// shared-memory backend that resolves its named regions.
pub struct AssettoCorsaClient<O: SharedMemoryOpener> {
    opener: O,
    physics_memory: Option<O::Region>,
    graphics_memory: Option<O::Region>,
    static_memory: Option<O::Region>,
}

impl<O: SharedMemoryOpener> AssettoCorsaClient<O> {
    /// Every region held has exactly its record's size.
    #[verifier::type_invariant]
    spec fn inv(self) -> bool {
        &&& self.physics_memory matches Some(m) ==> m.contents().len() == PHYSICS_SIZE
        &&& self.graphics_memory matches Some(m) ==> m.contents().len() == GRAPHICS_SIZE
        &&& self.static_memory matches Some(m) ==> m.contents().len() == STATIC_INFO_SIZE
    }

    /// The backend this client resolves regions through.
    pub closed spec fn spec_opener(self) -> O {
        self.opener
    }

    /// Whether the physics region is held.
    pub closed spec fn has_physics(self) -> bool {
        self.physics_memory is Some
    }

    /// Whether the graphics region is held.
    pub closed spec fn has_graphics(self) -> bool {
        self.graphics_memory is Some
    }

    /// Whether the static-info region is held.
    pub closed spec fn has_static(self) -> bool {
        self.static_memory is Some
    }

    /// Connected means all three regions are held.
    pub open spec fn connected(self) -> bool {
        self.has_physics() && self.has_graphics() && self.has_static()
    }

    /// The bytes of the held physics region.
    pub closed spec fn physics_bytes(self) -> Seq<u8> {
        self.physics_memory->Some_0.contents()
    }

    /// The bytes of the held graphics region.
    pub closed spec fn graphics_bytes(self) -> Seq<u8> {
        self.graphics_memory->Some_0.contents()
    }

    /// The bytes of the held static-info region.
    pub closed spec fn static_bytes(self) -> Seq<u8> {
        self.static_memory->Some_0.contents()
    }

    /// A disconnected client over the given backend.
    pub fn new(opener: O) -> (r: Self)
        ensures
            !r.has_physics(),
            !r.has_graphics(),
            !r.has_static(),
            r.spec_opener() == opener,
    {
        AssettoCorsaClient {
            opener,
            physics_memory: None,
            graphics_memory: None,
            static_memory: None,
        }
    }

    /// Opens all three regions, all-or-nothing.
    ///
    /// Where the backend owes all three mappings (`can_open`), success is
    /// owed here too. On success the client holds every region, each
    /// mapped to its record's size from the backend's current contents. On
    /// any failure the client holds no region at all and reports the first
    /// failure, in the fixed order physics, graphics, static, reclassified
    /// into this client's error type; a missing region name always fails
    /// with `SharedMemoryNotFound` naming it.
    pub fn connect(&mut self) -> (r: Result<(), AssettoCorsaError>)
        ensures
            final(self).spec_opener() == old(self).spec_opener(),
            r is Ok <==> final(self).connected(),
            r is Ok <==> final(self).has_physics(),
            r is Ok <==> final(self).has_graphics(),
            r is Ok <==> final(self).has_static(),
            r is Ok ==> {
                let opener = old(self).spec_opener();
                &&& opener.has_region(spec_physics_region_name())
                &&& opener.has_region(spec_graphics_region_name())
                &&& opener.has_region(spec_static_region_name())
                &&& final(self).physics_bytes() == opener.region_bytes(
                    spec_physics_region_name(),
                ).subrange(0, PHYSICS_SIZE as int)
                &&& final(self).graphics_bytes() == opener.region_bytes(
                    spec_graphics_region_name(),
                ).subrange(0, GRAPHICS_SIZE as int)
                &&& final(self).static_bytes() == opener.region_bytes(
                    spec_static_region_name(),
                ).subrange(0, STATIC_INFO_SIZE as int)
            },
            old(self).spec_opener().can_open(spec_physics_region_name(), PHYSICS_SIZE) && old(
                self,
            ).spec_opener().can_open(spec_graphics_region_name(), GRAPHICS_SIZE) && old(
                self,
            ).spec_opener().can_open(spec_static_region_name(), STATIC_INFO_SIZE) ==> r is Ok,
            !old(self).spec_opener().has_region(spec_physics_region_name()) ==> (r matches Err(
                AssettoCorsaError::SharedMemoryNotFound(m),
            ) && contains_text(m@, spec_physics_region_name())),
            old(self).spec_opener().can_open(spec_physics_region_name(), PHYSICS_SIZE) && !old(
                self,
            ).spec_opener().has_region(spec_graphics_region_name()) ==> (r matches Err(
                AssettoCorsaError::SharedMemoryNotFound(m),
            ) && contains_text(m@, spec_graphics_region_name())),
            old(self).spec_opener().can_open(spec_physics_region_name(), PHYSICS_SIZE) && old(
                self,
            ).spec_opener().can_open(spec_graphics_region_name(), GRAPHICS_SIZE) && !old(
                self,
            ).spec_opener().has_region(spec_static_region_name()) ==> (r matches Err(
                AssettoCorsaError::SharedMemoryNotFound(m),
            ) && contains_text(m@, spec_static_region_name())),
            !old(self).spec_opener().has_region(spec_physics_region_name()) || !old(
                self,
            ).spec_opener().has_region(spec_graphics_region_name()) || !old(
                self,
            ).spec_opener().has_region(spec_static_region_name()) ==> r is Err,
            r matches Err(AssettoCorsaError::SharedMemoryNotFound(m)) ==> {
                let opener = old(self).spec_opener();
                ||| !opener.has_region(spec_physics_region_name()) && contains_text(
                    m@,
                    spec_physics_region_name(),
                )
                ||| !opener.has_region(spec_graphics_region_name()) && contains_text(
                    m@,
                    spec_graphics_region_name(),
                )
                ||| !opener.has_region(spec_static_region_name()) && contains_text(
                    m@,
                    spec_static_region_name(),
                )
            },
            !(r matches Err(AssettoCorsaError::InvalidData(_))),
    {
        proof {
            use_type_invariant(&*self);
        }
        let physics = self.opener.open(physics_region_name(), PHYSICS_SIZE);
        let graphics = self.opener.open(graphics_region_name(), GRAPHICS_SIZE);
        let static_info = self.opener.open(static_region_name(), STATIC_INFO_SIZE);
        match (physics, graphics, static_info) {
            (Ok(p), Ok(g), Ok(s)) => {
                self.physics_memory = Some(p);
                self.graphics_memory = Some(g);
                self.static_memory = Some(s);
                Ok(())
            },
            (Err(e), _, _) | (_, Err(e), _) | (_, _, Err(e)) => {
                self.physics_memory = None;
                self.graphics_memory = None;
                self.static_memory = None;
                Err(map_shared_memory_error(e))
            },
        }
    }

    /// True exactly when all three regions are held.
    pub fn is_connected(&self) -> (r: bool)
        ensures
            r == self.connected(),
    {
        self.physics_memory.is_some() && self.graphics_memory.is_some()
            && self.static_memory.is_some()
    }

    /// One synchronous read of the physics region, decoded by value;
    /// absence (not an error) when the region is not held.
    pub fn get_physics(&self) -> (r: Option<Physics>)
        ensures
            r is Some <==> self.has_physics(),
            r matches Some(p) ==> p.wf() && p.matches_bytes(self.physics_bytes()),
    {
        match &self.physics_memory {
            Some(memory) => {
                proof {
                    use_type_invariant(self);
                }
                Some(Physics::decode(memory.as_slice()))
            },
            None => None,
        }
    }

    /// One synchronous read of the graphics region, decoded by value;
    /// absence (not an error) when the region is not held.
    pub fn get_graphics(&self) -> (r: Option<Graphics>)
        ensures
            r is Some <==> self.has_graphics(),
            r matches Some(g) ==> g.wf() && g.matches_bytes(self.graphics_bytes()),
    {
        match &self.graphics_memory {
            Some(memory) => {
                proof {
                    use_type_invariant(self);
                }
                Some(Graphics::decode(memory.as_slice()))
            },
            None => None,
        }
    }

    /// One synchronous read of the static-info region, decoded by value;
    /// absence (not an error) when the region is not held.
    pub fn get_static_info(&self) -> (r: Option<StaticInfo>)
        ensures
            r is Some <==> self.has_static(),
            r matches Some(s) ==> s.wf() && s.matches_bytes(self.static_bytes()),
    {
        match &self.static_memory {
            Some(memory) => {
                proof {
                    use_type_invariant(self);
                }
                Some(StaticInfo::decode(memory.as_slice()))
            },
            None => None,
        }
    }
}

/// Reclassifies a backend error into this client's error type, keeping the
/// message.
fn map_shared_memory_error(err: SharedMemoryError) -> (r: AssettoCorsaError)
    ensures
        err matches SharedMemoryError::SharedMemoryNotFound(m) ==> r
            == AssettoCorsaError::SharedMemoryNotFound(m),
        err matches SharedMemoryError::ConnectionFailed(m) ==> r
            == AssettoCorsaError::ConnectionFailed(m),
{
    match err {
        SharedMemoryError::SharedMemoryNotFound(msg) => AssettoCorsaError::SharedMemoryNotFound(
            msg,
        ),
        SharedMemoryError::ConnectionFailed(msg) => AssettoCorsaError::ConnectionFailed(msg),
    }
}

} // verus!
