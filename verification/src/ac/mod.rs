//! Assetto Corsa telemetry: snapshot schemas, client and facade.

pub mod client;
pub mod types;

pub use client::AssettoCorsaClient;
pub use types::AcFlagType;
pub use types::AcSessionType;
pub use types::AcStatus;
pub use types::Coordinates;
pub use types::Graphics;
pub use types::Physics;
pub use types::StaticInfo;
pub use types::utf16_to_string;

use crate::utils::shared_memory::SharedMemoryOpener;
use crate::utils::text::contains_text;
use vstd::prelude::*;

verus! {

/// What can go wrong while talking to the simulator.
#[derive(Debug)]
pub enum AssettoCorsaError {
    /// A named region does not exist: the producer is not running, or has
    /// not created it yet.
    SharedMemoryNotFound(String),
    /// A region exists but could not be mapped.
    ConnectionFailed(String),
    /// Reserved for structural validation; the decode path never raises it.
    InvalidData(String),
}

/// Whether the client currently holds its regions.
#[derive(Debug, Clone, Copy, PartialEq, Eq, Structural)]
pub enum ConnectionStatus {
    Disconnected,
    Connected,
}

/// The public face of the Assetto Corsa reader: one telemetry client with
/// status reporting.
pub struct AssettoCorsa<O: SharedMemoryOpener> {
    client: AssettoCorsaClient<O>,
}

impl<O: SharedMemoryOpener> AssettoCorsa<O> {
    /// The backend this reader resolves regions through.
    pub closed spec fn spec_opener(self) -> O {
        self.client.spec_opener()
    }

    /// Whether all three regions are held.
    pub closed spec fn connected(self) -> bool {
        self.client.connected()
    }

    /// Whether the physics region is held.
    pub closed spec fn has_physics(self) -> bool {
        self.client.has_physics()
    }

    /// Whether the graphics region is held.
    pub closed spec fn has_graphics(self) -> bool {
        self.client.has_graphics()
    }

    /// Whether the static-info region is held.
    pub closed spec fn has_static(self) -> bool {
        self.client.has_static()
    }

    /// The bytes of the held physics region.
    pub closed spec fn physics_bytes(self) -> Seq<u8> {
        self.client.physics_bytes()
    }

    /// The bytes of the held graphics region.
    pub closed spec fn graphics_bytes(self) -> Seq<u8> {
        self.client.graphics_bytes()
    }

    /// The bytes of the held static-info region.
    pub closed spec fn static_bytes(self) -> Seq<u8> {
        self.client.static_bytes()
    }

    /// A disconnected reader over the given backend.
    pub fn new(opener: O) -> (r: Self)
        ensures
            !r.connected(),
            !r.has_physics(),
            r.spec_opener() == opener,
    {
        AssettoCorsa { client: AssettoCorsaClient::new(opener) }
    }

    /// Opens all three regions, all-or-nothing; success is owed where the
    /// backend owes all three mappings, and a failure names the first
    /// missing region; see the client.
    pub fn connect(&mut self) -> (r: Result<(), AssettoCorsaError>)
        ensures
            final(self).spec_opener() == old(self).spec_opener(),
            r is Ok <==> final(self).connected(),
            r is Ok <==> final(self).has_physics(),
            r is Ok <==> final(self).has_graphics(),
            r is Ok <==> final(self).has_static(),
            r is Ok ==> {
                let opener = old(self).spec_opener();
                &&& opener.has_region(client::spec_physics_region_name())
                &&& opener.has_region(client::spec_graphics_region_name())
                &&& opener.has_region(client::spec_static_region_name())
                &&& final(self).physics_bytes() == opener.region_bytes(
                    client::spec_physics_region_name(),
                ).subrange(0, types::PHYSICS_SIZE as int)
                &&& final(self).graphics_bytes() == opener.region_bytes(
                    client::spec_graphics_region_name(),
                ).subrange(0, types::GRAPHICS_SIZE as int)
                &&& final(self).static_bytes() == opener.region_bytes(
                    client::spec_static_region_name(),
                ).subrange(0, types::STATIC_INFO_SIZE as int)
            },
            old(self).spec_opener().can_open(
                client::spec_physics_region_name(),
                types::PHYSICS_SIZE,
            ) && old(self).spec_opener().can_open(
                client::spec_graphics_region_name(),
                types::GRAPHICS_SIZE,
            ) && old(self).spec_opener().can_open(
                client::spec_static_region_name(),
                types::STATIC_INFO_SIZE,
            ) ==> r is Ok,
            !old(self).spec_opener().has_region(client::spec_physics_region_name()) ==> (r matches
                Err(AssettoCorsaError::SharedMemoryNotFound(m)) && contains_text(
                m@,
                client::spec_physics_region_name(),
            )),
            old(self).spec_opener().can_open(
                client::spec_physics_region_name(),
                types::PHYSICS_SIZE,
            ) && !old(self).spec_opener().has_region(client::spec_graphics_region_name()) ==> (r
                matches Err(AssettoCorsaError::SharedMemoryNotFound(m)) && contains_text(
                m@,
                client::spec_graphics_region_name(),
            )),
            old(self).spec_opener().can_open(
                client::spec_physics_region_name(),
                types::PHYSICS_SIZE,
            ) && old(self).spec_opener().can_open(
                client::spec_graphics_region_name(),
                types::GRAPHICS_SIZE,
            ) && !old(self).spec_opener().has_region(client::spec_static_region_name()) ==> (r
                matches Err(AssettoCorsaError::SharedMemoryNotFound(m)) && contains_text(
                m@,
                client::spec_static_region_name(),
            )),
            !old(self).spec_opener().has_region(client::spec_physics_region_name()) || !old(
                self,
            ).spec_opener().has_region(client::spec_graphics_region_name()) || !old(
                self,
            ).spec_opener().has_region(client::spec_static_region_name()) ==> r is Err,
            r matches Err(AssettoCorsaError::SharedMemoryNotFound(m)) ==> {
                let opener = old(self).spec_opener();
                ||| !opener.has_region(client::spec_physics_region_name()) && contains_text(
                    m@,
                    client::spec_physics_region_name(),
                )
                ||| !opener.has_region(client::spec_graphics_region_name()) && contains_text(
                    m@,
                    client::spec_graphics_region_name(),
                )
                ||| !opener.has_region(client::spec_static_region_name()) && contains_text(
                    m@,
                    client::spec_static_region_name(),
                )
            },
            !(r matches Err(AssettoCorsaError::InvalidData(_))),
    {
        self.client.connect()
    }

    /// True exactly when connected.
    pub fn is_connected(&self) -> (r: bool)
        ensures
            r == self.connected(),
    {
        self.client.is_connected()
    }

    /// The connection state as a category.
    pub fn status(&self) -> (r: ConnectionStatus)
        ensures
            r == ConnectionStatus::Connected <==> self.connected(),
    {
        if self.is_connected() {
            ConnectionStatus::Connected
        } else {
            ConnectionStatus::Disconnected
        }
    }

    /// The current physics snapshot, or absence when not connected.
    pub fn get_physics(&self) -> (r: Option<Physics>)
        ensures
            r is Some <==> self.has_physics(),
            r matches Some(p) ==> p.wf() && p.matches_bytes(self.physics_bytes()),
    {
        self.client.get_physics()
    }

    /// The current graphics snapshot, or absence when not connected.
    pub fn get_graphics(&self) -> (r: Option<Graphics>)
        ensures
            r is Some <==> self.has_graphics(),
            r matches Some(g) ==> g.wf() && g.matches_bytes(self.graphics_bytes()),
    {
        self.client.get_graphics()
    }

    /// The current static-info snapshot, or absence when not connected.
    pub fn get_static_info(&self) -> (r: Option<StaticInfo>)
        ensures
            r is Some <==> self.has_static(),
            r matches Some(s) ==> s.wf() && s.matches_bytes(self.static_bytes()),
    {
        self.client.get_static_info()
    }
}

} // verus!
