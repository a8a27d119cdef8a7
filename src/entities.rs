use vstd::prelude::*;

verus! {

/// An instant, as whole seconds since the Unix epoch and the nanoseconds
/// past that second. The gateway relays instants; it never reads them.
#[derive(Debug, Clone, Copy, PartialEq, Eq, Structural)]
pub struct Timestamp {
    pub secs: i64,
    pub nanos: u32,
}

/// A dog breed, as the dog service records it.
#[derive(Debug)]
pub struct Breed {
    pub id: String,
    pub category: String,
    pub name: String,
    pub created_at: Timestamp,
    pub updated_at: Timestamp,
}

/// A dog, as the dog service records it.
#[derive(Debug)]
pub struct Dog {
    pub id: String,
    pub name: String,
    pub gender: String,
    pub breed: Breed,
    pub birthday: Timestamp,
    pub is_sterilized: bool,
    pub introduction: String,
    pub owner_id: String,
    pub tags: Vec<String>,
    pub portrait_id: Option<String>,
    pub created_at: Timestamp,
    pub updated_at: Timestamp,
}

/// A walk request as the walk-request service returns it: its dogs by id.
/// `G` carries the position fields (latitude, longitude, distance), which
/// the gateway relays without reading.
#[derive(Debug)]
pub struct UpstreamWalkRequest<G> {
    pub id: String,
    pub dog_ids: Vec<String>,
    pub geo: G,
    pub canceled_at: Option<Timestamp>,
    pub accepted_by: Option<String>,
    pub accepted_at: Option<Timestamp>,
    pub started_at: Option<Timestamp>,
    pub finished_at: Option<Timestamp>,
    pub status: String,
    pub created_at: Option<Timestamp>,
    pub updated_at: Option<Timestamp>,
}

/// A walk request with its dogs resolved.
#[derive(Debug)]
pub struct WalkRequest<G> {
    pub id: String,
    pub dogs: Vec<Dog>,
    pub geo: G,
    pub canceled_at: Option<Timestamp>,
    pub accepted_by: Option<String>,
    pub accepted_at: Option<Timestamp>,
    pub started_at: Option<Timestamp>,
    pub finished_at: Option<Timestamp>,
    pub status: String,
    pub created_at: Option<Timestamp>,
    pub updated_at: Option<Timestamp>,
}

/// `w` is `r` with its dog ids replaced by `dogs`.
pub open spec fn is_composite<G>(w: WalkRequest<G>, r: UpstreamWalkRequest<G>, dogs: Seq<Dog>) -> bool {
    &&& w.id == r.id
    &&& w.dogs@ == dogs
    &&& w.geo == r.geo
    &&& w.canceled_at == r.canceled_at
    &&& w.accepted_by == r.accepted_by
    &&& w.accepted_at == r.accepted_at
    &&& w.started_at == r.started_at
    &&& w.finished_at == r.finished_at
    &&& w.status == r.status
    &&& w.created_at == r.created_at
    &&& w.updated_at == r.updated_at
}

impl<G> WalkRequest<G> {
    /// Replaces the dog ids of `r` by `dogs`.
    pub fn compose(r: UpstreamWalkRequest<G>, dogs: Vec<Dog>) -> (w: WalkRequest<G>)
        ensures
            is_composite(w, r, dogs@),
    {
        WalkRequest {
            id: r.id,
            dogs,
            geo: r.geo,
            canceled_at: r.canceled_at,
            accepted_by: r.accepted_by,
            accepted_at: r.accepted_at,
            started_at: r.started_at,
            finished_at: r.finished_at,
            status: r.status,
            created_at: r.created_at,
            updated_at: r.updated_at,
        }
    }
}

/// A page of results.
#[derive(Debug, Clone, Copy, PartialEq, Eq, Structural)]
pub struct Pagination {
    pub page: i32,
    pub size: i32,
}

/// A filter on dogs; each field that is set narrows the result.
#[derive(Debug)]
pub struct DogQuery {
    pub id: Option<String>,
    pub id_in: Option<Vec<String>>,
    pub owner_id: Option<String>,
    pub pagination: Option<Pagination>,
}

/// The body of a portrait change.
#[derive(Debug)]
pub struct DogPortraitUpdate {
    pub portrait_id: String,
}

/// The body of a portrait change as a client submits it.
#[derive(Debug)]
pub struct UpdateDogPortraitReq {
    pub portrait_id: String,
}

/// A new dog as a client submits it. `B` is the breed selector, which the
/// dog service defines and the gateway relays.
#[derive(Debug)]
pub struct DogCreateIncome<B> {
    pub name: String,
    pub gender: String,
    pub breed: B,
    pub birthday: Timestamp,
    pub tags: Vec<String>,
    pub portrait_id: Option<String>,
}

/// A new dog as the dog service takes it: the submission and its owner.
#[derive(Debug)]
pub struct DogCreate<B> {
    pub owner_id: String,
    pub name: String,
    pub gender: String,
    pub breed: B,
    pub birthday: Timestamp,
    pub tags: Vec<String>,
    pub portrait_id: Option<String>,
}

} // verus!
