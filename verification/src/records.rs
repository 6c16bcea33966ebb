//! Project, collaboration and resource bookkeeping: plain records created
//! from values the surrounding runtime has already authenticated, with no
//! invariant beyond who may write them.

use vstd::prelude::*;

use crate::Pubkey;

verus! {

/// The lifecycle of a project record.
#[derive(Clone, Copy, PartialEq, Eq, Structural, Debug)]
pub enum ProjectStatus {
    Active,
    Completed,
    Paused,
}

/// The lifecycle of a collaboration record.
#[derive(Clone, Copy, PartialEq, Eq, Structural, Debug)]
pub enum CollaborationStatus {
    Active,
    Ended,
}

/// What kind of resource is on offer.
#[derive(Clone, Copy, PartialEq, Eq, Structural, Debug)]
pub enum ResourceType {
    Service,
    Skill,
    Material,
    Funding,
}

/// What the provider accepts in exchange.
#[derive(Clone, Copy, PartialEq, Eq, Structural, Debug)]
pub enum ExchangeType {
    Token,
    Collaboration,
    FutureBenefit,
}

/// The lifecycle of a resource record.
#[derive(Clone, Copy, PartialEq, Eq, Structural, Debug)]
pub enum ResourceStatus {
    Available,
    Reserved,
    Exchanged,
}

/// One project and its creator.
#[derive(Clone, Debug)]
pub struct Project {
    pub creator: Pubkey,
    pub title: String,
    pub description: String,
    pub token_supply: u64,
    pub status: ProjectStatus,
    pub created_at: i64,
}

/// One collaborator's membership in a project.
#[derive(Clone, Debug)]
pub struct Collaboration {
    pub project: Pubkey,
    pub collaborator: Pubkey,
    pub role: String,
    pub token_allocation: u64,
    pub status: CollaborationStatus,
    pub joined_at: i64,
}

/// One exchangeable resource offering.
#[derive(Clone, Debug)]
pub struct Resource {
    pub provider: Pubkey,
    pub title: String,
    pub description: String,
    pub resource_type: ResourceType,
    pub exchange_type: ExchangeType,
    pub price: u64,
    pub status: ResourceStatus,
    pub created_at: i64,
}

/// A fresh project record, active from `created_at`.
pub fn initialize_project(
    creator: Pubkey,
    title: String,
    description: String,
    token_supply: u64,
    created_at: i64,
) -> (p: Project)
    ensures
        p.creator == creator,
        p.title == title,
        p.description == description,
        p.token_supply == token_supply,
        p.status == ProjectStatus::Active,
        p.created_at == created_at,
{
    Project { creator, title, description, token_supply, status: ProjectStatus::Active, created_at }
}

/// A fresh collaboration record, active from `joined_at`.
pub fn add_collaborator(
    project: Pubkey,
    collaborator: Pubkey,
    role: String,
    token_allocation: u64,
    joined_at: i64,
) -> (c: Collaboration)
    ensures
        c.project == project,
        c.collaborator == collaborator,
        c.role == role,
        c.token_allocation == token_allocation,
        c.status == CollaborationStatus::Active,
        c.joined_at == joined_at,
{
    Collaboration {
        project,
        collaborator,
        role,
        token_allocation,
        status: CollaborationStatus::Active,
        joined_at,
    }
}

/// A fresh resource offering, available from `created_at`.
pub fn create_resource(
    provider: Pubkey,
    title: String,
    description: String,
    resource_type: ResourceType,
    exchange_type: ExchangeType,
    price: u64,
    created_at: i64,
) -> (r: Resource)
    ensures
        r.provider == provider,
        r.title == title,
        r.description == description,
        r.resource_type == resource_type,
        r.exchange_type == exchange_type,
        r.price == price,
        r.status == ResourceStatus::Available,
        r.created_at == created_at,
{
    Resource {
        provider,
        title,
        description,
        resource_type,
        exchange_type,
        price,
        status: ResourceStatus::Available,
        created_at,
    }
}

/// Marks `resource` exchanged once the surrounding runtime has settled the
/// token payment from buyer to provider; every other field is kept.
pub fn exchange_resource(resource: &mut Resource)
    ensures
        final(resource).status == ResourceStatus::Exchanged,
        final(resource).provider == old(resource).provider,
        final(resource).title == old(resource).title,
        final(resource).description == old(resource).description,
        final(resource).resource_type == old(resource).resource_type,
        final(resource).exchange_type == old(resource).exchange_type,
        final(resource).price == old(resource).price,
        final(resource).created_at == old(resource).created_at,
{
    resource.status = ResourceStatus::Exchanged;
}

} // verus!
