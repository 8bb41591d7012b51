use vstd::prelude::*;

use crate::domain::Team;

verus! {

/// One team of the caller, as `GET /teams` lists it.
pub struct TeamsResponse {
    pub id: i64,
    pub name: String,
    pub slug: String,
    pub logo: String,
}

impl TeamsResponse {
    pub fn from_team(team: &Team) -> (r: TeamsResponse)
        ensures
            r.id == team.id,
            r.name == team.name,
            r.slug == team.slug,
            r.logo == team.logo,
    {
        TeamsResponse {
            id: team.id,
            name: team.name.clone(),
            slug: team.slug.clone(),
            logo: team.logo.clone(),
        }
    }
}

} // verus!
