use vstd::prelude::*;

use crate::domain::Team;

verus! {

/// `POST /teams` body; the logo defaults to empty.
pub struct CreateTeamRequest {
    pub name: String,
    pub slug: String,
    pub logo: String,
}

/// A team as the API returns it.
pub struct TeamResponse {
    pub id: i64,
    pub name: String,
    pub slug: String,
    pub logo: String,
}

impl TeamResponse {
    pub fn from_team(team: Team) -> (r: TeamResponse)
        ensures
            r.id == team.id,
            r.name == team.name,
            r.slug == team.slug,
            r.logo == team.logo,
    {
        TeamResponse { id: team.id, name: team.name, slug: team.slug, logo: team.logo }
    }
}

} // verus!
