use vstd::prelude::*;

verus! {

/// A render request, tagged by the kind of image it asks for.
#[derive(Clone, Debug)]
pub enum RenderRequest {
    RankCard {
        username: String,
        avatar_url: String,
        current_xp: i32,
        next_xp: i32,
        rank: i32,
        clan_color: String,
    },
    Mugshot {
        username: String,
        avatar_url: String,
        background_color: Option<String>,
    },
}

/// The fields of a rank card.
#[derive(Clone, Debug)]
pub struct RankCardRequest {
    pub username: String,
    pub avatar_url: String,
    pub current_xp: i32,
    pub next_xp: i32,
    pub rank: i32,
    pub clan_color: String,
}

/// The fields of a mugshot.
#[derive(Clone, Debug)]
pub struct MugshotRequest {
    pub username: String,
    pub avatar_url: String,
    pub background_color: Option<String>,
}

/// The body of a reply that carries no image.
#[derive(Clone, Debug)]
pub struct RenderResponse {
    pub success: bool,
    pub message: String,
}

impl RenderResponse {
    /// A failure reply with `message`.
    pub fn failure(message: String) -> (r: RenderResponse)
        ensures
            !r.success,
            r.message@ == message@,
    {
        RenderResponse { success: false, message }
    }
}

} // verus!
