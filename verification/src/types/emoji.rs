//! Custom emojis.

use vstd::prelude::*;

verus! {

/// A custom emoji uploaded to a platform (standard Unicode emojis are not
/// represented).
#[derive(Debug, Clone)]
pub struct Emoji {
    /// Unique identifier for the emoji
    pub id: String,
    /// Name of the emoji, without colons (e.g., "thumbsup")
    pub name: String,
    /// User ID of the person who created/uploaded this emoji
    pub creator_id: String,
    /// When the emoji was created (milliseconds since the Unix epoch)
    pub created_at: i64,
}

impl Emoji {
    /// An emoji with the given fields.
    pub fn new(id: String, name: String, creator_id: String, created_at: i64) -> (e: Self)
        ensures
            e == (Emoji { id, name, creator_id, created_at }),
    {
        Emoji { id, name, creator_id, created_at }
    }

    /// The emoji's name between colons (e.g., ":thumbsup:").
    pub fn name_with_colons(&self) -> (s: String)
        ensures
            s@ == seq![':'] + self.name@ + seq![':'],
    {
        let mut s = crate::text::owned(":");
        s.append(self.name.as_str());
        s.append(":");
        proof {
            reveal_strlit(":");
        }
        s
    }
}

} // verus!
