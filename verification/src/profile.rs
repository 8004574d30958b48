//! User profile data: textures, skin and cape information, and username
//! history entries.

use vstd::prelude::*;

verus! {

/// Metadata relating to a skin, such as the model used for it.
#[derive(Debug, Clone, PartialEq)]
pub struct SkinMetadata {
    /// The model used for the skin.
    pub model: String,
}

/// Information relating to the skin of a user.
#[derive(Debug, Clone, PartialEq)]
pub struct SkinData {
    /// The url of the skin texture.
    pub url: String,
    /// Metadata relating to the skin, such as the model used for it.
    pub metadata: Option<SkinMetadata>,
}

/// Information relating to the cape of a user.
#[derive(Debug, Clone, PartialEq)]
pub struct CapeData {
    /// The url of the cape texture.
    pub url: String,
}

/// Texture information for a user. A user without a cape has no cape entry.
#[derive(Debug, Clone, PartialEq)]
pub struct Textures {
    /// Information on the skin, such as the texture url and the model used.
    pub skin: SkinData,
    /// Information on the user's cape, if the user has one.
    pub cape: Option<CapeData>,
}

/// A texture entry in the profile properties.
#[derive(Debug, Clone, PartialEq)]
pub struct TexturesEntry {
    /// When the entry was served.
    pub timestamp: i64,
    /// UUID of the user.
    pub profile_id: String,
    /// Username of the user.
    pub profile_name: String,
    /// Texture information for the user.
    pub textures: Textures,
}

/// A property associated with the user; only textures are carried.
#[derive(Debug, Clone, PartialEq)]
pub struct ProfileProperty {
    /// Name of the property.
    pub name: String,
    /// The decoded value of the property.
    pub value: TexturesEntry,
}

/// A username change entry. The original name has no change timestamp, as it
/// was never changed to from a previous one.
#[derive(Debug, Clone, PartialEq)]
pub struct UsernameEntry {
    /// The username.
    pub name: String,
    /// A unix timestamp (in ms) of when the name was changed to this entry.
    pub changed_to_at: Option<u64>,
}

/// More complex user information.
#[derive(Debug, Clone, PartialEq)]
pub struct Profile {
    /// The UUID of the user.
    pub id: String,
    /// The username of the user.
    pub name: String,
    /// Properties associated with the user.
    pub properties: [ProfileProperty; 1],
    /// Whether the account is a legacy account.
    pub legacy: bool,
}

/// Whether a profile's skin uses the slim model.
pub open spec fn slim_model_spec(p: Profile) -> bool {
    match p.properties@[0].value.textures.skin.metadata {
        Some(m) => m.model@ == "slim"@,
        None => false,
    }
}

impl Profile {
    /// Returns the texture information of the user.
    pub fn textures(&self) -> (r: &Textures)
        ensures
            *r == self.properties@[0].value.textures,
    {
        &self.properties[0].value.textures
    }

    /// Returns whether the model of the user's skin is slim.
    pub fn slim_model(&self) -> (r: bool)
        ensures
            r == slim_model_spec(*self),
    {
        match &self.textures().skin.metadata {
            Some(m) => m.model == String::from_str("slim"),
            None => false,
        }
    }
}

} // verus!
