use minecraft_utils::CapeData;
use minecraft_utils::Profile;
use minecraft_utils::ProfileProperty;
use minecraft_utils::SkinData;
use minecraft_utils::SkinMetadata;
use minecraft_utils::Textures;
use minecraft_utils::TexturesEntry;
use minecraft_utils::UsernameEntry;

fn profile_with(model: Option<&str>, cape: Option<&str>) -> Profile {
    Profile {
        id: String::from("7a8084cd1f444a159bb1eef8d5b535a1"),
        name: String::from("brecert"),
        properties: [ProfileProperty {
            name: String::from("textures"),
            value: TexturesEntry {
                timestamp: 1640326151859,
                profile_id: String::from("7a8084cd1f444a159bb1eef8d5b535a1"),
                profile_name: String::from("brecert"),
                textures: Textures {
                    skin: SkinData {
                        url: String::from(
                            "http://textures.minecraft.net/texture/b8130282b80cc08872bfc858975350ab3f3fcd4b1d18717bfb5b7b838fce4eaa",
                        ),
                        metadata: model.map(|m| SkinMetadata {
                            model: String::from(m),
                        }),
                    },
                    cape: cape.map(|url| CapeData {
                        url: String::from(url),
                    }),
                },
            },
        }],
        legacy: false,
    }
}

#[test]
fn textures_returns_the_texture_entry() {
    let profile = profile_with(Some("slim"), None);
    assert_eq!(
        profile.textures().skin.url,
        "http://textures.minecraft.net/texture/b8130282b80cc08872bfc858975350ab3f3fcd4b1d18717bfb5b7b838fce4eaa"
    );
    assert!(profile.textures().cape.is_none());
}

#[test]
fn slim_model_is_detected() {
    assert!(profile_with(Some("slim"), None).slim_model());
}

#[test]
fn classic_model_is_not_slim() {
    assert!(!profile_with(Some("default"), None).slim_model());
    assert!(!profile_with(None, None).slim_model());
}

#[test]
fn cape_data_is_kept() {
    let profile = profile_with(None, Some("http://textures.minecraft.net/texture/cape"));
    assert_eq!(
        profile.textures().cape.as_ref().map(|c| c.url.as_str()),
        Some("http://textures.minecraft.net/texture/cape")
    );
}

#[test]
fn username_entry_marks_the_original_name() {
    let original = UsernameEntry {
        name: String::from("brecert"),
        changed_to_at: None,
    };
    let changed = UsernameEntry {
        name: String::from("bree"),
        changed_to_at: Some(1640326151859),
    };
    assert!(original.changed_to_at.is_none());
    assert_eq!(changed.changed_to_at, Some(1640326151859));
}
