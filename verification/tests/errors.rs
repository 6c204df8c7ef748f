use deimos::errors::SdlError;

#[test]
fn messages_name_the_failure_and_the_detail() {
    assert_eq!(SdlError::InitError("no display".to_string()).message(), "Initialization error: no display");
    assert_eq!(SdlError::SpriteLoadError("a.gif".to_string()).message(), "Failed to load sprite: a.gif");
    assert_eq!(
        SdlError::PlaceHolderCreateError("out of memory".to_string()).message(),
        "Failed to create placeholder texture: out of memory"
    );
    assert_eq!(SdlError::SoundLoadError("b.wav".to_string()).message(), "Failed to load sound sample: b.wav");
    assert_eq!(SdlError::AudioPlayError("busy".to_string()).message(), "Failed to play audio sample: busy");
}

#[test]
fn message_with_empty_detail() {
    assert_eq!(SdlError::InitError(String::new()).message(), "Initialization error: ");
}
