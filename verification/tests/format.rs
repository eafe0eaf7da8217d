use silence_remover::format::AudioFormat;

#[test]
fn extensions_name_formats() {
    assert_eq!(AudioFormat::from_ext("mp3"), Some(AudioFormat::Mp3));
    assert_eq!(AudioFormat::from_ext("MP3"), Some(AudioFormat::Mp3));
    assert_eq!(AudioFormat::from_ext("Wav"), Some(AudioFormat::Wav));
    assert_eq!(AudioFormat::from_ext("ogg"), None);
    assert_eq!(AudioFormat::from_ext(".mp3"), None);
    assert_eq!(AudioFormat::from_ext(""), None);
    assert_eq!(AudioFormat::from_lowered("MP3"), None);
    assert_eq!(AudioFormat::from_lowered("wav"), Some(AudioFormat::Wav));
}

#[test]
fn formats_have_extensions_and_codecs() {
    assert_eq!(AudioFormat::Mp3.as_ext(), "mp3");
    assert_eq!(AudioFormat::Wav.as_ext(), "wav");
    assert_eq!(AudioFormat::Mp3.default_codec(), "libmp3lame");
    assert_eq!(AudioFormat::Wav.default_codec(), "pcm_s16le");
}

#[test]
fn extensions_lead_back_to_their_format() {
    for f in [AudioFormat::Mp3, AudioFormat::Wav] {
        assert_eq!(AudioFormat::from_ext(f.as_ext()), Some(f));
        assert_eq!(AudioFormat::from_ext(f.label()), Some(f));
        assert_eq!(f.label(), f.as_ext().to_uppercase());
    }
}
