//! The soundboard's catalogue and its clips.

use spotibot::path::Host;
use spotibot::soundboard::{
    decoded, decoder_args, network_root, relative_file, shown_label, usable_file, valid_id,
    valid_pcm, windows_device_name, within_cap, Catalogue, CatalogueError, ClipError, Found,
    ManifestClip, FILE_LIMIT, MAX_CLIPS, PCM_LIMIT,
};

fn listed(id: &str, label: &str, file: &str) -> ManifestClip {
    ManifestClip { id: id.into(), label: label.into(), file: file.into() }
}

fn load(clips: Vec<ManifestClip>) -> Result<Catalogue, CatalogueError> {
    let found = Found::Manifest { root: "/srv/sounds".into(), clips };
    Catalogue::load(Host::Unix, "/srv/sounds".into(), found, |_: &String| true)
}

fn found(found: Found) -> Result<Catalogue, CatalogueError> {
    Catalogue::load(Host::Unix, "/srv/sounds".into(), found, |_: &String| true)
}

#[test]
fn absent_catalogue_is_empty_and_does_not_create_files() {
    assert!(found(Found::NoManifest { root: "/srv/sounds".into() }).unwrap().clips().is_empty());
    assert!(found(Found::NoRoot).unwrap().clips().is_empty());
}

#[test]
fn catalogue_preserves_order_and_only_exposes_labels_and_ids() {
    let catalogue = load(vec![
        listed("second", "Second", "second.wav"),
        listed("first", "  First 🎺  ", "sub\\first.wav"),
    ])
    .unwrap();
    assert_eq!(catalogue.clips()[0].id, "second");
    assert_eq!(catalogue.clips()[1].label, "First 🎺");
    assert_eq!(catalogue.clips()[1].file, "sub/first.wav");
}

#[test]
fn rejects_portable_traversal_drives_network_streams_and_device_names() {
    for path in [
        "",
        "/tmp/sound.wav",
        "../secret.wav",
        "sub/../sound.wav",
        ".\\sound.wav",
        "C:\\sound.wav",
        "C:sound.wav",
        "\\\\host\\share\\sound.wav",
        "//host/sound.wav",
        "sound.wav:secret",
        "sub//sound.wav",
        "sub/",
        "sound.wav.",
        "sound.wav ",
        "NUL",
        "con.wav",
        "sub/COM1.mp3",
        "LPT9.wav",
        "COM¹.wav",
        "sound\n.wav",
        "https://example.test/sound.wav",
        "pipe:0",
        "a?.wav",
    ] {
        assert!(relative_file(path).is_none(), "accepted {path:?}");
    }
    assert_eq!(relative_file("nested/party.wav").unwrap(), "nested/party.wav");
    assert!(relative_file("comic.wav").is_some());
}

#[test]
fn rejects_duplicate_ids_invalid_labels_and_unknown_manifest_fields() {
    assert!(load(vec![listed("clip", "Clip", "sound.wav"), listed("clip", "Clip", "sound.wav")])
        .is_err());
    for (id, label) in [("bad:id", "Clip"), ("", "Clip"), ("clip", "\nClip"), ("clip", "  ")] {
        assert!(load(vec![listed(id, label, "sound.wav")]).is_err());
    }
    assert!(load(vec![listed("clip", &"a".repeat(61), "sound.wav")]).is_err());
    assert!(found(Found::ManifestMalformed).is_err());
}

#[test]
fn rejects_oversized_manifests_files_and_catalogues() {
    assert!(found(Found::ManifestTooLarge).is_err());
    let big = |_: &String| usable_file(true, true, FILE_LIMIT as u64 + 1, FILE_LIMIT);
    let one = Found::Manifest {
        root: "/srv/sounds".into(),
        clips: vec![listed("party", "Party time", "sound.wav")],
    };
    assert_eq!(
        Catalogue::load(Host::Unix, "/srv/sounds".into(), one, big).unwrap_err(),
        CatalogueError::BadFile
    );
    let clips = (0..=MAX_CLIPS).map(|i| listed(&format!("clip{i}"), "Clip", "sound.wav")).collect();
    assert_eq!(load(clips).unwrap_err(), CatalogueError::TooManyClips);
}

#[test]
fn accepts_exact_catalogue_file_and_manifest_limits() {
    assert!(usable_file(true, true, FILE_LIMIT as u64, FILE_LIMIT));
    let clips =
        (0..MAX_CLIPS).map(|i| listed(&format!("{i:032}"), &"x".repeat(60), "sound.wav")).collect();
    assert_eq!(load(clips).unwrap().clips().len(), MAX_CLIPS);
    assert!(!valid_id(&"x".repeat(33)));
    assert!(load(Vec::new()).unwrap().clips().is_empty());
}

#[test]
fn pcm_must_be_finite_complete_stereo_frames() {
    assert!(valid_pcm(&[0; 8]));
    assert!(!valid_pcm(&[]));
    assert!(!valid_pcm(&[0; 4]));
    let invalid: Vec<_> = [f32::NAN, 0.0].into_iter().flat_map(f32::to_le_bytes).collect();
    assert!(!valid_pcm(&invalid));
    assert!(!valid_pcm(&vec![0; PCM_LIMIT + 8]));
}

#[test]
fn infinities_are_no_samples_and_the_largest_numbers_are() {
    let frame = |sample: f32| -> Vec<u8> {
        [0.0, sample].into_iter().flat_map(f32::to_le_bytes).collect()
    };
    for sample in [f32::MAX, f32::MIN, f32::MIN_POSITIVE, -0.0, 1.0e-45] {
        assert!(valid_pcm(&frame(sample)), "{sample}");
    }
    for sample in [f32::INFINITY, f32::NEG_INFINITY, f32::NAN] {
        assert!(!valid_pcm(&frame(sample)), "{sample}");
    }
    assert!(valid_pcm(&vec![0; PCM_LIMIT]));
}

#[test]
fn a_decoder_is_believed_only_when_it_succeeds() {
    assert_eq!(decoded(true, vec![0; 8]).unwrap(), vec![0; 8]);
    assert_eq!(decoded(false, vec![0; 8]).unwrap_err(), ClipError::DecodeFailed);
    assert_eq!(decoded(true, vec![0; 4]).unwrap_err(), ClipError::DecodeFailed);
    assert_eq!(decoded(true, vec![0; PCM_LIMIT + 1]).unwrap_err(), ClipError::TooLong);
    assert_eq!(decoded(false, vec![0; PCM_LIMIT + 1]).unwrap_err(), ClipError::DecodeFailed);
    assert!(ClipError::TooLong.message().contains("15 seconds or shorter"));
    assert!(within_cap(&b"abc".to_vec(), 3) && !within_cap(&b"abcd".to_vec(), 3));
}

#[test]
fn every_catalogue_error_comes_from_its_cause() {
    for (state, error) in [
        (Found::RootUnopenable, CatalogueError::RootUnopenable),
        (Found::RootNotDirectory, CatalogueError::RootNotDirectory),
        (Found::ManifestNotRegular, CatalogueError::ManifestNotRegular),
        (Found::ManifestTooLarge, CatalogueError::ManifestTooLarge),
        (Found::ManifestUnopenable, CatalogueError::ManifestUnopenable),
        (Found::ManifestUnreadable, CatalogueError::ManifestUnreadable),
        (Found::ManifestMalformed, CatalogueError::ManifestMalformed),
    ] {
        let got = found(state).unwrap_err();
        assert_eq!(got, error);
        assert!(got.message().starts_with("soundboard"));
    }
    assert_eq!(
        Catalogue::load(Host::Unix, "//host/share".into(), Found::NoRoot, |_: &String| true).unwrap_err(),
        CatalogueError::NotLocal
    );
    for (clip, error) in [
        (listed("a b", "L", "f.wav"), CatalogueError::BadId),
        (listed("a", "", "f.wav"), CatalogueError::BadLabel),
        (listed("a", "L", "../f.wav"), CatalogueError::BadPath),
    ] {
        assert_eq!(load(vec![clip]).unwrap_err(), error);
    }
}

#[test]
fn clips_are_selected_by_id() {
    let catalogue = load(vec![listed("a", "A", "a.wav"), listed("b", "B", "b.wav")]).unwrap();
    assert_eq!(catalogue.find("b").unwrap(), 1);
    let gone = catalogue.find("../secret").unwrap_err();
    assert!(gone.message().contains("no longer"));
}

#[test]
fn labels_and_device_names_are_judged_as_shown() {
    assert_eq!(shown_label(" a ").as_deref(), Some("a"));
    assert_eq!(shown_label("a\u{7}"), None);
    assert!(windows_device_name(" aux .txt"));
    assert!(windows_device_name("conin$"));
    assert!(!windows_device_name("com10"));
    assert!(!windows_device_name("com"));
}

#[test]
fn a_network_root_is_told_the_way_the_host_tells_it() {
    for away in ["\\\\host\\share", "//host/share", "//x", "\\\\?\\C:\\sounds"] {
        assert!(network_root(Host::Unix, away), "{away}");
    }
    for local in ["/srv", "C:\\sounds", "sounds"] {
        assert!(!network_root(Host::Unix, local), "{local}");
        assert!(!network_root(Host::Windows, local), "{local}");
    }
    for away in [
        "\\\\host\\share",
        "//host/share",
        "\\\\?\\UNC\\host\\share",
        "\\\\?\\name",
        "\\\\.\\NUL",
    ] {
        assert!(network_root(Host::Windows, away), "{away}");
    }
    for local in ["\\\\?\\C:\\sounds", "C:\\sounds", "\\sounds", "//x"] {
        assert!(!network_root(Host::Windows, local), "{local}");
    }
    let verbatim = "\\\\?\\C:\\sounds".to_string();
    assert!(Catalogue::load(Host::Windows, verbatim, Found::NoRoot, |_: &String| true).is_ok());
}

#[test]
fn the_decoder_opens_nothing_but_its_pipe() {
    let args = decoder_args();
    assert_eq!(args.len(), 30);
    assert_eq!(args[4..6], ["-protocol_whitelist", "pipe"]);
    assert_eq!(args[12..14], ["-i", "pipe:0"]);
}
