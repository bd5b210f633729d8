use now_playing::features::{get_key, key_label, mode_label, Modality, TrackFeatures};

#[test]
fn key_names_follow_pitch_classes() {
    let names = [
        "C", "C#", "D", "D#", "E", "F", "F#", "G", "G#", "A", "A#", "B",
    ];
    let mut index: i32 = 0;
    for name in names {
        assert_eq!(get_key(index), name);
        index += 1;
    }
    assert_eq!(index, 12);
}

#[test]
fn undetected_key_has_its_own_label() {
    assert_eq!(get_key(-1), "Not Detected");
}

#[test]
fn key_label_refuses_what_has_no_name() {
    assert_eq!(key_label(-2), None);
    assert_eq!(key_label(12), None);
    assert_eq!(key_label(i32::MIN), None);
    assert_eq!(key_label(i32::MAX), None);
    assert_eq!(key_label(-1), Some(String::from("Not Detected")));
    assert_eq!(key_label(0), Some(String::from("C")));
    assert_eq!(key_label(11), Some(String::from("B")));
}

#[test]
fn mode_is_major_or_else_minor() {
    assert_eq!(mode_label(Modality::Major), "Major");
    assert_eq!(mode_label(Modality::Minor), "Minor");
    assert_eq!(mode_label(Modality::NoResult), "Minor");
}

#[test]
fn features_are_plain_values() {
    let features = TrackFeatures { key: 9, mode: Modality::Minor, time_signature: 3 };
    let copy = features;
    assert_eq!(copy, features);
    assert_eq!(get_key(copy.key), "A");
}
