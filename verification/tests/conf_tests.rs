use nightfire::audio::AudioParameters;
use nightfire::conf::{Conf, ConfError, MAX_CONF_CHARS};

#[test]
fn audio_in_entries() {
    assert_eq!(Conf::from_audio_in(Some("default")).audio_in, Some(AudioParameters::Cpal));
    assert_eq!(Conf::from_audio_in(Some("off")).audio_in, None);
    assert_eq!(
        Conf::from_audio_in(Some("system:capture_1")).audio_in,
        Some(AudioParameters::Jack("system:capture_1".to_string()))
    );
    assert_eq!(Conf::from_audio_in(None).audio_in, None);
}

#[test]
fn config_from_yaml() {
    let c = Conf::from_yaml_str("audio-in: default\npi-blaster: /dev/pi-blaster\n").unwrap();
    assert_eq!(c.audio_in, Some(AudioParameters::Cpal));
    let c = Conf::from_yaml_str("audio-in: off\n").unwrap();
    assert_eq!(c.audio_in, None);
    let c = Conf::from_yaml_str("lights:\n  Top:\n    r: 14\n").unwrap();
    assert_eq!(c.audio_in, None);
    let c = Conf::from_yaml_str("audio-in: 5\n").unwrap();
    assert_eq!(c.audio_in, None);
    let c = Conf::from_yaml_str(
        "audio-in: system:capture_1\npi-blaster: /dev/pi-blaster\nlights:\n  Top:\n    r: 14\n    g: 15\n    b: 18\n",
    )
    .unwrap();
    assert_eq!(c.audio_in, Some(AudioParameters::Jack("system:capture_1".to_string())));
}

#[test]
fn config_errors() {
    assert_eq!(Conf::from_yaml_str("").err(), Some(ConfError::NoDocument));
    assert_eq!(Conf::from_yaml_str("audio-in: [default\n").err(), Some(ConfError::Parse));
}

#[test]
fn config_path_choice() {
    assert_eq!(Conf::config_paths(), vec!["conf.yaml", "/etc/lumi/conf.yaml"]);
    assert_eq!(Conf::find_path(&vec![true, true]), Some(0));
    assert_eq!(Conf::find_path(&vec![false, true]), Some(1));
    assert_eq!(Conf::find_path(&vec![false, false]), None);
}

#[test]
fn deepest_nesting_within_the_bound_is_read() {
    let mut text = "- ".repeat((MAX_CONF_CHARS - 1) / 2);
    text.push('a');
    assert!(text.chars().count() <= MAX_CONF_CHARS);
    let c = Conf::from_yaml_str(&text).unwrap();
    assert_eq!(c.audio_in, None);
}
