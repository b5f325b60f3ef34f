use thiscord::audio::{AudioChannelMemberUpdate, AudioElement, LastUsedAudioDevicesWString, PerUserBoost, DEFAULT_BOOST};
use thiscord::audio_config::{
    AudioConfig, AudioConfigDB, EchoCanceller, GlobalAttenuation, InputMode, NoiseSuppressionLevel,
    VoiceActivityDetectionCfg,
};
use thiscord::audio_devices::{choose_device, find_device, stored_devices, AudioDevices};
use thiscord::channels::{Channel, ChannelType, ChannelWithUsers, VoiceUser};
use thiscord::commands::{default_setting_for, AudioCommand, AudioConfigDBPartial, DefaultSetting};

fn channel(id: u128) -> Channel {
    Channel { id, name: "Voice".to_string(), type_: ChannelType::Voice, hidden: false, server_id: 2, created_at: 0, updated_at: 0 }
}

fn voice_user(id: u128, slot: usize) -> VoiceUser {
    VoiceUser { id, username: format!("u{}", id), slot, boost: None }
}

fn db_row(noise: Option<i32>, mode: i32, key: Option<&str>, vad: Option<i32>, att: Option<i32>, trig: Option<i32>) -> AudioConfigDB {
    AudioConfigDB {
        high_pass_filter: true,
        echo_cancellation: false,
        noise_suppression_level: noise,
        gain_controller: true,
        input_mode: mode,
        ptt_key_code: key.map(|k| k.to_string()),
        vad_threshold: vad,
        global_attenuation: att,
        global_attenuation_trigger: trig,
    }
}

#[test]
fn default_audio_settings() {
    let d = AudioConfigDB::default();
    assert!(d.high_pass_filter && d.echo_cancellation && d.gain_controller);
    assert_eq!(d.noise_suppression_level, Some(2));
    assert_eq!(d.input_mode, 0);
    assert!(d.ptt_key_code.is_none() && d.vad_threshold.is_none());
    assert!(d.global_attenuation.is_none() && d.global_attenuation_trigger.is_none());
}

#[test]
fn loading_a_row() {
    let cfg = AudioConfig::from(&AudioConfigDB::default());
    assert!(cfg.cfg.high_pass_filter.unwrap().apply_in_full_band);
    assert_eq!(cfg.cfg.echo_canceller, Some(EchoCanceller::Mobile));
    assert_eq!(cfg.cfg.noise_suppression.unwrap().level, NoiseSuppressionLevel::Moderate);
    assert_eq!(cfg.cfg.gain_controller.unwrap().target_level_dbfs, 3);
    assert_eq!(cfg.cfg.gain_controller.unwrap().compression_gain_db, 9);
    assert!(matches!(cfg.input_mode, InputMode::VoiceActivityDetection(VoiceActivityDetectionCfg::Auto)));
    assert!(cfg.global_attenuation.is_none());

    let cfg = AudioConfig::from(&db_row(Some(7), 1, None, Some(30), Some(12), Some(1)));
    assert!(cfg.cfg.echo_canceller.is_none());
    assert_eq!(cfg.cfg.noise_suppression.unwrap().level, NoiseSuppressionLevel::Low);
    match &cfg.input_mode {
        InputMode::PushToTalk(k) => assert_eq!(k, "v"),
        _ => panic!("push to talk expected"),
    }
    assert_eq!(cfg.global_attenuation, Some(GlobalAttenuation::OtherVoice(12)));

    let cfg = AudioConfig::from(&db_row(Some(4), 5, Some("x"), Some(30), None, Some(0)));
    assert_eq!(cfg.cfg.noise_suppression.unwrap().level, NoiseSuppressionLevel::VeryHigh);
    assert!(matches!(cfg.input_mode, InputMode::VoiceActivityDetection(VoiceActivityDetectionCfg::Manual { threshold: 30 })));
    assert_eq!(cfg.global_attenuation, Some(GlobalAttenuation::SelfVoice(0)));

    let cfg = AudioConfig::from(&db_row(None, 0, None, None, Some(3), Some(2)));
    assert!(cfg.cfg.noise_suppression.is_none());
    assert!(cfg.global_attenuation.is_none());
}

#[test]
fn saving_then_loading_keeps_the_configuration() {
    let rows = vec![
        AudioConfigDB::default(),
        db_row(Some(3), 1, Some("b"), None, Some(-4), Some(0)),
        db_row(None, 0, None, Some(-50), None, None),
    ];
    for row in rows {
        let cfg = AudioConfig::from(&row);
        let saved = AudioConfigDB::from(&cfg);
        assert_eq!(format!("{:?}", saved), format!("{:?}", row));
        let again = AudioConfig::from(&saved);
        assert_eq!(format!("{:?}", again), format!("{:?}", cfg));
    }
}

#[test]
fn saving_normalizes_unknown_values() {
    let row = db_row(Some(9), 3, Some("k"), Some(20), Some(5), Some(4));
    let saved = AudioConfigDB::from(&AudioConfig::from(&row));
    assert_eq!(saved.noise_suppression_level, Some(1));
    assert_eq!(saved.input_mode, 0);
    assert!(saved.ptt_key_code.is_none());
    assert_eq!(saved.vad_threshold, Some(20));
    assert!(saved.global_attenuation.is_none() && saved.global_attenuation_trigger.is_none());

    let row = db_row(Some(2), 1, None, Some(20), None, Some(1));
    let saved = AudioConfigDB::from(&AudioConfig::from(&row));
    assert_eq!(saved.ptt_key_code.as_deref(), Some("v"));
    assert!(saved.vad_threshold.is_none());
    assert_eq!(saved.global_attenuation, Some(0));
    assert_eq!(saved.global_attenuation_trigger, Some(1));
}

#[test]
fn partial_settings_change_only_given_fields() {
    let mut row = AudioConfigDB::default();
    row.partial_modify(AudioConfigDBPartial {
        high_pass_filter: Some(false),
        echo_cancellation: None,
        noise_suppression_level: Some(None),
        gain_controller: None,
        input_mode: Some(1),
        ptt_key_code: Some(Some("q".to_string())),
        vad_threshold: None,
        global_attenuation: None,
        global_attenuation_trigger: None,
    });
    assert!(!row.high_pass_filter && row.echo_cancellation && row.gain_controller);
    assert!(row.noise_suppression_level.is_none());
    assert_eq!(row.input_mode, 1);
    assert_eq!(row.ptt_key_code.as_deref(), Some("q"));
}

#[test]
fn device_choice_by_name() {
    let names = vec!["Built-in".to_string(), "USB".to_string(), "USB".to_string()];
    assert_eq!(find_device(&names, "USB"), Some(1));
    assert_eq!(find_device(&names, "HDMI"), None);
    assert_eq!(choose_device(&Some(names.clone()), &Some("Built-in".to_string())), Some(0));
    assert_eq!(choose_device(&Some(names.clone()), &Some("None".to_string())), None);
    assert_eq!(choose_device(&None, &Some("USB".to_string())), None);
    assert_eq!(choose_device(&Some(names), &None), None);
    let row = stored_devices(Some("m".to_string()), Some(80), None, Some(120));
    assert_eq!(row.id, Some(1));
    assert_eq!(row.mic.as_deref(), Some("m"));
    assert!(row.speaker.is_none());
    let devices = AudioDevices { mics: vec!["m".to_string()], mic: Some("m".to_string()), speakers: vec![], speaker: None };
    assert_eq!(devices.mics.len(), 1);
}

#[test]
fn seat_volumes_follow_the_channel() {
    let mut audio = AudioElement::new(LastUsedAudioDevicesWString::default());
    let with_users = ChannelWithUsers { channel: channel(1), users: vec![voice_user(10, 0), voice_user(11, 4)] };
    audio.set_channel(&with_users, &vec![50, 150]);
    {
        let c = audio.channel_with_boosts.as_ref().unwrap();
        assert_eq!(c.users.len(), 10);
        assert_eq!(c.users[0], PerUserBoost { user_id: Some(10), boost_level: 50 });
        assert_eq!(c.users[4], PerUserBoost { user_id: Some(11), boost_level: 150 });
        assert_eq!(c.users[1], PerUserBoost { user_id: None, boost_level: DEFAULT_BOOST });
    }
    audio.handle_join_channel(&AudioChannelMemberUpdate { channel: channel(1), user: voice_user(12, 2) }, None);
    assert_eq!(audio.channel_with_boosts.as_ref().unwrap().users[2], PerUserBoost { user_id: Some(12), boost_level: 100 });
    audio.handle_join_channel(&AudioChannelMemberUpdate { channel: channel(9), user: voice_user(13, 3) }, Some(70));
    assert_eq!(audio.channel_with_boosts.as_ref().unwrap().users[3].user_id, None);
    audio.handle_leave_channel(&AudioChannelMemberUpdate { channel: channel(1), user: voice_user(11, 4) });
    assert_eq!(audio.channel_with_boosts.as_ref().unwrap().users[4], PerUserBoost { user_id: None, boost_level: 100 });
    assert_eq!(audio.set_user_boost(12, 30), Some(PerUserBoost { user_id: Some(12), boost_level: 30 }));
    assert_eq!(audio.channel_with_boosts.as_ref().unwrap().users[2].boost_level, 30);
    assert_eq!(audio.set_user_boost(99, 30), None);
    audio.clear_channel();
    assert!(audio.channel_with_boosts.is_none());
    assert_eq!(audio.set_user_boost(12, 30), None);
}

#[test]
fn device_volumes_are_remembered() {
    let mut audio = AudioElement::new(LastUsedAudioDevicesWString::default());
    audio.change_speaker_boost(140);
    audio.change_mic_boost(60);
    assert_eq!(audio.devices.speaker_boost, Some(140));
    assert_eq!(audio.devices.mic_boost, Some(60));
    assert_eq!(PerUserBoost::get(5, None).boost_level, 100);
    assert_eq!(PerUserBoost::get(5, Some(20)), PerUserBoost { user_id: Some(5), boost_level: 20 });
}

#[test]
fn commands_change_stored_defaults() {
    let mut row = LastUsedAudioDevicesWString::default();
    for cmd in [
        AudioCommand::SetMic("mic".to_string()),
        AudioCommand::SetSpeaker("spk".to_string()),
        AudioCommand::SetMicBoost(90),
        AudioCommand::SetSpeakerBoost(110),
    ] {
        row.remember(default_setting_for(cmd).unwrap());
    }
    assert_eq!(row.mic.as_deref(), Some("mic"));
    assert_eq!(row.speaker.as_deref(), Some("spk"));
    assert_eq!(row.mic_boost, Some(90));
    assert_eq!(row.speaker_boost, Some(110));
    match default_setting_for(AudioCommand::SetUserBoost { user_id: 3, boost_level: 40 }) {
        Some(DefaultSetting::UserBoost(b)) => assert_eq!(b, PerUserBoost { user_id: Some(3), boost_level: 40 }),
        _ => panic!("user boost expected"),
    }
    assert!(default_setting_for(AudioCommand::Mute).is_none());
    assert!(default_setting_for(AudioCommand::Quit).is_none());
}
