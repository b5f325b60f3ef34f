//! Audio processing settings: the stored row and the live configuration,
//! and the conversions between them.

use vstd::prelude::*;
use vstd::string::*;

verus! {

/// Lowers other sounds while someone speaks; the level is in dB.
#[derive(Debug, Clone, Copy, PartialEq, Eq)]
pub enum GlobalAttenuation {
    /// Triggered by the user's own voice.
    SelfVoice(i32),
    /// Triggered by the voice of others.
    OtherVoice(i32),
}

/// How voice activity is detected.
#[derive(Debug, Clone, Copy, PartialEq, Eq)]
pub enum VoiceActivityDetectionCfg {
    Auto,
    /// Threshold in -dB.
    Manual { threshold: i32 },
}

/// When the microphone transmits.
#[derive(Debug, Clone)]
pub enum InputMode {
    VoiceActivityDetection(VoiceActivityDetectionCfg),
    /// Push to talk, with the key code of the push key.
    PushToTalk(String),
}

/// `InputMode` with the key code as a character sequence.
pub enum InputModeView {
    VoiceActivityDetection(VoiceActivityDetectionCfg),
    PushToTalk(Seq<char>),
}

impl View for InputMode {
    type V = InputModeView;

    open spec fn view(&self) -> InputModeView {
        match self {
            InputMode::VoiceActivityDetection(c) => InputModeView::VoiceActivityDetection(*c),
            InputMode::PushToTalk(k) => InputModeView::PushToTalk(k@),
        }
    }
}

/// Strength of the noise suppressor.
#[derive(Debug, Clone, Copy, PartialEq, Eq)]
pub enum NoiseSuppressionLevel {
    Low,
    Moderate,
    High,
    VeryHigh,
}

/// High-pass filter stage.
#[derive(Debug, Clone, Copy, PartialEq, Eq)]
pub struct HighPassFilter {
    pub apply_in_full_band: bool,
}

/// Echo canceller stage.
#[derive(Debug, Clone, Copy, PartialEq, Eq)]
pub enum EchoCanceller {
    Mobile,
    Full { enforce_high_pass_filtering: bool },
}

/// Noise suppression stage.
#[derive(Debug, Clone, Copy, PartialEq, Eq)]
pub struct NoiseSuppression {
    pub level: NoiseSuppressionLevel,
    pub analyze_linear_aec_output: bool,
}

/// Mode of the gain controller.
#[derive(Debug, Clone, Copy, PartialEq, Eq)]
pub enum GainControllerMode {
    AdaptiveAnalog,
    AdaptiveDigital,
    FixedDigital,
}

/// Gain controller stage.
#[derive(Debug, Clone, Copy, PartialEq, Eq)]
pub struct GainController {
    pub mode: GainControllerMode,
    pub target_level_dbfs: i32,
    pub compression_gain_db: i32,
    pub enable_limiter: bool,
}

/// Highest internal processing rate of the pipeline.
#[derive(Debug, Clone, Copy, PartialEq, Eq)]
pub enum PipelineProcessingRate {
    Max32000Hz,
    Max48000Hz,
}

/// Pipeline settings of the audio processor.
#[derive(Debug, Clone, Copy, PartialEq, Eq)]
pub struct Pipeline {
    pub maximum_internal_processing_rate: PipelineProcessingRate,
    pub multi_channel_capture: bool,
    pub multi_channel_render: bool,
    pub capture_downmix_method: i32,
}

/// The stages of the audio processor that are switched on, with their
/// settings. This is the configuration handed to the audio processing
/// library.
#[derive(Debug, Clone, Copy, PartialEq, Eq)]
pub struct ProcessingConfig {
    pub pipeline: Pipeline,
    pub high_pass_filter: Option<HighPassFilter>,
    pub echo_canceller: Option<EchoCanceller>,
    pub noise_suppression: Option<NoiseSuppression>,
    pub gain_controller: Option<GainController>,
}

/// The live audio configuration.
#[derive(Debug, Clone)]
pub struct AudioConfig {
    pub cfg: ProcessingConfig,
    pub input_mode: InputMode,
    pub global_attenuation: Option<GlobalAttenuation>,
}

/// `AudioConfig` as plain values.
pub struct AudioConfigView {
    pub cfg: ProcessingConfig,
    pub input_mode: InputModeView,
    pub global_attenuation: Option<GlobalAttenuation>,
}

impl View for AudioConfig {
    type V = AudioConfigView;

    open spec fn view(&self) -> AudioConfigView {
        AudioConfigView { cfg: self.cfg, input_mode: self.input_mode@, global_attenuation: self.global_attenuation }
    }
}

/// The stored audio settings row.
#[derive(Debug, Clone)]
pub struct AudioConfigDB {
    pub high_pass_filter: bool,
    pub echo_cancellation: bool,
    /// 1: Low, 2: Moderate, 3: High, 4: Very High; `None` means no noise
    /// suppression.
    pub noise_suppression_level: Option<i32>,
    pub gain_controller: bool,
    /// 0: voice activity detection, 1: push to talk.
    pub input_mode: i32,
    /// Key code of the push-to-talk key.
    pub ptt_key_code: Option<String>,
    /// Voice activity threshold in -dB; `None` means automatic detection.
    pub vad_threshold: Option<i32>,
    /// Global attenuation level in dB; `None` means none.
    pub global_attenuation: Option<i32>,
    /// 0: triggered by the user's own voice, 1: by the voice of others;
    /// `None` means no global attenuation.
    pub global_attenuation_trigger: Option<i32>,
}

/// `AudioConfigDB` as plain values.
pub struct AudioConfigDBView {
    pub high_pass_filter: bool,
    pub echo_cancellation: bool,
    pub noise_suppression_level: Option<i32>,
    pub gain_controller: bool,
    pub input_mode: i32,
    pub ptt_key_code: Option<Seq<char>>,
    pub vad_threshold: Option<i32>,
    pub global_attenuation: Option<i32>,
    pub global_attenuation_trigger: Option<i32>,
}

impl View for AudioConfigDB {
    type V = AudioConfigDBView;

    open spec fn view(&self) -> AudioConfigDBView {
        AudioConfigDBView {
            high_pass_filter: self.high_pass_filter,
            echo_cancellation: self.echo_cancellation,
            noise_suppression_level: self.noise_suppression_level,
            gain_controller: self.gain_controller,
            input_mode: self.input_mode,
            ptt_key_code: match self.ptt_key_code {
                Some(k) => Some(k@),
                None => None,
            },
            vad_threshold: self.vad_threshold,
            global_attenuation: self.global_attenuation,
            global_attenuation_trigger: self.global_attenuation_trigger,
        }
    }
}

/// The settings of a fresh installation: every stage on, moderate noise
/// suppression, automatic voice activity detection, no attenuation.
pub open spec fn default_db_view() -> AudioConfigDBView {
    AudioConfigDBView {
        high_pass_filter: true,
        echo_cancellation: true,
        noise_suppression_level: Some(2),
        gain_controller: true,
        input_mode: 0,
        ptt_key_code: None,
        vad_threshold: None,
        global_attenuation: None,
        global_attenuation_trigger: None,
    }
}

/// The pipeline every configuration uses.
pub open spec fn standard_pipeline() -> Pipeline {
    Pipeline {
        maximum_internal_processing_rate: PipelineProcessingRate::Max48000Hz,
        multi_channel_capture: false,
        multi_channel_render: false,
        capture_downmix_method: 0,
    }
}

/// The gain controller that a stored "on" switches on.
pub open spec fn standard_gain_controller() -> GainController {
    GainController {
        mode: GainControllerMode::AdaptiveDigital,
        target_level_dbfs: 3,
        compression_gain_db: 9,
        enable_limiter: true,
    }
}

/// Stored noise suppression level to suppressor strength; unknown levels
/// read as `Low`.
pub open spec fn level_from_code(code: i32) -> NoiseSuppressionLevel {
    if code == 2 {
        NoiseSuppressionLevel::Moderate
    } else if code == 3 {
        NoiseSuppressionLevel::High
    } else if code == 4 {
        NoiseSuppressionLevel::VeryHigh
    } else {
        NoiseSuppressionLevel::Low
    }
}

/// Suppressor strength to its stored code.
pub open spec fn level_code(level: NoiseSuppressionLevel) -> i32 {
    match level {
        NoiseSuppressionLevel::Low => 1,
        NoiseSuppressionLevel::Moderate => 2,
        NoiseSuppressionLevel::High => 3,
        NoiseSuppressionLevel::VeryHigh => 4,
    }
}

/// Voice activity detection as stored: a threshold means manual detection.
pub open spec fn vad_from_threshold(threshold: Option<i32>) -> VoiceActivityDetectionCfg {
    match threshold {
        Some(t) => VoiceActivityDetectionCfg::Manual { threshold: t },
        None => VoiceActivityDetectionCfg::Auto,
    }
}

/// The live configuration that a stored row describes.
pub open spec fn config_from_db(db: AudioConfigDBView) -> AudioConfigView {
    AudioConfigView {
        cfg: ProcessingConfig {
            pipeline: standard_pipeline(),
            high_pass_filter: if db.high_pass_filter { Some(HighPassFilter { apply_in_full_band: true }) } else { None },
            echo_canceller: if db.echo_cancellation { Some(EchoCanceller::Mobile) } else { None },
            noise_suppression: match db.noise_suppression_level {
                Some(code) => Some(NoiseSuppression { level: level_from_code(code), analyze_linear_aec_output: true }),
                None => None,
            },
            gain_controller: if db.gain_controller { Some(standard_gain_controller()) } else { None },
        },
        input_mode: if db.input_mode == 1 {
            InputModeView::PushToTalk(
                match db.ptt_key_code {
                    Some(k) => k,
                    None => "v"@,
                },
            )
        } else {
            InputModeView::VoiceActivityDetection(vad_from_threshold(db.vad_threshold))
        },
        global_attenuation: match db.global_attenuation_trigger {
            Some(trigger) => if trigger == 0 {
                Some(GlobalAttenuation::SelfVoice(db.global_attenuation.unwrap_or(0)))
            } else if trigger == 1 {
                Some(GlobalAttenuation::OtherVoice(db.global_attenuation.unwrap_or(0)))
            } else {
                None
            },
            None => None,
        },
    }
}

/// The stored row that describes a live configuration.
pub open spec fn db_from_config(cfg: AudioConfigView) -> AudioConfigDBView {
    AudioConfigDBView {
        high_pass_filter: cfg.cfg.high_pass_filter.is_some(),
        echo_cancellation: cfg.cfg.echo_canceller.is_some(),
        noise_suppression_level: match cfg.cfg.noise_suppression {
            Some(ns) => Some(level_code(ns.level)),
            None => None,
        },
        gain_controller: cfg.cfg.gain_controller.is_some(),
        input_mode: match cfg.input_mode {
            InputModeView::VoiceActivityDetection(_) => 0,
            InputModeView::PushToTalk(_) => 1,
        },
        ptt_key_code: match cfg.input_mode {
            InputModeView::PushToTalk(k) => Some(k),
            _ => None,
        },
        vad_threshold: match cfg.input_mode {
            InputModeView::VoiceActivityDetection(VoiceActivityDetectionCfg::Manual { threshold }) => Some(threshold),
            _ => None,
        },
        global_attenuation: match cfg.global_attenuation {
            Some(GlobalAttenuation::SelfVoice(level)) => Some(level),
            Some(GlobalAttenuation::OtherVoice(level)) => Some(level),
            None => None,
        },
        global_attenuation_trigger: match cfg.global_attenuation {
            Some(GlobalAttenuation::SelfVoice(_)) => Some(0),
            Some(GlobalAttenuation::OtherVoice(_)) => Some(1),
            None => None,
        },
    }
}

impl AudioConfigDB {
    /// The settings of a fresh installation.
    pub fn default() -> (res: Self)
        ensures
            res@ == default_db_view(),
    {
        AudioConfigDB {
            high_pass_filter: true,
            echo_cancellation: true,
            noise_suppression_level: Some(2),
            gain_controller: true,
            input_mode: 0,
            ptt_key_code: None,
            vad_threshold: None,
            global_attenuation: None,
            global_attenuation_trigger: None,
        }
    }

    /// The stored row that describes `cfg`.
    pub fn from(cfg: &AudioConfig) -> (res: Self)
        ensures
            res@ == db_from_config(cfg@),
    {
        let noise_suppression_level = match cfg.cfg.noise_suppression {
            Some(ns) => Some(
                match ns.level {
                    NoiseSuppressionLevel::Low => 1i32,
                    NoiseSuppressionLevel::Moderate => 2i32,
                    NoiseSuppressionLevel::High => 3i32,
                    NoiseSuppressionLevel::VeryHigh => 4i32,
                },
            ),
            None => None,
        };
        let (input_mode, ptt_key_code, vad_threshold) = match &cfg.input_mode {
            InputMode::VoiceActivityDetection(VoiceActivityDetectionCfg::Manual { threshold }) => (0i32, None, Some(*threshold)),
            InputMode::VoiceActivityDetection(VoiceActivityDetectionCfg::Auto) => (0i32, None, None),
            InputMode::PushToTalk(key_code) => (1i32, Some(key_code.clone()), None),
        };
        let (global_attenuation, global_attenuation_trigger) = match cfg.global_attenuation {
            Some(GlobalAttenuation::SelfVoice(level)) => (Some(level), Some(0i32)),
            Some(GlobalAttenuation::OtherVoice(level)) => (Some(level), Some(1i32)),
            None => (None, None),
        };
        AudioConfigDB {
            high_pass_filter: cfg.cfg.high_pass_filter.is_some(),
            echo_cancellation: cfg.cfg.echo_canceller.is_some(),
            noise_suppression_level,
            gain_controller: cfg.cfg.gain_controller.is_some(),
            input_mode,
            ptt_key_code,
            vad_threshold,
            global_attenuation,
            global_attenuation_trigger,
        }
    }
}

impl AudioConfig {
    /// The live configuration that the stored row `db` describes. Unknown
    /// noise suppression levels read as `Low`, unknown input modes as voice
    /// activity detection, unknown attenuation triggers as no attenuation;
    /// push to talk without a stored key uses the key "v".
    pub fn from(db: &AudioConfigDB) -> (res: Self)
        ensures
            res@ == config_from_db(db@),
    {
        let noise_suppression = match db.noise_suppression_level {
            Some(level) => Some(
                NoiseSuppression {
                    level: if level == 1 {
                        NoiseSuppressionLevel::Low
                    } else if level == 2 {
                        NoiseSuppressionLevel::Moderate
                    } else if level == 3 {
                        NoiseSuppressionLevel::High
                    } else if level == 4 {
                        NoiseSuppressionLevel::VeryHigh
                    } else {
                        NoiseSuppressionLevel::Low
                    },
                    analyze_linear_aec_output: true,
                },
            ),
            None => None,
        };
        let vad = match db.vad_threshold {
            Some(threshold) => VoiceActivityDetectionCfg::Manual { threshold },
            None => VoiceActivityDetectionCfg::Auto,
        };
        let input_mode = if db.input_mode == 1 {
            InputMode::PushToTalk(
                match &db.ptt_key_code {
                    Some(k) => k.clone(),
                    None => String::from_str("v"),
                },
            )
        } else {
            InputMode::VoiceActivityDetection(vad)
        };
        let level = match db.global_attenuation {
            Some(l) => l,
            None => 0,
        };
        let global_attenuation = match db.global_attenuation_trigger {
            Some(trigger) => if trigger == 0 {
                Some(GlobalAttenuation::SelfVoice(level))
            } else if trigger == 1 {
                Some(GlobalAttenuation::OtherVoice(level))
            } else {
                None
            },
            None => None,
        };
        AudioConfig {
            cfg: ProcessingConfig {
                pipeline: Pipeline {
                    maximum_internal_processing_rate: PipelineProcessingRate::Max48000Hz,
                    multi_channel_capture: false,
                    multi_channel_render: false,
                    capture_downmix_method: 0,
                },
                high_pass_filter: if db.high_pass_filter { Some(HighPassFilter { apply_in_full_band: true }) } else { None },
                echo_canceller: if db.echo_cancellation { Some(EchoCanceller::Mobile) } else { None },
                noise_suppression,
                gain_controller: if db.gain_controller {
                    Some(GainController {
                        mode: GainControllerMode::AdaptiveDigital,
                        target_level_dbfs: 3,
                        compression_gain_db: 9,
                        enable_limiter: true,
                    })
                } else {
                    None
                },
            },
            input_mode,
            global_attenuation,
        }
    }
}

/// A live configuration whose stages all have the settings that loading a
/// stored row produces.
pub open spec fn is_canonical(c: AudioConfigView) -> bool {
    &&& c.cfg.pipeline == standard_pipeline()
    &&& c.cfg.high_pass_filter.is_some() ==> c.cfg.high_pass_filter == Some(HighPassFilter { apply_in_full_band: true })
    &&& c.cfg.echo_canceller.is_some() ==> c.cfg.echo_canceller == Some(EchoCanceller::Mobile)
    &&& c.cfg.noise_suppression.is_some() ==> c.cfg.noise_suppression.unwrap().analyze_linear_aec_output
    &&& c.cfg.gain_controller.is_some() ==> c.cfg.gain_controller == Some(standard_gain_controller())
}

/// The row that saving the loaded form of `db` writes: unknown values
/// replaced by what they read as, and the fields that the input mode and the
/// attenuation trigger do not use cleared.
pub open spec fn normalized_row(db: AudioConfigDBView) -> AudioConfigDBView {
    let ptt = db.input_mode == 1;
    let attenuates = db.global_attenuation_trigger == Some(0i32) || db.global_attenuation_trigger == Some(1i32);
    AudioConfigDBView {
        high_pass_filter: db.high_pass_filter,
        echo_cancellation: db.echo_cancellation,
        noise_suppression_level: match db.noise_suppression_level {
            Some(code) => Some(level_code(level_from_code(code))),
            None => None,
        },
        gain_controller: db.gain_controller,
        input_mode: if ptt { 1 } else { 0 },
        ptt_key_code: if ptt {
            Some(
                match db.ptt_key_code {
                    Some(k) => k,
                    None => "v"@,
                },
            )
        } else {
            None
        },
        vad_threshold: if ptt { None } else { db.vad_threshold },
        global_attenuation: if attenuates { Some(db.global_attenuation.unwrap_or(0)) } else { None },
        global_attenuation_trigger: if attenuates { db.global_attenuation_trigger } else { None },
    }
}

/// Stored noise suppression codes 1, 2, 3 and 4 load as the strengths Low,
/// Moderate, High and Very High (with the linear echo canceller output
/// analysed), any other code as Low, no code as no suppression, and saving
/// those strengths writes the codes 1, 2, 3 and 4.
pub proof fn lemma_noise_suppression_codes(db: AudioConfigDBView, cfg: AudioConfigView)
    ensures
        db.noise_suppression_level == Some(1i32) ==> config_from_db(db).cfg.noise_suppression == Some(
            NoiseSuppression { level: NoiseSuppressionLevel::Low, analyze_linear_aec_output: true },
        ),
        db.noise_suppression_level == Some(2i32) ==> config_from_db(db).cfg.noise_suppression == Some(
            NoiseSuppression { level: NoiseSuppressionLevel::Moderate, analyze_linear_aec_output: true },
        ),
        db.noise_suppression_level == Some(3i32) ==> config_from_db(db).cfg.noise_suppression == Some(
            NoiseSuppression { level: NoiseSuppressionLevel::High, analyze_linear_aec_output: true },
        ),
        db.noise_suppression_level == Some(4i32) ==> config_from_db(db).cfg.noise_suppression == Some(
            NoiseSuppression { level: NoiseSuppressionLevel::VeryHigh, analyze_linear_aec_output: true },
        ),
        db.noise_suppression_level is Some && !(1 <= db.noise_suppression_level.unwrap() <= 4)
            ==> config_from_db(db).cfg.noise_suppression == Some(
            NoiseSuppression { level: NoiseSuppressionLevel::Low, analyze_linear_aec_output: true },
        ),
        db.noise_suppression_level is None ==> config_from_db(db).cfg.noise_suppression is None,
        cfg.cfg.noise_suppression is None ==> db_from_config(cfg).noise_suppression_level is None,
        cfg.cfg.noise_suppression is Some && cfg.cfg.noise_suppression.unwrap().level == NoiseSuppressionLevel::Low
            ==> db_from_config(cfg).noise_suppression_level == Some(1i32),
        cfg.cfg.noise_suppression is Some && cfg.cfg.noise_suppression.unwrap().level == NoiseSuppressionLevel::Moderate
            ==> db_from_config(cfg).noise_suppression_level == Some(2i32),
        cfg.cfg.noise_suppression is Some && cfg.cfg.noise_suppression.unwrap().level == NoiseSuppressionLevel::High
            ==> db_from_config(cfg).noise_suppression_level == Some(3i32),
        cfg.cfg.noise_suppression is Some && cfg.cfg.noise_suppression.unwrap().level == NoiseSuppressionLevel::VeryHigh
            ==> db_from_config(cfg).noise_suppression_level == Some(4i32),
{
}

/// Saving a canonical live configuration and loading it again gives back the
/// same configuration.
pub proof fn lemma_save_then_load(c: AudioConfigView)
    requires
        is_canonical(c),
    ensures
        config_from_db(db_from_config(c)) == c,
{
    let d = db_from_config(c);
    let back = config_from_db(d);
    match c.cfg.noise_suppression {
        Some(ns) => {
            assert(level_from_code(level_code(ns.level)) == ns.level);
        },
        None => {},
    }
    assert(back.cfg == c.cfg);
    assert(back.input_mode == c.input_mode);
    assert(back.global_attenuation == c.global_attenuation);
}

/// Loading any stored row gives a canonical live configuration.
pub proof fn lemma_loaded_is_canonical(db: AudioConfigDBView)
    ensures
        is_canonical(config_from_db(db)),
{
}

/// Loading a stored row and saving it again writes the normalized row, and a
/// normalized row is written back unchanged.
pub proof fn lemma_load_then_save(db: AudioConfigDBView)
    ensures
        db_from_config(config_from_db(db)) == normalized_row(db),
        db_from_config(config_from_db(normalized_row(db))) == normalized_row(db),
{
    let n = normalized_row(db);
    match db.noise_suppression_level {
        Some(code) => {
            assert(level_code(level_from_code(level_code(level_from_code(code)))) == level_code(level_from_code(code)));
        },
        None => {},
    }
    assert(db_from_config(config_from_db(db)) == n);
    assert(db_from_config(config_from_db(n)) == n);
}

} // verus!
