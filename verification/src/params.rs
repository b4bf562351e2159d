use vstd::prelude::*;

verus! {

/// Settings for one recognition call: language tag, thread count, the sample
/// rate the audio is normalized to before inference, whether the engine
/// translates, and four diagnostic-print switches. Immutable per call.
pub struct RecognizeParameters {
    pub language: Option<String>,
    pub use_threads: i32,
    pub resample_rate: u32,
    pub enable_translate: bool,
    pub enable_print_special: bool,
    pub enable_print_progress: bool,
    pub enable_print_realtime: bool,
    pub enable_print_timestamps: bool,
}

impl RecognizeParameters {
    pub fn new(
        language: Option<String>,
        use_threads: i32,
        resample_rate: u32,
        enable_translate: bool,
        enable_print_special: bool,
        enable_print_progress: bool,
        enable_print_realtime: bool,
        enable_print_timestamps: bool,
    ) -> (r: Self)
        ensures
            r.language == language,
            r.use_threads == use_threads,
            r.resample_rate == resample_rate,
            r.enable_translate == enable_translate,
            r.enable_print_special == enable_print_special,
            r.enable_print_progress == enable_print_progress,
            r.enable_print_realtime == enable_print_realtime,
            r.enable_print_timestamps == enable_print_timestamps,
    {
        RecognizeParameters {
            language,
            use_threads,
            resample_rate,
            enable_translate,
            enable_print_special,
            enable_print_progress,
            enable_print_realtime,
            enable_print_timestamps,
        }
    }

    pub fn get_lang(&self) -> (r: Option<&str>)
        ensures
            r is Some <==> self.language is Some,
            r matches Some(s) ==> (self.language matches Some(l) && s@ == l@),
    {
        match &self.language {
            None => None,
            Some(lang) => Some(lang.as_str()),
        }
    }

    pub fn get_resample_rate(&self) -> (r: u32)
        ensures
            r == self.resample_rate,
    {
        self.resample_rate
    }

    pub fn get_threads(&self) -> (r: i32)
        ensures
            r == self.use_threads,
    {
        self.use_threads
    }

    pub fn is_translate_enable(&self) -> (r: bool)
        ensures
            r == self.enable_translate,
    {
        self.enable_translate
    }

    pub fn is_print_spec_enable(&self) -> (r: bool)
        ensures
            r == self.enable_print_special,
    {
        self.enable_print_special
    }

    pub fn is_print_progress_enable(&self) -> (r: bool)
        ensures
            r == self.enable_print_progress,
    {
        self.enable_print_progress
    }

    pub fn is_print_realtime_enable(&self) -> (r: bool)
        ensures
            r == self.enable_print_realtime,
    {
        self.enable_print_realtime
    }

    pub fn is_print_timestamp_enable(&self) -> (r: bool)
        ensures
            r == self.enable_print_timestamps,
    {
        self.enable_print_timestamps
    }
}

impl Default for RecognizeParameters {
    /// The documented defaults: English, one thread, 29000 Hz, every switch off.
    fn default() -> (r: Self)
        ensures
            r.language matches Some(l) && l@ == "en"@,
            r.use_threads == 1,
            r.resample_rate == 29000,
            !r.enable_translate,
            !r.enable_print_special,
            !r.enable_print_progress,
            !r.enable_print_realtime,
            !r.enable_print_timestamps,
    {
        RecognizeParameters {
            language: Some("en".to_owned()),
            use_threads: 1,
            resample_rate: 29000,
            enable_translate: false,
            enable_print_special: false,
            enable_print_progress: false,
            enable_print_realtime: false,
            enable_print_timestamps: false,
        }
    }
}

} // verus!
