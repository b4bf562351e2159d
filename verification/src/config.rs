use vstd::prelude::*;

verus! {

/// Where the engine's model file lives and whether the GPU is used.
/// Loading these from the environment is the caller's business; parsing the
/// GPU switch is done here by `parse_gpu_flag`.
pub struct WhisperClientConfig {
    pub model_path: String,
    pub enable_gpu: bool,
}

impl WhisperClientConfig {
    pub fn new(model_path: String, enable_gpu: bool) -> (r: Self)
        ensures
            r.model_path == model_path,
            r.enable_gpu == enable_gpu,
    {
        WhisperClientConfig { model_path, enable_gpu }
    }

    pub fn get_model_path(&self) -> (r: &str)
        ensures
            r@ == self.model_path@,
    {
        self.model_path.as_str()
    }

    pub fn is_gpu_enabled(&self) -> (r: bool)
        ensures
            r == self.enable_gpu,
    {
        self.enable_gpu
    }
}

impl Default for WhisperClientConfig {
    fn default() -> (r: Self)
        ensures
            r.model_path@ == "./models/ggml-base.en.bin"@,
            !r.enable_gpu,
    {
        WhisperClientConfig {
            model_path: "./models/ggml-base.en.bin".to_owned(),
            enable_gpu: false,
        }
    }
}

/// Reads the GPU switch the way `bool::from_str` does: exactly "true" or
/// "false", anything else is rejected.
pub fn parse_gpu_flag(value: &str) -> (r: Option<bool>)
    ensures
        value@ == "true"@ ==> r == Some(true),
        value@ == "false"@ ==> r == Some(false),
        value@ != "true"@ && value@ != "false"@ ==> r is None,
{
    proof {
        reveal_strlit("true");
        reveal_strlit("false");
        assert("true"@.len() == 4);
        assert("false"@.len() == 5);
        assert("true"@ != "false"@);
    }
    let v = value.to_owned();
    if v == "true".to_owned() {
        Some(true)
    } else if v == "false".to_owned() {
        Some(false)
    } else {
        None
    }
}

} // verus!
