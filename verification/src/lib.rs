pub mod config;
pub mod errors;
pub mod guard;
pub mod jsonout;
pub mod normalizer;
pub mod numfmt;
pub mod params;
pub mod pcm;
pub mod pipeline;
pub mod segments;
pub mod session;
pub mod wav;
