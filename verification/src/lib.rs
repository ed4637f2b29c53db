//! Verified core of the Moxin voice and translator apps: the emotion and
//! instruction model of text-to-speech requests, the selection rules of the
//! bounded drop-down, and the decisions of the first-run model downloader.
pub mod text;
pub mod voice;
pub mod translator;
pub mod model_init;
