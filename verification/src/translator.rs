pub mod bounded_drop_down;
pub mod tts_emotion;
