pub mod tts_emotion;
