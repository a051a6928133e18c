//! Configuration, model-directory probing and sidecar-engine logic of the
//! ZapMomo voice companion, with contracts proved by Verus.
pub mod asr;
pub mod audio;
pub mod audiocpp;
pub mod cli;
pub mod desktop;
pub mod listing;
pub mod text;
pub mod tts;
