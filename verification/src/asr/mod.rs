//! Streaming speech-recognition providers.
//!
//! Two free channels: the Doubao IME, which needs no credentials and registers by itself, and
//! Grok speech-to-text, which takes the whole recording in one request.
use vstd::prelude::*;

pub mod doubao;
pub mod doubao_proto;
pub mod grok_stt;
pub mod recognized;

verus! {

/// Takes in raw 16 kHz, 16-bit, mono PCM as the recorder delivers it.
pub trait AudioConsumer: Send + Sync {
    fn consume_pcm_chunk(&self, pcm: &[u8]);
}

/// What a session yielded once its stream closed.
#[derive(Debug)]
pub struct RawTranscript {
    pub text: String,
    pub duration_ms: u64,
}

} // verus!
