//! Shaping the requests to the audio.cpp sidecar and reading its answers:
//! family lookup, voice mapping, request bodies, the event stream and its
//! PCM payloads, and the truncation of error bodies.
use vstd::prelude::*;
use vstd::string::*;

use crate::audiocpp::families::{
    clone_entries, entries_view, family_desc, has_tts_family, is_family_record, request_options_of,
    AudiocppFamilyDesc, OptionEntry, OptionValue, VoiceSemantics,
};
use crate::audiocpp::AudiocppError;
use crate::text::{concat2, concat3, contains_seq, decimal, decimal_string, has_prefix, opt_view, owned};
use crate::tts::config::{tts_kind_name, ResolvedTtsConfig};
use crate::tts::TtsVoiceParams;

verus! {

/// Upper bound on the bytes of an error body kept in a message.
pub const ERROR_BODY_MAX: usize = 500;

/// Text chunking of streamed synthesis (`options.text_chunk_size`).
pub const STREAM_TEXT_CHUNK_SIZE: i64 = 40;

/// Bytes of a character in UTF-8.
pub open spec fn utf8_len(c: char) -> nat {
    if (c as u32) < 0x80 {
        1
    } else if (c as u32) < 0x800 {
        2
    } else if (c as u32) < 0x10000 {
        3
    } else {
        4
    }
}

/// Bytes of a text in UTF-8.
pub open spec fn byte_len(s: Seq<char>) -> nat
    decreases s.len(),
{
    if s.len() == 0 {
        0
    } else {
        utf8_len(s[0]) + byte_len(s.drop_first())
    }
}

/// How many leading characters fit in `budget` bytes.
pub open spec fn fit_count(s: Seq<char>, budget: int) -> nat
    decreases s.len(),
{
    if s.len() == 0 {
        0
    } else if utf8_len(s[0]) <= budget {
        1 + fit_count(s.drop_first(), budget - utf8_len(s[0]))
    } else {
        0
    }
}

/// A text cut to at most `max` bytes on a character boundary, marked with
/// `…` when something was cut.
pub open spec fn truncated(s: Seq<char>, max: int) -> Seq<char> {
    if fit_count(s, max) == s.len() {
        s
    } else {
        s.take(fit_count(s, max) as int) + "…"@
    }
}

fn char_utf8_len(c: char) -> (n: usize)
    ensures
        n == utf8_len(c),
{
    let v = c as u32;
    if v < 0x80 {
        1
    } else if v < 0x800 {
        2
    } else if v < 0x10000 {
        3
    } else {
        4
    }
}

proof fn lemma_fit_count_bound(s: Seq<char>, budget: int)
    ensures
        fit_count(s, budget) <= s.len(),
    decreases s.len(),
{
    if s.len() > 0 {
        lemma_fit_count_bound(s.drop_first(), budget - utf8_len(s[0]));
    }
}

pub fn truncate(s: &str, max: usize) -> (r: String)
    ensures
        r@ == truncated(s@, max as int),
{
    let n = s.unicode_len();
    let mut k: usize = 0;
    let mut used: usize = 0;
    let mut stop = false;
    proof {
        assert(s@.skip(0) =~= s@);
    }
    while k < n && !stop
        invariant
            n == s@.len(),
            0 <= k <= n,
            used <= max,
            fit_count(s@, max as int) == k + fit_count(s@.skip(k as int), max - used),
            stop ==> fit_count(s@.skip(k as int), max - used) == 0,
        decreases 2 * (n - k) + (if stop { 0int } else { 1int }),
    {
        let c = s.get_char(k);
        let l = char_utf8_len(c);
        let ghost rest = s@.skip(k as int);
        assert(rest[0] == c);
        if l > max - used {
            stop = true;
        } else {
            assert(rest.drop_first() =~= s@.skip(k + 1));
            used = used + l;
            k = k + 1;
        }
    }
    proof {
        lemma_fit_count_bound(s@, max as int);
        if k == n {
            assert(s@.skip(k as int).len() == 0);
        }
    }
    if k == n {
        owned(s)
    } else {
        concat2(s.substring_char(0, k), "…")
    }
}

/// A text whose UTF-8 form fits in `max` bytes is kept whole; otherwise the
/// kept prefix fits and one more character would not.
pub proof fn lemma_truncation_fits(s: Seq<char>, max: int)
    requires
        max >= 0,
    ensures
        fit_count(s, max) == s.len() <==> byte_len(s) <= max,
        byte_len(s.take(fit_count(s, max) as int)) <= max,
        fit_count(s, max) < s.len() ==> byte_len(s.take(fit_count(s, max) as int + 1)) > max,
    decreases s.len(),
{
    if s.len() > 0 {
        let t = s.drop_first();
        let b = max - utf8_len(s[0]);
        lemma_fit_count_bound(t, b);
        lemma_byte_len_nonneg(t);
        let k = fit_count(s, max);
        if utf8_len(s[0]) <= max {
            lemma_truncation_fits(t, b);
            assert(s.take(k as int)[0] == s[0]);
            assert(s.take(k as int).drop_first() =~= t.take(fit_count(t, b) as int));
            if k < s.len() {
                assert(s.take(k as int + 1)[0] == s[0]);
                assert(s.take(k as int + 1).drop_first() =~= t.take(fit_count(t, b) as int + 1));
            }
        } else {
            assert(s.take(0) =~= Seq::<char>::empty());
            assert(s.take(1)[0] == s[0]);
            assert(s.take(1).drop_first() =~= Seq::<char>::empty());
        }
    } else {
        assert(s.take(0) =~= s);
    }
}

proof fn lemma_byte_len_nonneg(s: Seq<char>)
    ensures
        byte_len(s) >= 0,
        s.len() == 0 ==> byte_len(s) == 0,
{
}

/// The family of the configured kind; a sherpa-only kind on the audio.cpp
/// backend is a configuration error.
pub open spec fn lookup_error(kind_name: Seq<char>) -> Seq<char> {
    "模型类型 "@ + kind_name + " 不支持 audiocpp 后端（请检查 [tts].model_type 与 backend 组合）"@
}

pub fn lookup_desc(cfg: &ResolvedTtsConfig) -> (r: Result<AudiocppFamilyDesc, String>)
    ensures
        match r {
            Ok(d) => has_tts_family(cfg.model_type) && is_family_record(cfg.model_type, d),
            Err(e) => !has_tts_family(cfg.model_type) && e@ == lookup_error(tts_kind_name(cfg.model_type)),
        },
{
    match family_desc(cfg.model_type) {
        Some(d) => Ok(d),
        None => Err(concat3(
            "模型类型 ",
            cfg.model_type.as_str(),
            " 不支持 audiocpp 后端（请检查 [tts].model_type 与 backend 组合）",
        )),
    }
}

/// The body of a speech request (`/v1/audio/speech`); absent fields are
/// left out of the JSON.
#[derive(Debug)]
pub struct SpeechRequest {
    pub model: String,
    pub input: String,
    pub options: Option<Vec<OptionEntry>>,
    pub voice: Option<String>,
    pub voice_ref: Option<String>,
    pub reference_text: Option<String>,
    pub response_format: Option<String>,
    pub stream_format: Option<String>,
}

/// The text of a voice that the family refuses, if it refuses it.
pub open spec fn voice_refusal(d: AudiocppFamilyDesc, v: TtsVoiceParams) -> Option<Seq<char>> {
    match (d.voice_semantics, v) {
        (VoiceSemantics::FixedNamed(default), TtsVoiceParams::Reference { .. }) => Some(
            "该 audio.cpp 模型为固定音色（"@ + default@ + "），不支持参考音频克隆"@,
        ),
        (VoiceSemantics::FixedNamed(_), _) => None,
        (_, TtsVoiceParams::Reference { .. }) => None,
        (VoiceSemantics::ReferenceCloneRequired, TtsVoiceParams::Sid(_)) => Some(
            "Qwen3-TTS 需要克隆音色：请先在音色库选择或录制一个音色"@,
        ),
        (VoiceSemantics::ReferenceClone, TtsVoiceParams::Sid(_)) => None,
        (VoiceSemantics::ReferenceClone, TtsVoiceParams::Named(_)) => if d.allows_named_voice {
            None
        } else {
            Some(d.model_id@ + " 仅支持参考音频克隆（speaker reference），不支持具名音色"@)
        },
        (VoiceSemantics::ReferenceCloneRequired, TtsVoiceParams::Named(_)) => Some(
            d.model_id@ + " 仅支持参考音频克隆（speaker reference），不支持具名音色"@,
        ),
    }
}

/// The `voice` field that an accepted voice sets, if it sets one: a named
/// voice passes through; on a fixed-voice family a speaker id takes the
/// family's default voice.
pub open spec fn voice_name_of(d: AudiocppFamilyDesc, v: TtsVoiceParams) -> Option<Seq<char>> {
    match (d.voice_semantics, v) {
        (_, TtsVoiceParams::Named(name)) => Some(name@),
        (VoiceSemantics::FixedNamed(default), TtsVoiceParams::Sid(_)) => Some(default@),
        _ => None,
    }
}

/// The voice fields after an accepted voice: a reference sets `voice_ref`
/// and `reference_text`; a named voice (or a fixed family's default) sets
/// `voice`; a speaker id on a cloning family sets nothing (the server picks
/// its voice).
pub open spec fn voice_fields_set(
    old: SpeechRequest,
    new: SpeechRequest,
    d: AudiocppFamilyDesc,
    v: TtsVoiceParams,
) -> bool {
    &&& new.model@ == old.model@
    &&& new.input@ == old.input@
    &&& new.options == old.options
    &&& opt_view(new.response_format) == opt_view(old.response_format)
    &&& opt_view(new.stream_format) == opt_view(old.stream_format)
    &&& match v {
        TtsVoiceParams::Reference { wav_path, reference_text } => {
            &&& opt_view(new.voice) == opt_view(old.voice)
            &&& opt_view(new.voice_ref) == Some(wav_path@)
            &&& opt_view(new.reference_text) == Some(reference_text@)
        },
        _ => {
            &&& opt_view(new.voice) == (match voice_name_of(d, v) {
                Some(n) => Some(n),
                None => opt_view(old.voice),
            })
            &&& opt_view(new.voice_ref) == opt_view(old.voice_ref)
            &&& opt_view(new.reference_text) == opt_view(old.reference_text)
        },
    }
}

/// Maps the voice parameters onto the request by the family's voice
/// semantics (shared by plain and streamed synthesis). A refused voice
/// leaves the request as it was.
pub fn apply_voice_fields(
    body: &mut SpeechRequest,
    desc: &AudiocppFamilyDesc,
    voice: &TtsVoiceParams,
) -> (r: Result<(), AudiocppError>)
    ensures
        match voice_refusal(*desc, *voice) {
            Some(m) => r matches Err(AudiocppError::UnsupportedVoice(t)) && t@ == m && *final(body)
                == *old(body),
            None => r is Ok && voice_fields_set(*old(body), *final(body), *desc, *voice),
        },
{
    match desc.voice_semantics {
        VoiceSemantics::FixedNamed(default) => match voice {
            TtsVoiceParams::Named(name) => {
                body.voice = Some(name.clone());
                Ok(())
            },
            TtsVoiceParams::Sid(_) => {
                body.voice = Some(owned(default));
                Ok(())
            },
            TtsVoiceParams::Reference { .. } => Err(
                AudiocppError::UnsupportedVoice(
                    concat3("该 audio.cpp 模型为固定音色（", default, "），不支持参考音频克隆"),
                ),
            ),
        },
        VoiceSemantics::ReferenceClone => match voice {
            TtsVoiceParams::Reference { wav_path, reference_text } => {
                body.voice_ref = Some(wav_path.clone());
                body.reference_text = Some(reference_text.clone());
                Ok(())
            },
            TtsVoiceParams::Sid(_) => Ok(()),
            TtsVoiceParams::Named(name) => {
                if desc.allows_named_voice {
                    body.voice = Some(name.clone());
                    Ok(())
                } else {
                    Err(
                        AudiocppError::UnsupportedVoice(
                            concat2(desc.model_id, " 仅支持参考音频克隆（speaker reference），不支持具名音色"),
                        ),
                    )
                }
            },
        },
        VoiceSemantics::ReferenceCloneRequired => match voice {
            TtsVoiceParams::Reference { wav_path, reference_text } => {
                body.voice_ref = Some(wav_path.clone());
                body.reference_text = Some(reference_text.clone());
                Ok(())
            },
            TtsVoiceParams::Sid(_) => Err(
                AudiocppError::UnsupportedVoice(
                    owned("Qwen3-TTS 需要克隆音色：请先在音色库选择或录制一个音色"),
                ),
            ),
            TtsVoiceParams::Named(_) => Err(
                AudiocppError::UnsupportedVoice(
                    concat2(desc.model_id, " 仅支持参考音频克隆（speaker reference），不支持具名音色"),
                ),
            ),
        },
    }
}

/// The options of a plain request: the family's request options, left out
/// when there are none.
pub open spec fn plain_options(family: Seq<char>) -> Option<Seq<(Seq<char>, OptionValue)>> {
    if request_options_of(family).len() > 0 {
        Some(request_options_of(family))
    } else {
        None
    }
}

/// The options of a streamed request: the family's options and the text chunking.
pub open spec fn stream_options(family: Seq<char>) -> Seq<(Seq<char>, OptionValue)> {
    request_options_of(family).push(("text_chunk_size"@, OptionValue::Int(STREAM_TEXT_CHUNK_SIZE)))
}

pub open spec fn options_view(o: Option<Vec<OptionEntry>>) -> Option<Seq<(Seq<char>, OptionValue)>> {
    match o {
        Some(v) => Some(entries_view(v@)),
        None => None,
    }
}

/// The request fields that do not depend on the voice.
pub open spec fn base_request(
    r: SpeechRequest,
    d: AudiocppFamilyDesc,
    text: Seq<char>,
    options: Option<Seq<(Seq<char>, OptionValue)>>,
    streaming: bool,
) -> bool {
    &&& r.model@ == d.model_id@
    &&& r.input@ == text
    &&& options_view(r.options) == options
    &&& opt_view(r.response_format) == (if streaming {
        Some("pcm"@)
    } else {
        None
    })
    &&& opt_view(r.stream_format) == (if streaming {
        Some("sse"@)
    } else {
        None
    })
}

/// The voice fields of a request built from scratch.
pub open spec fn voice_fields_of(r: SpeechRequest, d: AudiocppFamilyDesc, v: TtsVoiceParams) -> bool {
    match v {
        TtsVoiceParams::Reference { wav_path, reference_text } => {
            &&& r.voice is None
            &&& opt_view(r.voice_ref) == Some(wav_path@)
            &&& opt_view(r.reference_text) == Some(reference_text@)
        },
        _ => {
            &&& opt_view(r.voice) == voice_name_of(d, v)
            &&& r.voice_ref is None
            &&& r.reference_text is None
        },
    }
}

/// The body of a plain (whole-utterance) synthesis request.
pub fn speech_request(desc: &AudiocppFamilyDesc, text: &str, voice: &TtsVoiceParams) -> (r: Result<
    SpeechRequest,
    AudiocppError,
>)
    ensures
        match voice_refusal(*desc, *voice) {
            Some(m) => r matches Err(AudiocppError::UnsupportedVoice(t)) && t@ == m,
            None => r matches Ok(b) && base_request(b, *desc, text@, plain_options(desc.family@), false)
                && voice_fields_of(b, *desc, *voice),
        },
{
    let options = desc.request_options();
    let opts = if options.len() > 0 {
        Some(options)
    } else {
        None
    };
    let mut body = SpeechRequest {
        model: owned(desc.model_id),
        input: owned(text),
        options: opts,
        voice: None,
        voice_ref: None,
        reference_text: None,
        response_format: None,
        stream_format: None,
    };
    match apply_voice_fields(&mut body, desc, voice) {
        Ok(()) => Ok(body),
        Err(e) => Err(e),
    }
}

/// The body of a streamed synthesis request; a family without streaming is an error.
pub fn streaming_request(desc: &AudiocppFamilyDesc, text: &str, voice: &TtsVoiceParams) -> (r: Result<
    SpeechRequest,
    AudiocppError,
>)
    ensures
        !desc.supports_streaming ==> (r matches Err(AudiocppError::StreamingUnsupported(m)) && m@
            == desc.model_id@),
        desc.supports_streaming ==> match voice_refusal(*desc, *voice) {
            Some(m) => r matches Err(AudiocppError::UnsupportedVoice(t)) && t@ == m,
            None => r matches Ok(b) && base_request(b, *desc, text@, Some(stream_options(desc.family@)), true)
                && voice_fields_of(b, *desc, *voice),
        },
{
    if !desc.supports_streaming {
        return Err(AudiocppError::StreamingUnsupported(owned(desc.model_id)));
    }
    let mut options = desc.request_options();
    let ghost before = options@;
    options.push(OptionEntry { key: owned("text_chunk_size"), value: OptionValue::Int(STREAM_TEXT_CHUNK_SIZE) });
    assert(entries_view(options@) =~= entries_view(before).push(("text_chunk_size"@, OptionValue::Int(STREAM_TEXT_CHUNK_SIZE))));
    let mut body = SpeechRequest {
        model: owned(desc.model_id),
        input: owned(text),
        options: Some(options),
        voice: None,
        voice_ref: None,
        reference_text: None,
        response_format: Some(owned("pcm")),
        stream_format: Some(owned("sse")),
    };
    match apply_voice_fields(&mut body, desc, voice) {
        Ok(()) => Ok(body),
        Err(e) => Err(e),
    }
}

/// The error of a non-2xx answer, its body cut to `ERROR_BODY_MAX` bytes.
pub fn http_status_error(status: u16, body: &str) -> (r: AudiocppError)
    ensures
        r matches AudiocppError::HttpStatus { status: s, body: b } && s == status && b@ == truncated(
            body@,
            ERROR_BODY_MAX as int,
        ),
{
    AudiocppError::HttpStatus { status, body: truncate(body, ERROR_BODY_MAX) }
}

/// The payload of a `data: ` line of the event stream (other lines carry none).
pub fn sse_payload<'a>(line: &'a str) -> (r: Option<&'a str>)
    ensures
        match r {
            Some(p) => has_prefix(line@, "data: "@) && p@ == line@.subrange(
                "data: "@.len() as int,
                line@.len() as int,
            ),
            None => !has_prefix(line@, "data: "@),
        },
{
    crate::text::strip_prefix(line, "data: ")
}

/// The payload that ends the stream.
pub fn is_stream_end(payload: &str) -> (r: bool)
    ensures
        r == (payload@ == "[DONE]"@),
{
    crate::text::str_eq(payload, "[DONE]")
}

/// What one parsed stream event asks for.
#[derive(Debug)]
pub enum StreamStep {
    /// Nothing to do (progress, completion marker, unknown events).
    Ignore,
    /// A base64 PCM chunk to decode and hand on.
    Audio(String),
    /// The server reported an error: end the stream with it.
    Fail(AudiocppError),
}

/// The step of an event with type `event_type` and audio payload `audio`;
/// `data` is the raw payload, quoted (cut) in an error.
pub fn stream_event_step(event_type: Option<&str>, audio: Option<&str>, data: &str) -> (r: StreamStep)
    ensures
        match event_type {
            Some(t) => if t@ == "speech.audio.delta"@ {
                match audio {
                    Some(a) => if a@.len() > 0 {
                        r matches StreamStep::Audio(b) && b@ == a@
                    } else {
                        r is Ignore
                    },
                    None => r is Ignore,
                }
            } else if t@ == "speech.audio.done"@ {
                r is Ignore
            } else if contains_seq(t@, "error"@) {
                r matches StreamStep::Fail(AudiocppError::StreamEvent(m)) && m@ == truncated(
                    data@,
                    ERROR_BODY_MAX as int,
                )
            } else {
                r is Ignore
            },
            None => r is Ignore,
        },
{
    match event_type {
        Some(t) => {
            if crate::text::str_eq(t, "speech.audio.delta") {
                match audio {
                    Some(a) => if a.unicode_len() > 0 {
                        StreamStep::Audio(owned(a))
                    } else {
                        StreamStep::Ignore
                    },
                    None => StreamStep::Ignore,
                }
            } else if crate::text::str_eq(t, "speech.audio.done") {
                StreamStep::Ignore
            } else if crate::text::contains_str(t, "error") {
                StreamStep::Fail(AudiocppError::StreamEvent(truncate(data, ERROR_BODY_MAX)))
            } else {
                StreamStep::Ignore
            }
        },
        None => StreamStep::Ignore,
    }
}

/// What the standard base64 engine (padded, canonical) makes of a text: the
/// decoded bytes, or the error that rejects the text.
pub uninterp spec fn standard_base64_decode(text: Seq<char>) -> Result<Seq<u8>, base64::DecodeError>;

/// The text that `Display` gives for a base64 decoding error.
pub uninterp spec fn decode_error_display(e: base64::DecodeError) -> Seq<char>;

#[verifier::external_type_specification]
#[verifier::external_body]
pub struct ExDecodeError(base64::DecodeError);

/// `base64::Engine::decode` on `base64::engine::general_purpose::STANDARD`:
/// the decoded bytes exactly when the standard engine accepts the text,
/// else its error; both depend on the text alone.
#[verifier::external_body]
fn base64_standard_decode(text: &str) -> (r: Result<Vec<u8>, base64::DecodeError>)
    ensures
        match standard_base64_decode(text@) {
            Ok(b) => r matches Ok(v) && v@ == b,
            Err(e) => r == Err::<Vec<u8>, base64::DecodeError>(e),
        },
{
    base64::Engine::decode(&base64::engine::general_purpose::STANDARD, text)
}

/// `Display` of `base64::DecodeError` (which symbol, offset or length was
/// wrong): a function of the error alone, named `decode_error_display`.
#[verifier::external_body]
fn decode_error_text(e: &base64::DecodeError) -> (r: String)
    ensures
        r@ == decode_error_display(*e),
{
    format!("{e}")
}

/// The little-endian 16-bit samples of a byte sequence of even length.
pub open spec fn le_samples(b: Seq<u8>) -> Seq<i16> {
    Seq::new(
        b.len() / 2,
        |k: int|
            {
                let v = b[2 * k] as int + 256 * b[2 * k + 1] as int;
                (if v >= 32768 {
                    v - 65536
                } else {
                    v
                }) as i16
            },
    )
}

/// The error text of a chunk of odd length.
pub open spec fn odd_chunk_message(n: nat) -> Seq<char> {
    "pcm 分块长度 "@ + decimal(n) + " 不是 2 字节对齐（i16）"@
}

/// The 16-bit samples of decoded PCM bytes; an odd byte count is an error.
pub fn pcm_from_bytes(bytes: &Vec<u8>) -> (r: Result<Vec<i16>, AudiocppError>)
    ensures
        bytes@.len() % 2 == 0 ==> (r matches Ok(v) && v@ == le_samples(bytes@)),
        bytes@.len() % 2 != 0 ==> (r matches Err(AudiocppError::DecodeWav(m)) && m@ == odd_chunk_message(
            bytes@.len(),
        )),
{
    let n = bytes.len();
    if n % 2 != 0 {
        let t = decimal_string(n as u64);
        return Err(AudiocppError::DecodeWav(concat3("pcm 分块长度 ", t.as_str(), " 不是 2 字节对齐（i16）")));
    }
    let mut out: Vec<i16> = Vec::new();
    let mut k: usize = 0;
    while k < n / 2
        invariant
            n == bytes@.len(),
            n % 2 == 0,
            0 <= k <= n / 2,
            out@ == le_samples(bytes@).take(k as int),
        decreases n / 2 - k,
    {
        let lo = bytes[2 * k] as i32;
        let hi = bytes[2 * k + 1] as i32;
        let v: i32 = lo + 256 * hi;
        let s: i16 = if v >= 32768 {
            (v - 65536) as i16
        } else {
            v as i16
        };
        out.push(s);
        proof {
            assert(le_samples(bytes@).take(k + 1) =~= le_samples(bytes@).take(k as int).push(s));
        }
        k = k + 1;
    }
    assert(le_samples(bytes@).take((n / 2) as int) =~= le_samples(bytes@));
    Ok(out)
}

/// Decodes a streamed PCM chunk: base64 text, then little-endian 16-bit
/// mono samples.
pub fn decode_pcm_chunk(b64: &str) -> (r: Result<Vec<i16>, AudiocppError>)
    ensures
        match standard_base64_decode(b64@) {
            Err(e) => r matches Err(AudiocppError::DecodeWav(m)) && m@ == "base64 解码失败: "@
                + decode_error_display(e),
            Ok(b) => if b.len() % 2 == 0 {
                r matches Ok(v) && v@ == le_samples(b)
            } else {
                r matches Err(AudiocppError::DecodeWav(m)) && m@ == odd_chunk_message(b.len())
            },
        },
{
    match base64_standard_decode(b64) {
        Ok(bytes) => pcm_from_bytes(&bytes),
        Err(e) => {
            let t = decode_error_text(&e);
            let m = concat2("base64 解码失败: ", t.as_str());
            Err(AudiocppError::DecodeWav(m))
        },
    }
}


/// Every cloning family takes a reference recording: the request then
/// carries the recording's path as `voice_ref` and its transcript as
/// `reference_text`, and no named voice. Only a fixed-voice family refuses a
/// reference. A family that requires cloning refuses the voices that carry
/// no recording (a speaker id, a named voice).
pub proof fn lemma_cloning_families_take_references(
    d: AudiocppFamilyDesc,
    wav_path: String,
    reference_text: String,
    sid: i32,
    name: String,
    r: SpeechRequest,
)
    ensures
        ({
            let v = TtsVoiceParams::Reference { wav_path, reference_text };
            &&& (d.voice_semantics == VoiceSemantics::ReferenceCloneRequired || d.voice_semantics
                == VoiceSemantics::ReferenceClone) ==> voice_refusal(d, v) is None
            &&& (d.voice_semantics is FixedNamed) ==> voice_refusal(d, v) is Some
            &&& voice_fields_of(r, d, v) ==> opt_view(r.voice_ref) == Some(wav_path@) && opt_view(
                r.reference_text,
            ) == Some(reference_text@) && r.voice is None
        }),
        d.voice_semantics == VoiceSemantics::ReferenceCloneRequired ==> voice_refusal(
            d,
            TtsVoiceParams::Sid(sid),
        ) is Some && voice_refusal(d, TtsVoiceParams::Named(name)) is Some,
{
}

} // verus!
