//! Offline (whole-utterance) recognition: the model configuration of each
//! offline family, the files it needs, and the post-processing of its text.
use vstd::prelude::*;
use vstd::string::*;

use crate::asr::config::{kind_is_streaming, model_kind_name, AsrModelKind, ResolvedAsrConfig};
use crate::text::{
    clone_opt, concat2, concat3, is_white_space, join_with, join_words, lemma_normalized_idempotent,
    normalized, opt_view, owned, push_char, trim, trim_str, word_scan, words,
};

verus! {

/// Scan state after reading `s`: the text kept so far and whether a `<...>`
/// tag is open. `<` opens a tag (also inside one), `>` closes an open tag.
pub open spec fn tag_scan(s: Seq<char>) -> (Seq<char>, bool)
    decreases s.len(),
{
    if s.len() == 0 {
        (seq![], false)
    } else {
        let (out, in_tag) = tag_scan(s.drop_last());
        let c = s.last();
        if c == '<' {
            (out, true)
        } else if c == '>' && in_tag {
            (out, false)
        } else if !in_tag {
            (out.push(c), in_tag)
        } else {
            (out, in_tag)
        }
    }
}

/// `s` with its `<...>` tags removed.
pub open spec fn strip_tags(s: Seq<char>) -> Seq<char> {
    tag_scan(s).0
}

/// The text of a SenseVoice result: tags removed, words joined by one space.
pub open spec fn cleaned_sensevoice(s: Seq<char>) -> Seq<char> {
    join_with(words(strip_tags(s)), " "@)
}

/// Removes the `<|...|>` language/emotion/event tags of SenseVoice output and
/// collapses whitespace to single spaces.
pub fn clean_sensevoice_text(raw: &str) -> (r: String)
    ensures
        r@ == cleaned_sensevoice(raw@),
{
    let n = raw.unicode_len();
    let mut out = String::new();
    let mut in_tag = false;
    let mut i: usize = 0;
    while i < n
        invariant
            n == raw@.len(),
            0 <= i <= n,
            tag_scan(raw@.take(i as int)) == (out@, in_tag),
        decreases n - i,
    {
        let c = raw.get_char(i);
        assert(raw@.take(i + 1).drop_last() =~= raw@.take(i as int));
        assert(raw@.take(i + 1).last() == c);
        if c == '<' {
            in_tag = true;
        } else if c == '>' && in_tag {
            in_tag = false;
        } else if !in_tag {
            push_char(&mut out, c);
        }
        i = i + 1;
    }
    assert(raw@.take(n as int) =~= raw@);
    join_words(out.as_str(), " ")
}

/// Hotwords as Qwen3-ASR takes them: the space-separated words joined by commas.
pub fn qwen3_hotwords(h: &str) -> (r: String)
    ensures
        r@ == join_with(words(h@), ","@),
{
    join_words(h, ",")
}

/// The SenseVoice branch of the offline model configuration.
#[derive(Debug)]
pub struct SenseVoicePlan {
    pub model: Option<String>,
    pub language: Option<String>,
    pub use_itn: bool,
}

/// The Whisper branch of the offline model configuration.
#[derive(Debug)]
pub struct WhisperPlan {
    pub encoder: String,
    pub decoder: String,
    pub language: Option<String>,
    pub task: String,
}

/// The Qwen3-ASR branch of the offline model configuration.
#[derive(Debug)]
pub struct Qwen3AsrPlan {
    pub conv_frontend: Option<String>,
    pub encoder: String,
    pub decoder: String,
    pub tokenizer: String,
    pub hotwords: Option<String>,
}

/// The offline recognizer's model configuration: shared fields and the one
/// branch of the model family (the others stay at their defaults).
#[derive(Debug)]
pub struct OfflineModelPlan {
    pub num_threads: i32,
    pub debug: bool,
    pub provider: String,
    pub tokens: String,
    pub model_type: Option<String>,
    pub sense_voice: Option<SenseVoicePlan>,
    pub whisper: Option<WhisperPlan>,
    pub qwen3_asr: Option<Qwen3AsrPlan>,
}

/// The hotwords handed to Qwen3-ASR: blank ones are dropped, the others
/// are joined by commas.
pub open spec fn qwen3_hotwords_of(h: Option<Seq<char>>) -> Option<Seq<char>> {
    match h {
        Some(t) => if trim(t).len() > 0 {
            Some(join_with(words(t), ","@))
        } else {
            None
        },
        None => None,
    }
}

/// The configuration of each offline family: SenseVoice sets its model,
/// language and ITN (on by default); Whisper its encoder, decoder, language
/// and the transcribe task; Qwen3-ASR its conv front end, encoder, decoder,
/// tokenizer directory and hotwords, with empty tokens and no model type.
pub open spec fn is_offline_plan(cfg: ResolvedAsrConfig, p: OfflineModelPlan) -> bool {
    &&& p.num_threads == cfg.num_threads
    &&& p.debug == cfg.debug
    &&& p.provider@ == cfg.provider@
    &&& match cfg.model_type {
        AsrModelKind::SenseVoice => {
            &&& p.tokens@ == cfg.tokens@
            &&& opt_view(p.model_type) == Some("sensevoice"@)
            &&& p.whisper is None && p.qwen3_asr is None
            &&& p.sense_voice matches Some(sv) && opt_view(sv.model) == opt_view(cfg.model) && opt_view(
                sv.language,
            ) == opt_view(cfg.language) && sv.use_itn == match cfg.use_itn {
                Some(u) => u,
                None => true,
            }
        },
        AsrModelKind::Whisper => {
            &&& p.tokens@ == cfg.tokens@
            &&& opt_view(p.model_type) == Some("whisper"@)
            &&& p.sense_voice is None && p.qwen3_asr is None
            &&& p.whisper matches Some(w) && w.encoder@ == cfg.encoder@ && w.decoder@ == cfg.decoder@
                && opt_view(w.language) == opt_view(cfg.language) && w.task@ == "transcribe"@
        },
        _ => {
            &&& p.tokens@.len() == 0
            &&& p.model_type is None
            &&& p.sense_voice is None && p.whisper is None
            &&& p.qwen3_asr matches Some(q) && opt_view(q.conv_frontend) == opt_view(cfg.model)
                && q.encoder@ == cfg.encoder@ && q.decoder@ == cfg.decoder@ && q.tokenizer@
                == cfg.tokens@ && opt_view(q.hotwords) == qwen3_hotwords_of(opt_view(cfg.hotwords))
        },
    }
}

/// Builds the offline model configuration (the streaming families take the
/// streaming engine instead).
pub fn build_offline_model_config(cfg: &ResolvedAsrConfig) -> (r: OfflineModelPlan)
    requires
        !kind_is_streaming(cfg.model_type),
    ensures
        is_offline_plan(*cfg, r),
{
    let mut plan = OfflineModelPlan {
        num_threads: cfg.num_threads,
        debug: cfg.debug,
        provider: cfg.provider.clone(),
        tokens: cfg.tokens.clone(),
        model_type: None,
        sense_voice: None,
        whisper: None,
        qwen3_asr: None,
    };
    match cfg.model_type {
        AsrModelKind::SenseVoice => {
            plan.model_type = Some(owned("sensevoice"));
            plan.sense_voice = Some(
                SenseVoicePlan {
                    model: clone_opt(&cfg.model),
                    language: clone_opt(&cfg.language),
                    use_itn: match cfg.use_itn {
                        Some(u) => u,
                        None => true,
                    },
                },
            );
        },
        AsrModelKind::Whisper => {
            plan.model_type = Some(owned("whisper"));
            plan.whisper = Some(
                WhisperPlan {
                    encoder: cfg.encoder.clone(),
                    decoder: cfg.decoder.clone(),
                    language: clone_opt(&cfg.language),
                    task: owned("transcribe"),
                },
            );
        },
        _ => {
            plan.tokens = String::new();
            let hotwords = match &cfg.hotwords {
                Some(h) => {
                    let t = trim_str(h.as_str());
                    if t.unicode_len() > 0 {
                        Some(qwen3_hotwords(h.as_str()))
                    } else {
                        None
                    }
                },
                None => None,
            };
            plan.qwen3_asr = Some(
                Qwen3AsrPlan {
                    conv_frontend: clone_opt(&cfg.model),
                    encoder: cfg.encoder.clone(),
                    decoder: cfg.decoder.clone(),
                    tokenizer: cfg.tokens.clone(),
                    hotwords,
                },
            );
        },
    }
    plan
}

/// One model file that the offline engine needs: its role and path.
#[derive(Debug)]
pub struct RequiredFile {
    pub name: &'static str,
    pub path: String,
}

pub open spec fn required_view(v: Seq<RequiredFile>) -> Seq<(Seq<char>, Seq<char>)> {
    v.map_values(|f: RequiredFile| (f.name@, f.path@))
}

/// The files that the offline engine checks before loading, per family;
/// the Qwen3-ASR tokenizer is a directory (`tokens_is_dir`) checked apart,
/// and a streaming family is refused.
pub open spec fn offline_files(cfg: ResolvedAsrConfig, tokens_is_dir: bool) -> Result<
    Seq<(Seq<char>, Seq<char>)>,
    Seq<char>,
> {
    match cfg.model_type {
        AsrModelKind::SenseVoice => match opt_view(cfg.model) {
            Some(m) => Ok(seq![("model"@, m), ("tokens"@, cfg.tokens@)]),
            None => Err("SenseVoice 模型未解析出主模型文件"@),
        },
        AsrModelKind::Whisper => Ok(
            seq![("encoder"@, cfg.encoder@), ("decoder"@, cfg.decoder@), ("tokens"@, cfg.tokens@)],
        ),
        AsrModelKind::Qwen3Asr => match opt_view(cfg.model) {
            None => Err("Qwen3-ASR 模型未解析出 conv_frontend 文件"@),
            Some(m) => if !tokens_is_dir {
                Err("缺少 tokenizer 目录: "@ + cfg.tokens@)
            } else {
                Ok(seq![("conv_frontend"@, m), ("encoder"@, cfg.encoder@), ("decoder"@, cfg.decoder@)])
            },
        },
        _ => Err("当前模型类型 "@ + model_kind_name(cfg.model_type) + " 应走流式引擎，离线引擎不适用"@),
    }
}

fn required(name: &'static str, path: &String) -> (r: RequiredFile)
    ensures
        r.name == name,
        r.path@ == path@,
{
    RequiredFile { name, path: path.clone() }
}

pub fn offline_required_files(cfg: &ResolvedAsrConfig, tokens_is_dir: bool) -> (r: Result<
    Vec<RequiredFile>,
    String,
>)
    ensures
        match (r, offline_files(*cfg, tokens_is_dir)) {
            (Ok(v), Ok(s)) => required_view(v@) == s,
            (Err(e), Err(m)) => e@ == m,
            _ => false,
        },
{
    let mut v: Vec<RequiredFile> = Vec::new();
    match cfg.model_type {
        AsrModelKind::SenseVoice => match &cfg.model {
            Some(m) => {
                v.push(required("model", m));
                v.push(required("tokens", &cfg.tokens));
            },
            None => {
                return Err(owned("SenseVoice 模型未解析出主模型文件"));
            },
        },
        AsrModelKind::Whisper => {
            v.push(required("encoder", &cfg.encoder));
            v.push(required("decoder", &cfg.decoder));
            v.push(required("tokens", &cfg.tokens));
        },
        AsrModelKind::Qwen3Asr => match &cfg.model {
            Some(m) => {
                if !tokens_is_dir {
                    return Err(concat2("缺少 tokenizer 目录: ", cfg.tokens.as_str()));
                }
                v.push(required("conv_frontend", m));
                v.push(required("encoder", &cfg.encoder));
                v.push(required("decoder", &cfg.decoder));
            },
            None => {
                return Err(owned("Qwen3-ASR 模型未解析出 conv_frontend 文件"));
            },
        },
        _ => {
            return Err(concat3("当前模型类型 ", cfg.model_type.as_str(), " 应走流式引擎，离线引擎不适用"));
        },
    }
    assert(offline_files(*cfg, tokens_is_dir) matches Ok(s) && required_view(v@) =~= s);
    Ok(v)
}

/// The error for a required file that is missing.
pub fn missing_model_file_message(name: &str, path: &str) -> (r: String)
    ensures
        r@ == "缺少模型文件 "@ + name@ + ": "@ + path@,
{
    let mut r = concat3("缺少模型文件 ", name, ": ");
    r.append(path);
    r
}

/// The transcript of a recognition result: SenseVoice output is cleaned of
/// its tags, then the text is trimmed; nothing left is an error.
pub open spec fn transcript_of(kind: AsrModelKind, raw: Seq<char>) -> Result<Seq<char>, Seq<char>> {
    let text = trim(
        if kind == AsrModelKind::SenseVoice {
            cleaned_sensevoice(raw)
        } else {
            raw
        },
    );
    if text.len() == 0 {
        Err("未能识别出有效文本，请换一段更清晰的音频"@)
    } else {
        Ok(text)
    }
}

pub fn finish_transcript(kind: AsrModelKind, raw: &str) -> (r: Result<String, String>)
    ensures
        match (r, transcript_of(kind, raw@)) {
            (Ok(a), Ok(b)) => a@ == b,
            (Err(a), Err(b)) => a@ == b,
            _ => false,
        },
{
    let cleaned = if kind == AsrModelKind::SenseVoice {
        clean_sensevoice_text(raw)
    } else {
        owned(raw)
    };
    let t = trim_str(cleaned.as_str());
    if t.unicode_len() == 0 {
        Err(owned("未能识别出有效文本，请换一段更清晰的音频"))
    } else {
        Ok(owned(t))
    }
}

proof fn lemma_scan_drops_openers(s: Seq<char>)
    ensures
        !tag_scan(s).0.contains('<'),
    decreases s.len(),
{
    if s.len() > 0 {
        lemma_scan_drops_openers(s.drop_last());
        let (out, in_tag) = tag_scan(s.drop_last());
        let c = s.last();
        if c != '<' && !(c == '>' && in_tag) && !in_tag {
            assert forall|i: int| 0 <= i < out.push(c).len() implies out.push(c)[i] != '<' by {
                if i < out.len() {
                    assert(out.push(c)[i] == out[i]);
                }
            }
        }
    }
}

proof fn lemma_word_scan_avoids(s: Seq<char>, x: char)
    requires
        !s.contains(x),
    ensures
        !word_scan(s).1.contains(x),
        forall|k: int| 0 <= k < word_scan(s).0.len() ==> !(#[trigger] word_scan(s).0[k]).contains(x),
    decreases s.len(),
{
    if s.len() > 0 {
        let t = s.drop_last();
        assert forall|i: int| 0 <= i < t.len() implies t[i] != x by {
            assert(t[i] == s[i]);
        }
        lemma_word_scan_avoids(t, x);
        let (done, cur) = word_scan(t);
        let c = s.last();
        assert(c == s[s.len() - 1]);
        if !is_white_space(c) {
            assert forall|i: int| 0 <= i < cur.push(c).len() implies cur.push(c)[i] != x by {
                if i < cur.len() {
                    assert(cur.push(c)[i] == cur[i]);
                }
            }
        } else if cur.len() > 0 {
            assert forall|k: int| 0 <= k < done.push(cur).len() implies !(#[trigger] done.push(cur)[k]).contains(x) by {
                if k < done.len() {
                    assert(done.push(cur)[k] == done[k]);
                }
            }
        }
    }
}

proof fn lemma_join_avoids(list: Seq<Seq<char>>, sep: Seq<char>, x: char)
    requires
        !sep.contains(x),
        forall|k: int| 0 <= k < list.len() ==> !(#[trigger] list[k]).contains(x),
    ensures
        !join_with(list, sep).contains(x),
    decreases list.len(),
{
    if list.len() > 1 {
        let init = list.drop_last();
        assert forall|k: int| 0 <= k < init.len() implies !(#[trigger] init[k]).contains(x) by {
            assert(init[k] == list[k]);
        }
        lemma_join_avoids(init, sep, x);
        let a = join_with(init, sep);
        let l = list.last();
        assert(!l.contains(x)) by {
            assert(l == list[list.len() - 1]);
        }
        let j = a + sep + l;
        assert forall|i: int| 0 <= i < j.len() implies j[i] != x by {
            if i < a.len() {
                assert(j[i] == a[i]);
            } else if i < a.len() + sep.len() {
                assert(j[i] == sep[i - a.len()]);
            } else {
                assert(j[i] == l[i - a.len() - sep.len()]);
            }
        }
    } else if list.len() == 1 {
        assert(!list[0].contains(x));
    }
}

/// A cleaned SenseVoice text holds no tag opener `<`: every tag is gone.
pub proof fn lemma_cleaned_has_no_tags(raw: Seq<char>)
    ensures
        !cleaned_sensevoice(raw).contains('<'),
{
    let t = strip_tags(raw);
    lemma_scan_drops_openers(raw);
    lemma_word_scan_avoids(t, '<');
    let (done, cur) = word_scan(t);
    let ws = words(t);
    assert forall|k: int| 0 <= k < ws.len() implies !(#[trigger] ws[k]).contains('<') by {
        if cur.len() > 0 && k == done.len() {
            assert(ws[k] == cur);
        } else {
            assert(ws[k] == done[k]);
        }
    }
    reveal_strlit(" ");
    lemma_join_avoids(ws, " "@, '<');
}

/// Tag removal keeps a text with no tag opener `<` as it is.
proof fn lemma_scan_without_openers(s: Seq<char>)
    requires
        !s.contains('<'),
    ensures
        tag_scan(s) == (s, false),
    decreases s.len(),
{
    if s.len() > 0 {
        let t = s.drop_last();
        assert(!t.contains('<')) by {
            if t.contains('<') {
                let i = choose|i: int| 0 <= i < t.len() && t[i] == '<';
                assert(s[i] == '<');
            }
        }
        lemma_scan_without_openers(t);
        assert(s.last() == s[s.len() - 1]);
        assert(t.push(s.last()) =~= s);
    } else {
        assert(s =~= seq![]);
    }
}

/// Cleaning is a normal form: a cleaned text is already whitespace-normalised
/// (so cleaning it again changes nothing), and a text with no tag opener `<`
/// is only whitespace-normalised.
pub proof fn lemma_cleaned_normal_form(raw: Seq<char>)
    ensures
        normalized(cleaned_sensevoice(raw)) == cleaned_sensevoice(raw),
        cleaned_sensevoice(cleaned_sensevoice(raw)) == cleaned_sensevoice(raw),
        !raw.contains('<') ==> cleaned_sensevoice(raw) == normalized(raw),
{
    let c = cleaned_sensevoice(raw);
    assert(c == normalized(strip_tags(raw)));
    lemma_normalized_idempotent(strip_tags(raw));
    lemma_cleaned_has_no_tags(raw);
    lemma_scan_without_openers(c);
    if !raw.contains('<') {
        lemma_scan_without_openers(raw);
    }
}

} // verus!
