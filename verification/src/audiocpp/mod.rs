//! The audio.cpp sidecar (second TTS/ASR backend): engine location, server
//! configuration, instance bookkeeping, request shaping and error texts.
pub mod asr_families;
pub mod client;
pub mod families;
pub mod locator;
pub mod provider;
pub mod server;
pub mod server_config;

use vstd::prelude::*;
use vstd::string::*;

use crate::text::{concat2, concat3, decimal, decimal_string, join_strings, join_with, views};

verus! {

/// The error classes of the audio.cpp integration.
#[derive(Debug)]
pub enum AudiocppError {
    /// The engine binary was not found (with the paths searched).
    EngineNotFound { searched: Vec<String> },
    /// Starting the process failed.
    SpawnFailed(String),
    /// The engine exited right after starting (backend not built in, no GPU, ...).
    EngineExitedImmediately { backend: String, stderr_tail: String },
    /// The health check timed out.
    StartupTimeout { timeout_secs: u32, stderr_tail: String },
    /// `/v1/models` does not list the model.
    ModelNotListed { model_id: String },
    /// The server could not be reached.
    Connection(String),
    /// A non-2xx HTTP answer.
    HttpStatus { status: u16, body: String },
    /// The audio answer could not be decoded.
    DecodeWav(String),
    /// The audio upload could not be encoded.
    EncodeWav(String),
    /// The voice parameters do not suit the model family.
    UnsupportedVoice(String),
    /// The model family has no streaming synthesis.
    StreamingUnsupported(String),
    /// The server reported an error inside the event stream.
    StreamEvent(String),
}

/// The user-facing text of each error.
pub open spec fn user_message(e: AudiocppError) -> Seq<char> {
    match e {
        AudiocppError::EngineNotFound { searched } => "未找到 audiocpp_server 引擎（已搜索："@ + join_with(
            views(searched@),
            ", "@,
        )
            + "）。安装包应内置该引擎；开发模式请运行 scripts/fetch-audiocpp-dev.sh 或放置到 ~/.zapmomo/engines/。"@,
        AudiocppError::SpawnFailed(m) => "启动 audiocpp_server 失败: "@ + m@,
        AudiocppError::EngineExitedImmediately { backend, stderr_tail } => "audiocpp_server 以 "@ + backend@
            + " 后端启动后立即退出（常见原因：该后端未被引擎构建支持、无 NVIDIA GPU 或驱动过旧、引擎目录缺少 ggml 运行库 DLL）。引擎输出末尾：\n"@
            + stderr_tail@,
        AudiocppError::StartupTimeout { timeout_secs, stderr_tail } => "audiocpp_server 启动超时（"@ + decimal(
            timeout_secs as nat,
        ) + "s）。引擎输出末尾：\n"@ + stderr_tail@,
        AudiocppError::ModelNotListed { model_id } => "audiocpp_server 未加载模型 "@ + model_id@
            + "，请检查模型文件是否完整（在模型库重新下载，或运行 `zapmomo install-model`）。"@,
        AudiocppError::Connection(m) => "无法连接 audiocpp_server（引擎未启动或已退出）: "@ + m@,
        AudiocppError::HttpStatus { status, body } => "audiocpp_server 请求失败（HTTP "@ + decimal(
            status as nat,
        ) + "）: "@ + body@,
        AudiocppError::DecodeWav(m) => "解码合成音频失败: "@ + m@,
        AudiocppError::EncodeWav(m) => "编码上传音频失败: "@ + m@,
        AudiocppError::UnsupportedVoice(m) => m@,
        AudiocppError::StreamingUnsupported(m) => "该模型（"@ + m@ + "）不支持流式合成，请使用整段合成或更换模型。"@,
        AudiocppError::StreamEvent(m) => "流式合成被服务端中断: "@ + m@,
    }
}

impl AudiocppError {
    /// The user-facing (Chinese) text of the error.
    pub fn to_user_message(&self) -> (r: String)
        ensures
            r@ == user_message(*self),
    {
        match self {
            AudiocppError::EngineNotFound { searched } => {
                let list = join_strings(searched, ", ");
                concat3(
                    "未找到 audiocpp_server 引擎（已搜索：",
                    list.as_str(),
                    "）。安装包应内置该引擎；开发模式请运行 scripts/fetch-audiocpp-dev.sh 或放置到 ~/.zapmomo/engines/。",
                )
            },
            AudiocppError::SpawnFailed(m) => concat2("启动 audiocpp_server 失败: ", m.as_str()),
            AudiocppError::EngineExitedImmediately { backend, stderr_tail } => {
                let mut r = concat3(
                    "audiocpp_server 以 ",
                    backend.as_str(),
                    " 后端启动后立即退出（常见原因：该后端未被引擎构建支持、无 NVIDIA GPU 或驱动过旧、引擎目录缺少 ggml 运行库 DLL）。引擎输出末尾：\n",
                );
                r.append(stderr_tail.as_str());
                r
            },
            AudiocppError::StartupTimeout { timeout_secs, stderr_tail } => {
                let n = decimal_string(*timeout_secs as u64);
                let mut r = concat3("audiocpp_server 启动超时（", n.as_str(), "s）。引擎输出末尾：\n");
                r.append(stderr_tail.as_str());
                r
            },
            AudiocppError::ModelNotListed { model_id } => concat3(
                "audiocpp_server 未加载模型 ",
                model_id.as_str(),
                "，请检查模型文件是否完整（在模型库重新下载，或运行 `zapmomo install-model`）。",
            ),
            AudiocppError::Connection(m) => concat2(
                "无法连接 audiocpp_server（引擎未启动或已退出）: ",
                m.as_str(),
            ),
            AudiocppError::HttpStatus { status, body } => {
                let n = decimal_string(*status as u64);
                let mut r = concat3("audiocpp_server 请求失败（HTTP ", n.as_str(), "）: ");
                r.append(body.as_str());
                r
            },
            AudiocppError::DecodeWav(m) => concat2("解码合成音频失败: ", m.as_str()),
            AudiocppError::EncodeWav(m) => concat2("编码上传音频失败: ", m.as_str()),
            AudiocppError::UnsupportedVoice(m) => m.clone(),
            AudiocppError::StreamingUnsupported(m) => concat3(
                "该模型（",
                m.as_str(),
                "）不支持流式合成，请使用整段合成或更换模型。",
            ),
            AudiocppError::StreamEvent(m) => concat2("流式合成被服务端中断: ", m.as_str()),
        }
    }
}

impl From<AudiocppError> for String {
    /// An error becomes its user-facing text.
    fn from(e: AudiocppError) -> (r: String)
        ensures
            r@ == user_message(e),
    {
        e.to_user_message()
    }
}

impl vstd::std_specs::convert::FromSpecImpl<AudiocppError> for String {
    /// A `String` is fixed only up to its text, which `from` states above;
    /// no `String` value is claimed.
    open spec fn obeys_from_spec() -> bool {
        false
    }

    open spec fn from_spec(e: AudiocppError) -> String {
        arbitrary()
    }
}

} // verus!

