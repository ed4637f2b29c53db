//! Decisions of the first-run model downloader.
//!
//! The downloader fetches the text-to-speech, speech-recognition and
//! translation models from ModelScope or Hugging Face. The network and disk
//! work is done by its caller; this module decides which providers to use and
//! in what order, which URLs to fetch, which files a model needs, what to do
//! with a model directory found on disk, how to react to a download response,
//! when to fall back to the next provider, and what each failure says.
use vstd::prelude::*;
use crate::text::{
    all_ws,
    opt_text,
    chars_of,
    ascii_lower,
    concat2,
    concat3,
    debug_quoted,
    debug_text,
    is_blank,
    join,
    join_texts,
    lemma_all_ws_trims_to_empty,
    owned,
    same_text,
    string_texts,
    strip_end,
    strip_end_char,
    texts,
    to_ascii_lowercase,
    trim,
    trim_text,
};

verus! {

/// Download size of the CustomVoice text-to-speech model, in bytes.
pub const BYTES_TTS_CUSTOM: u64 = 5_473_562_624;

/// Download size of the base text-to-speech model, in bytes.
pub const BYTES_TTS_BASE: u64 = 3_104_284_672;

/// Download size of the translation model, in bytes.
pub const BYTES_TRANSLATOR: u64 = 1_749_164_032;

/// Download size of the speech-recognition model, in bytes.
pub const BYTES_ASR: u64 = 2_473_308_160;

/// Download size of all four models, in bytes.
pub const TOTAL_BYTES: u64 = BYTES_TTS_CUSTOM + BYTES_TTS_BASE + BYTES_TRANSLATOR + BYTES_ASR;

/// Name of the file that marks a model directory as completely downloaded.
pub const MODEL_COMPLETION_MARKER: &'static str = ".moxin-model-complete.json";

/// Version written into completion markers.
pub const BOOTSTRAP_VERSION: u32 = 1;

pub const DEFAULT_HF_ENDPOINT: &'static str = "https://huggingface.co";

pub const DEFAULT_MODELSCOPE_ENDPOINT: &'static str = "https://modelscope.cn";

/// The `User-Agent` of every request the downloader sends.
pub const HTTP_USER_AGENT: &'static str = "MoxinVoice/moxin-init";

/// The repository and file fetched to probe whether a provider is reachable.
pub const PROVIDER_PROBE_REPO: &'static str = "mlx-community/Qwen3-TTS-12Hz-1.7B-CustomVoice-8bit";

pub const PROVIDER_PROBE_FILE: &'static str = "config.json";

/// Default repository of the CustomVoice text-to-speech model.
pub const DEFAULT_TTS_CUSTOMVOICE_REPO: &'static str = "mlx-community/Qwen3-TTS-12Hz-1.7B-CustomVoice-8bit";

/// Default repository of the base text-to-speech model.
pub const DEFAULT_TTS_BASE_REPO: &'static str = "mlx-community/Qwen3-TTS-12Hz-1.7B-Base-8bit";

/// Default repository of the speech-recognition model.
pub const DEFAULT_ASR_REPO: &'static str = "mlx-community/Qwen3-ASR-1.7B-8bit";

/// Default repository of the translation model.
pub const DEFAULT_TRANSLATOR_REPO: &'static str = "mlx-community/Qwen3.5-2B-MLX-4bit";

// ── Providers ────────────────────────────────────────────────────────────────

#[derive(Debug, Clone, Copy, PartialEq, Eq, Structural)]
pub enum ModelProvider {
    Auto,
    HuggingFace,
    ModelScope,
}

/// Why the downloader gives up.
#[derive(Debug, Clone, PartialEq, Eq)]
pub enum InitError {
    /// `MOXIN_MODEL_PROVIDER` names no provider; holds the normalized value.
    UnsupportedProvider(String),
    /// Neither provider answered the probe.
    NoReachableProvider,
    /// ModelScope has no file list built in for this repository.
    NoManifest(String),
    /// An operation was started with no provider to run it with.
    NoProviders(String),
    /// An operation failed with every provider; holds the operation and one
    /// `provider: reason` line per provider, in the order they were tried.
    AllProvidersFailed(String, Vec<String>),
}

/// The text reported for an unsupported provider value.
pub open spec fn unsupported_provider_text(v: Seq<char>) -> Seq<char> {
    "unsupported MOXIN_MODEL_PROVIDER="@ + debug_text(v) + "; expected auto, modelscope, or huggingface"@
}

/// The text of an error, as the downloader reports it.
pub open spec fn error_text(e: InitError) -> Seq<char> {
    match e {
        InitError::UnsupportedProvider(v) => unsupported_provider_text(v@),
        InitError::NoReachableProvider => "could not reach ModelScope or Hugging Face model endpoints"@,
        InitError::NoManifest(repo_id) => "no built-in ModelScope manifest for "@ + repo_id@,
        InitError::NoProviders(operation) => "no model download providers configured for "@
            + operation@,
        InitError::AllProvidersFailed(operation, failures) => operation@
            + " failed using all reachable providers: "@ + join(string_texts(failures@), " | "@),
    }
}

/// The message for an unsupported provider value.
fn unsupported_provider_message(value: &str) -> (r: String)
    ensures
        r@ == unsupported_provider_text(value@),
{
    let quoted = debug_quoted(value);
    concat3(
        "unsupported MOXIN_MODEL_PROVIDER=",
        quoted.as_str(),
        "; expected auto, modelscope, or huggingface",
    )
}

impl InitError {
    /// The text of the error.
    pub fn message(&self) -> (r: String)
        ensures
            r@ == error_text(*self),
    {
        match self {
            InitError::UnsupportedProvider(value) => unsupported_provider_message(value.as_str()),
            InitError::NoReachableProvider => owned(
                "could not reach ModelScope or Hugging Face model endpoints",
            ),
            InitError::NoManifest(repo_id) => concat2("no built-in ModelScope manifest for ", repo_id.as_str()),
            InitError::NoProviders(operation) => concat2("no model download providers configured for ", operation.as_str()),
            InitError::AllProvidersFailed(operation, failures) => {
                let joined = join_texts(failures, " | ");
                concat3(
                    operation.as_str(),
                    " failed using all reachable providers: ",
                    joined.as_str(),
                )
            },
        }
    }
}

/// The provider value after normalizing: trimmed and ASCII-lowercased, absent as empty.
pub open spec fn normalized_provider_value(value: Option<Seq<char>>) -> Seq<char> {
    match value {
        Some(v) => ascii_lower(trim(v)),
        None => Seq::empty(),
    }
}

/// The provider a normalized value names, if any.
pub open spec fn provider_named(n: Seq<char>) -> Option<ModelProvider> {
    if n == ""@ || n == "auto"@ {
        Some(ModelProvider::Auto)
    } else if n == "modelscope"@ || n == "ms"@ {
        Some(ModelProvider::ModelScope)
    } else if n == "huggingface"@ || n == "hf"@ {
        Some(ModelProvider::HuggingFace)
    } else {
        None
    }
}

impl ModelProvider {
    /// The provider that `MOXIN_MODEL_PROVIDER` asks for. Case and surrounding
    /// whitespace do not matter; an absent or empty value means `Auto`.
    pub fn from_env_value(value: Option<&str>) -> (r: Result<ModelProvider, InitError>)
        ensures
            ({
                let n = normalized_provider_value(
                    match value {
                        Some(v) => Some(v@),
                        None => None,
                    },
                );
                match provider_named(n) {
                    Some(p) => r == Ok::<ModelProvider, InitError>(p),
                    None => r matches Err(InitError::UnsupportedProvider(v)) && v@ == n,
                }
            }),
    {
        let raw = match value {
            Some(v) => v,
            None => "",
        };
        proof {
            if value is None {
                reveal_strlit("");
                assert(ascii_lower(trim(""@)) =~= Seq::<char>::empty());
            }
        }
        let normalized = to_ascii_lowercase(trim_text(raw));
        let n = normalized.as_str();
        if same_text(n, "") || same_text(n, "auto") {
            Ok(ModelProvider::Auto)
        } else if same_text(n, "modelscope") || same_text(n, "ms") {
            Ok(ModelProvider::ModelScope)
        } else if same_text(n, "huggingface") || same_text(n, "hf") {
            Ok(ModelProvider::HuggingFace)
        } else {
            Err(InitError::UnsupportedProvider(normalized))
        }
    }
}

/// An absent, empty or blank provider value means `Auto`.
pub proof fn lemma_blank_provider_value_is_auto(value: Option<Seq<char>>)
    requires
        value matches Some(v) ==> all_ws(v),
    ensures
        provider_named(normalized_provider_value(value)) == Some(ModelProvider::Auto),
{
    reveal_strlit("");
    if let Some(v) = value {
        lemma_all_ws_trims_to_empty(v);
        assert(ascii_lower(trim(v)) =~= ""@);
    } else {
        assert(Seq::<char>::empty() =~= ""@);
    }
}

/// The name a provider goes by in messages.
pub open spec fn provider_name(kind: ModelProvider) -> Seq<char> {
    match kind {
        ModelProvider::Auto => "auto"@,
        ModelProvider::HuggingFace => "huggingface"@,
        ModelProvider::ModelScope => "modelscope"@,
    }
}

/// An endpoint as the downloader uses it: trimmed, with no trailing `/`.
pub open spec fn normalized_endpoint(endpoint: Seq<char>) -> Seq<char> {
    strip_end(trim(endpoint), '/')
}

/// The plain content of a download provider.
pub struct ProviderModel {
    pub kind: ModelProvider,
    pub endpoint: Seq<char>,
}

/// The URL of a file of a model repository at a provider.
pub open spec fn repo_file_url_model(p: ProviderModel, repo_id: Seq<char>, filename: Seq<char>) -> Seq<
    char,
> {
    match p.kind {
        ModelProvider::ModelScope => p.endpoint + "/models/"@ + repo_id + "/resolve/master/"@
            + filename,
        _ => p.endpoint + "/"@ + repo_id + "/resolve/main/"@ + filename,
    }
}

/// A provider that a download can go through: Hugging Face or ModelScope at
/// a normalized endpoint, never `Auto`.
#[derive(Debug)]
pub struct DownloadProvider {
    kind: ModelProvider,
    endpoint: String,
}

impl View for DownloadProvider {
    type V = ProviderModel;

    closed spec fn view(&self) -> ProviderModel {
        ProviderModel { kind: self.kind, endpoint: self.endpoint@ }
    }
}

impl Clone for DownloadProvider {
    fn clone(&self) -> (r: Self)
        ensures
            r@ == self@,
    {
        proof {
            use_type_invariant(self);
        }
        DownloadProvider { kind: self.kind, endpoint: self.endpoint.clone() }
    }
}

impl DownloadProvider {
    #[verifier::type_invariant]
    spec fn resolved(self) -> bool {
        self.kind != ModelProvider::Auto
    }

    /// Hugging Face at the given endpoint.
    pub fn huggingface(endpoint: String) -> (r: Self)
        ensures
            r@ == (ProviderModel {
                kind: ModelProvider::HuggingFace,
                endpoint: normalized_endpoint(endpoint@),
            }),
    {
        DownloadProvider {
            kind: ModelProvider::HuggingFace,
            endpoint: normalize_endpoint(endpoint.as_str()),
        }
    }

    /// ModelScope at the given endpoint.
    pub fn modelscope(endpoint: String) -> (r: Self)
        ensures
            r@ == (ProviderModel {
                kind: ModelProvider::ModelScope,
                endpoint: normalized_endpoint(endpoint@),
            }),
    {
        DownloadProvider {
            kind: ModelProvider::ModelScope,
            endpoint: normalize_endpoint(endpoint.as_str()),
        }
    }

    pub fn kind(&self) -> (r: ModelProvider)
        ensures
            r == self@.kind,
            r != ModelProvider::Auto,
    {
        proof {
            use_type_invariant(self);
        }
        self.kind
    }

    pub fn endpoint(&self) -> (r: &str)
        ensures
            r@ == self@.endpoint,
    {
        self.endpoint.as_str()
    }

    pub fn name(&self) -> (r: &'static str)
        ensures
            r@ == provider_name(self@.kind),
    {
        match self.kind {
            ModelProvider::Auto => "auto",
            ModelProvider::HuggingFace => "huggingface",
            ModelProvider::ModelScope => "modelscope",
        }
    }

    /// The URL of `filename` in the repository `repo_id`.
    pub fn repo_file_url(&self, repo_id: &str, filename: &str) -> (r: String)
        ensures
            r@ == repo_file_url_model(self@, repo_id@, filename@),
    {
        proof {
            use_type_invariant(self);
        }
        let mut url = self.endpoint.clone();
        match self.kind {
            ModelProvider::ModelScope => {
                url.append("/models/");
                url.append(repo_id);
                url.append("/resolve/master/");
            },
            _ => {
                url.append("/");
                url.append(repo_id);
                url.append("/resolve/main/");
            },
        }
        url.append(filename);
        url
    }

    /// The Hugging Face API URL that lists the files of `repo_id`.
    pub fn huggingface_repo_info_url(&self, repo_id: &str) -> (r: String)
        ensures
            r@ == self@.endpoint + "/api/models/"@ + repo_id@,
    {
        let mut url = self.endpoint.clone();
        url.append("/api/models/");
        url.append(repo_id);
        url
    }

    /// How to learn the files of `repo_id` through this provider: Hugging Face
    /// lists them at a URL, ModelScope has them built in.
    pub fn file_listing(&self, repo_id: &str) -> (r: Result<RepoListing, InitError>)
        ensures
            self@.kind == ModelProvider::HuggingFace ==> (r matches Ok(RepoListing::RemoteIndex(url))
                && url@ == self@.endpoint + "/api/models/"@ + repo_id@),
            self@.kind == ModelProvider::ModelScope ==> match manifest_files(repo_id@) {
                Some(files) => r matches Ok(RepoListing::Manifest(v)) && texts(v@) == files,
                None => r matches Err(InitError::NoManifest(id)) && id@ == repo_id@,
            },
    {
        proof {
            use_type_invariant(self);
        }
        match self.kind {
            ModelProvider::ModelScope => match modelscope_manifest_files(repo_id) {
                Ok(files) => Ok(RepoListing::Manifest(files)),
                Err(e) => Err(e),
            },
            _ => Ok(RepoListing::RemoteIndex(self.huggingface_repo_info_url(repo_id))),
        }
    }
}

/// Where the list of a repository's files comes from.
#[derive(Debug, Clone, PartialEq, Eq)]
pub enum RepoListing {
    /// Fetch this URL and read the file names from its `siblings`.
    RemoteIndex(String),
    /// These files, known in advance.
    Manifest(Vec<&'static str>),
}

/// An endpoint trimmed of surrounding whitespace and of trailing `/`.
pub fn normalize_endpoint(endpoint: &str) -> (r: String)
    ensures
        r@ == normalized_endpoint(endpoint@),
{
    owned(strip_end_char(trim_text(endpoint), '/'))
}

/// The endpoint to use given the value of its environment variable: the value
/// as it is unless it is absent or blank, else the default.
pub fn endpoint_from_env_value(value: Option<&str>, default: &str) -> (r: String)
    ensures
        r@ == match value {
            Some(v) => if trim(v@).len() == 0 {
                default@
            } else {
                v@
            },
            None => default@,
        },
{
    match value {
        Some(v) => if is_blank(v) {
            owned(default)
        } else {
            owned(v)
        },
        None => owned(default),
    }
}

/// The provider of the given kind among the two configured ones.
pub fn provider_for_kind(
    kind: ModelProvider,
    modelscope: &DownloadProvider,
    huggingface: &DownloadProvider,
) -> (r: DownloadProvider)
    requires
        kind != ModelProvider::Auto,
    ensures
        r@ == if kind == ModelProvider::ModelScope {
            modelscope@
        } else {
            huggingface@
        },
{
    match kind {
        ModelProvider::ModelScope => modelscope.clone(),
        _ => huggingface.clone(),
    }
}

/// The order in which to try the providers that answered the probe:
/// ModelScope first, Hugging Face as the fallback.
pub open spec fn auto_order_model(modelscope_reachable: bool, huggingface_reachable: bool) -> Seq<
    ModelProvider,
> {
    if modelscope_reachable && huggingface_reachable {
        seq![ModelProvider::ModelScope, ModelProvider::HuggingFace]
    } else if modelscope_reachable {
        seq![ModelProvider::ModelScope]
    } else if huggingface_reachable {
        seq![ModelProvider::HuggingFace]
    } else {
        Seq::empty()
    }
}

/// The providers to try, in order, when the preference is `Auto`; an error
/// when neither is reachable.
pub fn auto_provider_order(modelscope_reachable: bool, huggingface_reachable: bool) -> (r: Result<
    Vec<ModelProvider>,
    InitError,
>)
    ensures
        match r {
            Ok(order) => order@ == auto_order_model(modelscope_reachable, huggingface_reachable)
                && order@.len() > 0,
            Err(e) => e == InitError::NoReachableProvider && !modelscope_reachable
                && !huggingface_reachable,
        },
        r is Err <==> (!modelscope_reachable && !huggingface_reachable),
{
    if modelscope_reachable && huggingface_reachable {
        let r = vec![ModelProvider::ModelScope, ModelProvider::HuggingFace];
        assert(r@ =~= auto_order_model(modelscope_reachable, huggingface_reachable));
        Ok(r)
    } else if modelscope_reachable {
        let r = vec![ModelProvider::ModelScope];
        assert(r@ =~= auto_order_model(modelscope_reachable, huggingface_reachable));
        Ok(r)
    } else if huggingface_reachable {
        let r = vec![ModelProvider::HuggingFace];
        assert(r@ =~= auto_order_model(modelscope_reachable, huggingface_reachable));
        Ok(r)
    } else {
        Err(InitError::NoReachableProvider)
    }
}

/// The providers to download through, in order, for the preference given by
/// `MOXIN_MODEL_PROVIDER`. Reachability only matters for `Auto`: a forced
/// provider is used whether or not it answered.
pub fn resolve_providers(
    preference: ModelProvider,
    modelscope: &DownloadProvider,
    huggingface: &DownloadProvider,
    modelscope_reachable: bool,
    huggingface_reachable: bool,
) -> (r: Result<Vec<DownloadProvider>, InitError>)
    ensures
        preference == ModelProvider::HuggingFace ==> (r matches Ok(v) && v@.len() == 1 && v@[0]@
            == huggingface@),
        preference == ModelProvider::ModelScope ==> (r matches Ok(v) && v@.len() == 1 && v@[0]@
            == modelscope@),
        preference == ModelProvider::Auto ==> match r {
            Ok(v) => {
                let order = auto_order_model(modelscope_reachable, huggingface_reachable);
                &&& v@.len() == order.len()
                &&& order.len() > 0
                &&& forall|i: int|
                    0 <= i < v@.len() ==> (#[trigger] v@[i])@ == if order[i]
                        == ModelProvider::ModelScope {
                        modelscope@
                    } else {
                        huggingface@
                    }
            },
            Err(e) => e == InitError::NoReachableProvider && !modelscope_reachable
                && !huggingface_reachable,
        },
{
    match preference {
        ModelProvider::HuggingFace => {
            let mut v = Vec::new();
            v.push(huggingface.clone());
            Ok(v)
        },
        ModelProvider::ModelScope => {
            let mut v = Vec::new();
            v.push(modelscope.clone());
            Ok(v)
        },
        ModelProvider::Auto => {
            let order = match auto_provider_order(modelscope_reachable, huggingface_reachable) {
                Ok(order) => order,
                Err(e) => return Err(e),
            };
            let ghost model = auto_order_model(modelscope_reachable, huggingface_reachable);
            let mut v: Vec<DownloadProvider> = Vec::new();
            let mut i: usize = 0;
            while i < order.len()
                invariant
                    i <= order@.len(),
                    order@ == model,
                    model == auto_order_model(modelscope_reachable, huggingface_reachable),
                    v@.len() == i,
                    forall|j: int| 0 <= j < i ==> #[trigger] model[j] != ModelProvider::Auto,
                    forall|j: int|
                        0 <= j < i ==> (#[trigger] v@[j])@ == if model[j]
                            == ModelProvider::ModelScope {
                            modelscope@
                        } else {
                            huggingface@
                        },
                decreases order@.len() - i,
            {
                assert(model[i as int] != ModelProvider::Auto);
                v.push(provider_for_kind(order[i], modelscope, huggingface));
                i = i + 1;
            }
            Ok(v)
        },
    }
}

// ── Model files ──────────────────────────────────────────────────────────────

/// The files of a text-to-speech model repository.
pub open spec fn tts_files_model() -> Seq<Seq<char>> {
    seq![
        ".gitattributes"@,
        "README.md"@,
        "config.json"@,
        "generation_config.json"@,
        "merges.txt"@,
        "model.safetensors"@,
        "model.safetensors.index.json"@,
        "preprocessor_config.json"@,
        "speech_tokenizer/config.json"@,
        "speech_tokenizer/configuration.json"@,
        "speech_tokenizer/model.safetensors"@,
        "speech_tokenizer/preprocessor_config.json"@,
        "tokenizer_config.json"@,
        "vocab.json"@,
    ]
}

/// The files of the speech-recognition model repository.
pub open spec fn asr_files_model() -> Seq<Seq<char>> {
    seq![
        ".gitattributes"@,
        "README.md"@,
        "chat_template.json"@,
        "config.json"@,
        "generation_config.json"@,
        "merges.txt"@,
        "model.safetensors"@,
        "model.safetensors.index.json"@,
        "preprocessor_config.json"@,
        "tokenizer_config.json"@,
        "vocab.json"@,
    ]
}

/// The files of the translation model repository.
pub open spec fn translator_files_model() -> Seq<Seq<char>> {
    seq![
        ".gitattributes"@,
        "README.md"@,
        "chat_template.jinja"@,
        "config.json"@,
        "model.safetensors"@,
        "model.safetensors.index.json"@,
        "preprocessor_config.json"@,
        "processor_config.json"@,
        "tokenizer.json"@,
        "tokenizer_config.json"@,
        "video_preprocessor_config.json"@,
        "vocab.json"@,
    ]
}

/// The built-in ModelScope file list of a repository, if it has one.
pub open spec fn manifest_files(repo_id: Seq<char>) -> Option<Seq<Seq<char>>> {
    if repo_id == "mlx-community/Qwen3-TTS-12Hz-1.7B-CustomVoice-8bit"@ || repo_id
        == "mlx-community/Qwen3-TTS-12Hz-1.7B-Base-8bit"@ {
        Some(tts_files_model())
    } else if repo_id == "mlx-community/Qwen3-ASR-1.7B-8bit"@ {
        Some(asr_files_model())
    } else if repo_id == "mlx-community/Qwen3.5-2B-MLX-4bit"@ {
        Some(translator_files_model())
    } else {
        None
    }
}

fn tts_model_files() -> (r: Vec<&'static str>)
    ensures
        texts(r@) == tts_files_model(),
{
    let r = vec![
        ".gitattributes",
        "README.md",
        "config.json",
        "generation_config.json",
        "merges.txt",
        "model.safetensors",
        "model.safetensors.index.json",
        "preprocessor_config.json",
        "speech_tokenizer/config.json",
        "speech_tokenizer/configuration.json",
        "speech_tokenizer/model.safetensors",
        "speech_tokenizer/preprocessor_config.json",
        "tokenizer_config.json",
        "vocab.json",
    ];
    assert(texts(r@) =~= tts_files_model());
    r
}

fn asr_model_files() -> (r: Vec<&'static str>)
    ensures
        texts(r@) == asr_files_model(),
{
    let r = vec![
        ".gitattributes",
        "README.md",
        "chat_template.json",
        "config.json",
        "generation_config.json",
        "merges.txt",
        "model.safetensors",
        "model.safetensors.index.json",
        "preprocessor_config.json",
        "tokenizer_config.json",
        "vocab.json",
    ];
    assert(texts(r@) =~= asr_files_model());
    r
}

fn translator_model_files() -> (r: Vec<&'static str>)
    ensures
        texts(r@) == translator_files_model(),
{
    let r = vec![
        ".gitattributes",
        "README.md",
        "chat_template.jinja",
        "config.json",
        "model.safetensors",
        "model.safetensors.index.json",
        "preprocessor_config.json",
        "processor_config.json",
        "tokenizer.json",
        "tokenizer_config.json",
        "video_preprocessor_config.json",
        "vocab.json",
    ];
    assert(texts(r@) =~= translator_files_model());
    r
}

/// The fixed file list that ModelScope downloads of `repo_id`.
pub fn modelscope_manifest_files(repo_id: &str) -> (r: Result<Vec<&'static str>, InitError>)
    ensures
        match manifest_files(repo_id@) {
            Some(files) => r matches Ok(v) && texts(v@) == files,
            None => r matches Err(InitError::NoManifest(id)) && id@ == repo_id@,
        },
{
    if same_text(repo_id, "mlx-community/Qwen3-TTS-12Hz-1.7B-CustomVoice-8bit") || same_text(
        repo_id,
        "mlx-community/Qwen3-TTS-12Hz-1.7B-Base-8bit",
    ) {
        Ok(tts_model_files())
    } else if same_text(repo_id, "mlx-community/Qwen3-ASR-1.7B-8bit") {
        Ok(asr_model_files())
    } else if same_text(repo_id, "mlx-community/Qwen3.5-2B-MLX-4bit") {
        Ok(translator_model_files())
    } else {
        Err(InitError::NoManifest(owned(repo_id)))
    }
}

// ── Model directories ────────────────────────────────────────────────────────

/// The models the downloader fetches, by how their directories are checked.
#[derive(Debug, Clone, Copy, PartialEq, Eq, Structural)]
pub enum ModelKind {
    /// A Qwen3 text-to-speech model (CustomVoice or Base).
    TextToSpeech,
    /// The Qwen3 speech-recognition model.
    SpeechRecognition,
    /// The Qwen3.5 translation model.
    Translator,
}

/// The files a complete model directory holds: every group must have at
/// least one of its files present.
pub open spec fn requirements_model(kind: ModelKind) -> Seq<Seq<Seq<char>>> {
    match kind {
        ModelKind::TextToSpeech => seq![
            seq!["config.json"@],
            seq!["generation_config.json"@],
            seq!["vocab.json"@],
            seq!["merges.txt"@],
            seq!["model.safetensors"@, "model.safetensors.index.json"@],
            seq!["speech_tokenizer/config.json"@],
            seq!["speech_tokenizer/model.safetensors"@],
        ],
        ModelKind::SpeechRecognition => seq![seq!["config.json"@]],
        ModelKind::Translator => seq![
            seq!["config.json"@],
            seq!["tokenizer.json"@],
            seq!["tokenizer_config.json"@],
            seq!["model.safetensors"@, "model.safetensors.index.json"@],
        ],
    }
}

/// The files a complete model directory of the given kind holds, as groups of
/// alternatives: a directory is ready when each group has a file present.
pub fn ready_requirements(kind: ModelKind) -> (r: Vec<Vec<&'static str>>)
    ensures
        r@.len() == requirements_model(kind).len(),
        forall|i: int| 0 <= i < r@.len() ==> texts((#[trigger] r@[i])@) == requirements_model(kind)[i],
{
    let r = match kind {
        ModelKind::TextToSpeech => vec![
            vec!["config.json"],
            vec!["generation_config.json"],
            vec!["vocab.json"],
            vec!["merges.txt"],
            vec!["model.safetensors", "model.safetensors.index.json"],
            vec!["speech_tokenizer/config.json"],
            vec!["speech_tokenizer/model.safetensors"],
        ],
        ModelKind::SpeechRecognition => vec![vec!["config.json"]],
        ModelKind::Translator => vec![
            vec!["config.json"],
            vec!["tokenizer.json"],
            vec!["tokenizer_config.json"],
            vec!["model.safetensors", "model.safetensors.index.json"],
        ],
    };
    assert forall|i: int| 0 <= i < r@.len() implies texts((#[trigger] r@[i])@) == requirements_model(kind)[i] by {
        assert(texts(r@[i]@) =~= requirements_model(kind)[i]);
    }
    r
}

/// Whether a group of alternatives has one of its files present.
pub open spec fn group_met(present: Seq<bool>) -> bool {
    exists|j: int| 0 <= j < present.len() && present[j]
}

/// Whether every group of requirements has at least one file present;
/// `present[i][j]` tells whether the `j`-th file of the `i`-th group exists.
pub fn requirements_met(present: &Vec<Vec<bool>>) -> (r: bool)
    ensures
        r == forall|i: int| 0 <= i < present@.len() ==> group_met(#[trigger] present@[i]@),
{
    let mut i: usize = 0;
    while i < present.len()
        invariant
            i <= present@.len(),
            forall|k: int| 0 <= k < i ==> group_met(#[trigger] present@[k]@),
        decreases present@.len() - i,
    {
        let group = &present[i];
        let mut any = false;
        let mut j: usize = 0;
        while j < group.len()
            invariant
                i < present@.len(),
                j <= group@.len(),
                group@ == present@[i as int]@,
                any ==> group_met(group@),
                !any ==> forall|m: int| 0 <= m < j ==> !group@[m],
            decreases group@.len() - j,
        {
            if group[j] {
                any = true;
            }
            j = j + 1;
        }
        if !any {
            assert(!group_met(present@[i as int]@));
            return false;
        }
        i = i + 1;
    }
    true
}

/// What to do with a model directory found on disk before downloading.
#[derive(Debug, Clone, Copy, PartialEq, Eq, Structural)]
pub enum ModelDirAction {
    /// Complete and marked: nothing to do.
    Ready,
    /// Complete but unmarked (an older download): write the marker, then it is ready.
    WriteMarker,
    /// Marked but incomplete: remove the directory if it exists and download again.
    ClearIncomplete,
    /// Present without a valid marker and incomplete: remove it and download again.
    RemoveUnmarked,
    /// Nothing there: download.
    Missing,
}

/// The action for a model directory, given whether its files are all there,
/// whether it carries a valid completion marker, and whether it exists.
pub open spec fn model_dir_action_model(files_ready: bool, marker_valid: bool, dir_exists: bool) -> ModelDirAction {
    if files_ready {
        if marker_valid {
            ModelDirAction::Ready
        } else {
            ModelDirAction::WriteMarker
        }
    } else if marker_valid {
        ModelDirAction::ClearIncomplete
    } else if dir_exists {
        ModelDirAction::RemoveUnmarked
    } else {
        ModelDirAction::Missing
    }
}

/// What to do with a model directory before downloading: a model counts as
/// ready exactly when its files are all there, and an incomplete directory is
/// never kept.
pub fn model_dir_action(files_ready: bool, marker_valid: bool, dir_exists: bool) -> (r: ModelDirAction)
    ensures
        r == model_dir_action_model(files_ready, marker_valid, dir_exists),
        r.is_ready() == files_ready,
{
    if files_ready {
        if marker_valid {
            ModelDirAction::Ready
        } else {
            ModelDirAction::WriteMarker
        }
    } else if marker_valid {
        ModelDirAction::ClearIncomplete
    } else if dir_exists {
        ModelDirAction::RemoveUnmarked
    } else {
        ModelDirAction::Missing
    }
}

impl ModelDirAction {
    /// Whether the model is ready once the action is done.
    pub open spec fn is_ready(self) -> bool {
        self == ModelDirAction::Ready || self == ModelDirAction::WriteMarker
    }

    /// Whether the model is ready once the action is done.
    pub fn ready(&self) -> (r: bool)
        ensures
            r == self.is_ready(),
    {
        match self {
            ModelDirAction::Ready | ModelDirAction::WriteMarker => true,
            _ => false,
        }
    }
}

/// The content of a completion marker file.
#[derive(Debug, Clone, PartialEq, Eq)]
pub struct ModelCompletionMarker {
    pub repo_id: String,
    pub bootstrap_version: u32,
}

impl ModelCompletionMarker {
    /// The marker written after `repo_id` has been downloaded completely.
    pub fn for_repo(repo_id: &str) -> (r: Self)
        ensures
            r.repo_id@ == repo_id@,
            r.bootstrap_version == BOOTSTRAP_VERSION,
    {
        ModelCompletionMarker { repo_id: owned(repo_id), bootstrap_version: BOOTSTRAP_VERSION }
    }
}

/// Whether a marker read from a model directory (none when it is missing or
/// unreadable) vouches for `repo_id`. Only the repository counts, not the version.
pub fn completion_marker_valid(marker: Option<&ModelCompletionMarker>, repo_id: &str) -> (r: bool)
    ensures
        r == (marker matches Some(m) && m.repo_id@ == repo_id@),
{
    match marker {
        Some(m) => same_text(m.repo_id.as_str(), repo_id),
        None => false,
    }
}

/// How many bytes count as downloaded before any download starts, given which
/// models are already ready.
pub fn initial_bytes_done(custom_ready: bool, base_ready: bool, translator_ready: bool, asr_ready: bool) -> (r: u64)
    ensures
        r == (if custom_ready { BYTES_TTS_CUSTOM } else { 0 }) + (if base_ready { BYTES_TTS_BASE } else { 0 })
            + (if translator_ready { BYTES_TRANSLATOR } else { 0 }) + (if asr_ready { BYTES_ASR } else { 0 }),
        r <= TOTAL_BYTES,
{
    let mut bytes: u64 = 0;
    if custom_ready {
        bytes = bytes + BYTES_TTS_CUSTOM;
    }
    if base_ready {
        bytes = bytes + BYTES_TTS_BASE;
    }
    if translator_ready {
        bytes = bytes + BYTES_TRANSLATOR;
    }
    if asr_ready {
        bytes = bytes + BYTES_ASR;
    }
    bytes
}

// ── Downloads ────────────────────────────────────────────────────────────────

/// The part of `s` after its last `c` (all of `s` when it has no `c`).
pub open spec fn after_last(s: Seq<char>, c: char) -> Seq<char>
    decreases s.len(),
{
    if s.len() == 0 {
        s
    } else if s.last() == c {
        Seq::empty()
    } else {
        after_last(s.drop_last(), c).push(s.last())
    }
}

/// The short name of a repository: the part after its last `/`.
pub fn short_repo_name(repo_id: &str) -> (r: &str)
    ensures
        r@ == after_last(repo_id@, '/'),
{
    let chars = chars_of(repo_id);
    let n = chars.len();
    let mut b: usize = n;
    assert(chars@.subrange(0, n as int) =~= chars@);
    assert(chars@.subrange(n as int, n as int) =~= Seq::<char>::empty());
    assert(after_last(chars@, '/') + Seq::<char>::empty() =~= after_last(chars@, '/'));
    while b > 0 && chars[b - 1] != '/'
        invariant
            b <= n == chars@.len(),
            after_last(chars@, '/') == after_last(chars@.subrange(0, b as int), '/') + chars@.subrange(
                b as int,
                n as int,
            ),
        decreases b,
    {
        proof {
            let pre = chars@.subrange(0, b as int);
            assert(pre.drop_last() =~= chars@.subrange(0, b - 1));
            assert(pre.last() == chars@[b - 1]);
            assert(chars@.subrange(b - 1, n as int) =~= seq![chars@[b - 1]] + chars@.subrange(
                b as int,
                n as int,
            ));
            assert(after_last(chars@.subrange(0, b - 1), '/').push(chars@[b - 1]) + chars@.subrange(
                b as int,
                n as int,
            ) =~= after_last(chars@.subrange(0, b - 1), '/') + chars@.subrange(b - 1, n as int));
        }
        b = b - 1;
    }
    proof {
        let pre = chars@.subrange(0, b as int);
        if b > 0 {
            assert(pre.last() == chars@[b - 1]);
        }
        assert(after_last(pre, '/') + chars@.subrange(b as int, n as int) =~= chars@.subrange(
            b as int,
            n as int,
        ));
    }
    repo_id.substring_char(b, n)
}

/// How to handle the response to a (possibly resumed) file download.
#[derive(Debug, Clone, Copy, PartialEq, Eq, Structural)]
pub enum ResponsePlan {
    /// `416 Range Not Satisfiable`: the file is already complete; nothing written.
    AlreadyComplete,
    /// `206 Partial Content`: append the body to the partial file.
    Append,
    /// Another success: write the body as the whole file.
    Overwrite,
    /// Any other status: the download fails.
    Fail,
}

/// The plan for a response with the given HTTP status code.
pub open spec fn response_plan_model(status: u16) -> ResponsePlan {
    if status == 416 {
        ResponsePlan::AlreadyComplete
    } else if !(200 <= status < 300) {
        ResponsePlan::Fail
    } else if status == 206 {
        ResponsePlan::Append
    } else {
        ResponsePlan::Overwrite
    }
}

/// How to handle the response to a file download with the given status code.
pub fn download_response_plan(status: u16) -> (r: ResponsePlan)
    ensures
        r == response_plan_model(status),
{
    if status == 416 {
        ResponsePlan::AlreadyComplete
    } else if !(200 <= status && status < 300) {
        ResponsePlan::Fail
    } else if status == 206 {
        ResponsePlan::Append
    } else {
        ResponsePlan::Overwrite
    }
}

/// What to do next while an operation runs through the providers in order.
#[derive(Debug, Clone, PartialEq, Eq)]
pub enum FallbackStep {
    /// Run the operation with the provider at this position.
    Attempt(usize),
    /// An attempt succeeded: the operation is done.
    Succeeded,
    /// Give up with this error.
    Failed(InitError),
}

/// The failure line recorded for a provider: `name: reason`.
pub open spec fn failure_line(p: ProviderModel, reason: Seq<char>) -> Seq<char> {
    provider_name(p.kind) + ": "@ + reason
}

/// The next step of running `operation_name` through `providers`, given the
/// outcomes of the attempts made so far (the `i`-th with the `i`-th provider).
/// Providers are tried in order until one succeeds; when all have failed the
/// error lists every failure in order.
pub fn provider_fallback_step(
    providers: &[DownloadProvider],
    operation_name: &str,
    outcomes: &Vec<Result<(), String>>,
) -> (r: FallbackStep)
    ensures
        providers@.len() == 0 ==> (r matches FallbackStep::Failed(InitError::NoProviders(op))
            && op@ == operation_name@),
        providers@.len() > 0 && (exists|i: int| 0 <= i < outcomes@.len() && #[trigger] outcomes@[i] is Ok)
            ==> r == FallbackStep::Succeeded,
        providers@.len() > 0 && (forall|i: int| 0 <= i < outcomes@.len() ==> #[trigger] outcomes@[i] is Err)
            ==> if outcomes@.len() < providers@.len() {
            r == FallbackStep::Attempt(outcomes@.len() as usize)
        } else {
            r matches FallbackStep::Failed(InitError::AllProvidersFailed(op, failures)) && op@
                == operation_name@ && failures@.len() == providers@.len() && forall|i: int|
                0 <= i < providers@.len() ==> (#[trigger] failures@[i])@ == failure_line(
                    providers@[i]@,
                    outcomes@[i]->Err_0@,
                )
        },
{
    if providers.len() == 0 {
        return FallbackStep::Failed(InitError::NoProviders(owned(operation_name)));
    }
    let mut i: usize = 0;
    while i < outcomes.len()
        invariant
            providers@.len() > 0,
            i <= outcomes@.len(),
            forall|j: int| 0 <= j < i ==> #[trigger] outcomes@[j] is Err,
        decreases outcomes@.len() - i,
    {
        if outcomes[i].is_ok() {
            return FallbackStep::Succeeded;
        }
        i = i + 1;
    }
    if outcomes.len() < providers.len() {
        return FallbackStep::Attempt(outcomes.len());
    }
    let mut failures: Vec<String> = Vec::new();
    let mut k: usize = 0;
    while k < providers.len()
        invariant
            k <= providers@.len() <= outcomes@.len(),
            forall|j: int| 0 <= j < outcomes@.len() ==> #[trigger] outcomes@[j] is Err,
            failures@.len() == k,
            forall|j: int|
                0 <= j < k ==> (#[trigger] failures@[j])@ == failure_line(
                    providers@[j]@,
                    outcomes@[j]->Err_0@,
                ),
        decreases providers@.len() - k,
    {
        let reason = match &outcomes[k] {
            Err(e) => e.as_str(),
            Ok(_) => "",
        };
        failures.push(concat3(providers[k].name(), ": ", reason));
        k = k + 1;
    }
    FallbackStep::Failed(InitError::AllProvidersFailed(owned(operation_name), failures))
}

/// The byte from which to resume a file download: the size of the partial
/// file, when there is one (the request then asks for `Range: bytes={size}-`).
pub fn resume_range(existing_len: u64) -> (r: Option<u64>)
    ensures
        r == if existing_len > 0 {
            Some(existing_len)
        } else {
            None::<u64>
        },
{
    if existing_len > 0 {
        Some(existing_len)
    } else {
        None
    }
}

/// What to do with one file of a repository.
#[derive(Debug, Clone, Copy, PartialEq, Eq, Structural)]
pub enum FileAction {
    /// The file is already there and non-empty: leave it.
    Skip,
    /// Download (or resume) the file.
    Download,
}

/// What to do with a file of a repository, given whether it exists and its length.
pub fn repo_file_step(exists: bool, existing_len: u64) -> (r: FileAction)
    ensures
        r == if exists && existing_len > 0 {
            FileAction::Skip
        } else {
            FileAction::Download
        },
{
    if exists && existing_len > 0 {
        FileAction::Skip
    } else {
        FileAction::Download
    }
}

/// The bytes counted as downloaded once `written` more bytes have arrived.
pub fn bytes_after(bytes_done: u64, written: u64) -> (r: u64)
    requires
        bytes_done + written <= u64::MAX,
    ensures
        r == bytes_done + written,
{
    bytes_done + written
}

/// How an attempt to download a model through a provider begins.
#[derive(Debug, Clone, Copy, PartialEq, Eq, Structural)]
pub struct AttemptStart {
    /// The bytes counted as downloaded when the attempt begins.
    pub bytes_done: u64,
    /// Whether what an earlier attempt left (its model directory and its
    /// progress) is cleared and the switch of provider announced.
    pub retry: bool,
}

/// How the attempt numbered `attempt` (from 0) begins: a retry forgets the
/// progress of the failed attempts, going back to the bytes counted before
/// the model, and clears what they left.
pub fn attempt_start(attempt: usize, bytes_before_model: u64, bytes_done: u64) -> (r: AttemptStart)
    ensures
        r.retry == (attempt > 0),
        r.bytes_done == if attempt > 0 {
            bytes_before_model
        } else {
            bytes_done
        },
{
    if attempt > 0 {
        AttemptStart { bytes_done: bytes_before_model, retry: true }
    } else {
        AttemptStart { bytes_done, retry: false }
    }
}

/// The title and detail shown when a download is retried through `provider`.
pub fn retry_notice(repo_id: &str, provider: &DownloadProvider) -> (r: (String, String))
    ensures
        r.0@ == "Retrying "@ + after_last(repo_id@, '/'),
        r.1@ == "Switching to "@ + provider_name(provider@.kind),
{
    (concat2("Retrying ", short_repo_name(repo_id)), concat2("Switching to ", provider.name()))
}

/// The outcome of an attempt whose download finished: it fails, saying the
/// model in `dir` is incomplete, unless the model's files are all there.
pub fn attempt_outcome(files_ready: bool, incomplete_message: &str, dir: &str) -> (r: Result<(), String>)
    ensures
        files_ready ==> r is Ok,
        !files_ready ==> (r matches Err(e) && e@ == incomplete_message@ + ": "@ + dir@),
{
    if files_ready {
        Ok(())
    } else {
        Err(concat3(incomplete_message, ": ", dir))
    }
}

/// The repositories the four models are downloaded from.
#[derive(Debug, Clone, PartialEq, Eq)]
pub struct ModelRepos {
    pub tts_custom: String,
    pub tts_base: String,
    pub asr: String,
    pub translator: String,
}

/// A configured value, or the default when the variable is not set.
pub open spec fn value_or(value: Option<Seq<char>>, default: Seq<char>) -> Seq<char> {
    match value {
        Some(v) => v,
        None => default,
    }
}

fn owned_or(value: Option<&str>, default: &str) -> (r: String)
    ensures
        r@ == value_or(opt_text(value), default@),
{
    match value {
        Some(v) => owned(v),
        None => owned(default),
    }
}

/// The repositories to download from, given the values of
/// `QWEN3_TTS_CUSTOMVOICE_REPO`, `QWEN3_TTS_BASE_REPO`, `QWEN3_ASR_REPO` and
/// `QWEN35_TRANSLATOR_REPO`: each set value as it is, else its default.
pub fn resolve_repos(
    tts_custom: Option<&str>,
    tts_base: Option<&str>,
    asr: Option<&str>,
    translator: Option<&str>,
) -> (r: ModelRepos)
    ensures
        r.tts_custom@ == value_or(opt_text(tts_custom), DEFAULT_TTS_CUSTOMVOICE_REPO@),
        r.tts_base@ == value_or(opt_text(tts_base), DEFAULT_TTS_BASE_REPO@),
        r.asr@ == value_or(opt_text(asr), DEFAULT_ASR_REPO@),
        r.translator@ == value_or(opt_text(translator), DEFAULT_TRANSLATOR_REPO@),
{
    ModelRepos {
        tts_custom: owned_or(tts_custom, DEFAULT_TTS_CUSTOMVOICE_REPO),
        tts_base: owned_or(tts_base, DEFAULT_TTS_BASE_REPO),
        asr: owned_or(asr, DEFAULT_ASR_REPO),
        translator: owned_or(translator, DEFAULT_TRANSLATOR_REPO),
    }
}

/// Whether a model directory of the given kind is complete when `present`
/// tells which files (by their path in the directory) are there.
pub open spec fn complete_with(kind: ModelKind, present: spec_fn(Seq<char>) -> bool) -> bool {
    forall|i: int|
        0 <= i < requirements_model(kind).len() ==> exists|j: int|
            0 <= j < (#[trigger] requirements_model(kind)[i]).len() && present(
                requirements_model(kind)[i][j],
            )
}

/// The speech-recognition model is complete exactly when its config is there.
proof fn lemma_complete_asr_files(present: spec_fn(Seq<char>) -> bool)
    ensures
        complete_with(ModelKind::SpeechRecognition, present) <==> present("config.json"@),
{
    let asr = requirements_model(ModelKind::SpeechRecognition);
    assert(asr.len() == 1);
    assert(asr[0].len() == 1);
    if complete_with(ModelKind::SpeechRecognition, present) {
        let j = choose|j: int| 0 <= j < (#[trigger] asr[0]).len() && present(asr[0][j]);
        assert(j == 0);
    }
    if present("config.json"@) {
        assert forall|i: int| 0 <= i < asr.len() implies exists|j: int|
            0 <= j < (#[trigger] asr[i]).len() && present(asr[i][j]) by {
            assert(present(asr[i][0]));
        }
    }
}

/// Which files make a model directory complete: a text-to-speech model needs
/// its config, generation config, vocabulary, merges, weights (whole or
/// sharded), and the speech tokenizer's config and weights; the
/// speech-recognition model needs its config; the translation model needs its
/// config, tokenizer, tokenizer config and weights (whole or sharded).
pub proof fn lemma_complete_model_files(present: spec_fn(Seq<char>) -> bool)
    ensures
        complete_with(ModelKind::TextToSpeech, present) <==> {
            &&& present("config.json"@)
            &&& present("generation_config.json"@)
            &&& present("vocab.json"@)
            &&& present("merges.txt"@)
            &&& (present("model.safetensors"@) || present("model.safetensors.index.json"@))
            &&& present("speech_tokenizer/config.json"@)
            &&& present("speech_tokenizer/model.safetensors"@)
        },
        complete_with(ModelKind::SpeechRecognition, present) <==> present("config.json"@),
        complete_with(ModelKind::Translator, present) <==> {
            &&& present("config.json"@)
            &&& present("tokenizer.json"@)
            &&& present("tokenizer_config.json"@)
            &&& (present("model.safetensors"@) || present("model.safetensors.index.json"@))
        },
{
    let tts = requirements_model(ModelKind::TextToSpeech);
    if complete_with(ModelKind::TextToSpeech, present) {
        assert(exists|j: int| 0 <= j < tts[0].len() && present(tts[0][j]));
        assert(exists|j: int| 0 <= j < tts[1].len() && present(tts[1][j]));
        assert(exists|j: int| 0 <= j < tts[2].len() && present(tts[2][j]));
        assert(exists|j: int| 0 <= j < tts[3].len() && present(tts[3][j]));
        assert(exists|j: int| 0 <= j < tts[4].len() && present(tts[4][j]));
        assert(exists|j: int| 0 <= j < tts[5].len() && present(tts[5][j]));
        assert(exists|j: int| 0 <= j < tts[6].len() && present(tts[6][j]));
    }
    if present("config.json"@) && present("generation_config.json"@) && present("vocab.json"@)
        && present("merges.txt"@) && (present("model.safetensors"@) || present(
        "model.safetensors.index.json"@,
    )) && present("speech_tokenizer/config.json"@) && present(
        "speech_tokenizer/model.safetensors"@,
    ) {
        assert forall|i: int| 0 <= i < tts.len() implies exists|j: int|
            0 <= j < (#[trigger] tts[i]).len() && present(tts[i][j]) by {
            if i == 4 && !present("model.safetensors"@) {
                assert(present(tts[4][1]));
            } else {
                assert(present(tts[i][0]));
            }
        }
    }
    lemma_complete_asr_files(present);
    let tr = requirements_model(ModelKind::Translator);
    if complete_with(ModelKind::Translator, present) {
        assert(exists|j: int| 0 <= j < tr[0].len() && present(tr[0][j]));
        assert(exists|j: int| 0 <= j < tr[1].len() && present(tr[1][j]));
        assert(exists|j: int| 0 <= j < tr[2].len() && present(tr[2][j]));
        assert(exists|j: int| 0 <= j < tr[3].len() && present(tr[3][j]));
    }
    if present("config.json"@) && present("tokenizer.json"@) && present("tokenizer_config.json"@)
        && (present("model.safetensors"@) || present("model.safetensors.index.json"@)) {
        assert forall|i: int| 0 <= i < tr.len() implies exists|j: int|
            0 <= j < (#[trigger] tr[i]).len() && present(tr[i][j]) by {
            if i == 3 && !present("model.safetensors"@) {
                assert(present(tr[3][1]));
            } else {
                assert(present(tr[i][0]));
            }
        }
    }
}

/// The built-in ModelScope list of each known repository holds every file
/// that makes its model complete, weights included, so a ModelScope download
/// can complete the model: both text-to-speech repositories, the
/// speech-recognition repository and the translation repository.
pub proof fn lemma_manifests_hold_required_files()
    ensures
        manifest_files("mlx-community/Qwen3-TTS-12Hz-1.7B-CustomVoice-8bit"@) matches Some(files)
            && complete_with(ModelKind::TextToSpeech, |f: Seq<char>| files.contains(f))
            && files.contains("model.safetensors"@),
        manifest_files("mlx-community/Qwen3-TTS-12Hz-1.7B-Base-8bit"@) matches Some(files)
            && complete_with(ModelKind::TextToSpeech, |f: Seq<char>| files.contains(f))
            && files.contains("model.safetensors"@),
        manifest_files("mlx-community/Qwen3-ASR-1.7B-8bit"@) matches Some(files)
            && complete_with(ModelKind::SpeechRecognition, |f: Seq<char>| files.contains(f))
            && files.contains("model.safetensors"@),
        manifest_files("mlx-community/Qwen3.5-2B-MLX-4bit"@) matches Some(files)
            && complete_with(ModelKind::Translator, |f: Seq<char>| files.contains(f))
            && files.contains("model.safetensors"@),
{
    reveal_strlit("mlx-community/Qwen3-TTS-12Hz-1.7B-CustomVoice-8bit");
    reveal_strlit("mlx-community/Qwen3-TTS-12Hz-1.7B-Base-8bit");
    reveal_strlit("mlx-community/Qwen3-ASR-1.7B-8bit");
    reveal_strlit("mlx-community/Qwen3.5-2B-MLX-4bit");
    assert("mlx-community/Qwen3.5-2B-MLX-4bit"@[19] != "mlx-community/Qwen3-ASR-1.7B-8bit"@[19]);
    let tts = tts_files_model();
    let asr = asr_files_model();
    let tr = translator_files_model();
    let in_tts = |f: Seq<char>| tts.contains(f);
    let in_asr = |f: Seq<char>| asr.contains(f);
    let in_tr = |f: Seq<char>| tr.contains(f);
    assert(tts[2] == "config.json"@ && tts[3] == "generation_config.json"@ && tts[13] == "vocab.json"@);
    assert(tts[4] == "merges.txt"@ && tts[5] == "model.safetensors"@);
    assert(tts[8] == "speech_tokenizer/config.json"@ && tts[10] == "speech_tokenizer/model.safetensors"@);
    lemma_complete_model_files(in_tts);
    assert(asr[3] == "config.json"@ && asr[6] == "model.safetensors"@);
    lemma_complete_model_files(in_asr);
    assert(tr[3] == "config.json"@ && tr[8] == "tokenizer.json"@ && tr[9] == "tokenizer_config.json"@);
    assert(tr[4] == "model.safetensors"@);
    lemma_complete_model_files(in_tr);
}

/// How download responses are handled: only `416` means the file is already
/// complete; `206` appends to the partial file; any other `2xx` rewrites the
/// file; every other status (`1xx`, `3xx`, `4xx` but `416`, `5xx`) fails the
/// download, so that the next provider can be tried.
pub proof fn lemma_response_plans(status: u16)
    ensures
        response_plan_model(status) == ResponsePlan::AlreadyComplete <==> status == 416,
        response_plan_model(status) == ResponsePlan::Append <==> status == 206,
        response_plan_model(status) == ResponsePlan::Overwrite <==> (200 <= status < 300 && status
            != 206),
        response_plan_model(status) == ResponsePlan::Fail <==> (status != 416 && !(200 <= status
            < 300)),
{
}

} // verus!
