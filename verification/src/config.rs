//! The configuration: where models live, which tool versions are expected,
//! the server settings shared by all models and those of each model.
use vstd::prelude::*;
use crate::text::{join, join_strings, str_eq};

verus! {

/// Where a model file comes from: a Hugging Face repository and a file in it.
#[derive(Clone, Debug)]
pub struct ModelSource {
    pub repo: String,
    pub file: String,
}

/// The version of a tool that the configuration expects; empty for any.
#[derive(Clone, Debug)]
pub struct ToolVersion {
    pub version: String,
}

impl Default for ToolVersion {
    fn default() -> (r: Self)
        ensures
            r.version@ == Seq::<char>::empty(),
    {
        ToolVersion { version: String::new() }
    }
}

/// The expected versions of the tools that the program runs.
#[derive(Clone, Debug)]
pub struct Tools {
    pub llama_cpp: ToolVersion,
    pub opencode: ToolVersion,
}

impl Default for Tools {
    fn default() -> (r: Self)
        ensures
            r.llama_cpp.version@ == Seq::<char>::empty(),
            r.opencode.version@ == Seq::<char>::empty(),
    {
        Tools { llama_cpp: ToolVersion::default(), opencode: ToolVersion::default() }
    }
}

/// Settings of the user: the directory that holds the model files, and the
/// expected tool versions.
#[derive(Clone, Debug)]
pub struct UserConfig {
    pub models_directory: String,
    pub tools: Tools,
}

impl Default for UserConfig {
    fn default() -> (r: Self)
        ensures
            r.models_directory@ == Seq::<char>::empty(),
            r.tools.llama_cpp.version@ == Seq::<char>::empty(),
            r.tools.opencode.version@ == Seq::<char>::empty(),
    {
        UserConfig { models_directory: String::new(), tools: Tools::default() }
    }
}

/// Server settings shared by every model.
#[derive(Clone, Debug)]
pub struct ModelDefaults {
    pub n_parallel: u32,
    pub mmap: bool,
    pub ctx_token_key: String,
    pub ctx_token_val: String,
    pub threads: u32,
}

impl Default for ModelDefaults {
    fn default() -> (r: Self)
        ensures
            r.n_parallel == 0,
            !r.mmap,
            r.ctx_token_key@ == Seq::<char>::empty(),
            r.ctx_token_val@ == Seq::<char>::empty(),
            r.threads == 0,
    {
        ModelDefaults {
            n_parallel: 0,
            mmap: false,
            ctx_token_key: String::new(),
            ctx_token_val: String::new(),
            threads: 0,
        }
    }
}

/// The settings of one model. The sampling parameters (`temp`, `top_p`,
/// `repeat_penalty`, `min_p`) are held as the decimal text that the server
/// receives on its command line.
#[derive(Clone, Debug)]
pub struct ModelConfig {
    pub source: ModelSource,
    pub context: u32,
    pub gpu_layers: u32,
    pub temp: String,
    pub top_p: String,
    pub top_k: u32,
    pub repeat_penalty: String,
    pub min_p: String,
    pub port: u16,
    pub host: String,
    pub mlock: bool,
    pub flash_attn: bool,
    pub chat_template_kwargs: Option<String>,
}

/// A model of the configuration under its name.
#[derive(Clone, Debug)]
pub struct NamedModel {
    pub name: String,
    pub model: ModelConfig,
}

/// The whole configuration: the user settings, the server settings shared by
/// all models, and the models by name. No name is given to two models, as in
/// a map from names to models; `Config::new` is the way to build one.
#[derive(Debug)]
pub struct Config {
    config: UserConfig,
    model_defaults: ModelDefaults,
    models: Vec<NamedModel>,
}

/// The names of the models, in order.
pub open spec fn model_names(models: Seq<NamedModel>) -> Seq<Seq<char>> {
    models.map_values(|m: NamedModel| m.name@)
}

/// The position of the first model named `name` in `models`, if any.
fn position_of(models: &Vec<NamedModel>, name: &str) -> (r: Option<usize>)
    ensures
        r is None <==> !model_names(models@).contains(name@),
        r matches Some(i) ==> i < models.len() && models@[i as int].name@ == name@ && forall|j: int|
            0 <= j < i ==> models@[j].name@ != name@,
{
    let mut i: usize = 0;
    while i < models.len()
        invariant
            i <= models.len(),
            forall|j: int| 0 <= j < i ==> models@[j].name@ != name@,
        decreases models.len() - i,
    {
        if str_eq(models[i].name.as_str(), name) {
            proof {
                assert(model_names(models@)[i as int] == name@);
            }
            return Some(i);
        }
        i = i + 1;
    }
    proof {
        if model_names(models@).contains(name@) {
            let k = choose|k: int| 0 <= k < models.len() && model_names(models@)[k] == name@;
            assert(models@[k].name@ == name@);
        }
    }
    None
}

/// The models of `s` with each name kept once: the first model of each name,
/// in order.
pub open spec fn keep_first(s: Seq<NamedModel>) -> Seq<NamedModel>
    decreases s.len(),
{
    if s.len() == 0 {
        Seq::empty()
    } else {
        let prev = keep_first(s.drop_last());
        if model_names(prev).contains(s.last().name@) {
            prev
        } else {
            prev.push(s.last())
        }
    }
}

/// Keeping the first model of each name leaves no name twice and loses no
/// name.
pub proof fn lemma_keep_first(s: Seq<NamedModel>)
    ensures
        model_names(keep_first(s)).no_duplicates(),
        forall|n: Seq<char>| #[trigger] model_names(keep_first(s)).contains(n) <==> model_names(s).contains(n),
    decreases s.len(),
{
    if s.len() > 0 {
        let t = s.drop_last();
        lemma_keep_first(t);
        let prev = keep_first(t);
        let x = s.last();
        assert(model_names(prev.push(x)) =~= model_names(prev).push(x.name@));
        assert(model_names(s) =~= model_names(t).push(x.name@));
        assert forall|n: Seq<char>| #[trigger] model_names(keep_first(s)).contains(n) <==> model_names(s).contains(n) by {
            if model_names(s).contains(n) && n != x.name@ {
                let k = choose|k: int| 0 <= k < model_names(s).len() && model_names(s)[k] == n;
                assert(model_names(t)[k] == n);
            }
            if model_names(keep_first(s)).contains(n) && !model_names(prev).contains(n) {
                let k = choose|k: int| 0 <= k < model_names(keep_first(s)).len() && model_names(keep_first(s))[k] == n;
                if k < model_names(prev).len() {
                    assert(model_names(prev)[k] == n);
                }
            }
            if model_names(prev).contains(n) {
                let k = choose|k: int| 0 <= k < model_names(prev).len() && model_names(prev)[k] == n;
                assert(model_names(keep_first(s))[k] == n);
            }
            if model_names(t).contains(n) {
                let k = choose|k: int| 0 <= k < model_names(t).len() && model_names(t)[k] == n;
                assert(model_names(s)[k] == n);
            }
            if n == x.name@ {
                assert(model_names(s)[s.len() - 1] == n);
                if !model_names(prev).contains(n) {
                    assert(model_names(keep_first(s))[prev.len() as int] == n);
                }
            }
        }
    }
}

impl Config {
    /// The configuration made of the user settings, the shared server
    /// settings and the named models, keeping the first model of each name
    /// where a name is given twice.
    pub fn new(config: UserConfig, model_defaults: ModelDefaults, models: Vec<NamedModel>) -> (r: Config)
        ensures
            r.user_settings() == config,
            r.shared_settings() == model_defaults,
            r.model_list() == keep_first(models@),
            r.well_formed(),
            forall|n: Seq<char>| r.has_model(n) <==> #[trigger] model_names(models@).contains(n),
    {
        let ghost orig = models@;
        let mut rest = models;
        let mut kept: Vec<NamedModel> = Vec::new();
        let ghost mut k: int = 0;
        assert(orig.skip(0) =~= orig);
        assert(orig.take(0) =~= Seq::<NamedModel>::empty());
        while rest.len() > 0
            invariant
                0 <= k <= orig.len(),
                rest@ == orig.skip(k),
                kept@ == keep_first(orig.take(k)),
            decreases rest.len(),
        {
            let m = rest.remove(0);
            proof {
                assert(orig.take(k + 1).drop_last() =~= orig.take(k));
                assert(orig.take(k + 1).last() == m);
                assert(orig.skip(k).remove(0) =~= orig.skip(k + 1));
            }
            if position_of(&kept, m.name.as_str()).is_none() {
                kept.push(m);
            }
            proof {
                k = k + 1;
            }
        }
        assert(orig.take(k) =~= orig);
        proof {
            lemma_keep_first(orig);
        }
        Config { config, model_defaults, models: kept }
    }

    /// The models, in order.
    pub closed spec fn model_list(&self) -> Seq<NamedModel> {
        self.models@
    }

    /// The user settings.
    pub closed spec fn user_settings(&self) -> UserConfig {
        self.config
    }

    /// The server settings shared by all models.
    pub closed spec fn shared_settings(&self) -> ModelDefaults {
        self.model_defaults
    }

    /// No model name occurs twice.
    #[verifier::type_invariant]
    spec fn no_name_twice(&self) -> bool {
        model_names(self.models@).no_duplicates()
    }

    /// No model name occurs twice, as in a map from names to models.
    pub open spec fn well_formed(&self) -> bool {
        model_names(self.model_list()).no_duplicates()
    }

    /// Whether a model of that name is configured.
    pub open spec fn has_model(&self, name: Seq<char>) -> bool {
        model_names(self.model_list()).contains(name)
    }

    /// The user settings: the models directory and the expected tool versions.
    pub fn user_config(&self) -> (r: &UserConfig)
        ensures
            *r == self.user_settings(),
    {
        &self.config
    }

    /// The server settings shared by all models.
    pub fn model_defaults(&self) -> (r: &ModelDefaults)
        ensures
            *r == self.shared_settings(),
    {
        &self.model_defaults
    }

    /// The position of the first model named `name`, if any.
    pub fn find_model(&self, name: &str) -> (r: Option<usize>)
        ensures
            r is None <==> !self.has_model(name@),
            r matches Some(i) ==> i < self.model_list().len() && self.model_list()[i as int].name@
                == name@ && forall|j: int| 0 <= j < i ==> self.model_list()[j].name@ != name@,
            self.well_formed(),
    {
        proof {
            use_type_invariant(self);
        }
        position_of(&self.models, name)
    }

    /// Whether a model of that name is configured.
    pub fn contains_model(&self, name: &str) -> (r: bool)
        ensures
            r == self.has_model(name@),
    {
        self.find_model(name).is_some()
    }

    /// The settings of the model named `name`, if it is configured.
    pub fn model(&self, name: &str) -> (r: Option<&ModelConfig>)
        ensures
            r is None <==> !self.has_model(name@),
            r matches Some(m) ==> exists|i: int|
                0 <= i < self.model_list().len() && self.model_list()[i].name@ == name@ && *m
                    == self.model_list()[i].model && forall|j: int|
                    0 <= j < i ==> self.model_list()[j].name@ != name@,
    {
        match self.find_model(name) {
            Some(i) => Some(&self.models[i].model),
            None => None,
        }
    }

    /// The names of the configured models, in order.
    pub fn names(&self) -> (r: Vec<String>)
        ensures
            r.deep_view() == model_names(self.model_list()),
            r.deep_view().no_duplicates(),
    {
        proof {
            use_type_invariant(self);
        }
        let mut r: Vec<String> = Vec::new();
        let mut i: usize = 0;
        while i < self.models.len()
            invariant
                i <= self.models.len(),
                r.deep_view() == model_names(self.models@).take(i as int),
            decreases self.models.len() - i,
        {
            let ghost prev = r.deep_view();
            r.push(self.models[i].name.clone());
            assert(r.deep_view() =~= prev.push(self.models@[i as int].name@));
            i = i + 1;
            assert(r.deep_view() =~= model_names(self.models@).take(i as int));
        }
        assert(model_names(self.models@).take(i as int) =~= model_names(self.models@));
        r
    }

    /// The line that lists the configured models: `Available: ` and the names
    /// separated by `, `.
    pub fn available_models_line(&self) -> (r: String)
        ensures
            r@ == "Available: "@ + join(model_names(self.model_list()), ", "@),
    {
        let names = self.names();
        let list = join_strings(&names, ", ");
        let mut r = String::from_str("Available: ");
        r.append(list.as_str());
        r
    }
}

/// The models directory when the configuration names none.
pub fn default_models_dir() -> (r: String)
    ensures
        r@ == "~models"@,
{
    String::from_str("~models")
}

/// The number of parallel slots when the configuration names none.
pub fn default_n_parallel() -> (r: u32)
    ensures
        r == 1,
{
    1
}

/// Whether to map the model file into memory when the configuration does not say.
pub fn default_mmap() -> (r: bool)
    ensures
        r,
{
    true
}

/// The cache type of the context keys and values when the configuration names none.
pub fn default_ctx_key() -> (r: String)
    ensures
        r@ == "q4_0"@,
{
    String::from_str("q4_0")
}

/// The number of threads when the configuration names none.
pub fn default_threads() -> (r: u32)
    ensures
        r == 10,
{
    10
}

/// The context size when the configuration names none.
pub fn default_context() -> (r: u32)
    ensures
        r == 32768,
{
    32768
}

/// The top-k sampling parameter when the configuration names none.
pub fn default_top_k() -> (r: u32)
    ensures
        r == 20,
{
    20
}

/// The server port when the configuration names none.
pub fn default_port() -> (r: u16)
    ensures
        r == 7777,
{
    7777
}

/// The server host when the configuration names none.
pub fn default_host() -> (r: String)
    ensures
        r@ == "127.0.0.1"@,
{
    String::from_str("127.0.0.1")
}

} // verus!
