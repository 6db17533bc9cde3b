use spellbook::config::{
    default_context, default_ctx_key, default_host, default_mmap, default_models_dir, default_n_parallel,
    default_port, default_threads, default_top_k, Config, ModelConfig, ModelDefaults, ModelSource,
    NamedModel, ToolVersion, Tools, UserConfig,
};
use spellbook::server::{daemon_args, download_args, home_relative, serve_args};

fn model(port: u16) -> ModelConfig {
    ModelConfig {
        source: ModelSource {
            repo: "bartowski/Llama-3.2-3B-Instruct-GGUF".to_string(),
            file: "Llama-3.2-3B-Instruct-Q4_K_M.gguf".to_string(),
        },
        context: 32768,
        gpu_layers: 99,
        temp: "0.6".to_string(),
        top_p: "0.85".to_string(),
        top_k: 30,
        repeat_penalty: "1.15".to_string(),
        min_p: "0".to_string(),
        port,
        host: "127.0.0.1".to_string(),
        mlock: false,
        flash_attn: false,
        chat_template_kwargs: None,
    }
}

fn defaults() -> ModelDefaults {
    ModelDefaults {
        n_parallel: 1,
        mmap: true,
        ctx_token_key: "q4_0".to_string(),
        ctx_token_val: "q4_0".to_string(),
        threads: 10,
    }
}

fn config() -> Config {
    Config::new(
        UserConfig { models_directory: "~/models".to_string(), tools: Tools::default() },
        defaults(),
        vec![
            NamedModel { name: "llama-3.2-3b".to_string(), model: model(7777) },
            NamedModel { name: "qwen3-4b".to_string(), model: model(7778) },
        ],
    )
}

#[test]
fn default_values() {
    assert_eq!(default_models_dir(), "~models");
    assert_eq!(default_n_parallel(), 1);
    assert!(default_mmap());
    assert_eq!(default_ctx_key(), "q4_0");
    assert_eq!(default_threads(), 10);
    assert_eq!(default_context(), 32768);
    assert_eq!(default_top_k(), 20);
    assert_eq!(default_port(), 7777);
    assert_eq!(default_host(), "127.0.0.1");
}

#[test]
fn default_structs_are_empty() {
    let u = UserConfig::default();
    assert_eq!(u.models_directory, "");
    assert_eq!(u.tools.llama_cpp.version, "");
    assert_eq!(u.tools.opencode.version, "");
    assert_eq!(ToolVersion::default().version, "");
    let d = ModelDefaults::default();
    assert_eq!((d.n_parallel, d.mmap, d.threads), (0, false, 0));
    assert_eq!(d.ctx_token_key, "");
}

#[test]
fn model_lookup() {
    let c = config();
    assert_eq!(c.find_model("qwen3-4b"), Some(1));
    assert_eq!(c.find_model("mistral"), None);
    assert!(c.contains_model("llama-3.2-3b"));
    assert!(!c.contains_model("llama"));
    assert_eq!(c.model("qwen3-4b").map(|m| m.port), Some(7778));
    assert!(c.model("nothing").is_none());
    assert_eq!(c.names(), vec!["llama-3.2-3b".to_string(), "qwen3-4b".to_string()]);
    assert_eq!(c.available_models_line(), "Available: llama-3.2-3b, qwen3-4b");
}

#[test]
fn home_relative_paths() {
    assert_eq!(home_relative("~models"), Some("models".to_string()));
    assert_eq!(home_relative("~/models"), Some("models".to_string()));
    assert_eq!(home_relative("$HOME//llm/models"), Some("llm/models".to_string()));
    assert_eq!(home_relative("~"), Some(String::new()));
    assert_eq!(home_relative("/srv/models"), None);
    assert_eq!(home_relative("models/~"), None);
}

#[test]
fn download_arguments() {
    let m = model(7777);
    assert_eq!(
        download_args(&m.source, "/home/u/models"),
        vec![
            "download",
            "bartowski/Llama-3.2-3B-Instruct-GGUF",
            "Llama-3.2-3B-Instruct-Q4_K_M.gguf",
            "--local-dir",
            "/home/u/models"
        ]
    );
}

fn shared_args(port: &str) -> Vec<String> {
    [
        "--jinja", "--host", "127.0.0.1", "--port", port, "-c", "32768", "--metrics", "-ngl", "99", "-np", "1",
        "-ctk", "q4_0", "-ctv", "q4_0", "--threads", "10", "--temp", "0.6", "--top-p", "0.85", "--top-k", "30",
        "--min-p", "0", "--repeat-penalty", "1.15",
    ]
    .iter()
    .map(|s| s.to_string())
    .collect()
}

#[test]
fn serve_arguments() {
    let mut m = model(7777);
    let d = defaults();
    let mut expected = vec!["-m".to_string(), "/m/x.gguf".to_string()];
    expected.extend(shared_args("7777"));
    assert_eq!(serve_args("/m/x.gguf", &m, &d), expected);

    m.mlock = true;
    m.flash_attn = true;
    m.chat_template_kwargs = Some("{\"enable_thinking\":false}".to_string());
    let mut d2 = defaults();
    d2.mmap = false;
    let mut expected = vec!["-m".to_string(), "/m/x.gguf".to_string()];
    expected.extend(shared_args("7777"));
    for a in ["--mlock", "--no-mmap", "-fa", "on", "--chat-template-kwargs", "{\"enable_thinking\":false}"] {
        expected.push(a.to_string());
    }
    assert_eq!(serve_args("/m/x.gguf", &m, &d2), expected);
}

#[test]
fn daemon_arguments() {
    let mut m = model(8080);
    m.mlock = true;
    m.flash_attn = true;
    let d = defaults();
    let mut expected: Vec<String> =
        ["-m", "/m/x.gguf", "--alias", "llama-3.2-3b"].iter().map(|s| s.to_string()).collect();
    expected.extend(shared_args("8080"));
    expected.push("--mlock".to_string());
    assert_eq!(daemon_args("/m/x.gguf", "llama-3.2-3b", &m, &d), expected);
}

#[test]
fn daemon_and_serve_arguments_agree() {
    let m = model(7777);
    let d = defaults();
    let serve = serve_args("/p.gguf", &m, &d);
    let mut with_alias = serve[..2].to_vec();
    with_alias.push("--alias".to_string());
    with_alias.push("name".to_string());
    with_alias.extend(serve[2..].iter().cloned());
    assert_eq!(daemon_args("/p.gguf", "name", &m, &d), with_alias);
}

#[test]
fn config_keeps_each_name_once() {
    let c = Config::new(
        UserConfig::default(),
        defaults(),
        vec![
            NamedModel { name: "a".to_string(), model: model(1) },
            NamedModel { name: "b".to_string(), model: model(2) },
            NamedModel { name: "a".to_string(), model: model(3) },
        ],
    );
    assert_eq!(c.names(), vec!["a".to_string(), "b".to_string()]);
    assert_eq!(c.model("a").map(|m| m.port), Some(1));
    assert_eq!(c.model_defaults().threads, 10);
    assert_eq!(c.user_config().models_directory, "");
    let empty = Config::new(UserConfig::default(), defaults(), Vec::new());
    assert!(empty.names().is_empty());
}
