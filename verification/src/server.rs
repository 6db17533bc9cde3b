//! Running a model: where its file lives, how it is downloaded, and the
//! command line of the llama.cpp server that serves it.
use vstd::prelude::*;
use crate::config::{ModelConfig, ModelDefaults, ModelSource};
use crate::number::{decimal, decimal_string};
use crate::text::{opt_view, strip_prefix, strip_prefix_str, trim_start_char, trim_start_char_str};

verus! {

/// For a configured path that starts with `~` or `$HOME`, the rest of it
/// without leading slashes, which names a place under the home directory;
/// `None` for any other path, which is used as it stands.
pub open spec fn home_relative_spec(path: Seq<char>) -> Option<Seq<char>> {
    match strip_prefix(path, "~"@) {
        Some(rest) => Some(trim_start_char(rest, '/')),
        None => match strip_prefix(path, "$HOME"@) {
            Some(rest) => Some(trim_start_char(rest, '/')),
            None => None,
        },
    }
}

/// Taking the copies of `c` off the front leaves a text that does not start
/// with `c`.
pub proof fn lemma_trim_start_char_clean(s: Seq<char>, c: char)
    ensures
        trim_start_char(s, c).len() == 0 || trim_start_char(s, c)[0] != c,
    decreases s.len(),
{
    if s.len() > 0 && s[0] == c {
        lemma_trim_start_char_clean(s.drop_first(), c);
    }
}

/// A configured path under the home directory is taken relative to it: what
/// is left after `~` or `$HOME` never starts with a slash, so joining it to
/// the home directory stays inside that directory.
pub proof fn lemma_home_relative_not_absolute(path: Seq<char>)
    ensures
        home_relative_spec(path) matches Some(rest) ==> rest.len() == 0 || rest[0] != '/',
{
    match strip_prefix(path, "~"@) {
        Some(rest) => lemma_trim_start_char_clean(rest, '/'),
        None => match strip_prefix(path, "$HOME"@) {
            Some(rest) => lemma_trim_start_char_clean(rest, '/'),
            None => {},
        },
    }
}

/// The part of a configured path that lies under the home directory, where
/// the path starts with `~` or `$HOME`; `None` where it does not.
pub fn home_relative(path: &str) -> (r: Option<String>)
    ensures
        opt_view(&r) == home_relative_spec(path@),
{
    match strip_prefix_str(path, "~") {
        Some(rest) => Some(trim_start_char_str(rest.as_str(), '/')),
        None => match strip_prefix_str(path, "$HOME") {
            Some(rest) => Some(trim_start_char_str(rest.as_str(), '/')),
            None => None,
        },
    }
}

/// The arguments of the `hf` command that downloads a model file into a
/// directory.
pub open spec fn download_args_spec(source: ModelSource, dir: Seq<char>) -> Seq<Seq<char>> {
    seq!["download"@, source.repo@, source.file@, "--local-dir"@, dir]
}

/// The server arguments that every way of running a model shares, from
/// `--jinja` to the repeat penalty.
pub open spec fn common_server_args(model: ModelConfig, d: ModelDefaults) -> Seq<Seq<char>> {
    seq![
        "--jinja"@,
        "--host"@,
        model.host@,
        "--port"@,
        decimal(model.port as nat),
        "-c"@,
        decimal(model.context as nat),
        "--metrics"@,
        "-ngl"@,
        decimal(model.gpu_layers as nat),
        "-np"@,
        decimal(d.n_parallel as nat),
        "-ctk"@,
        d.ctx_token_key@,
        "-ctv"@,
        d.ctx_token_val@,
        "--threads"@,
        decimal(d.threads as nat),
        "--temp"@,
        model.temp@,
        "--top-p"@,
        model.top_p@,
        "--top-k"@,
        decimal(model.top_k as nat),
        "--min-p"@,
        model.min_p@,
        "--repeat-penalty"@,
        model.repeat_penalty@,
    ]
}

/// `--mlock` where the model is to be locked in memory, `--no-mmap` where
/// the model file is not to be mapped.
pub open spec fn memory_flags(model: ModelConfig, d: ModelDefaults) -> Seq<Seq<char>> {
    (if model.mlock {
        seq!["--mlock"@]
    } else {
        Seq::empty()
    }) + (if !d.mmap {
        seq!["--no-mmap"@]
    } else {
        Seq::empty()
    })
}

/// The arguments of the server that runs a model in the foreground.
pub open spec fn serve_args_spec(path: Seq<char>, model: ModelConfig, d: ModelDefaults) -> Seq<
    Seq<char>,
> {
    seq!["-m"@, path] + common_server_args(model, d) + memory_flags(model, d) + (if model.flash_attn {
        seq!["-fa"@, "on"@]
    } else {
        Seq::empty()
    }) + match model.chat_template_kwargs {
        Some(k) => seq!["--chat-template-kwargs"@, k@],
        None => Seq::empty(),
    }
}

/// The arguments of the server that the daemon runs for a model, which it
/// names by the model's name.
pub open spec fn daemon_args_spec(
    path: Seq<char>,
    name: Seq<char>,
    model: ModelConfig,
    d: ModelDefaults,
) -> Seq<Seq<char>> {
    seq!["-m"@, path, "--alias"@, name] + common_server_args(model, d) + memory_flags(model, d)
}

/// `e` is none of the option names among the shared server arguments.
pub open spec fn differs_from_flags(e: Seq<char>) -> bool {
    e != "--jinja"@
        && e != "--host"@
        && e != "--port"@
        && e != "-c"@
        && e != "--metrics"@
        && e != "-ngl"@
        && e != "-np"@
        && e != "-ctk"@
        && e != "-ctv"@
        && e != "--threads"@
        && e != "--temp"@
        && e != "--top-p"@
        && e != "--top-k"@
        && e != "--min-p"@
        && e != "--repeat-penalty"@
}

/// `e` is none of the texts that the configuration puts among the shared
/// server arguments.
pub open spec fn differs_from_values(e: Seq<char>, model: ModelConfig, d: ModelDefaults) -> bool {
    &&& e != model.host@
    &&& e != d.ctx_token_key@
    &&& e != d.ctx_token_val@
    &&& e != model.temp@
    &&& e != model.top_p@
    &&& e != model.min_p@
    &&& e != model.repeat_penalty@
}

/// `e` occurs in `x + y` exactly when it occurs in `x` or in `y`.
pub proof fn lemma_contains_concat(x: Seq<Seq<char>>, y: Seq<Seq<char>>, e: Seq<char>)
    ensures
        (x + y).contains(e) <==> x.contains(e) || y.contains(e),
{
    if (x + y).contains(e) {
        let i = choose|i: int| 0 <= i < (x + y).len() && (x + y)[i] == e;
        if i < x.len() {
            assert(x[i] == e);
        } else {
            assert(y[i - x.len()] == e);
        }
    }
    if x.contains(e) {
        let i = choose|i: int| 0 <= i < x.len() && x[i] == e;
        assert((x + y)[i] == e);
    }
    if y.contains(e) {
        let i = choose|i: int| 0 <= i < y.len() && y[i] == e;
        assert((x + y)[i + x.len()] == e);
    }
}

/// An option name that the shared arguments do not use, and that no
/// configured text equals, does not occur among them.
pub proof fn lemma_common_args_exclude(model: ModelConfig, d: ModelDefaults, e: Seq<char>)
    requires
        e.len() > 0 && e[0] == '-',
        differs_from_flags(e),
        differs_from_values(e, model, d),
    ensures
        !common_server_args(model, d).contains(e),
{
    crate::number::lemma_decimal_digits(model.port as nat);
    crate::number::lemma_decimal_digits(model.context as nat);
    crate::number::lemma_decimal_digits(model.gpu_layers as nat);
    crate::number::lemma_decimal_digits(d.n_parallel as nat);
    crate::number::lemma_decimal_digits(d.threads as nat);
    crate::number::lemma_decimal_digits(model.top_k as nat);
    let c = common_server_args(model, d);
    assert forall|i: int| 0 <= i < c.len() implies c[i] != e by {
        if i == 0 {
        } else if i == 1 {
        } else if i == 2 {
        } else if i == 3 {
        } else if i == 4 {
            assert(c[4][0] != '-');
        } else if i == 5 {
        } else if i == 6 {
            assert(c[6][0] != '-');
        } else if i == 7 {
        } else if i == 8 {
        } else if i == 9 {
            assert(c[9][0] != '-');
        } else if i == 10 {
        } else if i == 11 {
            assert(c[11][0] != '-');
        } else if i == 12 {
        } else if i == 13 {
        } else if i == 14 {
        } else if i == 15 {
        } else if i == 16 {
        } else if i == 17 {
            assert(c[17][0] != '-');
        } else if i == 18 {
        } else if i == 19 {
        } else if i == 20 {
        } else if i == 21 {
        } else if i == 22 {
        } else if i == 23 {
            assert(c[23][0] != '-');
        } else if i == 24 {
        } else if i == 25 {
        } else if i == 26 {
        } else if i == 27 {
        } else {
        }
    }
}

/// The arguments of the foreground server hold `-m` and the model file at
/// their front, and then the first `-ctk` is followed by the configured
/// cache type of the keys and the first `-ctv` by that of the values.
pub proof fn lemma_serve_args_cache_types(path: Seq<char>, model: ModelConfig, d: ModelDefaults)
    requires
        path != "-ctk"@ && path != "-ctv"@,
        model.host@ != "-ctk"@ && model.host@ != "-ctv"@,
        d.ctx_token_key@ != "-ctv"@,
    ensures
        ({
            let a = serve_args_spec(path, model, d);
            &&& a[0] == "-m"@ && a[1] == path
            &&& exists|i: int|
                #![trigger a[i]]
                0 <= i < a.len() - 1 && a[i] == "-ctk"@ && a[i + 1] == d.ctx_token_key@ && forall|j: int|
                    0 <= j < i ==> a[j] != "-ctk"@
            &&& exists|i: int|
                #![trigger a[i]]
                0 <= i < a.len() - 1 && a[i] == "-ctv"@ && a[i + 1] == d.ctx_token_val@ && forall|j: int|
                    0 <= j < i ==> a[j] != "-ctv"@
        }),
{
    reveal_strlit("-m");
    reveal_strlit("--jinja");
    reveal_strlit("--host");
    reveal_strlit("--port");
    reveal_strlit("-c");
    reveal_strlit("--metrics");
    reveal_strlit("-ngl");
    reveal_strlit("-np");
    reveal_strlit("-ctk");
    reveal_strlit("-ctv");
    reveal_strlit("--threads");
    reveal_strlit("--temp");
    reveal_strlit("--top-p");
    reveal_strlit("--top-k");
    reveal_strlit("--min-p");
    reveal_strlit("--repeat-penalty");
    crate::number::lemma_decimal_digits(model.port as nat);
    crate::number::lemma_decimal_digits(model.context as nat);
    crate::number::lemma_decimal_digits(model.gpu_layers as nat);
    crate::number::lemma_decimal_digits(d.n_parallel as nat);
    crate::number::lemma_decimal_digits(d.threads as nat);
    crate::number::lemma_decimal_digits(model.top_k as nat);
    let a = serve_args_spec(path, model, d);
    assert(a[14] == "-ctk"@ && a[15] == d.ctx_token_key@);
    assert(a[16] == "-ctv"@ && a[17] == d.ctx_token_val@);
    assert("-ctk"@ =~= seq!['-', 'c', 't', 'k']);
    assert("-ctv"@ =~= seq!['-', 'c', 't', 'v']);
    assert forall|j: int| 0 <= j < 16 implies a[j] != "-ctv"@ && (j < 14 ==> a[j] != "-ctk"@) by {
        if j == 0 {
            assert(a[0] == "-m"@);
            assert("-m"@ =~= seq!['-', 'm']);
        } else if j == 1 {
        } else if j == 2 {
            assert(a[2] == "--jinja"@);
            assert("--jinja"@ =~= seq!['-', '-', 'j', 'i', 'n', 'j', 'a']);
        } else if j == 3 {
            assert(a[3] == "--host"@);
            assert("--host"@ =~= seq!['-', '-', 'h', 'o', 's', 't']);
        } else if j == 4 {
        } else if j == 5 {
            assert(a[5] == "--port"@);
            assert("--port"@ =~= seq!['-', '-', 'p', 'o', 'r', 't']);
        } else if j == 6 {
            assert(a[6][0] != '-');
        } else if j == 7 {
            assert(a[7] == "-c"@);
            assert("-c"@ =~= seq!['-', 'c']);
        } else if j == 8 {
            assert(a[8][0] != '-');
        } else if j == 9 {
            assert(a[9] == "--metrics"@);
            assert("--metrics"@ =~= seq!['-', '-', 'm', 'e', 't', 'r', 'i', 'c', 's']);
        } else if j == 10 {
            assert(a[10] == "-ngl"@);
            assert("-ngl"@ =~= seq!['-', 'n', 'g', 'l']);
        } else if j == 11 {
            assert(a[11][0] != '-');
        } else if j == 12 {
            assert(a[12] == "-np"@);
            assert("-np"@ =~= seq!['-', 'n', 'p']);
        } else if j == 13 {
            assert(a[13][0] != '-');
        } else if j == 14 {
            assert(a[14] == "-ctk"@);
            assert("-ctk"@ =~= seq!['-', 'c', 't', 'k']);
        } else if j == 15 {
        } else {
        }
    }
}

/// The arguments of the daemon's server hold `-m`, the model file, `--alias`
/// and the model's name at their front, and then the first `-ctk` is
/// followed by the configured cache type of the keys and the first `-ctv` by
/// that of the values.
pub proof fn lemma_daemon_args_cache_types(
    path: Seq<char>,
    name: Seq<char>,
    model: ModelConfig,
    d: ModelDefaults,
)
    requires
        path != "-ctk"@ && path != "-ctv"@,
        name != "-ctk"@ && name != "-ctv"@,
        model.host@ != "-ctk"@ && model.host@ != "-ctv"@,
        d.ctx_token_key@ != "-ctv"@,
    ensures
        ({
            let a = daemon_args_spec(path, name, model, d);
            &&& a[0] == "-m"@ && a[1] == path && a[2] == "--alias"@ && a[3] == name
            &&& exists|i: int|
                #![trigger a[i]]
                0 <= i < a.len() - 1 && a[i] == "-ctk"@ && a[i + 1] == d.ctx_token_key@ && forall|j: int|
                    0 <= j < i ==> a[j] != "-ctk"@
            &&& exists|i: int|
                #![trigger a[i]]
                0 <= i < a.len() - 1 && a[i] == "-ctv"@ && a[i + 1] == d.ctx_token_val@ && forall|j: int|
                    0 <= j < i ==> a[j] != "-ctv"@
        }),
{
    reveal_strlit("-m");
    reveal_strlit("--alias");
    reveal_strlit("--jinja");
    reveal_strlit("--host");
    reveal_strlit("--port");
    reveal_strlit("-c");
    reveal_strlit("--metrics");
    reveal_strlit("-ngl");
    reveal_strlit("-np");
    reveal_strlit("-ctk");
    reveal_strlit("-ctv");
    reveal_strlit("--threads");
    reveal_strlit("--temp");
    reveal_strlit("--top-p");
    reveal_strlit("--top-k");
    reveal_strlit("--min-p");
    reveal_strlit("--repeat-penalty");
    crate::number::lemma_decimal_digits(model.port as nat);
    crate::number::lemma_decimal_digits(model.context as nat);
    crate::number::lemma_decimal_digits(model.gpu_layers as nat);
    crate::number::lemma_decimal_digits(d.n_parallel as nat);
    crate::number::lemma_decimal_digits(d.threads as nat);
    crate::number::lemma_decimal_digits(model.top_k as nat);
    let a = daemon_args_spec(path, name, model, d);
    assert(a[16] == "-ctk"@ && a[17] == d.ctx_token_key@);
    assert(a[18] == "-ctv"@ && a[19] == d.ctx_token_val@);
    assert("-ctk"@ =~= seq!['-', 'c', 't', 'k']);
    assert("-ctv"@ =~= seq!['-', 'c', 't', 'v']);
    assert forall|j: int| 0 <= j < 18 implies a[j] != "-ctv"@ && (j < 16 ==> a[j] != "-ctk"@) by {
        if j == 0 {
            assert(a[0] == "-m"@);
            assert("-m"@ =~= seq!['-', 'm']);
        } else if j == 1 {
        } else if j == 2 {
            assert(a[2] == "--alias"@);
            assert("--alias"@ =~= seq!['-', '-', 'a', 'l', 'i', 'a', 's']);
        } else if j == 3 {
        } else if j == 4 {
            assert(a[4] == "--jinja"@);
            assert("--jinja"@ =~= seq!['-', '-', 'j', 'i', 'n', 'j', 'a']);
        } else if j == 5 {
            assert(a[5] == "--host"@);
            assert("--host"@ =~= seq!['-', '-', 'h', 'o', 's', 't']);
        } else if j == 6 {
        } else if j == 7 {
            assert(a[7] == "--port"@);
            assert("--port"@ =~= seq!['-', '-', 'p', 'o', 'r', 't']);
        } else if j == 8 {
            assert(a[8][0] != '-');
        } else if j == 9 {
            assert(a[9] == "-c"@);
            assert("-c"@ =~= seq!['-', 'c']);
        } else if j == 10 {
            assert(a[10][0] != '-');
        } else if j == 11 {
            assert(a[11] == "--metrics"@);
            assert("--metrics"@ =~= seq!['-', '-', 'm', 'e', 't', 'r', 'i', 'c', 's']);
        } else if j == 12 {
            assert(a[12] == "-ngl"@);
            assert("-ngl"@ =~= seq!['-', 'n', 'g', 'l']);
        } else if j == 13 {
            assert(a[13][0] != '-');
        } else if j == 14 {
            assert(a[14] == "-np"@);
            assert("-np"@ =~= seq!['-', 'n', 'p']);
        } else if j == 15 {
            assert(a[15][0] != '-');
        } else if j == 16 {
            assert(a[16] == "-ctk"@);
            assert("-ctk"@ =~= seq!['-', 'c', 't', 'k']);
        } else if j == 17 {
        } else {
        }
    }
}

/// The option names that the server arguments add after the shared ones
/// are none of the shared option names, and differ from `-m`, `--alias`
/// and from each other.
pub proof fn lemma_extra_flags_distinct()
    ensures
        differs_from_flags("--mlock"@),
        differs_from_flags("--no-mmap"@),
        differs_from_flags("-fa"@),
        differs_from_flags("--chat-template-kwargs"@),
        "--mlock"@ != "-m"@ && "--mlock"@ != "--alias"@ && "--mlock"@ != "on"@,
        "--no-mmap"@ != "-m"@ && "--no-mmap"@ != "--alias"@ && "--no-mmap"@ != "on"@,
        "-fa"@ != "-m"@ && "-fa"@ != "--alias"@ && "-fa"@ != "on"@,
        "--chat-template-kwargs"@ != "-m"@ && "--chat-template-kwargs"@ != "--alias"@ && "--chat-template-kwargs"@ != "on"@,
        "--mlock"@ != "--no-mmap"@,
        "--mlock"@ != "-fa"@,
        "--mlock"@ != "--chat-template-kwargs"@,
        "--no-mmap"@ != "-fa"@,
        "--no-mmap"@ != "--chat-template-kwargs"@,
        "-fa"@ != "--chat-template-kwargs"@,
        "--mlock"@.len() > 0 && "--mlock"@[0] == '-',
        "--no-mmap"@.len() > 0 && "--no-mmap"@[0] == '-',
        "-fa"@.len() > 0 && "-fa"@[0] == '-',
        "--chat-template-kwargs"@.len() > 0 && "--chat-template-kwargs"@[0] == '-',
{
    reveal_strlit("--jinja");
    assert("--jinja"@ =~= seq!['-', '-', 'j', 'i', 'n', 'j', 'a']);
    reveal_strlit("--host");
    assert("--host"@ =~= seq!['-', '-', 'h', 'o', 's', 't']);
    reveal_strlit("--port");
    assert("--port"@ =~= seq!['-', '-', 'p', 'o', 'r', 't']);
    reveal_strlit("-c");
    assert("-c"@ =~= seq!['-', 'c']);
    reveal_strlit("--metrics");
    assert("--metrics"@ =~= seq!['-', '-', 'm', 'e', 't', 'r', 'i', 'c', 's']);
    reveal_strlit("-ngl");
    assert("-ngl"@ =~= seq!['-', 'n', 'g', 'l']);
    reveal_strlit("-np");
    assert("-np"@ =~= seq!['-', 'n', 'p']);
    reveal_strlit("-ctk");
    assert("-ctk"@ =~= seq!['-', 'c', 't', 'k']);
    reveal_strlit("-ctv");
    assert("-ctv"@ =~= seq!['-', 'c', 't', 'v']);
    reveal_strlit("--threads");
    assert("--threads"@ =~= seq!['-', '-', 't', 'h', 'r', 'e', 'a', 'd', 's']);
    reveal_strlit("--temp");
    assert("--temp"@ =~= seq!['-', '-', 't', 'e', 'm', 'p']);
    reveal_strlit("--top-p");
    assert("--top-p"@ =~= seq!['-', '-', 't', 'o', 'p', '-', 'p']);
    reveal_strlit("--top-k");
    assert("--top-k"@ =~= seq!['-', '-', 't', 'o', 'p', '-', 'k']);
    reveal_strlit("--min-p");
    assert("--min-p"@ =~= seq!['-', '-', 'm', 'i', 'n', '-', 'p']);
    reveal_strlit("--repeat-penalty");
    assert("--repeat-penalty"@ =~= seq!['-', '-', 'r', 'e', 'p', 'e', 'a', 't', '-', 'p', 'e', 'n', 'a', 'l', 't', 'y']);
    reveal_strlit("-m");
    assert("-m"@ =~= seq!['-', 'm']);
    reveal_strlit("--alias");
    assert("--alias"@ =~= seq!['-', '-', 'a', 'l', 'i', 'a', 's']);
    reveal_strlit("--mlock");
    assert("--mlock"@ =~= seq!['-', '-', 'm', 'l', 'o', 'c', 'k']);
    reveal_strlit("--no-mmap");
    assert("--no-mmap"@ =~= seq!['-', '-', 'n', 'o', '-', 'm', 'm', 'a', 'p']);
    reveal_strlit("-fa");
    assert("-fa"@ =~= seq!['-', 'f', 'a']);
    reveal_strlit("on");
    assert("on"@ =~= seq!['o', 'n']);
    reveal_strlit("--chat-template-kwargs");
    assert("--chat-template-kwargs"@ =~= seq!['-', '-', 'c', 'h', 'a', 't', '-', 't', 'e', 'm', 'p', 'l', 'a', 't', 'e', '-', 'k', 'w', 'a', 'r', 'g', 's']);
}

/// The small sequences hold just their elements.
pub proof fn lemma_contains_small(x: Seq<char>, y: Seq<char>, e: Seq<char>)
    ensures
        !Seq::<Seq<char>>::empty().contains(e),
        seq![x].contains(e) <==> x == e,
        seq![x, y].contains(e) <==> x == e || y == e,
{
    if seq![x].contains(e) {
        let i = choose|i: int| 0 <= i < 1 && seq![x][i] == e;
        assert(i == 0);
    }
    if x == e {
        assert(seq![x][0] == e);
        assert(seq![x, y][0] == e);
    }
    if y == e {
        assert(seq![x, y][1] == e);
    }
    if seq![x, y].contains(e) {
        let i = choose|i: int| 0 <= i < 2 && seq![x, y][i] == e;
        assert(i == 0 || i == 1);
    }
}

/// The configured texts that may stand among the server arguments are
/// none of the option names `--mlock`, `--no-mmap`, `-fa` and
/// `--chat-template-kwargs`.
pub open spec fn values_are_not_extra_flags(path: Seq<char>, model: ModelConfig, d: ModelDefaults) -> bool {
    &&& path != "--mlock"@ && differs_from_values("--mlock"@, model, d)
    &&& path != "--no-mmap"@ && differs_from_values("--no-mmap"@, model, d)
    &&& path != "-fa"@ && differs_from_values("-fa"@, model, d)
    &&& path != "--chat-template-kwargs"@ && differs_from_values("--chat-template-kwargs"@, model, d)
    &&& (model.chat_template_kwargs matches Some(k) ==> k@ != "--mlock"@)
    &&& (model.chat_template_kwargs matches Some(k) ==> k@ != "--no-mmap"@)
    &&& (model.chat_template_kwargs matches Some(k) ==> k@ != "-fa"@)
    &&& (model.chat_template_kwargs matches Some(k) ==> k@ != "--chat-template-kwargs"@)
}

/// In the arguments of the foreground server, `--mlock` occurs exactly when
/// the model is to be locked in memory and `--no-mmap` exactly when the
/// shared settings say not to map the model file, each whatever the other
/// setting; `-fa on` occurs exactly when flash attention is set; and the
/// chat template arguments, where configured, end the arguments whatever
/// flash attention is, and are absent otherwise.
pub proof fn lemma_serve_args_flags(path: Seq<char>, model: ModelConfig, d: ModelDefaults)
    requires
        values_are_not_extra_flags(path, model, d),
    ensures
        ({
            let a = serve_args_spec(path, model, d);
            &&& a.contains("--mlock"@) <==> model.mlock
            &&& a.contains("--no-mmap"@) <==> !d.mmap
            &&& model.flash_attn ==> exists|i: int|
                #![trigger a[i]]
                0 <= i < a.len() - 1 && a[i] == "-fa"@ && a[i + 1] == "on"@
            &&& !model.flash_attn ==> !a.contains("-fa"@)
            &&& model.chat_template_kwargs matches Some(k) ==> a.len() >= 2 && a[a.len() - 2]
                == "--chat-template-kwargs"@ && a[a.len() - 1] == k@
            &&& model.chat_template_kwargs is None ==> !a.contains("--chat-template-kwargs"@)
        }),
{
    lemma_extra_flags_distinct();
    let x = seq!["-m"@, path];
    let c = common_server_args(model, d);
    let m = memory_flags(model, d);
    let mlock_part = if model.mlock { seq!["--mlock"@] } else { Seq::empty() };
    let mmap_part = if !d.mmap { seq!["--no-mmap"@] } else { Seq::empty() };
    let f = if model.flash_attn { seq!["-fa"@, "on"@] } else { Seq::empty() };
    let k = match model.chat_template_kwargs {
        Some(t) => seq!["--chat-template-kwargs"@, t@],
        None => Seq::empty(),
    };
    let a = serve_args_spec(path, model, d);
    assert(a == x + c + m + f + k);
    assert(m == mlock_part + mmap_part);
    let kw = match model.chat_template_kwargs {
        Some(t) => t@,
        None => Seq::empty(),
    };
    lemma_common_args_exclude(model, d, "--mlock"@);
    lemma_contains_small("-m"@, path, "--mlock"@);
    lemma_contains_small("--mlock"@, "--mlock"@, "--mlock"@);
    lemma_contains_small("--no-mmap"@, "--no-mmap"@, "--mlock"@);
    lemma_contains_small("-fa"@, "on"@, "--mlock"@);
    lemma_contains_small("--chat-template-kwargs"@, kw, "--mlock"@);
    lemma_contains_concat(x, c, "--mlock"@);
    lemma_contains_concat(x + c, m, "--mlock"@);
    lemma_contains_concat(mlock_part, mmap_part, "--mlock"@);
    lemma_contains_concat(x + c + m, f, "--mlock"@);
    lemma_contains_concat(x + c + m + f, k, "--mlock"@);
    lemma_common_args_exclude(model, d, "--no-mmap"@);
    lemma_contains_small("-m"@, path, "--no-mmap"@);
    lemma_contains_small("--mlock"@, "--mlock"@, "--no-mmap"@);
    lemma_contains_small("--no-mmap"@, "--no-mmap"@, "--no-mmap"@);
    lemma_contains_small("-fa"@, "on"@, "--no-mmap"@);
    lemma_contains_small("--chat-template-kwargs"@, kw, "--no-mmap"@);
    lemma_contains_concat(x, c, "--no-mmap"@);
    lemma_contains_concat(x + c, m, "--no-mmap"@);
    lemma_contains_concat(mlock_part, mmap_part, "--no-mmap"@);
    lemma_contains_concat(x + c + m, f, "--no-mmap"@);
    lemma_contains_concat(x + c + m + f, k, "--no-mmap"@);
    lemma_common_args_exclude(model, d, "-fa"@);
    lemma_contains_small("-m"@, path, "-fa"@);
    lemma_contains_small("--mlock"@, "--mlock"@, "-fa"@);
    lemma_contains_small("--no-mmap"@, "--no-mmap"@, "-fa"@);
    lemma_contains_small("-fa"@, "on"@, "-fa"@);
    lemma_contains_small("--chat-template-kwargs"@, kw, "-fa"@);
    lemma_contains_concat(x, c, "-fa"@);
    lemma_contains_concat(x + c, m, "-fa"@);
    lemma_contains_concat(mlock_part, mmap_part, "-fa"@);
    lemma_contains_concat(x + c + m, f, "-fa"@);
    lemma_contains_concat(x + c + m + f, k, "-fa"@);
    lemma_common_args_exclude(model, d, "--chat-template-kwargs"@);
    lemma_contains_small("-m"@, path, "--chat-template-kwargs"@);
    lemma_contains_small("--mlock"@, "--mlock"@, "--chat-template-kwargs"@);
    lemma_contains_small("--no-mmap"@, "--no-mmap"@, "--chat-template-kwargs"@);
    lemma_contains_small("-fa"@, "on"@, "--chat-template-kwargs"@);
    lemma_contains_small("--chat-template-kwargs"@, kw, "--chat-template-kwargs"@);
    lemma_contains_concat(x, c, "--chat-template-kwargs"@);
    lemma_contains_concat(x + c, m, "--chat-template-kwargs"@);
    lemma_contains_concat(mlock_part, mmap_part, "--chat-template-kwargs"@);
    lemma_contains_concat(x + c + m, f, "--chat-template-kwargs"@);
    lemma_contains_concat(x + c + m + f, k, "--chat-template-kwargs"@);
    if model.flash_attn {
        let i = (x + c + m).len() as int;
        assert(a[i] == "-fa"@ && a[i + 1] == "on"@);
    }
}

/// In the arguments of the daemon's server, `--mlock` occurs exactly when
/// the model is to be locked in memory and `--no-mmap` exactly when the
/// shared settings say not to map the model file, each whatever the other
/// setting; flash attention and chat template arguments are never given.
pub proof fn lemma_daemon_args_flags(path: Seq<char>, name: Seq<char>, model: ModelConfig, d: ModelDefaults)
    requires
        values_are_not_extra_flags(path, model, d),
        name != "--mlock"@,
        name != "--no-mmap"@,
        name != "-fa"@,
        name != "--chat-template-kwargs"@,
    ensures
        ({
            let a = daemon_args_spec(path, name, model, d);
            &&& a.contains("--mlock"@) <==> model.mlock
            &&& a.contains("--no-mmap"@) <==> !d.mmap
            &&& !a.contains("-fa"@)
            &&& !a.contains("--chat-template-kwargs"@)
        }),
{
    lemma_extra_flags_distinct();
    let x = seq!["-m"@, path, "--alias"@, name];
    let x1 = seq!["-m"@, path];
    let x2 = seq!["--alias"@, name];
    assert(x == x1 + x2);
    let c = common_server_args(model, d);
    let m = memory_flags(model, d);
    let mlock_part = if model.mlock { seq!["--mlock"@] } else { Seq::empty() };
    let mmap_part = if !d.mmap { seq!["--no-mmap"@] } else { Seq::empty() };
    let a = daemon_args_spec(path, name, model, d);
    assert(a == x + c + m);
    assert(m == mlock_part + mmap_part);
    lemma_common_args_exclude(model, d, "--mlock"@);
    lemma_contains_small("-m"@, path, "--mlock"@);
    lemma_contains_small("--alias"@, name, "--mlock"@);
    lemma_contains_small("--mlock"@, "--mlock"@, "--mlock"@);
    lemma_contains_small("--no-mmap"@, "--no-mmap"@, "--mlock"@);
    lemma_contains_concat(x1, x2, "--mlock"@);
    lemma_contains_concat(x, c, "--mlock"@);
    lemma_contains_concat(x + c, m, "--mlock"@);
    lemma_contains_concat(mlock_part, mmap_part, "--mlock"@);
    lemma_common_args_exclude(model, d, "--no-mmap"@);
    lemma_contains_small("-m"@, path, "--no-mmap"@);
    lemma_contains_small("--alias"@, name, "--no-mmap"@);
    lemma_contains_small("--mlock"@, "--mlock"@, "--no-mmap"@);
    lemma_contains_small("--no-mmap"@, "--no-mmap"@, "--no-mmap"@);
    lemma_contains_concat(x1, x2, "--no-mmap"@);
    lemma_contains_concat(x, c, "--no-mmap"@);
    lemma_contains_concat(x + c, m, "--no-mmap"@);
    lemma_contains_concat(mlock_part, mmap_part, "--no-mmap"@);
    lemma_common_args_exclude(model, d, "-fa"@);
    lemma_contains_small("-m"@, path, "-fa"@);
    lemma_contains_small("--alias"@, name, "-fa"@);
    lemma_contains_small("--mlock"@, "--mlock"@, "-fa"@);
    lemma_contains_small("--no-mmap"@, "--no-mmap"@, "-fa"@);
    lemma_contains_concat(x1, x2, "-fa"@);
    lemma_contains_concat(x, c, "-fa"@);
    lemma_contains_concat(x + c, m, "-fa"@);
    lemma_contains_concat(mlock_part, mmap_part, "-fa"@);
    lemma_common_args_exclude(model, d, "--chat-template-kwargs"@);
    lemma_contains_small("-m"@, path, "--chat-template-kwargs"@);
    lemma_contains_small("--alias"@, name, "--chat-template-kwargs"@);
    lemma_contains_small("--mlock"@, "--mlock"@, "--chat-template-kwargs"@);
    lemma_contains_small("--no-mmap"@, "--no-mmap"@, "--chat-template-kwargs"@);
    lemma_contains_concat(x1, x2, "--chat-template-kwargs"@);
    lemma_contains_concat(x, c, "--chat-template-kwargs"@);
    lemma_contains_concat(x + c, m, "--chat-template-kwargs"@);
    lemma_contains_concat(mlock_part, mmap_part, "--chat-template-kwargs"@);
}

/// The option `f` is given the value `v` in the arguments `a`: the first
/// `f` among them is followed by `v`.
pub open spec fn gives(a: Seq<Seq<char>>, f: Seq<char>, v: Seq<char>) -> bool {
    exists|i: int|
        #![trigger a[i]]
        0 <= i < a.len() - 1 && a[i] == f && a[i + 1] == v && forall|j: int| 0 <= j < i ==> a[j] != f
}

/// The configured texts among the shared arguments are none of the option
/// names.
pub open spec fn values_are_not_options(model: ModelConfig, d: ModelDefaults) -> bool {
    &&& differs_from_flags(model.host@)
    &&& differs_from_flags(d.ctx_token_key@)
    &&& differs_from_flags(d.ctx_token_val@)
    &&& differs_from_flags(model.temp@)
    &&& differs_from_flags(model.top_p@)
    &&& differs_from_flags(model.min_p@)
    &&& differs_from_flags(model.repeat_penalty@)
}

/// Each option of the shared arguments is given its configured value: the
/// host, the port, the context size, the GPU layers, the parallel slots,
/// the key and value cache types, the threads and the sampling parameters.
pub proof fn lemma_common_args_options(model: ModelConfig, d: ModelDefaults)
    requires
        values_are_not_options(model, d),
    ensures
        gives(common_server_args(model, d), "--host"@, model.host@),
        gives(common_server_args(model, d), "--port"@, decimal(model.port as nat)),
        gives(common_server_args(model, d), "-c"@, decimal(model.context as nat)),
        gives(common_server_args(model, d), "-ngl"@, decimal(model.gpu_layers as nat)),
        gives(common_server_args(model, d), "-np"@, decimal(d.n_parallel as nat)),
        gives(common_server_args(model, d), "-ctk"@, d.ctx_token_key@),
        gives(common_server_args(model, d), "-ctv"@, d.ctx_token_val@),
        gives(common_server_args(model, d), "--threads"@, decimal(d.threads as nat)),
        gives(common_server_args(model, d), "--temp"@, model.temp@),
        gives(common_server_args(model, d), "--top-p"@, model.top_p@),
        gives(common_server_args(model, d), "--top-k"@, decimal(model.top_k as nat)),
        gives(common_server_args(model, d), "--min-p"@, model.min_p@),
        gives(common_server_args(model, d), "--repeat-penalty"@, model.repeat_penalty@),
{
    reveal_strlit("--jinja");
    assert("--jinja"@ =~= seq!['-', '-', 'j', 'i', 'n', 'j', 'a']);
    reveal_strlit("--host");
    assert("--host"@ =~= seq!['-', '-', 'h', 'o', 's', 't']);
    reveal_strlit("--port");
    assert("--port"@ =~= seq!['-', '-', 'p', 'o', 'r', 't']);
    reveal_strlit("-c");
    assert("-c"@ =~= seq!['-', 'c']);
    reveal_strlit("--metrics");
    assert("--metrics"@ =~= seq!['-', '-', 'm', 'e', 't', 'r', 'i', 'c', 's']);
    reveal_strlit("-ngl");
    assert("-ngl"@ =~= seq!['-', 'n', 'g', 'l']);
    reveal_strlit("-np");
    assert("-np"@ =~= seq!['-', 'n', 'p']);
    reveal_strlit("-ctk");
    assert("-ctk"@ =~= seq!['-', 'c', 't', 'k']);
    reveal_strlit("-ctv");
    assert("-ctv"@ =~= seq!['-', 'c', 't', 'v']);
    reveal_strlit("--threads");
    assert("--threads"@ =~= seq!['-', '-', 't', 'h', 'r', 'e', 'a', 'd', 's']);
    reveal_strlit("--temp");
    assert("--temp"@ =~= seq!['-', '-', 't', 'e', 'm', 'p']);
    reveal_strlit("--top-p");
    assert("--top-p"@ =~= seq!['-', '-', 't', 'o', 'p', '-', 'p']);
    reveal_strlit("--top-k");
    assert("--top-k"@ =~= seq!['-', '-', 't', 'o', 'p', '-', 'k']);
    reveal_strlit("--min-p");
    assert("--min-p"@ =~= seq!['-', '-', 'm', 'i', 'n', '-', 'p']);
    reveal_strlit("--repeat-penalty");
    assert("--repeat-penalty"@ =~= seq!['-', '-', 'r', 'e', 'p', 'e', 'a', 't', '-', 'p', 'e', 'n', 'a', 'l', 't', 'y']);
    reveal_strlit("-m");
    assert("-m"@ =~= seq!['-', 'm']);
    reveal_strlit("--alias");
    assert("--alias"@ =~= seq!['-', '-', 'a', 'l', 'i', 'a', 's']);
    crate::number::lemma_decimal_digits(model.port as nat);
    crate::number::lemma_decimal_digits(model.context as nat);
    crate::number::lemma_decimal_digits(model.gpu_layers as nat);
    crate::number::lemma_decimal_digits(d.n_parallel as nat);
    crate::number::lemma_decimal_digits(d.threads as nat);
    crate::number::lemma_decimal_digits(model.top_k as nat);
    let c = common_server_args(model, d);
    assert forall|j: int| 0 <= j < c.len() implies (c[j] == "--host"@ ==> j == 1) && (c[j] == "--port"@ ==> j == 3) && (c[j] == "-c"@ ==> j == 5) && (c[j] == "-ngl"@ ==> j == 8) && (c[j] == "-np"@ ==> j == 10) && (c[j] == "-ctk"@ ==> j == 12) && (c[j] == "-ctv"@ ==> j == 14) && (c[j] == "--threads"@ ==> j == 16) && (c[j] == "--temp"@ ==> j == 18) && (c[j] == "--top-p"@ ==> j == 20) && (c[j] == "--top-k"@ ==> j == 22) && (c[j] == "--min-p"@ ==> j == 24) && (c[j] == "--repeat-penalty"@ ==> j == 26) by {
        if j == 0 {
            assert(c[0] == "--jinja"@);
        } else if j == 1 {
            assert(c[1] == "--host"@);
        } else if j == 2 {
            assert(c[2] == model.host@);
        } else if j == 3 {
            assert(c[3] == "--port"@);
        } else if j == 4 {
            assert(c[4][0] != '-');
        } else if j == 5 {
            assert(c[5] == "-c"@);
        } else if j == 6 {
            assert(c[6][0] != '-');
        } else if j == 7 {
            assert(c[7] == "--metrics"@);
        } else if j == 8 {
            assert(c[8] == "-ngl"@);
        } else if j == 9 {
            assert(c[9][0] != '-');
        } else if j == 10 {
            assert(c[10] == "-np"@);
        } else if j == 11 {
            assert(c[11][0] != '-');
        } else if j == 12 {
            assert(c[12] == "-ctk"@);
        } else if j == 13 {
            assert(c[13] == d.ctx_token_key@);
        } else if j == 14 {
            assert(c[14] == "-ctv"@);
        } else if j == 15 {
            assert(c[15] == d.ctx_token_val@);
        } else if j == 16 {
            assert(c[16] == "--threads"@);
        } else if j == 17 {
            assert(c[17][0] != '-');
        } else if j == 18 {
            assert(c[18] == "--temp"@);
        } else if j == 19 {
            assert(c[19] == model.temp@);
        } else if j == 20 {
            assert(c[20] == "--top-p"@);
        } else if j == 21 {
            assert(c[21] == model.top_p@);
        } else if j == 22 {
            assert(c[22] == "--top-k"@);
        } else if j == 23 {
            assert(c[23][0] != '-');
        } else if j == 24 {
            assert(c[24] == "--min-p"@);
        } else if j == 25 {
            assert(c[25] == model.min_p@);
        } else if j == 26 {
            assert(c[26] == "--repeat-penalty"@);
        } else if j == 27 {
            assert(c[27] == model.repeat_penalty@);
        } else {
        }
    }
    assert(c[1] == "--host"@ && c[2] == model.host@);
    assert(c[3] == "--port"@ && c[4] == decimal(model.port as nat));
    assert(c[5] == "-c"@ && c[6] == decimal(model.context as nat));
    assert(c[8] == "-ngl"@ && c[9] == decimal(model.gpu_layers as nat));
    assert(c[10] == "-np"@ && c[11] == decimal(d.n_parallel as nat));
    assert(c[12] == "-ctk"@ && c[13] == d.ctx_token_key@);
    assert(c[14] == "-ctv"@ && c[15] == d.ctx_token_val@);
    assert(c[16] == "--threads"@ && c[17] == decimal(d.threads as nat));
    assert(c[18] == "--temp"@ && c[19] == model.temp@);
    assert(c[20] == "--top-p"@ && c[21] == model.top_p@);
    assert(c[22] == "--top-k"@ && c[23] == decimal(model.top_k as nat));
    assert(c[24] == "--min-p"@ && c[25] == model.min_p@);
    assert(c[26] == "--repeat-penalty"@ && c[27] == model.repeat_penalty@);
}

/// An option given a value in `c` is given that value in `x + c + y`
/// where `x` does not hold the option name.
pub proof fn lemma_gives_shift(x: Seq<Seq<char>>, c: Seq<Seq<char>>, y: Seq<Seq<char>>, f: Seq<char>, v: Seq<char>)
    requires
        gives(c, f, v),
        forall|j: int| 0 <= j < x.len() ==> x[j] != f,
    ensures
        gives(x + c + y, f, v),
{
    let i = choose|i: int|
        #![trigger c[i]]
        0 <= i < c.len() - 1 && c[i] == f && c[i + 1] == v && forall|j: int| 0 <= j < i ==> c[j] != f;
    let a = x + c + y;
    let k = i + x.len();
    assert(a[k] == c[i]);
    assert(a[k + 1] == c[i + 1]);
    assert forall|j: int| 0 <= j < k implies a[j] != f by {
        if j < x.len() {
            assert(a[j] == x[j]);
        } else {
            assert(a[j] == c[j - x.len()]);
        }
    }
}

/// In the arguments of the foreground server, the model file follows `-m`
/// at their front, and each shared option is given its configured value.
pub proof fn lemma_serve_args_options(path: Seq<char>, model: ModelConfig, d: ModelDefaults)
    requires
        differs_from_flags(path),
        values_are_not_options(model, d),
    ensures
        ({
            let a = serve_args_spec(path, model, d);
            &&& a[0] == "-m"@ && a[1] == path
            &&& gives(a, "--host"@, model.host@)
            &&& gives(a, "--port"@, decimal(model.port as nat))
            &&& gives(a, "-c"@, decimal(model.context as nat))
            &&& gives(a, "-ngl"@, decimal(model.gpu_layers as nat))
            &&& gives(a, "-np"@, decimal(d.n_parallel as nat))
            &&& gives(a, "-ctk"@, d.ctx_token_key@)
            &&& gives(a, "-ctv"@, d.ctx_token_val@)
            &&& gives(a, "--threads"@, decimal(d.threads as nat))
            &&& gives(a, "--temp"@, model.temp@)
            &&& gives(a, "--top-p"@, model.top_p@)
            &&& gives(a, "--top-k"@, decimal(model.top_k as nat))
            &&& gives(a, "--min-p"@, model.min_p@)
            &&& gives(a, "--repeat-penalty"@, model.repeat_penalty@)
        }),
{
    lemma_common_args_options(model, d);
    reveal_strlit("--jinja");
    assert("--jinja"@ =~= seq!['-', '-', 'j', 'i', 'n', 'j', 'a']);
    reveal_strlit("--host");
    assert("--host"@ =~= seq!['-', '-', 'h', 'o', 's', 't']);
    reveal_strlit("--port");
    assert("--port"@ =~= seq!['-', '-', 'p', 'o', 'r', 't']);
    reveal_strlit("-c");
    assert("-c"@ =~= seq!['-', 'c']);
    reveal_strlit("--metrics");
    assert("--metrics"@ =~= seq!['-', '-', 'm', 'e', 't', 'r', 'i', 'c', 's']);
    reveal_strlit("-ngl");
    assert("-ngl"@ =~= seq!['-', 'n', 'g', 'l']);
    reveal_strlit("-np");
    assert("-np"@ =~= seq!['-', 'n', 'p']);
    reveal_strlit("-ctk");
    assert("-ctk"@ =~= seq!['-', 'c', 't', 'k']);
    reveal_strlit("-ctv");
    assert("-ctv"@ =~= seq!['-', 'c', 't', 'v']);
    reveal_strlit("--threads");
    assert("--threads"@ =~= seq!['-', '-', 't', 'h', 'r', 'e', 'a', 'd', 's']);
    reveal_strlit("--temp");
    assert("--temp"@ =~= seq!['-', '-', 't', 'e', 'm', 'p']);
    reveal_strlit("--top-p");
    assert("--top-p"@ =~= seq!['-', '-', 't', 'o', 'p', '-', 'p']);
    reveal_strlit("--top-k");
    assert("--top-k"@ =~= seq!['-', '-', 't', 'o', 'p', '-', 'k']);
    reveal_strlit("--min-p");
    assert("--min-p"@ =~= seq!['-', '-', 'm', 'i', 'n', '-', 'p']);
    reveal_strlit("--repeat-penalty");
    assert("--repeat-penalty"@ =~= seq!['-', '-', 'r', 'e', 'p', 'e', 'a', 't', '-', 'p', 'e', 'n', 'a', 'l', 't', 'y']);
    reveal_strlit("-m");
    assert("-m"@ =~= seq!['-', 'm']);
    reveal_strlit("--alias");
    assert("--alias"@ =~= seq!['-', '-', 'a', 'l', 'i', 'a', 's']);
    let x = seq!["-m"@, path];
    let c = common_server_args(model, d);
    let y = memory_flags(model, d) + (if model.flash_attn {
        seq!["-fa"@, "on"@]
    } else {
        Seq::empty()
    }) + match model.chat_template_kwargs {
        Some(k) => seq!["--chat-template-kwargs"@, k@],
        None => Seq::empty(),
    };
    let a = serve_args_spec(path, model, d);
    assert(a =~= x + c + y);
    assert(x[0] == "-m"@ && x[1] == path);
    lemma_gives_shift(x, c, y, "--host"@, model.host@);
    lemma_gives_shift(x, c, y, "--port"@, decimal(model.port as nat));
    lemma_gives_shift(x, c, y, "-c"@, decimal(model.context as nat));
    lemma_gives_shift(x, c, y, "-ngl"@, decimal(model.gpu_layers as nat));
    lemma_gives_shift(x, c, y, "-np"@, decimal(d.n_parallel as nat));
    lemma_gives_shift(x, c, y, "-ctk"@, d.ctx_token_key@);
    lemma_gives_shift(x, c, y, "-ctv"@, d.ctx_token_val@);
    lemma_gives_shift(x, c, y, "--threads"@, decimal(d.threads as nat));
    lemma_gives_shift(x, c, y, "--temp"@, model.temp@);
    lemma_gives_shift(x, c, y, "--top-p"@, model.top_p@);
    lemma_gives_shift(x, c, y, "--top-k"@, decimal(model.top_k as nat));
    lemma_gives_shift(x, c, y, "--min-p"@, model.min_p@);
    lemma_gives_shift(x, c, y, "--repeat-penalty"@, model.repeat_penalty@);
}

/// In the arguments of the daemon's server, the model file follows `-m` and
/// the model's name follows `--alias` at their front, and each shared
/// option is given its configured value.
pub proof fn lemma_daemon_args_options(path: Seq<char>, name: Seq<char>, model: ModelConfig, d: ModelDefaults)
    requires
        differs_from_flags(path),
        differs_from_flags(name),
        values_are_not_options(model, d),
    ensures
        ({
            let a = daemon_args_spec(path, name, model, d);
            &&& a[0] == "-m"@ && a[1] == path && a[2] == "--alias"@ && a[3] == name
            &&& gives(a, "--host"@, model.host@)
            &&& gives(a, "--port"@, decimal(model.port as nat))
            &&& gives(a, "-c"@, decimal(model.context as nat))
            &&& gives(a, "-ngl"@, decimal(model.gpu_layers as nat))
            &&& gives(a, "-np"@, decimal(d.n_parallel as nat))
            &&& gives(a, "-ctk"@, d.ctx_token_key@)
            &&& gives(a, "-ctv"@, d.ctx_token_val@)
            &&& gives(a, "--threads"@, decimal(d.threads as nat))
            &&& gives(a, "--temp"@, model.temp@)
            &&& gives(a, "--top-p"@, model.top_p@)
            &&& gives(a, "--top-k"@, decimal(model.top_k as nat))
            &&& gives(a, "--min-p"@, model.min_p@)
            &&& gives(a, "--repeat-penalty"@, model.repeat_penalty@)
        }),
{
    lemma_common_args_options(model, d);
    reveal_strlit("--jinja");
    assert("--jinja"@ =~= seq!['-', '-', 'j', 'i', 'n', 'j', 'a']);
    reveal_strlit("--host");
    assert("--host"@ =~= seq!['-', '-', 'h', 'o', 's', 't']);
    reveal_strlit("--port");
    assert("--port"@ =~= seq!['-', '-', 'p', 'o', 'r', 't']);
    reveal_strlit("-c");
    assert("-c"@ =~= seq!['-', 'c']);
    reveal_strlit("--metrics");
    assert("--metrics"@ =~= seq!['-', '-', 'm', 'e', 't', 'r', 'i', 'c', 's']);
    reveal_strlit("-ngl");
    assert("-ngl"@ =~= seq!['-', 'n', 'g', 'l']);
    reveal_strlit("-np");
    assert("-np"@ =~= seq!['-', 'n', 'p']);
    reveal_strlit("-ctk");
    assert("-ctk"@ =~= seq!['-', 'c', 't', 'k']);
    reveal_strlit("-ctv");
    assert("-ctv"@ =~= seq!['-', 'c', 't', 'v']);
    reveal_strlit("--threads");
    assert("--threads"@ =~= seq!['-', '-', 't', 'h', 'r', 'e', 'a', 'd', 's']);
    reveal_strlit("--temp");
    assert("--temp"@ =~= seq!['-', '-', 't', 'e', 'm', 'p']);
    reveal_strlit("--top-p");
    assert("--top-p"@ =~= seq!['-', '-', 't', 'o', 'p', '-', 'p']);
    reveal_strlit("--top-k");
    assert("--top-k"@ =~= seq!['-', '-', 't', 'o', 'p', '-', 'k']);
    reveal_strlit("--min-p");
    assert("--min-p"@ =~= seq!['-', '-', 'm', 'i', 'n', '-', 'p']);
    reveal_strlit("--repeat-penalty");
    assert("--repeat-penalty"@ =~= seq!['-', '-', 'r', 'e', 'p', 'e', 'a', 't', '-', 'p', 'e', 'n', 'a', 'l', 't', 'y']);
    reveal_strlit("-m");
    assert("-m"@ =~= seq!['-', 'm']);
    reveal_strlit("--alias");
    assert("--alias"@ =~= seq!['-', '-', 'a', 'l', 'i', 'a', 's']);
    let x = seq!["-m"@, path, "--alias"@, name];
    let c = common_server_args(model, d);
    let y = memory_flags(model, d);
    let a = daemon_args_spec(path, name, model, d);
    assert(a =~= x + c + y);
    assert(x[0] == "-m"@ && x[1] == path && x[2] == "--alias"@ && x[3] == name);
    lemma_gives_shift(x, c, y, "--host"@, model.host@);
    lemma_gives_shift(x, c, y, "--port"@, decimal(model.port as nat));
    lemma_gives_shift(x, c, y, "-c"@, decimal(model.context as nat));
    lemma_gives_shift(x, c, y, "-ngl"@, decimal(model.gpu_layers as nat));
    lemma_gives_shift(x, c, y, "-np"@, decimal(d.n_parallel as nat));
    lemma_gives_shift(x, c, y, "-ctk"@, d.ctx_token_key@);
    lemma_gives_shift(x, c, y, "-ctv"@, d.ctx_token_val@);
    lemma_gives_shift(x, c, y, "--threads"@, decimal(d.threads as nat));
    lemma_gives_shift(x, c, y, "--temp"@, model.temp@);
    lemma_gives_shift(x, c, y, "--top-p"@, model.top_p@);
    lemma_gives_shift(x, c, y, "--top-k"@, decimal(model.top_k as nat));
    lemma_gives_shift(x, c, y, "--min-p"@, model.min_p@);
    lemma_gives_shift(x, c, y, "--repeat-penalty"@, model.repeat_penalty@);
}

fn push_arg(args: &mut Vec<String>, a: &str)
    ensures
        final(args).deep_view() == old(args).deep_view().push(a@),
{
    args.push(String::from_str(a));
    assert(final(args).deep_view() =~= old(args).deep_view().push(a@));
}

fn push_number(args: &mut Vec<String>, n: u64)
    ensures
        final(args).deep_view() == old(args).deep_view().push(decimal(n as nat)),
{
    args.push(decimal_string(n));
    assert(final(args).deep_view() =~= old(args).deep_view().push(decimal(n as nat)));
}

/// Appends the shared server arguments.
fn push_common_args(args: &mut Vec<String>, model: &ModelConfig, d: &ModelDefaults)
    ensures
        final(args).deep_view() == old(args).deep_view() + common_server_args(*model, *d),
{
    push_arg(args, "--jinja");
    push_arg(args, "--host");
    push_arg(args, model.host.as_str());
    push_arg(args, "--port");
    push_number(args, model.port as u64);
    push_arg(args, "-c");
    push_number(args, model.context as u64);
    push_arg(args, "--metrics");
    push_arg(args, "-ngl");
    push_number(args, model.gpu_layers as u64);
    push_arg(args, "-np");
    push_number(args, d.n_parallel as u64);
    push_arg(args, "-ctk");
    push_arg(args, d.ctx_token_key.as_str());
    push_arg(args, "-ctv");
    push_arg(args, d.ctx_token_val.as_str());
    push_arg(args, "--threads");
    push_number(args, d.threads as u64);
    push_arg(args, "--temp");
    push_arg(args, model.temp.as_str());
    push_arg(args, "--top-p");
    push_arg(args, model.top_p.as_str());
    push_arg(args, "--top-k");
    push_number(args, model.top_k as u64);
    push_arg(args, "--min-p");
    push_arg(args, model.min_p.as_str());
    push_arg(args, "--repeat-penalty");
    push_arg(args, model.repeat_penalty.as_str());
    assert(final(args).deep_view() =~= old(args).deep_view() + common_server_args(*model, *d));
}

/// Appends the memory flags.
fn push_memory_flags(args: &mut Vec<String>, model: &ModelConfig, d: &ModelDefaults)
    ensures
        final(args).deep_view() == old(args).deep_view() + memory_flags(*model, *d),
{
    if model.mlock {
        push_arg(args, "--mlock");
    }
    if !d.mmap {
        push_arg(args, "--no-mmap");
    }
    assert(final(args).deep_view() =~= old(args).deep_view() + memory_flags(*model, *d));
}

/// The arguments of the `hf` command that downloads the model file of
/// `source` into the directory `dir`.
pub fn download_args(source: &ModelSource, dir: &str) -> (r: Vec<String>)
    ensures
        r.deep_view() == download_args_spec(*source, dir@),
{
    let mut args: Vec<String> = Vec::new();
    push_arg(&mut args, "download");
    push_arg(&mut args, source.repo.as_str());
    push_arg(&mut args, source.file.as_str());
    push_arg(&mut args, "--local-dir");
    push_arg(&mut args, dir);
    assert(args.deep_view() =~= download_args_spec(*source, dir@));
    args
}

/// The arguments of the llama.cpp server that serves the model file at
/// `path` in the foreground, with the model's and the shared settings.
pub fn serve_args(path: &str, model: &ModelConfig, d: &ModelDefaults) -> (r: Vec<String>)
    ensures
        r.deep_view() == serve_args_spec(path@, *model, *d),
{
    let mut args: Vec<String> = Vec::new();
    push_arg(&mut args, "-m");
    push_arg(&mut args, path);
    push_common_args(&mut args, model, d);
    push_memory_flags(&mut args, model, d);
    if model.flash_attn {
        push_arg(&mut args, "-fa");
        push_arg(&mut args, "on");
    }
    match &model.chat_template_kwargs {
        Some(k) => {
            push_arg(&mut args, "--chat-template-kwargs");
            push_arg(&mut args, k.as_str());
        },
        None => {},
    }
    assert(args.deep_view() =~= serve_args_spec(path@, *model, *d));
    args
}

/// The arguments of the llama.cpp server that the daemon runs for the model
/// `name`, whose file is at `path`.
pub fn daemon_args(path: &str, name: &str, model: &ModelConfig, d: &ModelDefaults) -> (r: Vec<
    String,
>)
    ensures
        r.deep_view() == daemon_args_spec(path@, name@, *model, *d),
{
    let mut args: Vec<String> = Vec::new();
    push_arg(&mut args, "-m");
    push_arg(&mut args, path);
    push_arg(&mut args, "--alias");
    push_arg(&mut args, name);
    push_common_args(&mut args, model, d);
    push_memory_flags(&mut args, model, d);
    assert(args.deep_view() =~= daemon_args_spec(path@, name@, *model, *d));
    args
}

/// The daemon runs a model's server with the same settings as running it in
/// the foreground: for a model without the flash-attention flag and chat
/// template arguments, its arguments are those of the foreground server
/// with the model's name given as its alias after the model file.
pub proof fn lemma_daemon_args_match_serve_args(
    path: Seq<char>,
    name: Seq<char>,
    model: ModelConfig,
    d: ModelDefaults,
)
    requires
        !model.flash_attn,
        model.chat_template_kwargs is None,
    ensures
        daemon_args_spec(path, name, model, d) == serve_args_spec(path, model, d).take(2) + seq![
            "--alias"@,
            name,
        ] + serve_args_spec(path, model, d).skip(2),
{
    let serve = serve_args_spec(path, model, d);
    assert(serve =~= seq!["-m"@, path] + common_server_args(model, d) + memory_flags(model, d));
    assert(serve.take(2) =~= seq!["-m"@, path]);
    assert(serve.skip(2) =~= common_server_args(model, d) + memory_flags(model, d));
    assert(daemon_args_spec(path, name, model, d) =~= serve.take(2) + seq!["--alias"@, name]
        + serve.skip(2));
}

} // verus!
