//! Checks of the external tools: reading the version that a tool prints, and
//! comparing it with the version that the configuration expects.
use vstd::prelude::*;
use vstd::utf8::{decode_utf8, valid_utf8};
use crate::text::{
    chars_of, first_word, first_word_str, opt_str_view, opt_view, str_eq, string_from_chars,
    string_from_utf8, strip_prefix, strip_prefix_str, trim, trim_start, trim_start_str, trim_str,
};

verus! {

/// The position of the first `c` in `s`, if any.
pub open spec fn first_index(s: Seq<char>, c: char) -> Option<int>
    decreases s.len(),
{
    if s.len() == 0 {
        None
    } else if s[0] == c {
        Some(0)
    } else {
        match first_index(s.drop_first(), c) {
            Some(i) => Some(i + 1),
            None => None,
        }
    }
}

/// `first_index` finds the first occurrence, or says there is none.
pub proof fn lemma_first_index(s: Seq<char>, c: char)
    ensures
        first_index(s, c) matches Some(i) ==> 0 <= i < s.len() && s[i] == c && forall|j: int|
            0 <= j < i ==> s[j] != c,
        first_index(s, c) is None ==> forall|j: int| 0 <= j < s.len() ==> s[j] != c,
    decreases s.len(),
{
    if s.len() > 0 && s[0] != c {
        let t = s.drop_first();
        lemma_first_index(t, c);
        assert forall|j: int| 1 <= j < s.len() implies s[j] == t[j - 1] by {}
    }
}

/// Whether `c` is an ASCII hexadecimal digit.
pub open spec fn is_hex_digit(c: char) -> bool {
    ('0' <= c <= '9') || ('a' <= c <= 'f') || ('A' <= c <= 'F')
}

/// Whether `s` looks like an abbreviated git commit: eight hexadecimal digits.
pub open spec fn is_short_sha(s: Seq<char>) -> bool {
    s.len() == 8 && forall|i: int| 0 <= i < s.len() ==> is_hex_digit(#[trigger] s[i])
}

/// What one line of version output gives: the text between its first `(`
/// and its first `)` where that is a short commit hash (`Some(Some(..))`),
/// nothing (`Some(None)`), or `None` where the first `)` comes before the
/// first `(`, so that the text between them cannot be taken.
pub open spec fn line_version(line: Seq<char>) -> Option<Option<Seq<char>>> {
    match (first_index(line, '('), first_index(line, ')')) {
        (Some(open), Some(close)) => {
            if close < open {
                None
            } else {
                let sha = line.subrange(open + 1, close);
                if is_short_sha(sha) {
                    Some(Some(sha))
                } else {
                    Some(None)
                }
            }
        },
        _ => Some(None),
    }
}

/// What the lines of `text` give, read one after the other until one gives a
/// hash or cannot be read: the hash, `Some(None)` where no line gives one,
/// `None` where a line is reached whose parentheses are out of order.
pub open spec fn version_scan(text: Seq<char>) -> Option<Option<Seq<char>>>
    decreases text.len(),
{
    let end = match first_index(text, '\n') {
        Some(k) => k,
        None => text.len() as int,
    };
    match line_version(text.take(end)) {
        Some(None) => {
            if end < text.len() {
                proof {
                    lemma_first_index(text, '\n');
                }
                version_scan(text.skip(end + 1))
            } else {
                Some(None)
            }
        },
        other => other,
    }
}

/// A hash read from version output is always a short commit hash: eight
/// hexadecimal digits.
pub proof fn lemma_version_scan_short_sha(text: Seq<char>)
    ensures
        version_scan(text) matches Some(Some(sha)) ==> is_short_sha(sha),
    decreases text.len(),
{
    lemma_first_index(text, '\n');
    let end = match first_index(text, '\n') {
        Some(k) => k,
        None => text.len() as int,
    };
    if line_version(text.take(end)) == Some(None::<Seq<char>>) && end < text.len() {
        lemma_version_scan_short_sha(text.skip(end + 1));
    }
}

/// `c` first occurs in `s` at position `k`.
pub open spec fn first_at(s: Seq<char>, c: char, k: int) -> bool {
    0 <= k < s.len() && s[k] == c && forall|j: int| 0 <= j < k ==> s[j] != c
}

/// `c` does not occur in `s`.
pub open spec fn absent(s: Seq<char>, c: char) -> bool {
    forall|j: int| 0 <= j < s.len() ==> s[j] != c
}

/// Eight characters, each a decimal digit or a letter `a`..`f` or `A`..`F`.
pub open spec fn eight_hex_digits(s: Seq<char>) -> bool {
    s.len() == 8 && forall|i: int|
        0 <= i < s.len() ==> ('0' <= #[trigger] s[i] <= '9' || 'a' <= s[i] <= 'f' || 'A' <= s[i]
            <= 'F')
}

/// `first_index` agrees with `first_at` and `absent`.
pub proof fn lemma_first_index_exact(s: Seq<char>, c: char)
    ensures
        forall|k: int| first_at(s, c, k) ==> first_index(s, c) == Some(k),
        absent(s, c) ==> first_index(s, c) is None,
{
    lemma_first_index(s, c);
    assert forall|k: int| first_at(s, c, k) implies first_index(s, c) == Some(k) by {
        match first_index(s, c) {
            Some(i) => {
                if i < k {
                    assert(s[i] == c);
                } else if i > k {
                    assert(s[k] != c);
                }
            },
            None => {
                assert(s[k] != c);
            },
        }
    }
}

/// How a text made of the line `a` and the rest `b` splits: its first line
/// is `a` and what follows the line break is `b`.
proof fn lemma_split_first_line(a: Seq<char>, b: Seq<char>)
    requires
        absent(a, '\n'),
    ensures
        first_index(a + seq!['\n'] + b, '\n') == Some(a.len() as int),
        (a + seq!['\n'] + b).take(a.len() as int) == a,
        (a + seq!['\n'] + b).skip(a.len() as int + 1) == b,
{
    let t = a + seq!['\n'] + b;
    assert(t[a.len() as int] == '\n');
    assert forall|j: int| 0 <= j < a.len() implies t[j] != '\n' by {
        assert(t[j] == a[j]);
    }
    assert(first_at(t, '\n', a.len() as int));
    lemma_first_index_exact(t, '\n');
    assert(t.take(a.len() as int) =~= a);
    assert(t.skip(a.len() as int + 1) =~= b);
}

/// A line that names no short hash between its first `(` and its first `)`,
/// and whose parentheses are not out of order, is passed over: reading a
/// text that starts with it is reading the lines after it.
pub proof fn lemma_scan_passes_line_without_hash(a: Seq<char>, b: Seq<char>)
    requires
        absent(a, '\n'),
        absent(a, '(') || absent(a, ')') || exists|o: int, cl: int|
            first_at(a, '(', o) && first_at(a, ')', cl) && o < cl && !eight_hex_digits(
                a.subrange(o + 1, cl),
            ),
    ensures
        version_scan(a + seq!['\n'] + b) == version_scan(b),
{
    lemma_split_first_line(a, b);
    lemma_first_index_exact(a, '(');
    lemma_first_index_exact(a, ')');
    lemma_first_index(a, '(');
    lemma_first_index(a, ')');
    if !absent(a, '(') && !absent(a, ')') {
        let (o, cl) = choose|o: int, cl: int|
            first_at(a, '(', o) && first_at(a, ')', cl) && o < cl && !eight_hex_digits(
                a.subrange(o + 1, cl),
            );
        assert(!is_short_sha(a.subrange(o + 1, cl)));
    }
    assert(line_version(a) == Some(None::<Seq<char>>));
}

/// The first line that names a short hash between its first `(` and its
/// first `)`, after lines that name none, gives that hash, whatever follows.
pub proof fn lemma_scan_finds_hash_on_line(a: Seq<char>, b: Seq<char>, o: int, cl: int)
    requires
        absent(a, '\n'),
        first_at(a, '(', o),
        first_at(a, ')', cl),
        o < cl,
        eight_hex_digits(a.subrange(o + 1, cl)),
    ensures
        version_scan(a + seq!['\n'] + b) == Some(Some(a.subrange(o + 1, cl))),
        version_scan(a) == Some(Some(a.subrange(o + 1, cl))),
{
    lemma_split_first_line(a, b);
    lemma_first_index_exact(a, '(');
    lemma_first_index_exact(a, ')');
    lemma_first_index_exact(a, '\n');
    assert(a.take(a.len() as int) =~= a);
    assert(is_short_sha(a.subrange(o + 1, cl)));
}

/// A line whose first `)` comes before its first `(` stops the reading with
/// a failure.
pub proof fn lemma_scan_fails_on_disordered_line(a: Seq<char>, b: Seq<char>, o: int, cl: int)
    requires
        absent(a, '\n'),
        first_at(a, '(', o),
        first_at(a, ')', cl),
        cl < o,
    ensures
        version_scan(a + seq!['\n'] + b) is None,
{
    lemma_split_first_line(a, b);
    lemma_first_index_exact(a, '(');
    lemma_first_index_exact(a, ')');
}

/// An empty output names no hash.
pub proof fn lemma_scan_empty()
    ensures
        version_scan(Seq::empty()) == Some(None::<Seq<char>>),
{
    lemma_first_index_exact(Seq::empty(), '\n');
    lemma_first_index_exact(Seq::empty(), '(');
    assert(Seq::<char>::empty().take(0) =~= Seq::<char>::empty());
}

/// The position of the first `c` in `v[from..to]`.
fn first_in(v: &Vec<char>, c: char, from: usize, to: usize) -> (r: Option<usize>)
    requires
        from <= to <= v.len(),
    ensures
        match first_index(v@.subrange(from as int, to as int), c) {
            Some(i) => r == Some((i + from) as usize),
            None => r is None,
        },
{
    let ghost s = v@.subrange(from as int, to as int);
    proof {
        lemma_first_index(s, c);
    }
    let mut i = from;
    while i < to
        invariant
            from <= i <= to <= v.len(),
            s == v@.subrange(from as int, to as int),
            forall|j: int| from <= j < i ==> v@[j] != c,
        decreases to - i,
    {
        if v[i] == c {
            proof {
                lemma_first_index(s, c);
                assert(s[i - from] == c);
                assert forall|j: int| 0 <= j < i - from implies s[j] != c by {
                    assert(s[j] == v@[j + from]);
                }
                if let Some(k) = first_index(s, c) {
                    if k < i - from {
                        assert(s[k] == v@[k + from]);
                    }
                }
            }
            return Some(i);
        }
        i = i + 1;
    }
    proof {
        lemma_first_index(s, c);
        if let Some(k) = first_index(s, c) {
            assert(s[k] == v@[k + from]);
        }
    }
    None
}

/// Whether every character of `v[from..to]` is a hexadecimal digit.
fn all_hex(v: &Vec<char>, from: usize, to: usize) -> (r: bool)
    requires
        from <= to <= v.len(),
    ensures
        r == forall|i: int| from <= i < to ==> is_hex_digit(#[trigger] v@[i]),
{
    let mut i = from;
    while i < to
        invariant
            from <= i <= to <= v.len(),
            forall|j: int| from <= j < i ==> is_hex_digit(#[trigger] v@[j]),
        decreases to - i,
    {
        let c = v[i];
        if !(('0' <= c && c <= '9') || ('a' <= c && c <= 'f') || ('A' <= c && c <= 'F')) {
            assert(!is_hex_digit(v@[i as int]));
            return false;
        }
        i = i + 1;
    }
    true
}

/// What the line `v[from..to]` gives, as `line_version` says.
fn scan_line(v: &Vec<char>, from: usize, to: usize) -> (r: Option<Option<String>>)
    requires
        from <= to <= v.len(),
    ensures
        match line_version(v@.subrange(from as int, to as int)) {
            None => r is None,
            Some(None) => r == Some(None::<String>),
            Some(Some(sha)) => r matches Some(Some(t)) && t@ == sha,
        },
{
    let ghost line = v@.subrange(from as int, to as int);
    let open = first_in(v, '(', from, to);
    let close = first_in(v, ')', from, to);
    proof {
        lemma_first_index(line, '(');
        lemma_first_index(line, ')');
    }
    match (open, close) {
        (Some(o), Some(c)) => {
            if c < o {
                None
            } else {
                let ghost sha = line.subrange(o - from + 1, c - from);
                assert(sha =~= v@.subrange(o + 1, c as int));
                let hex = all_hex(v, o + 1, c);
                proof {
                    assert(hex == forall|i: int| 0 <= i < sha.len() ==> is_hex_digit(#[trigger] sha[i])) by {
                        if hex {
                            assert forall|i: int| 0 <= i < sha.len() implies is_hex_digit(#[trigger] sha[i]) by {
                                assert(sha[i] == v@[i + o + 1]);
                            }
                        } else {
                            let k = choose|k: int| o + 1 <= k < c && !is_hex_digit(#[trigger] v@[k]);
                            assert(sha[k - o - 1] == v@[k]);
                        }
                    }
                }
                if c - (o + 1) == 8 && hex {
                    Some(Some(string_from_chars(v, o + 1, c)))
                } else {
                    Some(None)
                }
            }
        },
        _ => Some(None),
    }
}

/// What the lines of `text` give, as `version_scan` says.
fn scan_text(text: &str) -> (r: Option<Option<String>>)
    ensures
        match version_scan(text@) {
            None => r is None,
            Some(None) => r == Some(None::<String>),
            Some(Some(sha)) => r matches Some(Some(t)) && t@ == sha,
        },
{
    let v = chars_of(text);
    let n = v.len();
    let mut pos: usize = 0;
    assert(v@.subrange(0, n as int) =~= text@);
    while pos <= n
        invariant
            pos <= n == v.len(),
            version_scan(text@) == version_scan(v@.subrange(pos as int, n as int)),
        decreases n - pos,
    {
        let ghost t = v@.subrange(pos as int, n as int);
        let nl = first_in(&v, '\n', pos, n);
        let end = match nl {
            Some(k) => k,
            None => n,
        };
        proof {
            lemma_first_index(t, '\n');
            assert(t.take(end - pos) =~= v@.subrange(pos as int, end as int));
        }
        let line = scan_line(&v, pos, end);
        match line {
            Some(None) => {
                if end == n {
                    return Some(None);
                }
                proof {
                    assert(t.skip(end - pos + 1) =~= v@.subrange(end + 1, n as int));
                }
                pos = end + 1;
            },
            other => {
                return other;
            },
        }
    }
    Some(None)
}

/// Whether reading `text` for a version reaches a line whose first `)`
/// comes before its first `(`: the text between them cannot be taken, and
/// the reading stops there with a failure.
pub fn version_scan_fails(text: &str) -> (r: bool)
    ensures
        r == (version_scan(text@) is None),
{
    scan_text(text).is_none()
}

/// The short commit hash that a tool's version output names: on the first
/// line that has one, the eight hexadecimal digits between its first `(` and
/// its first `)`, as in `version: 113 (05fa625e)`.
pub fn find_version_sha(text: &str) -> (r: Option<String>)
    requires
        version_scan(text@) is Some,
    ensures
        match version_scan(text@) {
            Some(Some(sha)) => r matches Some(t) && t@ == sha,
            _ => r is None,
        },
{
    match scan_text(text) {
        Some(found) => found,
        None => None,
    }
}

/// The output that a tool's version is read from: its standard output where
/// that is not empty, else its standard error, as text; `None` where those
/// bytes are not valid UTF-8.
pub fn version_output_text(stdout: Vec<u8>, stderr: Vec<u8>) -> (r: Option<String>)
    ensures
        ({
            let chosen = if stdout@.len() > 0 { stdout@ } else { stderr@ };
            &&& r is Some <==> valid_utf8(chosen)
            &&& r matches Some(t) ==> t@ == decode_utf8(chosen)
        }),
{
    if stdout.len() > 0 {
        string_from_utf8(stdout)
    } else {
        string_from_utf8(stderr)
    }
}

/// The program that prints the version of a tool, by the tool's name.
pub open spec fn version_program_spec(tool: Seq<char>) -> Option<Seq<char>> {
    if tool == "opencode"@ {
        Some("opencode"@)
    } else if tool == "llama-server"@ {
        Some("llama-server"@)
    } else {
        None
    }
}

/// The program that prints the version of a tool: `opencode` and
/// `llama-server` are known, any other tool has none.
pub fn version_program(tool: &str) -> (r: Option<&'static str>)
    ensures
        match r {
            Some(p) => version_program_spec(tool@) == Some(p@),
            None => version_program_spec(tool@) is None,
        },
{
    if str_eq(tool, "opencode") {
        Some("opencode")
    } else if str_eq(tool, "llama-server") {
        Some("llama-server")
    } else {
        None
    }
}

/// The release that one line of version output names: on a line that,
/// trimmed, starts with `version:`, the word after it (as in
/// `version: 8077 (05fa625e)`, whose release is `8077`).
pub open spec fn line_release(line: Seq<char>) -> Option<Seq<char>> {
    match strip_prefix(trim(line), "version:"@) {
        Some(rest) => {
            let w = first_word(trim_start(rest));
            if w.len() > 0 {
                Some(w)
            } else {
                None
            }
        },
        None => None,
    }
}

/// The release named by the first `version:` line of `text` that names one.
pub open spec fn release_in_lines(text: Seq<char>) -> Option<Seq<char>>
    decreases text.len(),
{
    let end = match first_index(text, '\n') {
        Some(k) => k,
        None => text.len() as int,
    };
    match line_release(text.take(end)) {
        Some(r) => Some(r),
        None => if end < text.len() {
            proof {
                lemma_first_index(text, '\n');
            }
            release_in_lines(text.skip(end + 1))
        } else {
            None
        },
    }
}

/// The release that a tool's version output names: from its first
/// `version:` line that names one; else the whole output, trimmed, where it
/// is a single word (as a bare `1.2.3`).
pub open spec fn version_release(text: Seq<char>) -> Option<Seq<char>> {
    match release_in_lines(text) {
        Some(r) => Some(r),
        None => {
            let t = trim(text);
            if t.len() > 0 && first_word(t) == t {
                Some(t)
            } else {
                None
            }
        },
    }
}

/// The release that the line `line` names.
fn line_release_of(line: &str) -> (r: Option<String>)
    ensures
        opt_view(&r) == line_release(line@),
{
    let t = trim_str(line);
    match strip_prefix_str(t.as_str(), "version:") {
        Some(rest) => {
            let after = trim_start_str(rest.as_str());
            let w = first_word_str(after.as_str());
            if w.as_str().is_empty() {
                None
            } else {
                Some(w)
            }
        },
        None => None,
    }
}

/// The release that a tool's version output names, as `version_release`
/// says.
pub fn find_version_release(text: &str) -> (r: Option<String>)
    ensures
        opt_view(&r) == version_release(text@),
{
    let v = chars_of(text);
    let n = v.len();
    let mut pos: usize = 0;
    let mut found: Option<String> = None;
    assert(v@.subrange(0, n as int) =~= text@);
    while pos <= n
        invariant_except_break
            pos <= n == v.len(),
            release_in_lines(text@) == release_in_lines(v@.subrange(pos as int, n as int)),
            found is None,
        ensures
            opt_view(&found) == release_in_lines(text@),
        decreases n - pos,
    {
        let ghost t = v@.subrange(pos as int, n as int);
        let nl = first_in(&v, '\n', pos, n);
        let end = match nl {
            Some(k) => k,
            None => n,
        };
        proof {
            lemma_first_index(t, '\n');
            assert(t.take(end - pos) =~= v@.subrange(pos as int, end as int));
        }
        let line = string_from_chars(&v, pos, end);
        match line_release_of(line.as_str()) {
            Some(r) => {
                found = Some(r);
                break;
            },
            None => {
                if end == n {
                    break;
                }
                proof {
                    assert(t.skip(end - pos + 1) =~= v@.subrange(end + 1, n as int));
                }
                pos = end + 1;
            },
        }
    }
    match found {
        Some(r) => Some(r),
        None => {
            let t = trim_str(text);
            let w = first_word_str(t.as_str());
            if !t.as_str().is_empty() && str_eq(w.as_str(), t.as_str()) {
                Some(t)
            } else {
                None
            }
        },
    }
}

/// Whether the pinned version `pin` is the installed one: the same short
/// commit hash, the same release, or the release as a build tag (`b`
/// before the build number, as llama.cpp tags its builds).
pub open spec fn pin_matches(pin: Seq<char>, release: Option<Seq<char>>, sha: Option<Seq<char>>) -> bool {
    ||| sha == Some(pin)
    ||| release == Some(pin)
    ||| (release matches Some(r) && pin == "b"@ + r)
}

/// The warning about the version of `tool`: none where no version is pinned
/// or the pin matches the installed version; otherwise a mismatch naming the
/// hash found, or, where no hash was found, a note that the version could
/// not be determined.
pub open spec fn version_warning_spec(
    tool: Seq<char>,
    pin: Seq<char>,
    release: Option<Seq<char>>,
    sha: Option<Seq<char>>,
) -> Option<Seq<char>> {
    if pin.len() == 0 || pin_matches(pin, release, sha) {
        None
    } else {
        match sha {
            Some(h) => Some(
                "Warning: "@ + tool + " version mismatch. Expected: "@ + pin + ", Found: "@ + h,
            ),
            None => Some("Warning: Could not determine "@ + tool + " version"@),
        }
    }
}

/// A build tag pins the build whose number follows its `b`: a tool that
/// prints `version: N (hash)` is the build pinned as `bN`, whatever the hash.
pub proof fn lemma_build_tag_pin_matches(tool: Seq<char>, build: Seq<char>, sha: Option<Seq<char>>)
    ensures
        version_warning_spec(tool, "b"@ + build, Some(build), sha) is None,
{
    reveal_strlit("b");
    assert(("b"@ + build).len() > 0);
}

/// The hash a tool prints pins it too: a pin that is the installed hash
/// gives no warning.
pub proof fn lemma_hash_pin_matches(tool: Seq<char>, release: Option<Seq<char>>, sha: Seq<char>)
    requires
        sha.len() > 0,
    ensures
        version_warning_spec(tool, sha, release, Some(sha)) is None,
{
}

/// The warning to print about the version of `tool`, given the version the
/// configuration pins (empty for any) and the release and hash found in the
/// tool's version output, if any.
pub fn version_warning(tool: &str, pin: &str, release: Option<&str>, sha: Option<&str>) -> (r: Option<String>)
    ensures
        opt_view(&r) == version_warning_spec(tool@, pin@, opt_str_view(release), opt_str_view(sha)),
{
    if pin.is_empty() {
        return None;
    }
    let sha_matches = match sha {
        Some(h) => str_eq(h, pin),
        None => false,
    };
    let release_matches = match release {
        Some(r) => {
            if str_eq(r, pin) {
                true
            } else {
                let mut tag = String::from_str("b");
                tag.append(r);
                str_eq(tag.as_str(), pin)
            }
        },
        None => false,
    };
    if sha_matches || release_matches {
        return None;
    }
    match sha {
        Some(h) => {
            let mut w = String::from_str("Warning: ");
            w.append(tool);
            w.append(" version mismatch. Expected: ");
            w.append(pin);
            w.append(", Found: ");
            w.append(h);
            Some(w)
        },
        None => {
            let mut w = String::from_str("Warning: Could not determine ");
            w.append(tool);
            w.append(" version");
            Some(w)
        },
    }
}

} // verus!
