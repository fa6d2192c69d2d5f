//! Start-up file generator.
//!
//! A session's shell reads one transient start-up script. The script may set
//! the distinguishing prompt variable to a caller-supplied literal, and may
//! redefine one named command so that its invocations inside the session are
//! routed through the original binary with an added flag that appends an
//! invocation record to a log file. Both values are written single-quoted so
//! the shell treats them as opaque literals and never evaluates them. The
//! script's text is computed and related to its inputs here; only the final
//! write to a fresh private temporary file is trusted to the `tempfile`
//! crate.

use std::io::Write;
use vstd::prelude::*;
use vstd::string::StrSliceExecFns;
use vstd::string::StringExecFns;

verus! {

/// One quoted character: a single quote must leave the quoted region,
/// stand escaped, and reopen it; every other character stands as it is.
pub open spec fn escaped_char(c: char) -> Seq<char> {
    if c == '\'' {
        seq!['\'', '\\', '\'', '\'']
    } else {
        seq![c]
    }
}

/// The body of a single-quoted shell word for the given text.
pub open spec fn escaped(s: Seq<char>) -> Seq<char>
    decreases s.len(),
{
    if s.len() == 0 {
        Seq::empty()
    } else {
        escaped(s.drop_last()) + escaped_char(s.last())
    }
}

/// The full single-quoted shell word: the escaped body between two quotes.
/// A word of this shape is read by the shell as the original text, with no
/// further evaluation possible.
pub open spec fn shell_quoted(s: Seq<char>) -> Seq<char> {
    seq!['\''] + escaped(s) + seq!['\'']
}

proof fn lemma_escaped_take_step(s: Seq<char>, i: int)
    requires
        0 <= i < s.len(),
    ensures
        escaped(s.take(i + 1)) == escaped(s.take(i)) + escaped_char(s[i]),
{
    assert(s.take(i + 1).drop_last() =~= s.take(i));
    assert(s.take(i + 1).last() == s[i]);
}

proof fn lemma_escaped_append(a: Seq<char>, b: Seq<char>)
    ensures
        escaped(a + b) == escaped(a) + escaped(b),
    decreases b.len(),
{
    if b.len() == 0 {
        assert(a + b =~= a);
        assert(escaped(a) + escaped(b) =~= escaped(a));
    } else {
        lemma_escaped_append(a, b.drop_last());
        assert((a + b).drop_last() =~= a + b.drop_last());
        assert((a + b).last() == b.last());
        assert(escaped(a + b) == escaped(a) + escaped(b.drop_last()) + escaped_char(b.last()));
        assert(escaped(a) + escaped(b.drop_last()) + escaped_char(b.last()) =~= escaped(a)
            + (escaped(b.drop_last()) + escaped_char(b.last())));
    }
}

proof fn lemma_escaped_plain(b: Seq<char>)
    requires
        forall|k: int| 0 <= k < b.len() ==> b[k] != '\'',
    ensures
        escaped(b) == b,
    decreases b.len(),
{
    if b.len() != 0 {
        assert forall|k: int| 0 <= k < b.drop_last().len() implies b.drop_last()[k] != '\'' by {
            assert(b.drop_last()[k] == b[k]);
        }
        lemma_escaped_plain(b.drop_last());
        assert(b.last() != '\'');
        assert(b.drop_last() + seq![b.last()] =~= b);
    }
}

/// Single-quote the given text for the shell, escaping every single quote
/// it holds, so the shell reads it back as an opaque literal.
pub fn quote_literal(s: &str) -> (r: String)
    ensures
        r@ == shell_quoted(s@),
{
    let n = s.unicode_len();
    let mut out = String::new();
    out.append("'");
    proof {
        reveal_strlit("'");
        assert(("'")@ =~= seq!['\'']);
        assert(s@.take(0) =~= Seq::<char>::empty());
        assert(out@ =~= seq!['\''] + escaped(s@.take(0)));
    }
    let mut start: usize = 0;
    let mut i: usize = 0;
    while i < n
        invariant
            n == s@.len(),
            start <= i <= n,
            out@ == seq!['\''] + escaped(s@.take(start as int)),
            forall|k: int| start <= k < i ==> s@[k] != '\'',
        decreases n - i,
    {
        if s.get_char(i) == '\'' {
            let run = s.substring_char(start, i);
            out.append(run);
            proof {
                let a = s@.take(start as int);
                let b = s@.subrange(start as int, i as int);
                assert(a + b =~= s@.take(i as int));
                lemma_escaped_append(a, b);
                lemma_escaped_plain(b);
                assert(out@ =~= seq!['\''] + escaped(s@.take(i as int)));
            }
            out.append("'\\''");
            proof {
                reveal_strlit("'\\''");
                assert(("'\\''")@ =~= seq!['\'', '\\', '\'', '\'']);
                lemma_escaped_take_step(s@, i as int);
                assert(escaped_char(s@[i as int]) =~= seq!['\'', '\\', '\'', '\'']);
                assert(out@ =~= seq!['\''] + escaped(s@.take(i as int + 1)));
            }
            start = i + 1;
        }
        i += 1;
    }
    let tail = s.substring_char(start, n);
    out.append(tail);
    proof {
        let a = s@.take(start as int);
        let b = s@.subrange(start as int, n as int);
        assert(a + b =~= s@.take(n as int));
        lemma_escaped_append(a, b);
        lemma_escaped_plain(b);
        assert(s@.take(n as int) =~= s@);
        assert(out@ =~= seq!['\''] + escaped(s@));
    }
    out.append("'");
    proof {
        reveal_strlit("'");
        assert(out@ =~= shell_quoted(s@));
    }
    out
}

/// The script line that sets the prompt variable to the given literal.
pub open spec fn prompt_line(p: Seq<char>) -> Seq<char> {
    ("PS1=")@ + shell_quoted(p) + ("\n")@
}

/// The script line that redefines the named command: an alias that invokes
/// the original binary with the added log flag and the log file's path, the
/// whole value single-quoted. The redefinition binds only inside the one
/// shell instance that reads this script; the binary the name resolves to
/// on PATH is never touched.
pub open spec fn alias_line(name: Seq<char>, log_path: Seq<char>) -> Seq<char> {
    ("alias ")@ + name + ("=")@ + shell_quoted(name + (" -W ")@ + log_path) + ("\n")@
}

/// Build the prompt-setting line.
pub fn build_prompt_line(p: &str) -> (r: String)
    ensures
        r@ == prompt_line(p@),
{
    let mut out = String::new();
    out.append("PS1=");
    let quoted = quote_literal(p);
    out.append(quoted.as_str());
    out.append("\n");
    proof {
        assert(out@ =~= prompt_line(p@));
    }
    out
}

/// Build the command-wrapping alias line.
pub fn build_alias_line(name: &str, log_path: &str) -> (r: String)
    ensures
        r@ == alias_line(name@, log_path@),
{
    let mut value = String::new();
    value.append(name);
    value.append(" -W ");
    value.append(log_path);
    let quoted = quote_literal(value.as_str());
    let mut out = String::new();
    out.append("alias ");
    out.append(name);
    out.append("=");
    out.append(quoted.as_str());
    out.append("\n");
    proof {
        assert(value@ =~= name@ + (" -W ")@ + log_path@);
        assert(out@ =~= alias_line(name@, log_path@));
    }
    out
}

/// A request to redefine one command inside the session: its name, and the
/// path of the file its invocation records are appended to.
pub struct WrapRequest {
    pub command: String,
    pub log_path: String,
}

/// One directive of the start-up script.
pub enum ScriptDirective {
    SetPrompt(String),
    WrapCommand { name: String, log_path: String },
}

/// The text of one directive.
pub open spec fn directive_text(d: ScriptDirective) -> Seq<char> {
    match d {
        ScriptDirective::SetPrompt(p) => prompt_line(p@),
        ScriptDirective::WrapCommand { name, log_path } => alias_line(name@, log_path@),
    }
}

/// The text of a whole directive sequence, in order.
pub open spec fn directives_text(ds: Seq<ScriptDirective>) -> Seq<char>
    decreases ds.len(),
{
    if ds.len() == 0 {
        Seq::empty()
    } else {
        directive_text(ds[0]) + directives_text(ds.drop_first())
    }
}

/// The text of the whole script for the given requests: the prompt
/// assignment when a prompt is requested, then the command-wrapping alias
/// when a wrap is requested.
pub open spec fn script_text(prompt: Option<Seq<char>>, wrap: Option<(Seq<char>, Seq<char>)>) -> Seq<
    char,
> {
    (match prompt {
        Some(p) => prompt_line(p),
        None => Seq::empty(),
    }) + (match wrap {
        Some((n, l)) => alias_line(n, l),
        None => Seq::empty(),
    })
}

/// The prompt request's text, if any.
pub open spec fn prompt_view(prompt: Option<&String>) -> Option<Seq<char>> {
    match prompt {
        Some(p) => Some(p@),
        None => None,
    }
}

/// The wrap request's command name and log path, if any.
pub open spec fn wrap_view(wrap: Option<&WrapRequest>) -> Option<(Seq<char>, Seq<char>)> {
    match wrap {
        Some(w) => Some((w.command@, w.log_path@)),
        None => None,
    }
}

/// Decide what the start-up script holds: one prompt directive when a
/// prompt is requested, one wrap directive when a wrap is requested, and
/// nothing else. In particular a wrap directive never names any command but
/// the requested one, so every other command inside the session is left
/// untouched.
pub fn plan_script(prompt: Option<&String>, wrap: Option<&WrapRequest>) -> (r: Vec<ScriptDirective>)
    ensures
        r@.len() == (if prompt is Some {
            1int
        } else {
            0int
        }) + (if wrap is Some {
            1int
        } else {
            0int
        }),
        prompt matches Some(p) ==> (r@[0] matches ScriptDirective::SetPrompt(q) && q@ == p@),
        wrap matches Some(w) ==> (r@[r@.len() - 1] matches ScriptDirective::WrapCommand {
            name,
            log_path,
        } && name@ == w.command@ && log_path@ == w.log_path@),
        forall|i: int|
            0 <= i < r@.len() && r@[i] is WrapCommand ==> (wrap matches Some(w) && (
            r@[i]->WrapCommand_name)@ == w.command@),
        forall|i: int| 0 <= i < r@.len() && r@[i] is SetPrompt ==> prompt is Some,
{
    let mut out: Vec<ScriptDirective> = Vec::new();
    if let Some(p) = prompt {
        out.push(ScriptDirective::SetPrompt(p.clone()));
    }
    if let Some(w) = wrap {
        out.push(
            ScriptDirective::WrapCommand {
                name: w.command.clone(),
                log_path: w.log_path.clone(),
            },
        );
    }
    out
}

/// Render a directive sequence as the script's text, in order.
pub fn render_script(plan: &Vec<ScriptDirective>) -> (r: String)
    ensures
        r@ == directives_text(plan@),
{
    let mut out = String::new();
    let mut i: usize = 0;
    proof {
        assert(plan@.skip(0) =~= plan@);
    }
    while i < plan.len()
        invariant
            i <= plan.len(),
            directives_text(plan@) == out@ + directives_text(plan@.skip(i as int)),
        decreases plan.len() - i,
    {
        let line = match &plan[i] {
            ScriptDirective::SetPrompt(p) => build_prompt_line(p.as_str()),
            ScriptDirective::WrapCommand { name, log_path } => build_alias_line(
                name.as_str(),
                log_path.as_str(),
            ),
        };
        out.append(line.as_str());
        proof {
            let rest = plan@.skip(i as int);
            assert(rest[0] == plan@[i as int]);
            assert(rest.drop_first() =~= plan@.skip(i as int + 1));
            assert(directives_text(rest) == directive_text(plan@[i as int]) + directives_text(
                plan@.skip(i as int + 1),
            ));
            assert(directives_text(plan@) =~= out@ + directives_text(plan@.skip(i as int + 1)));
        }
        i += 1;
    }
    proof {
        assert(plan@.skip(plan@.len() as int) =~= Seq::<ScriptDirective>::empty());
        assert(directives_text(plan@) =~= out@);
    }
    out
}

/// The transient start-up script could not be created or written; the
/// message carries the underlying cause.
#[derive(Debug)]
pub struct ScriptError {
    pub message: String,
}

#[verifier::external_type_specification]
#[verifier::external_body]
pub struct ExTempPath(tempfile::TempPath);

/// Relies on `tempfile::NamedTempFile::new`: it creates a fresh file with a
/// randomized, collision-free name in the OS temporary directory, with
/// permissions that restrict access to the invoking user; `write_all` and
/// `flush` (std::io::Write) fill it with exactly the given bytes; and
/// `into_temp_path` keeps the file on disk until the returned handle is
/// dropped. On success the returned string names the file's path.
#[verifier::external_body]
fn persist_script(text: &str) -> (r: Result<(tempfile::TempPath, String), ScriptError>)
    ensures
        r matches Ok(p) ==> p.1@.len() > 0,
{
    let mut file = match tempfile::NamedTempFile::new() {
        Ok(f) => f,
        Err(e) => return Err(ScriptError { message: e.to_string() }),
    };
    if let Err(e) = file.write_all(text.as_bytes()) {
        return Err(ScriptError { message: e.to_string() });
    }
    if let Err(e) = file.flush() {
        return Err(ScriptError { message: e.to_string() });
    }
    let path = file.path().to_string_lossy().into_owned();
    Ok((file.into_temp_path(), path))
}

/// A start-up script that exists on disk: its path, its full text, and the
/// handle that keeps the file alive (and deletes it when the script is
/// dropped). The file is never rewritten after creation.
pub struct StartupScript {
    /// Owns the on-disk file; dropping it removes the file.
    pub handle: tempfile::TempPath,
    /// The path the child shell is told to read the script from.
    pub path: String,
    /// The script's full text, as written to the file.
    pub text: String,
}

/// Build the start-up script for a session and persist it to a transient
/// private file: the prompt assignment when a prompt is requested, then the
/// command-wrapping alias when a wrap is requested. Fails only when the
/// file cannot be created or written; the session must then be aborted
/// before any child is spawned.
pub fn generate(prompt: Option<&String>, wrap: Option<&WrapRequest>) -> (r: Result<
    StartupScript,
    ScriptError,
>)
    ensures
        r matches Ok(s) ==> s.text@ == script_text(prompt_view(prompt), wrap_view(wrap))
            && s.path@.len() > 0,
{
    let plan = plan_script(prompt, wrap);
    let text = render_script(&plan);
    proof {
        let ds = plan@;
        if ds.len() == 0 {
            assert(directives_text(ds) =~= Seq::<char>::empty());
        } else if ds.len() == 1 {
            assert(ds.drop_first().len() == 0);
            assert(directives_text(ds.drop_first()) =~= Seq::<char>::empty());
            assert(directives_text(ds) =~= directive_text(ds[0]));
        } else {
            assert(ds.drop_first()[0] == ds[1]);
            assert(ds.drop_first().drop_first().len() == 0);
            assert(directives_text(ds.drop_first().drop_first()) =~= Seq::<char>::empty());
            assert(directives_text(ds.drop_first()) =~= directive_text(ds[1]));
            assert(directives_text(ds) =~= directive_text(ds[0]) + directive_text(ds[1]));
        }
        assert(text@ =~= script_text(prompt_view(prompt), wrap_view(wrap)));
    }
    match persist_script(text.as_str()) {
        Ok((handle, path)) => Ok(StartupScript { handle, path, text }),
        Err(e) => Err(e),
    }
}

} // verus!
