//! The command resolver: which program and arguments a new session runs,
//! given the startup preferences and whether the preferred multiplexer can
//! be found.

use vstd::prelude::*;
use vstd::string::*;
use crate::config::{MultiplexerMode, StartupConfig, StartupConfigView};
use crate::error::{CommandFault, SessionError};
use crate::text::{
    copy_words, is_blank, join_path, joined_path, lemma_trimmed_empty_iff_blank, same_text,
    slice_text_of, text_of, trim, trimmed, words,
};

verus! {

/// The program a session launches, with how it was chosen.
#[derive(Debug, Clone)]
pub struct ResolvedCommand {
    pub program: String,
    pub args: Vec<String>,
    pub display: String,
    pub fallback_used: bool,
    pub warning: Option<String>,
}

/// The mathematical content of a `ResolvedCommand`.
pub ghost struct ResolvedCommandView {
    pub program: Seq<char>,
    pub args: Seq<Seq<char>>,
    pub display: Seq<char>,
    pub fallback_used: bool,
    pub warning: Option<Seq<char>>,
}

impl View for ResolvedCommand {
    type V = ResolvedCommandView;

    open spec fn view(&self) -> ResolvedCommandView {
        ResolvedCommandView {
            program: self.program@,
            args: words(self.args@),
            display: self.display@,
            fallback_used: self.fallback_used,
            warning: text_of(self.warning),
        }
    }
}

/// The words that shell-word tokenization makes of `input`, or `None` where
/// a quote is left open. This names the result of `shell_words::split`.
pub uninterp spec fn shell_split(input: Seq<char>) -> Option<Seq<Seq<char>>>;

#[verifier::external_type_specification]
#[verifier::external_body]
pub struct ExParseError(shell_words::ParseError);

/// Trusted: `shell_words::split`. The function reads nothing but its
/// argument, and fails only on an unmatched quote; the contract says that its
/// outcome is the tokenization named by `shell_split`.
#[verifier::external_body]
fn split_words(input: &str) -> (r: Result<Vec<String>, shell_words::ParseError>)
    ensures
        match shell_split(input@) {
            Some(ws) => r matches Ok(v) && words(v@) == ws,
            None => r is Err,
        },
{
    shell_words::split(input)
}

/// The words of `args` with one space between neighbours.
pub open spec fn spaced(args: Seq<Seq<char>>) -> Seq<char>
    decreases args.len(),
{
    if args.len() == 0 {
        Seq::empty()
    } else if args.len() == 1 {
        args[0]
    } else {
        spaced(args.drop_last()) + seq![' '] + args.last()
    }
}

/// How a command is shown: the program alone, or the program, a space and
/// the arguments separated by spaces.
pub open spec fn display_of(program: Seq<char>, args: Seq<Seq<char>>) -> Seq<char> {
    if args.len() == 0 {
        program
    } else {
        program + seq![' '] + spaced(args)
    }
}

/// Whether the command is the old default that attaches to zellij without
/// naming a session.
pub open spec fn is_unnamed_attach(program: Seq<char>, args: Seq<Seq<char>>) -> bool {
    program == "zellij"@ && args.len() == 2 && args[0] == "attach"@ && args[1] == "-c"@
}

/// The arguments with the session name added where the old default left it
/// out.
pub open spec fn normalized_args(program: Seq<char>, args: Seq<Seq<char>>) -> Seq<Seq<char>> {
    if is_unnamed_attach(program, args) {
        args.push("d3term"@)
    } else {
        args
    }
}

/// Program and arguments of a tokenized invocation string.
pub open spec fn parsed_command(split: Option<Seq<Seq<char>>>) -> Result<
    (Seq<char>, Seq<Seq<char>>),
    SessionError,
> {
    match split {
        None => Err(SessionError::InvalidCommand(CommandFault::UnbalancedQuote)),
        Some(ws) => if ws.len() == 0 {
            Err(SessionError::InvalidCommand(CommandFault::Empty))
        } else {
            Ok((ws.first(), ws.drop_first()))
        },
    }
}

/// The shell used when the preferences name none: the environment's shell
/// if it is not blank, else `/bin/zsh`.
pub open spec fn default_shell_of(env_shell: Option<Seq<char>>) -> Seq<char> {
    if env_shell is Some && trimmed(env_shell.unwrap()).len() > 0 {
        env_shell.unwrap()
    } else {
        "/bin/zsh"@
    }
}

/// The shell program: the configured one, trimmed, unless it is absent or
/// blank.
pub open spec fn shell_program(cfg: StartupConfigView, env_shell: Option<Seq<char>>) -> Seq<char> {
    if cfg.shell is Some && trimmed(cfg.shell.unwrap()).len() > 0 {
        trimmed(cfg.shell.unwrap())
    } else {
        default_shell_of(env_shell)
    }
}

/// The shell's arguments: the configured ones, or the login flag alone where
/// none are configured.
pub open spec fn shell_arguments(cfg: StartupConfigView) -> Seq<Seq<char>> {
    if cfg.shell_args.len() == 0 {
        seq!["-l"@]
    } else {
        cfg.shell_args
    }
}

/// The plain shell command for the given preferences.
pub open spec fn shell_resolution(
    cfg: StartupConfigView,
    env_shell: Option<Seq<char>>,
    fallback_used: bool,
    warning: Option<Seq<char>>,
) -> ResolvedCommandView {
    ResolvedCommandView {
        program: shell_program(cfg, env_shell),
        args: shell_arguments(cfg),
        display: display_of(shell_program(cfg, env_shell), shell_arguments(cfg)),
        fallback_used,
        warning,
    }
}

/// The invocation string configured for the selected multiplexer.
pub open spec fn configured_command(cfg: StartupConfigView) -> Seq<char> {
    match cfg.multiplexer {
        MultiplexerMode::Disabled => Seq::empty(),
        MultiplexerMode::Tmux => cfg.tmux_command,
        MultiplexerMode::Zellij => cfg.zellij_command,
    }
}

/// The start of the warning given when the selected multiplexer is missing.
pub open spec fn warning_prefix(mode: MultiplexerMode) -> Seq<char> {
    match mode {
        MultiplexerMode::Disabled => Seq::empty(),
        MultiplexerMode::Tmux => "tmux が見つからないため通常シェルで起動します: "@,
        MultiplexerMode::Zellij => "zellij が見つからないため通常シェルで起動します: "@,
    }
}

/// The warning given when the selected multiplexer is missing: it names the
/// multiplexer and ends with the configured invocation string.
pub open spec fn missing_warning(cfg: StartupConfigView) -> Seq<char> {
    warning_prefix(cfg.multiplexer) + configured_command(cfg)
}

/// The multiplexer command to look for, from the tokenization of the
/// configured invocation string.
pub open spec fn candidate(cfg: StartupConfigView, split: Option<Seq<Seq<char>>>) -> Result<
    (Seq<char>, Seq<Seq<char>>),
    SessionError,
> {
    match parsed_command(split) {
        Err(e) => Err(e),
        Ok((program, args)) => if cfg.multiplexer is Zellij {
            Ok((program, normalized_args(program, args)))
        } else {
            Ok((program, args))
        },
    }
}

/// What is launched once it is known whether the multiplexer program
/// exists: the multiplexer command as it stands, or the shell with a
/// warning. Without a multiplexer selected it is the shell, with no warning.
pub open spec fn resolution_for(
    cfg: StartupConfigView,
    env_shell: Option<Seq<char>>,
    program: Seq<char>,
    args: Seq<Seq<char>>,
    found: bool,
) -> ResolvedCommandView {
    if cfg.multiplexer is Disabled {
        shell_resolution(cfg, env_shell, false, None)
    } else if found {
        ResolvedCommandView {
            program,
            args,
            display: display_of(program, args),
            fallback_used: false,
            warning: None,
        }
    } else {
        shell_resolution(cfg, env_shell, true, Some(missing_warning(cfg)))
    }
}

/// Where to look for a program.
#[derive(Debug, Clone, PartialEq, Eq)]
pub enum ProbeTarget {
    /// The program is written as a path: it exists if that path does.
    Literal(String),
    /// The program is a bare name: it exists if one of these is a file.
    Candidates(Vec<String>),
}

/// Whether a program is written as a path rather than as a bare name.
pub open spec fn names_path(program: Seq<char>) -> bool {
    program.contains('/')
}

/// The file a bare program name would be in each search directory, in the
/// directories' order.
pub open spec fn candidates_of(program: Seq<char>, dirs: Seq<Seq<char>>) -> Seq<Seq<char>> {
    Seq::new(dirs.len(), |i: int| joined_path(dirs[i], program))
}

/// Tells whether a program is written as a path.
pub fn has_separator(program: &str) -> (r: bool)
    ensures
        r == names_path(program@),
{
    let n: usize = program.unicode_len();
    let mut i: usize = 0;
    while i < n
        invariant
            i <= n,
            n == program@.len(),
            forall|j: int| 0 <= j < i ==> program@[j] != '/',
        decreases n - i,
    {
        if program.get_char(i) == '/' {
            return true;
        }
        i += 1;
    }
    false
}

/// Decides where a program is looked for: at its own path where it is
/// written as one, else under its name in each of `search_dirs`.
pub fn probe_target(program: &str, search_dirs: &Vec<String>) -> (r: ProbeTarget)
    ensures
        names_path(program@) ==> (r matches ProbeTarget::Literal(p) && p@ == program@),
        !names_path(program@) ==> (r matches ProbeTarget::Candidates(c) && words(c@)
            == candidates_of(program@, words(search_dirs@))),
{
    if has_separator(program) {
        return ProbeTarget::Literal(String::from_str(program));
    }
    let mut out: Vec<String> = Vec::new();
    let mut i: usize = 0;
    while i < search_dirs.len()
        invariant
            i <= search_dirs.len(),
            out@.len() == i,
            forall|j: int| 0 <= j < i ==> out@[j]@ == joined_path(search_dirs@[j]@, program@),
        decreases search_dirs.len() - i,
    {
        out.push(join_path(search_dirs[i].clone(), program));
        i += 1;
    }
    assert(words(out@) =~= candidates_of(program@, words(search_dirs@)));
    ProbeTarget::Candidates(out)
}

/// Renders a command for display.
pub fn join_command(program: &str, args: &[String]) -> (r: String)
    ensures
        r@ == display_of(program@, words(args@)),
{
    let mut out = String::from_str(program);
    if args.len() == 0 {
        return out;
    }
    let ghost ws = words(args@);
    proof {
        reveal_strlit(" ");
        assert(" "@ =~= seq![' ']);
    }
    out.append(" ");
    out.append(args[0].as_str());
    let mut i: usize = 1;
    proof {
        assert(ws.take(1).len() == 1);
        assert(spaced(ws.take(1)) == ws[0]);
    }
    while i < args.len()
        invariant
            1 <= i <= args.len(),
            ws == words(args@),
            " "@ == seq![' '],
            out@ == program@ + seq![' '] + spaced(ws.take(i as int)),
        decreases args.len() - i,
    {
        out.append(" ");
        out.append(args[i].as_str());
        proof {
            let next = ws.take(i + 1);
            assert(next.drop_last() =~= ws.take(i as int));
            assert(next.last() == ws[i as int]);
            assert(spaced(next) == spaced(ws.take(i as int)) + seq![' '] + ws[i as int]);
            assert(out@ =~= program@ + seq![' '] + spaced(next));
        }
        i += 1;
    }
    proof {
        assert(ws.take(i as int) =~= ws);
    }
    out
}

/// Adds the session name to the old zellij default that attaches without
/// one; leaves every other command as it is.
pub fn normalize_zellij_attach_args(program: &str, args: &mut Vec<String>)
    ensures
        words(final(args)@) == normalized_args(program@, words(old(args)@)),
{
    if !same_text(program, "zellij") {
        return;
    }
    if args.len() == 2 && same_text(args[0].as_str(), "attach") && same_text(
        args[1].as_str(),
        "-c",
    ) {
        args.push(String::from_str("d3term"));
        assert(words(args@) =~= words(old(args)@).push("d3term"@));
    }
}

/// Separates the words of an invocation into program and arguments.
pub fn command_from_words(parts: Vec<String>) -> (r: Result<(String, Vec<String>), SessionError>)
    ensures
        match parsed_command(Some(words(parts@))) {
            Ok((program, args)) => r matches Ok((p, a)) && p@ == program && words(a@) == args,
            Err(e) => r == Err::<(String, Vec<String>), SessionError>(e),
        },
{
    if parts.len() == 0 {
        return Err(SessionError::InvalidCommand(CommandFault::Empty));
    }
    let mut rest = parts;
    let program = rest.remove(0);
    assert(words(rest@) =~= words(parts@).drop_first());
    Ok((program, rest))
}

/// Tokenizes an invocation string into program and arguments.
pub fn parse_command_line(input: &str) -> (r: Result<(String, Vec<String>), SessionError>)
    ensures
        match parsed_command(shell_split(input@)) {
            Ok((program, args)) => r matches Ok((p, a)) && p@ == program && words(a@) == args,
            Err(e) => r == Err::<(String, Vec<String>), SessionError>(e),
        },
{
    match split_words(input) {
        Ok(parts) => command_from_words(parts),
        Err(_) => Err(SessionError::InvalidCommand(CommandFault::UnbalancedQuote)),
    }
}

/// The shell to use when the preferences name none, given the value of the
/// environment's `SHELL` variable.
pub fn default_shell(env_shell: Option<&str>) -> (r: String)
    ensures
        r@ == default_shell_of(slice_text_of(env_shell)),
{
    if let Some(value) = env_shell {
        if !trim(value).is_empty() {
            return String::from_str(value);
        }
    }
    String::from_str("/bin/zsh")
}

/// Resolves the plain shell command.
pub fn resolve_shell_command(
    startup: &StartupConfig,
    env_shell: Option<&str>,
    fallback_used: bool,
    warning: Option<String>,
) -> (r: ResolvedCommand)
    ensures
        r@ == shell_resolution(
            startup@,
            slice_text_of(env_shell),
            fallback_used,
            text_of(warning),
        ),
{
    let mut configured: Option<String> = None;
    if let Some(value) = &startup.shell {
        let value = trim(value.as_str());
        if !value.is_empty() {
            configured = Some(String::from_str(value));
        }
    }
    let shell = match configured {
        Some(value) => value,
        None => default_shell(env_shell),
    };
    let mut args = copy_words(&startup.shell_args);
    if args.len() == 0 {
        args.push(String::from_str("-l"));
        assert(words(args@) =~= seq!["-l"@]);
    }
    let display = join_command(shell.as_str(), args.as_slice());
    ResolvedCommand { display, program: shell, args, fallback_used, warning }
}

/// Resolves the command once the multiplexer's invocation has been
/// tokenized into `program` and `args` and `found` tells whether `program`
/// exists.
pub fn resolve_probed_command(
    startup: &StartupConfig,
    env_shell: Option<&str>,
    program: String,
    args: Vec<String>,
    found: bool,
) -> (r: ResolvedCommand)
    ensures
        r@ == resolution_for(startup@, slice_text_of(env_shell), program@, words(args@), found),
{
    match startup.multiplexer {
        MultiplexerMode::Disabled => resolve_shell_command(startup, env_shell, false, None),
        MultiplexerMode::Tmux => {
            if found {
                let display = join_command(program.as_str(), args.as_slice());
                ResolvedCommand { display, program, args, fallback_used: false, warning: None }
            } else {
                let mut warning = String::from_str(
                    "tmux が見つからないため通常シェルで起動します: ",
                );
                warning.append(startup.tmux_command.as_str());
                resolve_shell_command(startup, env_shell, true, Some(warning))
            }
        },
        MultiplexerMode::Zellij => {
            if found {
                let display = join_command(program.as_str(), args.as_slice());
                ResolvedCommand { display, program, args, fallback_used: false, warning: None }
            } else {
                let mut warning = String::from_str(
                    "zellij が見つからないため通常シェルで起動します: ",
                );
                warning.append(startup.zellij_command.as_str());
                resolve_shell_command(startup, env_shell, true, Some(warning))
            }
        },
    }
}

/// Resolves the command a new session launches. `command_exists_fn` tells
/// whether a program can be found; it is asked once, about the multiplexer's
/// program, and only where a multiplexer is selected and its invocation
/// string is well formed.
pub fn resolve_startup_command_with_checker<F>(
    startup: &StartupConfig,
    env_shell: Option<&str>,
    command_exists_fn: F,
) -> (r: Result<ResolvedCommand, SessionError>) where F: Fn(&str) -> bool
    requires
        forall|p: &str| call_requires(command_exists_fn, (p,)),
    ensures
        startup.multiplexer is Disabled ==> (r matches Ok(c) && c@ == shell_resolution(
            startup@,
            slice_text_of(env_shell),
            false,
            None,
        )),
        !(startup.multiplexer is Disabled) ==> match candidate(
            startup@,
            shell_split(configured_command(startup@)),
        ) {
            Err(e) => r == Err::<ResolvedCommand, SessionError>(e),
            Ok((program, args)) => r matches Ok(c) && exists|asked: &str, found: bool|
                #[trigger] call_ensures(command_exists_fn, (asked,), found) && asked@ == program
                    && c@ == resolution_for(
                    startup@,
                    slice_text_of(env_shell),
                    program,
                    args,
                    found,
                ),
        },
{
    let parsed = match startup.multiplexer {
        MultiplexerMode::Disabled => {
            return Ok(resolve_shell_command(startup, env_shell, false, None));
        },
        MultiplexerMode::Tmux => parse_command_line(startup.tmux_command.as_str()),
        MultiplexerMode::Zellij => {
            match parse_command_line(startup.zellij_command.as_str()) {
                Ok((program, args)) => {
                    let mut args = args;
                    normalize_zellij_attach_args(program.as_str(), &mut args);
                    Ok((program, args))
                },
                Err(e) => Err(e),
            }
        },
    };
    match parsed {
        Ok((program, args)) => {
            let found = command_exists_fn(program.as_str());
            Ok(resolve_probed_command(startup, env_shell, program, args, found))
        },
        Err(e) => Err(e),
    }
}

/// Without a multiplexer selected, the shell resolution is launched and is
/// not reported as a fallback, whatever else is known.
pub proof fn lemma_disabled_resolves_to_shell(
    cfg: StartupConfigView,
    env_shell: Option<Seq<char>>,
    program: Seq<char>,
    args: Seq<Seq<char>>,
    found: bool,
)
    requires
        cfg.multiplexer is Disabled,
    ensures
        resolution_for(cfg, env_shell, program, args, found) == shell_resolution(
            cfg,
            env_shell,
            false,
            None,
        ),
        resolution_for(cfg, env_shell, program, args, found).program == shell_program(
            cfg,
            env_shell,
        ),
        resolution_for(cfg, env_shell, program, args, found).args == shell_arguments(cfg),
        !resolution_for(cfg, env_shell, program, args, found).fallback_used,
        resolution_for(cfg, env_shell, program, args, found).warning is None,
{
}

/// With a multiplexer selected whose program is not found, the shell
/// resolution is launched, it is reported as a fallback, and the warning
/// ends with the configured invocation string.
pub proof fn lemma_missing_multiplexer_falls_back(
    cfg: StartupConfigView,
    env_shell: Option<Seq<char>>,
    program: Seq<char>,
    args: Seq<Seq<char>>,
)
    requires
        !(cfg.multiplexer is Disabled),
    ensures
        ({
            let r = resolution_for(cfg, env_shell, program, args, false);
            let configured = configured_command(cfg);
            &&& r.fallback_used
            &&& r.program == shell_program(cfg, env_shell)
            &&& r.args == shell_arguments(cfg)
            &&& r.display == display_of(shell_program(cfg, env_shell), shell_arguments(cfg))
            &&& r.warning matches Some(w) && w.len() >= configured.len() && w.skip(
                w.len() - configured.len(),
            ) == configured
        }),
{
    let w = missing_warning(cfg);
    let configured = configured_command(cfg);
    assert(w.skip(w.len() - configured.len()) =~= configured);
}

/// With a multiplexer selected whose program is found, the tokenized
/// command is launched as it stands.
pub proof fn lemma_found_multiplexer_is_launched(
    cfg: StartupConfigView,
    env_shell: Option<Seq<char>>,
    program: Seq<char>,
    args: Seq<Seq<char>>,
)
    requires
        !(cfg.multiplexer is Disabled),
    ensures
        ({
            let r = resolution_for(cfg, env_shell, program, args, true);
            &&& r.program == program
            &&& r.args == args
            &&& r.display == display_of(program, args)
            &&& !r.fallback_used
            &&& r.warning is None
        }),
{
}

/// A malformed invocation string is an error whatever would be found: an
/// open quote and an empty tokenization each give their own fault, and
/// nothing else fails.
pub proof fn lemma_candidate_faults(cfg: StartupConfigView, split: Option<Seq<Seq<char>>>)
    ensures
        split is None ==> candidate(cfg, split) == Err::<(Seq<char>, Seq<Seq<char>>), SessionError>(
            SessionError::InvalidCommand(CommandFault::UnbalancedQuote),
        ),
        split is Some && split.unwrap().len() == 0 ==> candidate(cfg, split) == Err::<
            (Seq<char>, Seq<Seq<char>>),
            SessionError,
        >(SessionError::InvalidCommand(CommandFault::Empty)),
        split is Some && split.unwrap().len() > 0 ==> candidate(cfg, split) is Ok && candidate(
            cfg,
            split,
        ).unwrap().0 == split.unwrap().first(),
{
}

/// A program without arguments is displayed as the program alone.
pub proof fn lemma_display_of_bare_program(program: Seq<char>)
    ensures
        display_of(program, Seq::empty()) == program,
{
}

/// A program with arguments is displayed as the program, a space, and the
/// arguments with a space between neighbours: the first argument follows
/// directly, and each further one adds a space and itself.
pub proof fn lemma_display_joins_with_spaces(
    program: Seq<char>,
    args: Seq<Seq<char>>,
    next: Seq<char>,
)
    requires
        args.len() > 0,
    ensures
        display_of(program, seq![next]) == program + seq![' '] + next,
        display_of(program, args.push(next)) == display_of(program, args) + seq![' '] + next,
{
    assert(seq![next].len() == 1);
    assert(spaced(seq![next]) == next);
    let longer = args.push(next);
    assert(longer.drop_last() =~= args);
    assert(longer.last() == next);
    assert(spaced(longer) == spaced(args) + seq![' '] + next);
    assert(display_of(program, longer) =~= display_of(program, args) + seq![' '] + next);
}

/// A configured shell that is absent or holds nothing but whitespace gives
/// way to the environment's shell where that holds more than whitespace,
/// and to `/bin/zsh` otherwise; any other configured shell is used, trimmed.
pub proof fn lemma_shell_program_choice(cfg: StartupConfigView, env_shell: Option<Seq<char>>)
    ensures
        (cfg.shell is None || is_blank(cfg.shell.unwrap())) && env_shell is Some && !is_blank(
            env_shell.unwrap(),
        ) ==> shell_program(cfg, env_shell) == env_shell.unwrap(),
        (cfg.shell is None || is_blank(cfg.shell.unwrap())) && (env_shell is None || is_blank(
            env_shell.unwrap(),
        )) ==> shell_program(cfg, env_shell) == "/bin/zsh"@,
        cfg.shell is Some && !is_blank(cfg.shell.unwrap()) ==> shell_program(cfg, env_shell)
            == trimmed(cfg.shell.unwrap()),
{
    if cfg.shell is Some {
        lemma_trimmed_empty_iff_blank(cfg.shell.unwrap());
    }
    if env_shell is Some {
        lemma_trimmed_empty_iff_blank(env_shell.unwrap());
    }
}

/// An empty list of shell arguments becomes the login flag alone; any other
/// list is passed on as it is.
pub proof fn lemma_shell_arguments_choice(cfg: StartupConfigView)
    ensures
        cfg.shell_args.len() == 0 ==> shell_arguments(cfg) == seq!["-l"@],
        cfg.shell_args.len() > 0 ==> shell_arguments(cfg) == cfg.shell_args,
{
}

/// Adding the session name happens at most once: arguments that have been
/// normalized are left as they are.
pub proof fn lemma_normalize_is_idempotent(program: Seq<char>, args: Seq<Seq<char>>)
    ensures
        normalized_args(program, normalized_args(program, args)) == normalized_args(
            program,
            args,
        ),
{
}

} // verus!
