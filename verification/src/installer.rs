//! How the dependency installer is launched: which script runs, and the
//! terminal emulators tried in turn to show it.
use vstd::prelude::*;
use crate::paths::{join, join_path};
use crate::text::{chars_of, replace_all, replace_all_chars, string_of, trim, trim_chars};

verus! {

broadcast use vstd::string::group_string_axioms;

/// The installer script below a directory.
pub open spec fn script_in(dir: Seq<char>) -> Seq<char> {
    join(join(dir, "scripts"@), "install_deps.sh"@)
}

/// The installer script below `dir`.
pub fn script_path_in(dir: &str) -> (r: String)
    ensures
        r@ == script_in(dir@),
{
    let a = join_path(dir, "scripts");
    join_path(a.as_str(), "install_deps.sh")
}

/// The command fetching and running the published installer.
pub open spec fn remote_install() -> Seq<char> {
    "curl -sSL https://raw.githubusercontent.com/MISTERNEGATIVE21/Omywall/main/scripts/install_deps.sh | bash"@
}

/// The shell command run in the terminal: the local script when one was
/// found (the working directory's before the program's), else the
/// published one; then a prompt to close.
pub open spec fn installer_command_of(local: Option<Seq<char>>) -> Seq<char> {
    (match local {
        Some(p) => "bash "@ + p,
        None => remote_install(),
    }) + "; echo ''; echo 'Done. Press Enter to close...'; read _"@
}

/// The installer script to run: the one below the working directory when
/// it exists, else the one beside the program when it exists.
pub open spec fn local_script(cwd_script: Seq<char>, cwd_exists: bool, exe_script: Option<Seq<char>>, exe_exists: bool) -> Option<Seq<char>> {
    if cwd_exists {
        Some(cwd_script)
    } else {
        match exe_script {
            Some(e) => if exe_exists {
                Some(e)
            } else {
                None
            },
            None => None,
        }
    }
}

/// The optional text of an optional string reference.
pub open spec fn opt_text(s: Option<&str>) -> Option<Seq<char>> {
    match s {
        Some(t) => Some(t@),
        None => None,
    }
}

/// The shell command that runs the installer, from the candidate scripts
/// and whether they exist.
pub fn installer_command(cwd_script: &str, cwd_exists: bool, exe_script: Option<&str>, exe_exists: bool) -> (r: String)
    ensures
        r@ == installer_command_of(local_script(cwd_script@, cwd_exists, opt_text(exe_script), exe_exists)),
{
    let mut s = if cwd_exists {
        let mut t = "bash ".to_string();
        t.append(cwd_script);
        t
    } else {
        match exe_script {
            Some(e) => if exe_exists {
                let mut t = "bash ".to_string();
                t.append(e);
                t
            } else {
                "curl -sSL https://raw.githubusercontent.com/MISTERNEGATIVE21/Omywall/main/scripts/install_deps.sh | bash".to_string()
            },
            None => "curl -sSL https://raw.githubusercontent.com/MISTERNEGATIVE21/Omywall/main/scripts/install_deps.sh | bash".to_string(),
        }
    };
    s.append("; echo ''; echo 'Done. Press Enter to close...'; read _");
    s
}

/// A program to start, with its arguments, and what to report when it
/// starts.
#[derive(Debug, Clone, PartialEq)]
pub struct LaunchAttempt {
    pub program: String,
    pub args: Vec<String>,
    pub message: String,
}

/// The texts of a vector of strings.
pub open spec fn texts(v: Seq<String>) -> Seq<Seq<char>> {
    v.map_values(|x: String| x@)
}

/// An attempt as texts.
pub open spec fn attempt_view(a: LaunchAttempt) -> (Seq<char>, Seq<Seq<char>>, Seq<char>) {
    (a.program@, texts(a.args@), a.message@)
}

/// The known terminals with the arguments that make them run `cmd`.
pub open spec fn known_terminals(cmd: Seq<char>) -> Seq<(Seq<char>, Seq<Seq<char>>)> {
    seq![
        ("ghostty"@, seq!["-e"@, "bash"@, "-c"@, cmd]),
        ("kitty"@, seq!["-e"@, "bash"@, "-c"@, cmd]),
        ("alacritty"@, seq!["-e"@, "bash"@, "-c"@, cmd]),
        ("foot"@, seq!["bash"@, "-c"@, cmd]),
        ("wezterm"@, seq!["start"@, "--"@, "bash"@, "-c"@, cmd]),
        ("konsole"@, seq!["-e"@, "bash"@, "-c"@, cmd]),
        ("gnome-terminal"@, seq!["--"@, "bash"@, "-c"@, cmd]),
        ("xfce4-terminal"@, seq!["-x"@, "bash"@, "-c"@, cmd]),
        ("x-terminal-emulator"@, seq!["-e"@, "bash"@, "-c"@, cmd]),
        ("xterm"@, seq!["-e"@, "bash"@, "-c"@, cmd]),
    ]
}

/// The command given to the shell when no terminal could be started: the
/// usual terminals chained with `||`, the command in single quotes.
pub open spec fn shell_fallback_of(cmd: Seq<char>) -> Seq<char> {
    let q = replace_all(cmd, "'"@, "'\\''"@);
    "ghostty -e bash -c '"@ + q + "' || kitty -e bash -c '"@ + q + "' || alacritty -e bash -c '"@ + q
        + "' || foot bash -c '"@ + q + "' || konsole -e bash -c '"@ + q + "' || gnome-terminal -- bash -c '"@ + q
        + "' || x-terminal-emulator -e bash -c '"@ + q + "'"@
}

/// The attempt with the terminal named by `$TERMINAL` (trimmed), when it
/// is set and not blank.
pub open spec fn terminal_attempt(cmd: Seq<char>, terminal: Option<Seq<char>>) -> Seq<
    (Seq<char>, Seq<Seq<char>>, Seq<char>),
> {
    match terminal {
        Some(t) => if trim(t).len() > 0 {
            let tt = trim(t);
            seq![
                (
                    tt,
                    if tt == "foot"@ {
                        seq!["bash"@, "-c"@, cmd]
                    } else {
                        seq!["-e"@, "bash"@, "-c"@, cmd]
                    },
                    "Launched dependency installer script in $TERMINAL ("@ + tt + ")"@,
                ),
            ]
        } else {
            seq![]
        },
        None => seq![],
    }
}

/// The attempts, in order: the terminal named by `$TERMINAL`, each known
/// terminal, then the shell fallback.
pub open spec fn installer_attempts_of(cmd: Seq<char>, terminal: Option<Seq<char>>) -> Seq<
    (Seq<char>, Seq<Seq<char>>, Seq<char>),
> {
    terminal_attempt(cmd, terminal) + known_terminals(cmd).map_values(
        |k: (Seq<char>, Seq<Seq<char>>)| (k.0, k.1, "Launched dependency installer script in "@ + k.0),
    ) + seq![("sh"@, seq!["-c"@, shell_fallback_of(cmd)], "Launched dependency installer script via shell fallback"@)]
}

fn lead(a: &str, b: &str, c: &str, d: Option<&str>) -> (r: Vec<String>)
    ensures
        texts(r@) == match d {
            Some(x) => seq![a@, b@, c@, x@],
            None => seq![a@, b@, c@],
        },
{
    let mut v: Vec<String> = Vec::new();
    v.push(a.to_string());
    v.push(b.to_string());
    v.push(c.to_string());
    match d {
        Some(x) => v.push(x.to_string()),
        None => {},
    }
    proof {
        match d {
            Some(x) => assert(texts(v@) =~= seq![a@, b@, c@, x@]),
            None => assert(texts(v@) =~= seq![a@, b@, c@]),
        }
    }
    v
}

fn attempt(program: &str, args: Vec<String>, message: String) -> (r: LaunchAttempt)
    ensures
        r.program@ == program@,
        r.args == args,
        r.message == message,
{
    LaunchAttempt { program: program.to_string(), args, message }
}

fn known_attempt(program: &str, args: Vec<String>) -> (r: LaunchAttempt)
    ensures
        r.program@ == program@,
        r.args == args,
        r.message@ == "Launched dependency installer script in "@ + program@,
{
    let mut m = "Launched dependency installer script in ".to_string();
    m.append(program);
    attempt(program, args, m)
}

fn shell_fallback(cmd: &str) -> (r: String)
    ensures
        r@ == shell_fallback_of(cmd@),
{
    let c = chars_of(cmd);
    let from = chars_of("'");
    let to = chars_of("'\\''");
    proof {
        reveal_strlit("'");
    }
    let qv = replace_all_chars(c.as_slice(), from.as_slice(), to.as_slice());
    let q = string_of(qv.as_slice());
    let mut s = "ghostty -e bash -c '".to_string();
    s.append(q.as_str());
    s.append("' || kitty -e bash -c '");
    s.append(q.as_str());
    s.append("' || alacritty -e bash -c '");
    s.append(q.as_str());
    s.append("' || foot bash -c '");
    s.append(q.as_str());
    s.append("' || konsole -e bash -c '");
    s.append(q.as_str());
    s.append("' || gnome-terminal -- bash -c '");
    s.append(q.as_str());
    s.append("' || x-terminal-emulator -e bash -c '");
    s.append(q.as_str());
    s.append("'");
    s
}

/// The attempts with the known terminals, in order.
fn known_attempts(cmd: &str) -> (r: Vec<LaunchAttempt>)
    ensures
        r@.map_values(|a: LaunchAttempt| attempt_view(a)) == known_terminals(cmd@).map_values(
            |k: (Seq<char>, Seq<Seq<char>>)| (k.0, k.1, "Launched dependency installer script in "@ + k.0),
        ),
{
    let ghost kt = known_terminals(cmd@).map_values(
        |k: (Seq<char>, Seq<Seq<char>>)| (k.0, k.1, "Launched dependency installer script in "@ + k.0),
    );
    let mut w: Vec<LaunchAttempt> = Vec::new();
    let a0 = known_attempt("ghostty", lead("-e", "bash", "-c", Some(cmd)));
    assert(attempt_view(a0) == kt[0]);
    w.push(a0);
    let a1 = known_attempt("kitty", lead("-e", "bash", "-c", Some(cmd)));
    assert(attempt_view(a1) == kt[1]);
    w.push(a1);
    let a2 = known_attempt("alacritty", lead("-e", "bash", "-c", Some(cmd)));
    assert(attempt_view(a2) == kt[2]);
    w.push(a2);
    let a3 = known_attempt("foot", lead("bash", "-c", cmd, None));
    assert(attempt_view(a3) == kt[3]);
    w.push(a3);
    let mut wez = lead("start", "--", "bash", Some("-c"));
    let ghost wz = texts(wez@);
    wez.push(cmd.to_string());
    assert(texts(wez@) == wz.push(cmd@));
    let a4 = known_attempt("wezterm", wez);
    assert(attempt_view(a4) == kt[4]);
    w.push(a4);
    let a5 = known_attempt("konsole", lead("-e", "bash", "-c", Some(cmd)));
    assert(attempt_view(a5) == kt[5]);
    w.push(a5);
    let a6 = known_attempt("gnome-terminal", lead("--", "bash", "-c", Some(cmd)));
    assert(attempt_view(a6) == kt[6]);
    w.push(a6);
    let a7 = known_attempt("xfce4-terminal", lead("-x", "bash", "-c", Some(cmd)));
    assert(attempt_view(a7) == kt[7]);
    w.push(a7);
    let a8 = known_attempt("x-terminal-emulator", lead("-e", "bash", "-c", Some(cmd)));
    assert(attempt_view(a8) == kt[8]);
    w.push(a8);
    let a9 = known_attempt("xterm", lead("-e", "bash", "-c", Some(cmd)));
    assert(attempt_view(a9) == kt[9]);
    w.push(a9);
    assert(w@.map_values(|a: LaunchAttempt| attempt_view(a)) =~= kt);
    w
}

/// The programs tried in turn to show the installer running `cmd`, and
/// what each reports when it starts; `terminal` is `$TERMINAL` when set.
pub fn installer_attempts(cmd: &str, terminal: Option<&str>) -> (r: Vec<LaunchAttempt>)
    ensures
        r@.map_values(|a: LaunchAttempt| attempt_view(a)) == installer_attempts_of(cmd@, opt_text(terminal)),
{
    let mut v: Vec<LaunchAttempt> = Vec::new();
    match terminal {
        Some(t) => {
            let tt = string_of(trim_chars(chars_of(t).as_slice()).as_slice());
            if !tt.as_str().is_empty() {
                let args = if tt == "foot".to_string() {
                    lead("bash", "-c", cmd, None)
                } else {
                    lead("-e", "bash", "-c", Some(cmd))
                };
                let mut m = "Launched dependency installer script in $TERMINAL (".to_string();
                m.append(tt.as_str());
                m.append(")");
                v.push(attempt(tt.as_str(), args, m));
            }
        },
        None => {},
    }
    let ghost first = v@.map_values(|a: LaunchAttempt| attempt_view(a));
    assert(first =~= terminal_attempt(cmd@, opt_text(terminal)));
    let ghost kt = known_terminals(cmd@).map_values(
        |k: (Seq<char>, Seq<Seq<char>>)| (k.0, k.1, "Launched dependency installer script in "@ + k.0),
    );
    let mut w = known_attempts(cmd);
    v.append(&mut w);
    let ghost head = v@.map_values(|a: LaunchAttempt| attempt_view(a));
    assert(head =~= first + kt);
    let mut sh_args: Vec<String> = Vec::new();
    sh_args.push("-c".to_string());
    sh_args.push(shell_fallback(cmd));
    assert(texts(sh_args@) =~= seq!["-c"@, shell_fallback_of(cmd@)]);
    let last = attempt("sh", sh_args, "Launched dependency installer script via shell fallback".to_string());
    assert(attempt_view(last) == ("sh"@, seq!["-c"@, shell_fallback_of(cmd@)], "Launched dependency installer script via shell fallback"@));
    v.push(last);
    assert(v@.map_values(|a: LaunchAttempt| attempt_view(a)) =~= head.push(attempt_view(last)));
    assert(v@.map_values(|a: LaunchAttempt| attempt_view(a)) =~= installer_attempts_of(cmd@, opt_text(terminal)));
    v
}

/// What is reported when not even the shell could be started.
pub fn installer_failure(err: &str) -> (r: String)
    ensures
        r@ == "Failed to launch terminal for installer: "@ + err@,
{
    let mut s = "Failed to launch terminal for installer: ".to_string();
    s.append(err);
    s
}

} // verus!
