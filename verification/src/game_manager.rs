//! The driver's side of the pipeline: the configuration mutation that
//! each stage performs once it succeeds, the update transition that
//! drives the machine back to the game-installation stage, and the
//! assembly of the launch command.

use vstd::prelude::*;
use vstd::string::*;

use crate::error::LauncherError;
use crate::game_config::GameConfig;
use crate::game_state::GameState;
use crate::game_state::spec_current_state;
use crate::game_state::stage_index;

verus! {

/// Pure decision logic of the pipeline driver. The surrounding
/// application runs the installers and calls these functions to advance
/// the persisted configuration.
pub struct GameManager;

/// The configuration after the stage named by `s` has completed: its
/// completion flag is set, and for the update stage the two game flags
/// are cleared instead. The terminal state changes nothing.
pub open spec fn spec_apply_stage(c: GameConfig, s: GameState) -> GameConfig {
    match s {
        GameState::ProtonNotInstalled => GameConfig { is_wine_installed: true, ..c },
        GameState::DXVKNotInstalled => GameConfig { is_dxvk_installed: true, ..c },
        GameState::FontNotInstalled => GameConfig { is_font_installed: true, ..c },
        GameState::DependecieNotInstalled => GameConfig { is_dependecies_installed: true, ..c },
        GameState::GameNotInstalled => GameConfig { is_game_installed: true, ..c },
        GameState::GameNeedUpdate => GameConfig {
            is_game_installed: false,
            is_game_patched: false,
            ..c
        },
        GameState::GameNotPatched => GameConfig { is_game_patched: true, ..c },
        GameState::GameInstalled => c,
    }
}

impl GameManager {
    /// Record that the game needs to be reinstalled: clear the two game
    /// flags so that the next state computation lands on the
    /// game-installation stage and the synchronization engine reconciles
    /// against the new manifest. Everything else is kept.
    pub fn update_game(config: &mut GameConfig)
        ensures
            *final(config) == spec_apply_stage(*old(config), GameState::GameNeedUpdate),
            !final(config).is_game_installed,
            !final(config).is_game_patched,
    {
        config.is_game_installed = false;
        config.is_game_patched = false;
    }

    /// Record the completion of the stage named by `state`: set its
    /// flag, or clear the game flags for the update stage.
    pub fn apply_stage(config: &mut GameConfig, state: GameState)
        ensures
            *final(config) == spec_apply_stage(*old(config), state),
    {
        match state {
            GameState::ProtonNotInstalled => {
                config.is_wine_installed = true;
            },
            GameState::DXVKNotInstalled => {
                config.is_dxvk_installed = true;
            },
            GameState::FontNotInstalled => {
                config.is_font_installed = true;
            },
            GameState::DependecieNotInstalled => {
                config.is_dependecies_installed = true;
            },
            GameState::GameNotInstalled => {
                config.is_game_installed = true;
            },
            GameState::GameNeedUpdate => {
                config.is_game_installed = false;
                config.is_game_patched = false;
            },
            GameState::GameNotPatched => {
                config.is_game_patched = true;
            },
            GameState::GameInstalled => {},
        }
    }
}

/// The pipeline only moves forward: when no update is pending and the
/// machine is not yet terminal, completing the current stage lands the
/// state computation on a strictly later stage. Together with the eight
/// fixed stages this bounds the driver loop: from any configuration it
/// reaches `GameInstalled` in at most eight iterations, visiting each
/// state at most once and in pipeline order.
pub proof fn lemma_monotonic_progression(c: GameConfig)
    requires
        spec_current_state(c, false) != GameState::GameInstalled,
    ensures
        stage_index(spec_current_state(spec_apply_stage(c, spec_current_state(c, false)), false))
            > stage_index(spec_current_state(c, false)),
{
}

/// The configuration after running the driver loop for at most `fuel`
/// iterations with no update pending: each iteration computes the
/// state and, short of the terminal state, applies that stage's
/// mutation.
pub open spec fn spec_run_pipeline(c: GameConfig, fuel: nat) -> GameConfig
    decreases fuel,
{
    if fuel == 0 {
        c
    } else {
        let s = spec_current_state(c, false);
        if s == GameState::GameInstalled {
            c
        } else {
            spec_run_pipeline(spec_apply_stage(c, s), (fuel - 1) as nat)
        }
    }
}

proof fn lemma_pipeline_reaches_terminal(c: GameConfig, fuel: nat)
    requires
        fuel >= 7 - stage_index(spec_current_state(c, false)),
    ensures
        spec_current_state(spec_run_pipeline(c, fuel), false) == GameState::GameInstalled,
    decreases fuel,
{
    let s = spec_current_state(c, false);
    if s != GameState::GameInstalled {
        lemma_monotonic_progression(c);
        lemma_pipeline_reaches_terminal(spec_apply_stage(c, s), (fuel - 1) as nat);
    }
}

/// The driver loop terminates: from any configuration, with no update
/// pending, eight iterations of "compute the state, run that stage"
/// land on `GameInstalled`. With `lemma_monotonic_progression` every
/// iteration lands on a strictly later stage, so each of the eight
/// states is visited at most once and in pipeline order.
pub proof fn lemma_pipeline_terminates(c: GameConfig)
    ensures
        spec_current_state(spec_run_pipeline(c, 8), false) == GameState::GameInstalled,
{
    lemma_pipeline_reaches_terminal(c, 8);
}

/// A pending update is reported exactly at the update stage: with every
/// stage up to the game installation complete and the manifest version
/// differing, the computed state is `GameNeedUpdate`.
pub proof fn lemma_update_detected(c: GameConfig)
    requires
        c.is_wine_installed,
        c.is_dxvk_installed,
        c.is_font_installed,
        c.is_dependecies_installed,
        c.is_game_installed,
    ensures
        spec_current_state(c, true) == GameState::GameNeedUpdate,
{
}

/// Applying the update transition drives the machine back to the
/// game-installation stage: both game flags are cleared and the next
/// computed state is `GameNotInstalled`, whatever the update check then
/// says.
pub proof fn lemma_update_triggers_reinstall(c: GameConfig, needs_update: bool)
    requires
        c.is_wine_installed,
        c.is_dxvk_installed,
        c.is_font_installed,
        c.is_dependecies_installed,
    ensures
        !spec_apply_stage(c, GameState::GameNeedUpdate).is_game_installed,
        !spec_apply_stage(c, GameState::GameNeedUpdate).is_game_patched,
        spec_current_state(spec_apply_stage(c, GameState::GameNeedUpdate), needs_update)
            == GameState::GameNotInstalled,
{
}

/// The characters a launch template is split at.
pub open spec fn is_space_char(c: char) -> bool {
    c == ' ' || c == '\t' || c == '\n' || c == '\r'
}

fn is_space(c: char) -> (r: bool)
    ensures
        r == is_space_char(c),
{
    c == ' ' || c == '\t' || c == '\n' || c == '\r'
}

/// One splitting step: a whitespace character closes the pending token
/// (if any), any other character extends it.
pub open spec fn tok_step(acc: (Seq<Seq<char>>, Seq<char>), c: char) -> (Seq<Seq<char>>, Seq<char>) {
    if is_space_char(c) {
        if acc.1.len() > 0 {
            (acc.0.push(acc.1), Seq::<char>::empty())
        } else {
            acc
        }
    } else {
        (acc.0, acc.1.push(c))
    }
}

/// The tokens closed so far and the pending token after reading `s`.
pub open spec fn spec_tokenize_state(s: Seq<char>) -> (Seq<Seq<char>>, Seq<char>) {
    s.fold_left(
        (Seq::<Seq<char>>::empty(), Seq::<char>::empty()),
        |acc: (Seq<Seq<char>>, Seq<char>), c: char| tok_step(acc, c),
    )
}

/// The whitespace-separated tokens of a launch template, in order.
pub open spec fn spec_tokenize(s: Seq<char>) -> Seq<Seq<char>> {
    let st = spec_tokenize_state(s);
    if st.1.len() > 0 {
        st.0.push(st.1)
    } else {
        st.0
    }
}

proof fn lemma_tokenize_state_step(s: Seq<char>, i: int)
    requires
        0 <= i < s.len(),
    ensures
        spec_tokenize_state(s.take(i + 1)) == tok_step(spec_tokenize_state(s.take(i)), s[i]),
{
    assert(s.take(i + 1).drop_last() =~= s.take(i));
    assert(s.take(i + 1).last() == s[i]);
}

/// Split a launch template at whitespace.
pub fn split_whitespace_tokens(s: &str) -> (tokens: Vec<String>)
    ensures
        tokens.deep_view() == spec_tokenize(s@),
{
    let len = s.unicode_len();
    let mut tokens: Vec<String> = Vec::new();
    let mut start: Option<usize> = None;
    let mut i: usize = 0;
    proof {
        assert(s@.take(0) =~= Seq::<char>::empty());
    }
    while i < len
        invariant
            0 <= i <= len,
            len == s@.len(),
            match start {
                Some(st) => st < i && spec_tokenize_state(s@.take(i as int)) == (
                    tokens.deep_view(),
                    s@.subrange(st as int, i as int),
                ),
                None => spec_tokenize_state(s@.take(i as int)) == (
                    tokens.deep_view(),
                    Seq::<char>::empty(),
                ),
            },
        decreases len - i,
    {
        proof {
            lemma_tokenize_state_step(s@, i as int);
        }
        let c = s.get_char(i);
        match start {
            Some(st) => {
                if is_space(c) {
                    let token = s.substring_char(st, i).to_owned();
                    let ghost pre = tokens.deep_view();
                    tokens.push(token);
                    proof {
                        assert(tokens.deep_view() =~= pre.push(s@.subrange(st as int, i as int)));
                    }
                    start = None;
                } else {
                    proof {
                        assert(s@.subrange(st as int, i + 1) =~= s@.subrange(st as int, i as int)
                            .push(s@[i as int]));
                    }
                }
            },
            None => {
                if !is_space(c) {
                    start = Some(i);
                    proof {
                        assert(s@.subrange(i as int, i + 1) =~= Seq::<char>::empty().push(
                            s@[i as int],
                        ));
                    }
                }
            },
        }
        i = i + 1;
    }
    proof {
        assert(s@.take(len as int) =~= s@);
    }
    match start {
        Some(st) => {
            let token = s.substring_char(st, len).to_owned();
            let ghost pre = tokens.deep_view();
            tokens.push(token);
            proof {
                assert(tokens.deep_view() =~= pre.push(s@.subrange(st as int, len as int)));
            }
        },
        None => {},
    }
    tokens
}

/// Index of the first `%command%` token, or the token count when there
/// is none.
pub open spec fn first_placeholder(ts: Seq<Seq<char>>) -> nat
    decreases ts.len(),
{
    if ts.len() == 0 {
        0
    } else if ts[0] == "%command%"@ {
        0
    } else {
        (1 + first_placeholder(ts.drop_first())) as nat
    }
}

proof fn lemma_first_placeholder_at(ts: Seq<Seq<char>>, k: int)
    requires
        0 <= k <= ts.len(),
        forall|m: int| 0 <= m < k ==> ts[m] != "%command%"@,
        k == ts.len() || ts[k] == "%command%"@,
    ensures
        first_placeholder(ts) == k,
    decreases k,
{
    if k == 0 {
    } else {
        assert(ts[0] != "%command%"@);
        lemma_first_placeholder_at(ts.drop_first(), k - 1);
    }
}

/// The runtime invocation itself: the interpreter, the runtime control
/// script, its `run` verb, and the game binary.
pub open spec fn spec_base_command(
    python: Seq<char>,
    proton_path: Seq<char>,
    binary: Seq<char>,
) -> Seq<Seq<char>> {
    seq![python, proton_path, "run"@, binary]
}

/// Build the plain runtime invocation.
pub fn build_base_command(python: &String, proton_path: &String, binary_path: &String) -> (cmd: Vec<
    String,
>)
    ensures
        cmd.deep_view() == spec_base_command(python@, proton_path@, binary_path@),
{
    let mut cmd: Vec<String> = Vec::new();
    cmd.push(python.clone());
    cmd.push(proton_path.clone());
    cmd.push(String::from_str("run"));
    cmd.push(binary_path.clone());
    proof {
        assert(cmd.deep_view() =~= spec_base_command(python@, proton_path@, binary_path@));
    }
    cmd
}

/// Splice the runtime invocation into a tokenized launch template at
/// the first `%command%` token: what precedes the placeholder wraps the
/// invocation, what follows it becomes extra game arguments. A template
/// without the placeholder is a configuration error, never a silently
/// malformed command.
pub fn splice_launch_command(tokens: &Vec<String>, base: &Vec<String>) -> (r: Result<
    Vec<String>,
    LauncherError,
>)
    ensures
        r is Ok <==> first_placeholder(tokens.deep_view()) < tokens.deep_view().len(),
        r matches Ok(cmd) ==> cmd.deep_view() == tokens.deep_view().take(
            first_placeholder(tokens.deep_view()) as int,
        ) + base.deep_view() + tokens.deep_view().skip(
            first_placeholder(tokens.deep_view()) as int + 1,
        ),
        r matches Err(e) ==> e == LauncherError::MissingCommandPlaceholder,
{
    let placeholder = String::from_str("%command%");
    let mut idx: usize = 0;
    let mut found = false;
    while idx < tokens.len() && !found
        invariant
            0 <= idx <= tokens.len(),
            placeholder@ == "%command%"@,
            !found ==> forall|m: int| 0 <= m < idx ==> tokens.deep_view()[m] != "%command%"@,
            found ==> idx < tokens.len() && tokens.deep_view()[idx as int] == "%command%"@
                && forall|m: int| 0 <= m < idx ==> tokens.deep_view()[m] != "%command%"@,
        decreases tokens.len() - idx + (if found { 0int } else { 1int }),
    {
        if tokens[idx] == placeholder {
            found = true;
        } else {
            idx = idx + 1;
        }
    }
    if !found {
        proof {
            lemma_first_placeholder_at(tokens.deep_view(), tokens.deep_view().len() as int);
        }
        return Err(LauncherError::MissingCommandPlaceholder);
    }
    proof {
        lemma_first_placeholder_at(tokens.deep_view(), idx as int);
    }
    let mut cmd: Vec<String> = Vec::new();
    let mut i: usize = 0;
    while i < idx
        invariant
            0 <= i <= idx,
            idx < tokens@.len(),
            cmd.deep_view() == tokens.deep_view().take(i as int),
        decreases idx - i,
    {
        let ghost pre = cmd.deep_view();
        cmd.push(tokens[i].clone());
        proof {
            assert(cmd.deep_view() =~= pre.push(tokens.deep_view()[i as int]));
            assert(cmd.deep_view() =~= tokens.deep_view().take(i + 1));
        }
        i = i + 1;
    }
    let mut j: usize = 0;
    while j < base.len()
        invariant
            0 <= j <= base@.len(),
            idx < tokens@.len(),
            cmd.deep_view() == tokens.deep_view().take(idx as int) + base.deep_view().take(
                j as int,
            ),
        decreases base@.len() - j,
    {
        let ghost pre = cmd.deep_view();
        cmd.push(base[j].clone());
        proof {
            assert(cmd.deep_view() =~= pre.push(base.deep_view()[j as int]));
            assert(cmd.deep_view() =~= tokens.deep_view().take(idx as int) + base.deep_view().take(
                j + 1,
            ));
        }
        j = j + 1;
    }
    let mut k: usize = idx + 1;
    while k < tokens.len()
        invariant
            idx + 1 <= k <= tokens@.len(),
            cmd.deep_view() == tokens.deep_view().take(idx as int) + base.deep_view()
                + tokens.deep_view().subrange(idx + 1, k as int),
        decreases tokens@.len() - k,
    {
        let ghost pre = cmd.deep_view();
        cmd.push(tokens[k].clone());
        proof {
            assert(cmd.deep_view() =~= pre.push(tokens.deep_view()[k as int]));
            assert(cmd.deep_view() =~= tokens.deep_view().take(idx as int) + base.deep_view()
                + tokens.deep_view().subrange(idx + 1, k + 1));
        }
        k = k + 1;
    }
    proof {
        assert(base.deep_view().take(base.deep_view().len() as int) =~= base.deep_view());
        assert(tokens.deep_view().subrange(idx as int + 1, tokens.deep_view().len() as int)
            =~= tokens.deep_view().skip(idx + 1));
        assert(tokens.deep_view().subrange(idx + 1, idx + 1) =~= Seq::<Seq<char>>::empty());
        assert(tokens.deep_view().take(idx as int) + base.deep_view() + Seq::<Seq<char>>::empty()
            =~= tokens.deep_view().take(idx as int) + base.deep_view());
    }
    Ok(cmd)
}

impl GameManager {
    /// The launch options that apply: an explicit override wins over
    /// the persisted ones.
    pub fn effective_launch_options(explicit: &Option<String>, config: &GameConfig) -> (r: Option<
        String,
    >)
        ensures
            explicit is Some ==> r == *explicit,
            explicit is None ==> r == config.launch_options,
    {
        match explicit {
            Some(o) => Some(o.clone()),
            None => match &config.launch_options {
                Some(o) => Some(o.clone()),
                None => None,
            },
        }
    }

    /// The full command line that starts the game: the plain runtime
    /// invocation, or — when a `%command%` template is given — that
    /// invocation spliced into the template's tokens. A template
    /// without the placeholder is reported, not ignored.
    pub fn build_launch_command(
        python: &String,
        proton_path: &String,
        binary_path: &String,
        custom_command: &Option<String>,
    ) -> (r: Result<Vec<String>, LauncherError>)
        ensures
            custom_command is None ==> (r matches Ok(cmd) && cmd.deep_view() == spec_base_command(
                python@,
                proton_path@,
                binary_path@,
            )),
            custom_command matches Some(t) ==> {
                let toks = spec_tokenize(t@);
                let fp = first_placeholder(toks);
                &&& (r is Ok <==> fp < toks.len())
                &&& (r matches Ok(cmd) ==> cmd.deep_view() == toks.take(fp as int)
                    + spec_base_command(python@, proton_path@, binary_path@) + toks.skip(fp as int + 1))
                &&& (r matches Err(e) ==> e == LauncherError::MissingCommandPlaceholder)
            },
    {
        let base = build_base_command(python, proton_path, binary_path);
        match custom_command {
            None => Ok(base),
            Some(template) => {
                let tokens = split_whitespace_tokens(template.as_str());
                splice_launch_command(&tokens, &base)
            },
        }
    }

    /// The game's log document: the captured standard output, then the
    /// captured standard error, each under its own header.
    pub fn render_game_log(stdout: &String, stderr: &String) -> (r: String)
        ensures
            r@ == "--- stdout ---\n"@ + stdout@ + "--- stderr ---\n"@ + stderr@,
    {
        String::from_str("--- stdout ---\n").concat(stdout.as_str()).concat(
            "--- stderr ---\n",
        ).concat(stderr.as_str())
    }
}

} // verus!
