//! A tiny argument parser for a handful of options.

use crate::text::{opt_text, same_text, texts};
use vstd::prelude::*;
use vstd::string::*;

verus! {

/// What the program is asked to do.
#[derive(Debug, Clone, Copy, PartialEq, Eq, Structural)]
pub enum Mode {
    Gui,
    Daemon,
    /// Play one effect of the given kind and exit.
    Test(TestEffect),
    /// Print a troubleshooting report and exit.
    Diagnose,
    Version,
}

/// The effects that can be played for a test.
#[derive(Debug, Clone, Copy, PartialEq, Eq, Structural)]
pub enum TestEffect {
    Constant,
    Spring,
    Damper,
    Rumble,
    Sine,
}

/// A command line that leads to a run.
#[derive(Debug)]
pub struct Args {
    pub mode: Mode,
    pub config_path: Option<String>,
}

/// A command line that ends the program at once.
#[derive(Debug)]
pub enum ArgsEnd {
    /// The help text was asked for.
    Help,
    /// There is no such test effect.
    UnknownTestEffect(String),
    /// There is no such option.
    UnknownArgument(String),
}

/// An [`Args`] by the characters of its texts.
pub struct ArgsView {
    pub mode: Mode,
    pub config_path: Option<Seq<char>>,
}

/// An [`ArgsEnd`] by the characters of its texts.
pub enum ArgsEndView {
    Help,
    UnknownTestEffect(Seq<char>),
    UnknownArgument(Seq<char>),
}

impl View for Args {
    type V = ArgsView;

    open spec fn view(&self) -> ArgsView {
        ArgsView { mode: self.mode, config_path: opt_text(self.config_path) }
    }
}

impl View for ArgsEnd {
    type V = ArgsEndView;

    open spec fn view(&self) -> ArgsEndView {
        match *self {
            ArgsEnd::Help => ArgsEndView::Help,
            ArgsEnd::UnknownTestEffect(s) => ArgsEndView::UnknownTestEffect(s@),
            ArgsEnd::UnknownArgument(s) => ArgsEndView::UnknownArgument(s@),
        }
    }
}

/// The test effect of a name.
pub open spec fn test_effect_of(kind: Seq<char>) -> Option<TestEffect> {
    if kind == "constant"@ {
        Some(TestEffect::Constant)
    } else if kind == "spring"@ {
        Some(TestEffect::Spring)
    } else if kind == "damper"@ {
        Some(TestEffect::Damper)
    } else if kind == "rumble"@ {
        Some(TestEffect::Rumble)
    } else if kind == "sine"@ {
        Some(TestEffect::Sine)
    } else {
        None
    }
}

/// The test effect of a name.
pub fn test_effect(kind: &str) -> (out: Option<TestEffect>)
    ensures
        out == test_effect_of(kind@),
{
    if same_text(kind, "constant") {
        Some(TestEffect::Constant)
    } else if same_text(kind, "spring") {
        Some(TestEffect::Spring)
    } else if same_text(kind, "damper") {
        Some(TestEffect::Damper)
    } else if same_text(kind, "rumble") {
        Some(TestEffect::Rumble)
    } else if same_text(kind, "sine") {
        Some(TestEffect::Sine)
    } else {
        None
    }
}

/// What the options that are left lead to, given what those before them chose.
///
/// Later options override earlier ones. `--test` without a kind plays the
/// constant force; `--config` without a path goes back to the default path.
pub open spec fn args_of(rest: Seq<Seq<char>>, so_far: ArgsView) -> Result<ArgsView, ArgsEndView>
    decreases rest.len(),
{
    if rest.len() == 0 {
        Ok(so_far)
    } else {
        let arg = rest[0];
        let tail = rest.drop_first();
        let value = if tail.len() > 0 {
            Some(tail[0])
        } else {
            None
        };
        let behind = if tail.len() > 0 {
            tail.drop_first()
        } else {
            tail
        };
        if arg == "--daemon"@ || arg == "-d"@ {
            args_of(tail, ArgsView { mode: Mode::Daemon, ..so_far })
        } else if arg == "--gui"@ {
            args_of(tail, ArgsView { mode: Mode::Gui, ..so_far })
        } else if arg == "--diagnose"@ {
            args_of(tail, ArgsView { mode: Mode::Diagnose, ..so_far })
        } else if arg == "--version"@ || arg == "-V"@ {
            args_of(tail, ArgsView { mode: Mode::Version, ..so_far })
        } else if arg == "--test"@ {
            let kind = match value {
                Some(k) => k,
                None => "constant"@,
            };
            match test_effect_of(kind) {
                Some(effect) => args_of(behind, ArgsView { mode: Mode::Test(effect), ..so_far }),
                None => Err(ArgsEndView::UnknownTestEffect(kind)),
            }
        } else if arg == "--config"@ || arg == "-c"@ {
            args_of(behind, ArgsView { config_path: value, ..so_far })
        } else if arg == "--help"@ || arg == "-h"@ {
            Err(ArgsEndView::Help)
        } else {
            Err(ArgsEndView::UnknownArgument(arg))
        }
    }
}

/// What a command line means, the program name left out.
pub open spec fn parsed_args(args: Seq<Seq<char>>) -> Result<ArgsView, ArgsEndView> {
    args_of(args, ArgsView { mode: Mode::Gui, config_path: None })
}

/// A parser result by its view.
pub open spec fn outcome(out: Result<Args, ArgsEnd>) -> Result<ArgsView, ArgsEndView> {
    match out {
        Ok(a) => Ok(a@),
        Err(e) => Err(e@),
    }
}

/// Reads a command line, the program name left out.
pub fn parse_args(args: &Vec<String>) -> (out: Result<Args, ArgsEnd>)
    ensures
        outcome(out) == parsed_args(texts(args@)),
{
    let ghost all = texts(args@);
    let mut mode: Mode = Mode::Gui;
    let mut config_path: Option<String> = None;
    let mut i: usize = 0;
    assert(all.skip(0) =~= all);
    while i < args.len()
        invariant
            i <= args@.len(),
            all == texts(args@),
            parsed_args(all) == args_of(
                all.skip(i as int),
                ArgsView { mode, config_path: opt_text(config_path) },
            ),
        decreases args@.len() - i,
    {
        let arg: &str = args[i].as_str();
        let ghost rest = all.skip(i as int);
        proof {
            assert(rest[0] == arg@);
            assert(rest.drop_first() =~= all.skip(i + 1));
            if i + 1 < args@.len() {
                assert(rest.drop_first()[0] == args@[i + 1]@);
                assert(rest.drop_first().drop_first() =~= all.skip(i + 2));
            }
        }
        if same_text(arg, "--daemon") || same_text(arg, "-d") {
            mode = Mode::Daemon;
            i = i + 1;
        } else if same_text(arg, "--gui") {
            mode = Mode::Gui;
            i = i + 1;
        } else if same_text(arg, "--diagnose") {
            mode = Mode::Diagnose;
            i = i + 1;
        } else if same_text(arg, "--version") || same_text(arg, "-V") {
            mode = Mode::Version;
            i = i + 1;
        } else if same_text(arg, "--test") {
            i = i + 1;
            let kind: &str = if i < args.len() {
                args[i].as_str()
            } else {
                "constant"
            };
            match test_effect(kind) {
                Some(effect) => {
                    mode = Mode::Test(effect);
                },
                None => {
                    return Err(ArgsEnd::UnknownTestEffect(kind.to_owned()));
                },
            }
            if i < args.len() {
                i = i + 1;
            }
        } else if same_text(arg, "--config") || same_text(arg, "-c") {
            i = i + 1;
            if i < args.len() {
                config_path = Some(args[i].clone());
                i = i + 1;
            } else {
                config_path = None;
            }
        } else if same_text(arg, "--help") || same_text(arg, "-h") {
            return Err(ArgsEnd::Help);
        } else {
            return Err(ArgsEnd::UnknownArgument(arg.to_owned()));
        }
    }
    assert(all.skip(i as int) =~= Seq::empty());
    Ok(Args { mode, config_path })
}

impl ArgsEnd {
    /// The exit status: success after help, 2 after a mistake.
    pub fn exit_code(&self) -> (code: i32)
        ensures
            code == (if self@ == ArgsEndView::Help {
                0int
            } else {
                2int
            }),
    {
        match self {
            ArgsEnd::Help => 0,
            ArgsEnd::UnknownTestEffect(_) => 2,
            ArgsEnd::UnknownArgument(_) => 2,
        }
    }

    /// The line for the error stream, if there is one.
    pub open spec fn complaint_text(end: ArgsEndView) -> Option<Seq<char>> {
        match end {
            ArgsEndView::Help => None,
            ArgsEndView::UnknownTestEffect(kind) => Some(
                "unknown test effect '"@ + kind + "'"@,
            ),
            ArgsEndView::UnknownArgument(arg) => Some("unknown argument: "@ + arg),
        }
    }

    /// The line for the error stream, if there is one.
    pub fn complaint(&self) -> (line: Option<String>)
        ensures
            opt_text(line) == Self::complaint_text(self@),
    {
        match self {
            ArgsEnd::Help => None,
            ArgsEnd::UnknownTestEffect(kind) => Some(
                "unknown test effect '".to_owned().concat(kind.as_str()).concat("'"),
            ),
            ArgsEnd::UnknownArgument(arg) => Some(
                "unknown argument: ".to_owned().concat(arg.as_str()),
            ),
        }
    }

    /// Whether the help text is printed before the program ends: it is, unless
    /// only the test effect was unknown.
    pub fn shows_help(&self) -> (yes: bool)
        ensures
            yes == !(self@ is UnknownTestEffect),
    {
        match self {
            ArgsEnd::Help => true,
            ArgsEnd::UnknownTestEffect(_) => false,
            ArgsEnd::UnknownArgument(_) => true,
        }
    }
}

/// The help text behind the program's version.
pub open spec fn help_body() -> Seq<char> {
    " - Force feedback enhancer for FS25 on Linux\n\nUSAGE:\nfs25-ffb [OPTIONS]\n\nOPTIONS:\n--gui              Launch configuration GUI (default)\n--daemon, -d       Run headless (for systemd user service)\n--diagnose         Print troubleshooting report to stdout and exit\n--test <kind>      Play one test effect and exit\nkinds: constant, spring, damper, rumble, sine\n--config, -c PATH  Use alternate config file\n--version, -V      Print version\n--help, -h         This message\n"@
}

/// The help text of a version.
pub fn help_text(version: &str) -> (out: String)
    ensures
        out@ == "fs25-ffb "@ + version@ + help_body(),
{
    "fs25-ffb ".to_owned().concat(version).concat(
        " - Force feedback enhancer for FS25 on Linux\n\nUSAGE:\nfs25-ffb [OPTIONS]\n\nOPTIONS:\n--gui              Launch configuration GUI (default)\n--daemon, -d       Run headless (for systemd user service)\n--diagnose         Print troubleshooting report to stdout and exit\n--test <kind>      Play one test effect and exit\nkinds: constant, spring, damper, rumble, sine\n--config, -c PATH  Use alternate config file\n--version, -V      Print version\n--help, -h         This message\n",
    )
}

// ---------------------------------------------------------------------------
// Laws
// ---------------------------------------------------------------------------

/// An option that stands alone and selects a mode.
pub open spec fn mode_of(arg: Seq<char>) -> Option<Mode> {
    if arg == "--daemon"@ || arg == "-d"@ {
        Some(Mode::Daemon)
    } else if arg == "--gui"@ {
        Some(Mode::Gui)
    } else if arg == "--diagnose"@ {
        Some(Mode::Diagnose)
    } else if arg == "--version"@ || arg == "-V"@ {
        Some(Mode::Version)
    } else {
        None
    }
}

/// The last mode option wins: in front of another one, a mode option has no
/// effect.
pub proof fn law_last_mode_wins(first: Seq<char>, second: Seq<char>, rest: Seq<Seq<char>>, so_far: ArgsView)
    requires
        mode_of(first) is Some,
        mode_of(second) is Some,
    ensures
        args_of(seq![first, second] + rest, so_far) == args_of(seq![second] + rest, so_far),
{
    let both = seq![first, second] + rest;
    let one = seq![second] + rest;
    assert(both[0] == first);
    assert(both.drop_first() =~= one);
    assert(one[0] == second);
    let chosen = ArgsView { mode: mode_of(first)->0, ..so_far };
    assert(args_of(both, so_far) == args_of(one, chosen));
    assert(args_of(one, chosen) == args_of(one, so_far));
}

/// A mistake is reported whatever valid mode options stand in front of it.
pub proof fn law_unknown_argument_is_reported(modes: Seq<Seq<char>>, arg: Seq<char>, rest: Seq<Seq<char>>, so_far: ArgsView)
    requires
        forall|i: int| 0 <= i < modes.len() ==> mode_of(#[trigger] modes[i]) is Some,
        mode_of(arg) is None,
        arg != "--test"@,
        arg != "--config"@ && arg != "-c"@,
        arg != "--help"@ && arg != "-h"@,
    ensures
        args_of(modes + seq![arg] + rest, so_far) == Err::<ArgsView, ArgsEndView>(
            ArgsEndView::UnknownArgument(arg),
        ),
    decreases modes.len(),
{
    let all = modes + seq![arg] + rest;
    if modes.len() == 0 {
        assert(all[0] == arg);
    } else {
        assert(all[0] == modes[0]);
        assert(all.drop_first() =~= modes.drop_first() + seq![arg] + rest);
        assert forall|i: int| 0 <= i < modes.drop_first().len() implies mode_of(
            #[trigger] modes.drop_first()[i],
        ) is Some by {
            assert(modes.drop_first()[i] == modes[i + 1]);
        }
        law_unknown_argument_is_reported(
            modes.drop_first(),
            arg,
            rest,
            ArgsView { mode: mode_of(modes[0])->0, ..so_far },
        );
    }
}

/// The options differ in their first characters or in their length.
proof fn lemma_options_differ()
    ensures
        "--daemon"@.len() == 8 && "--daemon"@[2] == 'd' && "--daemon"@[3] == 'a',
        "-d"@.len() == 2 && "-d"@[1] == 'd',
        "--gui"@.len() == 5,
        "--diagnose"@.len() == 10,
        "--version"@.len() == 9,
        "-V"@.len() == 2 && "-V"@[1] == 'V',
        "--test"@.len() == 6 && "--test"@[2] == 't',
        "--config"@.len() == 8 && "--config"@[2] == 'c',
        "-c"@.len() == 2 && "-c"@[1] == 'c',
        "--help"@.len() == 6 && "--help"@[2] == 'h',
        "-h"@.len() == 2 && "-h"@[1] == 'h',
{
    reveal_strlit("--daemon");
    reveal_strlit("-d");
    reveal_strlit("--gui");
    reveal_strlit("--diagnose");
    reveal_strlit("--version");
    reveal_strlit("-V");
    reveal_strlit("--test");
    reveal_strlit("--config");
    reveal_strlit("-c");
    reveal_strlit("--help");
    reveal_strlit("-h");
}

proof fn lemma_first(arg: Seq<char>, rest: Seq<Seq<char>>)
    ensures
        (seq![arg] + rest).len() == rest.len() + 1,
        (seq![arg] + rest)[0] == arg,
        (seq![arg] + rest).drop_first() == rest,
{
    assert((seq![arg] + rest).drop_first() =~= rest);
}

/// An option that selects a mode does so for all that follows, and keeps the
/// configuration path. Without any option left, what was chosen stands.
pub proof fn law_mode_options_select_their_mode(rest: Seq<Seq<char>>, so_far: ArgsView)
    ensures
        args_of(Seq::<Seq<char>>::empty(), so_far) == Ok::<ArgsView, ArgsEndView>(so_far),
        args_of(seq!["--daemon"@] + rest, so_far) == args_of(
            rest,
            ArgsView { mode: Mode::Daemon, config_path: so_far.config_path },
        ),
        args_of(seq!["-d"@] + rest, so_far) == args_of(
            rest,
            ArgsView { mode: Mode::Daemon, config_path: so_far.config_path },
        ),
        args_of(seq!["--gui"@] + rest, so_far) == args_of(
            rest,
            ArgsView { mode: Mode::Gui, config_path: so_far.config_path },
        ),
        args_of(seq!["--diagnose"@] + rest, so_far) == args_of(
            rest,
            ArgsView { mode: Mode::Diagnose, config_path: so_far.config_path },
        ),
        args_of(seq!["--version"@] + rest, so_far) == args_of(
            rest,
            ArgsView { mode: Mode::Version, config_path: so_far.config_path },
        ),
        args_of(seq!["-V"@] + rest, so_far) == args_of(
            rest,
            ArgsView { mode: Mode::Version, config_path: so_far.config_path },
        ),
{
    lemma_options_differ();
    lemma_first("--daemon"@, rest);
    lemma_first("-d"@, rest);
    lemma_first("--gui"@, rest);
    lemma_first("--diagnose"@, rest);
    lemma_first("--version"@, rest);
    lemma_first("-V"@, rest);
}

/// `--config` takes the path behind it and keeps the mode; at the end of the
/// line it goes back to the default path.
pub proof fn law_config_takes_a_path(path: Seq<char>, rest: Seq<Seq<char>>, so_far: ArgsView)
    ensures
        args_of(seq!["--config"@] + (seq![path] + rest), so_far) == args_of(
            rest,
            ArgsView { mode: so_far.mode, config_path: Some(path) },
        ),
        args_of(seq!["-c"@] + (seq![path] + rest), so_far) == args_of(
            rest,
            ArgsView { mode: so_far.mode, config_path: Some(path) },
        ),
        args_of(seq!["--config"@], so_far) == Ok::<ArgsView, ArgsEndView>(
            ArgsView { mode: so_far.mode, config_path: None },
        ),
        args_of(seq!["-c"@], so_far) == Ok::<ArgsView, ArgsEndView>(
            ArgsView { mode: so_far.mode, config_path: None },
        ),
{
    reveal_with_fuel(args_of, 2);
    lemma_options_differ();
    lemma_first(path, rest);
    lemma_first("--config"@, seq![path] + rest);
    lemma_first("-c"@, seq![path] + rest);
    lemma_first("--config"@, Seq::empty());
    lemma_first("-c"@, Seq::empty());
    assert(seq!["--config"@] + Seq::<Seq<char>>::empty() =~= seq!["--config"@]);
    assert(seq!["-c"@] + Seq::<Seq<char>>::empty() =~= seq!["-c"@]);
}

/// There are five test effects, each under its own name, and no others.
pub proof fn law_test_effects_have_names(kind: &str, out: Option<TestEffect>)
    requires
        call_ensures(test_effect, (kind,), out),
    ensures
        kind@ == "constant"@ <==> out == Some(TestEffect::Constant),
        kind@ == "spring"@ <==> out == Some(TestEffect::Spring),
        kind@ == "damper"@ <==> out == Some(TestEffect::Damper),
        kind@ == "rumble"@ <==> out == Some(TestEffect::Rumble),
        kind@ == "sine"@ <==> out == Some(TestEffect::Sine),
{
    lemma_effects_differ();
}

proof fn lemma_effects_differ()
    ensures
        "constant"@.len() == 8,
        "spring"@.len() == 6 && "spring"@[0] == 's',
        "damper"@.len() == 6 && "damper"@[0] == 'd',
        "rumble"@.len() == 6 && "rumble"@[0] == 'r',
        "sine"@.len() == 4,
{
    reveal_strlit("constant");
    reveal_strlit("spring");
    reveal_strlit("damper");
    reveal_strlit("rumble");
    reveal_strlit("sine");
}

/// `--test` takes the kind behind it and keeps the configuration path; an
/// unknown kind ends the program. At the end of the line it plays the constant
/// force.
pub proof fn law_test_takes_a_kind(
    kind: &str,
    effect: Option<TestEffect>,
    rest: Seq<Seq<char>>,
    so_far: ArgsView,
)
    requires
        call_ensures(test_effect, (kind,), effect),
    ensures
        effect matches Some(e) ==> args_of(seq!["--test"@] + (seq![kind@] + rest), so_far)
            == args_of(rest, ArgsView { mode: Mode::Test(e), config_path: so_far.config_path }),
        effect is None ==> args_of(seq!["--test"@] + (seq![kind@] + rest), so_far) == Err::<
            ArgsView,
            ArgsEndView,
        >(ArgsEndView::UnknownTestEffect(kind@)),
        args_of(seq!["--test"@], so_far) == Ok::<ArgsView, ArgsEndView>(
            ArgsView {
                mode: Mode::Test(TestEffect::Constant),
                config_path: so_far.config_path,
            },
        ),
{
    reveal_with_fuel(args_of, 2);
    lemma_options_differ();
    lemma_effects_differ();
    lemma_first(kind@, rest);
    lemma_first("--test"@, seq![kind@] + rest);
    lemma_first("--test"@, Seq::empty());
    assert(seq!["--test"@] + Seq::<Seq<char>>::empty() =~= seq!["--test"@]);
}

/// A request for help ends the program at once, and so does anything that is no
/// option.
pub proof fn law_help_and_mistakes_end_at_once(
    arg: Seq<char>,
    rest: Seq<Seq<char>>,
    so_far: ArgsView,
)
    ensures
        args_of(seq!["--help"@] + rest, so_far) == Err::<ArgsView, ArgsEndView>(ArgsEndView::Help),
        args_of(seq!["-h"@] + rest, so_far) == Err::<ArgsView, ArgsEndView>(ArgsEndView::Help),
        arg != "--daemon"@ && arg != "-d"@ && arg != "--gui"@ && arg != "--diagnose"@ && arg != "--version"@ && arg != "-V"@ && arg != "--test"@ && arg != "--config"@ && arg != "-c"@ && arg != "--help"@ && arg != "-h"@ ==> args_of(seq![arg] + rest, so_far)
            == Err::<ArgsView, ArgsEndView>(ArgsEndView::UnknownArgument(arg)),
{
    lemma_options_differ();
    lemma_first("--help"@, rest);
    lemma_first("-h"@, rest);
    lemma_first(arg, rest);
}

/// A command line is read from front to back, beginning with the user interface
/// and the default configuration path.
pub proof fn law_lines_begin_with_the_defaults(args: Vec<String>, out: Result<Args, ArgsEnd>)
    requires
        call_ensures(parse_args, (&args,), out),
    ensures
        match args_of(texts(args@), ArgsView { mode: Mode::Gui, config_path: None }) {
            Ok(a) => out is Ok && out->Ok_0.mode == a.mode && opt_text(out->Ok_0.config_path)
                == a.config_path,
            Err(ArgsEndView::Help) => out is Err && out->Err_0 is Help,
            Err(ArgsEndView::UnknownTestEffect(kind)) => out matches Err(
                ArgsEnd::UnknownTestEffect(k),
            ) && k@ == kind,
            Err(ArgsEndView::UnknownArgument(arg)) => out matches Err(ArgsEnd::UnknownArgument(a))
                && a@ == arg,
        },
{
}

/// Only a request for help ends in success. A mistake is named on the error
/// stream, and the help text follows unless only the test effect was unknown.
pub proof fn law_ends_of_the_program(
    end: ArgsEnd,
    code: i32,
    line: Option<String>,
    helps: bool,
)
    requires
        call_ensures(ArgsEnd::exit_code, (&end,), code),
        call_ensures(ArgsEnd::complaint, (&end,), line),
        call_ensures(ArgsEnd::shows_help, (&end,), helps),
    ensures
        match end {
            ArgsEnd::Help => code == 0 && line is None && helps,
            ArgsEnd::UnknownTestEffect(kind) => code == 2 && !helps && opt_text(line) == Some(
                "unknown test effect '"@ + kind@ + "'"@,
            ),
            ArgsEnd::UnknownArgument(arg) => code == 2 && helps && opt_text(line) == Some(
                "unknown argument: "@ + arg@,
            ),
        },
{
}

/// The help text names the program and its version, and lists all options.
pub proof fn law_help_lists_the_options(version: &str, out: String)
    requires
        call_ensures(help_text, (version,), out),
    ensures
        out@ == "fs25-ffb "@ + version@
            + " - Force feedback enhancer for FS25 on Linux\n\nUSAGE:\nfs25-ffb [OPTIONS]\n\nOPTIONS:\n--gui              Launch configuration GUI (default)\n--daemon, -d       Run headless (for systemd user service)\n--diagnose         Print troubleshooting report to stdout and exit\n--test <kind>      Play one test effect and exit\nkinds: constant, spring, damper, rumble, sine\n--config, -c PATH  Use alternate config file\n--version, -V      Print version\n--help, -h         This message\n"@,
{
}

} // verus!
