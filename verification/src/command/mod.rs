//! Commands understood by the daemon and the decisions of the wallpaper loop.

use vstd::prelude::*;
use vstd::string::StringExecFns;

use crate::command::state::{next_state, AppState};
use crate::utils::error::AppError;
use crate::dot_config::{resize_name, DotfileTreeConfig, MonitorConfig, ResizeType, SwwwConf};

pub mod daemon;
pub mod img_paths;
pub mod state;
pub mod status;

verus! {

/// A command sent by the command-line client to the running daemon.
#[derive(Clone, Copy, Debug, PartialEq, Eq, Structural)]
pub enum Commands {
    /// prints the current status of the wallpaper queue
    Status,
    /// pause all swww instances in queue
    Pause,
    /// resumes all swww instances in queue
    Resume,
    /// starts all swww instances in queue
    Start {
        /// start the application as a daemon
        daemon: bool,
    },
    /// closes running daemon
    Quit,
}

/// What a monitor's wallpaper loop does after it has picked an image.
#[derive(Clone, Copy, Debug, PartialEq, Eq, Structural)]
pub enum LoopAction {
    /// Leave the loop: the daemon was told to quit.
    Exit,
    /// Hand the image to `swww`, then wait.
    Show,
    /// Only wait: the rotation is paused, or the state could not be read.
    Wait,
}

/// The action of a wallpaper loop that read `snapshot` from the shared state
/// (`None` when the state could not be read without blocking).
pub open spec fn loop_action_of(snapshot: Option<AppState>) -> LoopAction {
    match snapshot {
        Some(s) => if s.should_exit {
            LoopAction::Exit
        } else if !s.is_paused {
            LoopAction::Show
        } else {
            LoopAction::Wait
        },
        None => LoopAction::Wait,
    }
}

/// Decides what a wallpaper loop does with the state it just read.
pub fn loop_action(snapshot: Option<AppState>) -> (r: LoopAction)
    ensures
        r == loop_action_of(snapshot),
{
    match snapshot {
        Some(t) if t.should_exit => LoopAction::Exit,
        Some(t) if !t.is_paused => LoopAction::Show,
        _ => LoopAction::Wait,
    }
}

/// A wallpaper loop leaves once the daemon was told to quit, whatever the
/// state was before.
pub proof fn law_loop_exits_after_quit(s: AppState)
    ensures
        loop_action_of(Some(next_state(s, Commands::Quit))) == LoopAction::Exit,
{
}

/// While the daemon is paused and not quitting, its wallpaper loops only wait.
pub proof fn law_loop_waits_after_pause(s: AppState)
    requires
        !s.should_exit,
    ensures
        loop_action_of(Some(next_state(s, Commands::Pause))) == LoopAction::Wait,
{
}

/// After a resume, a daemon that is not quitting shows wallpapers again.
pub proof fn law_loop_shows_after_resume(s: AppState)
    requires
        !s.should_exit,
    ensures
        loop_action_of(Some(next_state(s, Commands::Resume))) == LoopAction::Show,
{
}

/// A freshly started daemon shows wallpapers.
pub proof fn law_fresh_state_shows()
    ensures
        loop_action_of(Some(AppState { is_paused: false, should_exit: false })) == LoopAction::Show,
{
}

/// A loop that cannot read the state neither leaves nor shows a wallpaper.
pub proof fn law_unreadable_state_waits()
    ensures
        loop_action_of(None) == LoopAction::Wait,
{
}

/// A monitor counts as vertical only when its configuration says so.
pub open spec fn is_vertical(conf: &MonitorConfig) -> bool {
    conf.vertical == Some(true)
}

/// The `swww` settings in force: the configured ones, else the defaults.
pub open spec fn swww_conf_in_force(global_conf: &DotfileTreeConfig) -> SwwwConf {
    match global_conf.swww {
        Some(c) => c,
        None => SwwwConf { resize_type: ResizeType::Crop, transition_fps: 60, transition_step: 2 },
    }
}

/// What a monitor's wallpaper loop works with, fixed before it starts.
#[derive(Debug)]
pub struct SwwwLoopPlan {
    /// The paths among which each wallpaper is picked.
    pub wall_dirs: Vec<String>,
    /// The settings handed to `swww`.
    pub swww_conf: SwwwConf,
    /// Seconds to wait between two wallpapers.
    pub delay_secs: u64,
}

/// Fixes what the wallpaper loop of the monitor configured by `conf` works with.
pub fn plan_swww_loop(conf: &MonitorConfig, global_conf: &DotfileTreeConfig) -> (r: SwwwLoopPlan)
    ensures
        r.wall_dirs@ == (if is_vertical(conf) {
            global_conf.general.path_vertical@
        } else {
            global_conf.general.path@
        }),
        r.swww_conf == swww_conf_in_force(global_conf),
        r.delay_secs == global_conf.general.duration,
{
    let wall_dirs = if conf.vertical == Some(true) {
        crate::dot_config::copy_strings(&global_conf.general.path_vertical)
    } else {
        crate::dot_config::copy_strings(&global_conf.general.path)
    };
    let swww_conf = match global_conf.swww {
        Some(c) => c,
        None => SwwwConf::default(),
    };
    SwwwLoopPlan { wall_dirs, swww_conf, delay_secs: global_conf.general.duration as u64 }
}

/// The character of the decimal digit `d`.
pub open spec fn digit_char(d: nat) -> char {
    seq!['0', '1', '2', '3', '4', '5', '6', '7', '8', '9'][d as int]
}

/// The decimal digits of `n`, without leading zeros.
pub open spec fn digits_of(n: nat) -> Seq<char>
    decreases n,
{
    if n < 10 {
        seq![digit_char(n)]
    } else {
        digits_of(n / 10).push(digit_char(n % 10))
    }
}

/// `x` written in decimal, with a minus sign when it is negative.
pub open spec fn decimal(x: int) -> Seq<char> {
    if x < 0 {
        seq!['-'] + digits_of((-x) as nat)
    } else {
        digits_of(x as nat)
    }
}

/// The number that a string of decimal digits denotes, each character
/// counting as its distance from `'0'`.
pub open spec fn digits_value(s: Seq<char>) -> int
    decreases s.len(),
{
    if s.len() == 0 {
        0
    } else {
        digits_value(s.drop_last()) * 10 + (s.last() as int - '0' as int)
    }
}

/// The number that a decimal text denotes, with an optional leading minus sign.
pub open spec fn decimal_value(s: Seq<char>) -> int {
    if s.len() > 0 && s[0] == '-' {
        -digits_value(s.drop_first())
    } else {
        digits_value(s)
    }
}

/// The character of each decimal digit is the one that many places after `'0'`.
pub proof fn law_digit_char_code(d: nat)
    requires
        d < 10,
    ensures
        digit_char(d) as int == '0' as int + d,
{
    let digits = seq!['0', '1', '2', '3', '4', '5', '6', '7', '8', '9'];
    assert(digits[0] == '0' && digits[1] == '1' && digits[2] == '2' && digits[3] == '3'
        && digits[4] == '4' && digits[5] == '5' && digits[6] == '6' && digits[7] == '7'
        && digits[8] == '8' && digits[9] == '9');
}

proof fn lemma_digits_of_reads_back(n: nat)
    ensures
        digits_of(n).len() > 0,
        digits_value(digits_of(n)) == n,
        forall|i: int|
            0 <= i < digits_of(n).len() ==> '0' as int <= #[trigger] digits_of(n)[i] as int <= '9' as int,
    decreases n,
{
    if n < 10 {
        law_digit_char_code(n);
        let s = digits_of(n);
        assert(s.drop_last() =~= Seq::<char>::empty());
        assert(digits_value(s.drop_last()) == 0);
        assert(s.last() == digit_char(n));
    } else {
        lemma_digits_of_reads_back(n / 10);
        law_digit_char_code(n % 10);
        let s = digits_of(n);
        assert(s.drop_last() =~= digits_of(n / 10));
        assert(s.last() == digit_char(n % 10));
        assert(digits_value(s) == digits_value(s.drop_last()) * 10 + (s.last() as int - '0' as int));
        assert(n == (n / 10) * 10 + n % 10);
        assert forall|i: int| 0 <= i < s.len() implies '0' as int <= #[trigger] s[i] as int <= '9' as int by {
            if i < s.len() - 1 {
                assert(s[i] == digits_of(n / 10)[i]);
            }
        }
    }
}

/// Decimal text reads back as the number it was written from, so distinct
/// numbers are written differently.
pub proof fn law_decimal_reads_back(x: int)
    ensures
        decimal_value(decimal(x)) == x,
{
    if x < 0 {
        let n = (-x) as nat;
        lemma_digits_of_reads_back(n);
        assert((seq!['-'] + digits_of(n)).drop_first() =~= digits_of(n));
    } else {
        lemma_digits_of_reads_back(x as nat);
        assert(digits_of(x as nat)[0] as int >= '0' as int);
    }
}

fn digit_str(d: u32) -> (r: &'static str)
    requires
        d < 10,
    ensures
        r@ == seq![digit_char(d as nat)],
{
    proof {
        reveal_strlit("0");
        reveal_strlit("1");
        reveal_strlit("2");
        reveal_strlit("3");
        reveal_strlit("4");
        reveal_strlit("5");
        reveal_strlit("6");
        reveal_strlit("7");
        reveal_strlit("8");
        reveal_strlit("9");
    }
    match d {
        0 => "0",
        1 => "1",
        2 => "2",
        3 => "3",
        4 => "4",
        5 => "5",
        6 => "6",
        7 => "7",
        8 => "8",
        _ => "9",
    }
}

fn digits_string(n: u32) -> (r: String)
    ensures
        r@ == digits_of(n as nat),
    decreases n,
{
    if n < 10 {
        digit_str(n).to_owned()
    } else {
        let mut s = digits_string(n / 10);
        s.append(digit_str(n % 10));
        s
    }
}

/// `x` written in decimal, as `to_string` writes an `i32`.
pub fn decimal_string(x: i32) -> (r: String)
    ensures
        r@ == decimal(x as int),
{
    if x < 0 {
        let magnitude: u32 = if x == i32::MIN {
            2147483648u32
        } else {
            (-x) as u32
        };
        let mut s = "-".to_owned();
        s.append(digits_string(magnitude).as_str());
        proof {
            reveal_strlit("-");
        }
        s
    } else {
        digits_string(x as u32)
    }
}

/// The arguments of the `swww` call that shows `img_path` on `output`.
pub open spec fn swww_args_of(img_path: Seq<char>, swww_conf: SwwwConf, output: Seq<char>) -> Seq<
    Seq<char>,
> {
    seq![
        "img"@,
        "--resize"@,
        resize_name(swww_conf.resize_type),
        "--outputs"@,
        output,
        "--transition-step"@,
        decimal(swww_conf.transition_step as int),
        "--transition-fps"@,
        decimal(swww_conf.transition_fps as int),
        img_path,
    ]
}

/// The `swww` call names the image and the output it was asked for, and
/// each transition setting is written so that it reads back as that setting.
pub proof fn law_swww_args_carry_the_settings(img_path: Seq<char>, swww_conf: SwwwConf, output: Seq<char>)
    ensures
        ({
            let args = swww_args_of(img_path, swww_conf, output);
            &&& args.len() == 10
            &&& args[2] == resize_name(swww_conf.resize_type)
            &&& args[4] == output
            &&& decimal_value(args[6]) == swww_conf.transition_step
            &&& decimal_value(args[8]) == swww_conf.transition_fps
            &&& args[9] == img_path
        }),
{
    law_decimal_reads_back(swww_conf.transition_step as int);
    law_decimal_reads_back(swww_conf.transition_fps as int);
}

/// Which wallpaper paths a monitor gets depends on its vertical flag alone:
/// only a monitor configured with `vertical = true` counts as vertical, and
/// two monitors with the same flag count alike, whatever their resolution or
/// transform.
pub proof fn law_only_the_vertical_flag_picks_the_dirs(a: MonitorConfig, b: MonitorConfig)
    ensures
        is_vertical(&a) <==> a.vertical == Some(true),
        a.vertical == b.vertical ==> is_vertical(&a) == is_vertical(&b),
{
}

/// The views of a list of strings.
pub open spec fn string_views(v: Seq<String>) -> Seq<Seq<char>> {
    v.map_values(|s: String| s@)
}

/// Builds the arguments with which `swww` shows the image at `img_path` on
/// the output named `output`, with the transition settings of `swww_conf`.
pub fn swww_args(img_path: &str, swww_conf: &SwwwConf, output: &str) -> (r: Vec<String>)
    ensures
        string_views(r@) == swww_args_of(img_path@, *swww_conf, output@),
{
    let resize_type: &str = swww_conf.resize_type.as_static_str();
    let transition_step = decimal_string(swww_conf.transition_step);
    let transition_fps = decimal_string(swww_conf.transition_fps);
    let mut args: Vec<String> = Vec::new();
    args.push("img".to_owned());
    args.push("--resize".to_owned());
    args.push(resize_type.to_owned());
    args.push("--outputs".to_owned());
    args.push(output.to_owned());
    args.push("--transition-step".to_owned());
    args.push(transition_step);
    args.push("--transition-fps".to_owned());
    args.push(transition_fps);
    args.push(img_path.to_owned());
    assert(string_views(args@) =~= swww_args_of(img_path@, *swww_conf, output@));
    args
}

/// The arguments of the `swww` call that shows the image at `img_path` on
/// `output`, or the general error when the image's path is not valid UTF-8
/// (`None`).
pub fn swww_command_args(img_path: Option<&str>, swww_conf: &SwwwConf, output: &str) -> (r: Result<
    Vec<String>,
    AppError,
>)
    ensures
        img_path is None <==> r matches Err(AppError::General),
        img_path matches Some(p) ==> (r matches Ok(args) && string_views(args@) == swww_args_of(
            p@,
            *swww_conf,
            output@,
        )),
{
    match img_path {
        Some(p) => Ok(swww_args(p, swww_conf, output)),
        None => Err(AppError::General),
    }
}

} // verus!
