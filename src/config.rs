//! Command-line configuration of the runtime.
use crate::text::{decimal_spec, parse_decimal, str_eq};
use vstd::prelude::*;
use vstd::string::StringExecFns;

verus! {

/// Frame geometry in pixels.
#[derive(PartialEq, Eq, Structural, Clone, Copy, Debug)]
pub struct Resolution {
    pub w: usize,
    pub h: usize,
}

impl Resolution {
    pub fn from_size(w: usize, h: usize) -> (r: Resolution)
        ensures
            r == (Resolution { w, h }),
    {
        Resolution { w, h }
    }
}

/// Process-wide configuration, fixed at startup.
#[derive(Debug)]
pub struct GameProperties {
    pub resolution: Resolution,
    pub fps: usize,
    pub keyframe_interval: usize,
    pub system_name: String,
    pub imageframe_output: String,
    pub soundframe_output: String,
    pub cmd_input: String,
    /// Seconds without input after which the encoders are starved; 0 disables this.
    pub idle_timeout_secs: u64,
}

/// `GameProperties` with its strings as character sequences.
pub struct PropsView {
    pub resolution: Resolution,
    pub fps: usize,
    pub keyframe_interval: usize,
    pub system_name: Seq<char>,
    pub imageframe_output: Seq<char>,
    pub soundframe_output: Seq<char>,
    pub cmd_input: Seq<char>,
    pub idle_timeout_secs: u64,
}

impl View for GameProperties {
    type V = PropsView;

    open spec fn view(&self) -> PropsView {
        PropsView {
            resolution: self.resolution,
            fps: self.fps,
            keyframe_interval: self.keyframe_interval,
            system_name: self.system_name@,
            imageframe_output: self.imageframe_output@,
            soundframe_output: self.soundframe_output@,
            cmd_input: self.cmd_input@,
            idle_timeout_secs: self.idle_timeout_secs,
        }
    }
}

/// Why the command line was refused.
#[derive(PartialEq, Eq, Structural, Clone, Copy, Debug)]
pub enum ConfigError {
    /// A flag that takes a value came last.
    MissingValue,
    /// A number was not a positive decimal that fits.
    InvalidNumber,
    /// A resolution was not `<W>x<H>`, or a frame of it would not fit in memory.
    InvalidResolution,
    /// An argument starting with `--` is no known flag.
    UnknownFlag,
    /// `--game` was not given.
    MissingGame,
}

/// The flags that take a value.
#[derive(PartialEq, Eq, Structural, Clone, Copy, Debug)]
pub enum Flag {
    Game,
    Resolution,
    Fps,
    KeyframeInterval,
    ImageframeOutput,
    SoundframeOutput,
    CmdInput,
    IdleTimeout,
}

pub open spec fn flag_spec(a: Seq<char>) -> Option<Flag> {
    if a == "--game"@ {
        Some(Flag::Game)
    } else if a == "--resolution"@ {
        Some(Flag::Resolution)
    } else if a == "--fps"@ {
        Some(Flag::Fps)
    } else if a == "--keyframe-interval"@ {
        Some(Flag::KeyframeInterval)
    } else if a == "--imageframe-output"@ {
        Some(Flag::ImageframeOutput)
    } else if a == "--soundframe-output"@ {
        Some(Flag::SoundframeOutput)
    } else if a == "--cmd-input"@ || a == "--key-input"@ {
        Some(Flag::CmdInput)
    } else if a == "--idle-time-to-enc-sleep"@ {
        Some(Flag::IdleTimeout)
    } else {
        None
    }
}

/// An argument that starts with `--`.
pub open spec fn looks_like_flag(a: Seq<char>) -> bool {
    a.len() >= 2 && a[0] == '-' && a[1] == '-'
}

/// `s` splits at position `i` into `<W>x<H>`, two decimals whose frame of 4 bytes per
/// pixel fits in memory.
pub open spec fn resolution_split(s: Seq<char>, i: int) -> bool {
    &&& 0 <= i < s.len()
    &&& s[i] == 'x'
    &&& decimal_spec(s.subrange(0, i)) matches Some(w)
    &&& decimal_spec(s.subrange(i + 1, s.len() as int)) matches Some(h)
    &&& w <= usize::MAX
    &&& h <= usize::MAX
    &&& 4 * w * h <= usize::MAX
}

/// The resolution that `<W>x<H>` spells.
pub open spec fn resolution_spec(s: Seq<char>) -> Option<Resolution> {
    if exists|i: int| resolution_split(s, i) {
        let i = choose|i: int| resolution_split(s, i);
        Some(
            Resolution {
                w: decimal_spec(s.subrange(0, i)).unwrap() as usize,
                h: decimal_spec(s.subrange(i + 1, s.len() as int)).unwrap() as usize,
            },
        )
    } else {
        None
    }
}

/// A positive decimal that fits in a `usize`.
pub open spec fn count_spec(s: Seq<char>) -> Option<usize> {
    match decimal_spec(s) {
        Some(n) => if 0 < n <= usize::MAX {
            Some(n as usize)
        } else {
            None
        },
        None => None,
    }
}

/// The configuration after one flag and its value.
pub open spec fn set_flag_spec(acc: PropsView, f: Flag, val: Seq<char>) -> Result<
    PropsView,
    ConfigError,
> {
    match f {
        Flag::Game => Ok(PropsView { system_name: val, ..acc }),
        Flag::ImageframeOutput => Ok(PropsView { imageframe_output: val, ..acc }),
        Flag::SoundframeOutput => Ok(PropsView { soundframe_output: val, ..acc }),
        Flag::CmdInput => Ok(PropsView { cmd_input: val, ..acc }),
        Flag::Fps => match count_spec(val) {
            Some(n) => Ok(PropsView { fps: n, ..acc }),
            None => Err(ConfigError::InvalidNumber),
        },
        Flag::KeyframeInterval => match count_spec(val) {
            Some(n) => Ok(PropsView { keyframe_interval: n, ..acc }),
            None => Err(ConfigError::InvalidNumber),
        },
        Flag::IdleTimeout => match decimal_spec(val) {
            Some(n) => Ok(PropsView { idle_timeout_secs: n, ..acc }),
            None => Err(ConfigError::InvalidNumber),
        },
        Flag::Resolution => match resolution_spec(val) {
            Some(r) => Ok(PropsView { resolution: r, ..acc }),
            None => Err(ConfigError::InvalidResolution),
        },
    }
}

/// The defaults: 480x320 at 30 fps, a keyframe every 12 frames, the three endpoints under
/// `ipc://./`, and the idle gate off.
pub open spec fn default_props() -> PropsView {
    PropsView {
        resolution: Resolution { w: 480, h: 320 },
        fps: 30,
        keyframe_interval: 12,
        system_name: Seq::empty(),
        imageframe_output: "ipc://./images.ipc"@,
        soundframe_output: "ipc://./sounds.ipc"@,
        cmd_input: "ipc://./cmds.ipc"@,
        idle_timeout_secs: 0,
    }
}

/// The configuration from argument `i` on, starting from `acc`; `game` says whether
/// `--game` was seen. Flags that take a value consume the argument after them; other
/// arguments that do not start with `--` (the program name) are skipped.
pub open spec fn args_from(args: Seq<Seq<char>>, i: int, acc: PropsView, game: bool) -> Result<
    PropsView,
    ConfigError,
>
    decreases args.len() - i,
{
    if i < 0 || i >= args.len() {
        if game {
            Ok(acc)
        } else {
            Err(ConfigError::MissingGame)
        }
    } else {
        match flag_spec(args[i]) {
            Some(f) => if i + 1 >= args.len() {
                Err(ConfigError::MissingValue)
            } else {
                match set_flag_spec(acc, f, args[i + 1]) {
                    Ok(next) => args_from(args, i + 2, next, game || f == Flag::Game),
                    Err(e) => Err(e),
                }
            },
            None => if looks_like_flag(args[i]) {
                Err(ConfigError::UnknownFlag)
            } else {
                args_from(args, i + 1, acc, game)
            },
        }
    }
}

/// The arguments as character sequences.
pub open spec fn arg_views(args: Seq<String>) -> Seq<Seq<char>> {
    args.map_values(|s: String| s@)
}

/// The configuration that a command line gives.
pub open spec fn properties_spec(args: Seq<String>) -> Result<PropsView, ConfigError> {
    args_from(arg_views(args), 0, default_props(), false)
}

fn flag_of(a: &str) -> (r: Option<Flag>)
    ensures
        r == flag_spec(a@),
{
    if str_eq(a, "--game") {
        Some(Flag::Game)
    } else if str_eq(a, "--resolution") {
        Some(Flag::Resolution)
    } else if str_eq(a, "--fps") {
        Some(Flag::Fps)
    } else if str_eq(a, "--keyframe-interval") {
        Some(Flag::KeyframeInterval)
    } else if str_eq(a, "--imageframe-output") {
        Some(Flag::ImageframeOutput)
    } else if str_eq(a, "--soundframe-output") {
        Some(Flag::SoundframeOutput)
    } else if str_eq(a, "--cmd-input") || str_eq(a, "--key-input") {
        Some(Flag::CmdInput)
    } else if str_eq(a, "--idle-time-to-enc-sleep") {
        Some(Flag::IdleTimeout)
    } else {
        None
    }
}

fn is_flag_like(a: &str) -> (r: bool)
    ensures
        r == looks_like_flag(a@),
{
    a.unicode_len() >= 2 && a.get_char(0) == '-' && a.get_char(1) == '-'
}

fn parse_count(s: &str) -> (r: Option<usize>)
    ensures
        r == count_spec(s@),
{
    match parse_decimal(s) {
        Some(n) => if 0 < n && n <= usize::MAX as u64 {
            Some(n as usize)
        } else {
            None
        },
        None => None,
    }
}

/// Reads a resolution written `<W>x<H>`, such as `480x320`.
pub fn parse_resolution(arg: &str) -> (r: Option<(usize, usize)>)
    ensures
        r == (match resolution_spec(arg@) {
            Some(res) => Some((res.w, res.h)),
            None => None,
        }),
{
    let n = arg.unicode_len();
    let mut k: usize = 0;
    while k < n && arg.get_char(k) != 'x'
        invariant
            n == arg@.len(),
            k <= n,
            forall|j: int| 0 <= j < k ==> arg@[j] != 'x',
        decreases n - k,
    {
        k += 1;
    }
    let ghost s = arg@;
    if k == n {
        proof {
            assert forall|i: int| !resolution_split(s, i) by {
                if 0 <= i < s.len() {
                    assert(s[i] != 'x');
                }
            }
        }
        return None;
    }
    let w = parse_decimal(arg.substring_char(0, k));
    let h = parse_decimal(arg.substring_char(k + 1, n));
    proof {
        assert forall|i: int| resolution_split(s, i) implies i == k by {
            if i > k {
                assert(s.subrange(0, i)[k as int] == 'x');
                assert(!crate::text::is_digit(s.subrange(0, i)[k as int]));
            }
            if i < k {
                assert(s[i] != 'x');
            }
        }
    }
    match (w, h) {
        (Some(w), Some(h)) => {
            let fits: bool = if w > usize::MAX as u64 || h > usize::MAX as u64 {
                false
            } else if h == 0 {
                true
            } else if w > usize::MAX as u64 / 4 {
                proof {
                    assert(4 * w * h >= 4 * w) by (nonlinear_arith)
                        requires
                            h >= 1,
                    ;
                }
                false
            } else {
                proof {
                    assert(4 * w <= u64::MAX);
                    assert(4 * w * h <= u128::MAX) by (nonlinear_arith)
                        requires
                            4 * w <= u64::MAX,
                            h <= u64::MAX,
                    ;
                }
                (4 * w) as u128 * (h as u128) <= usize::MAX as u128
            };
            proof {
                assert((4 * w) * h == 4 * w * h) by (nonlinear_arith);
                if h == 0 {
                    assert(4 * w * h == 0) by (nonlinear_arith)
                        requires
                            h == 0,
                    ;
                }
            }
            if !fits {
                return None;
            }
            proof {
                assert(resolution_split(s, k as int));
            }
            Some((w as usize, h as usize))
        },
        _ => None,
    }
}

fn apply_flag(props: &mut GameProperties, f: Flag, val: &String) -> (r: Result<(), ConfigError>)
    ensures
        match set_flag_spec(old(props)@, f, val@) {
            Ok(next) => r is Ok && final(props)@ == next,
            Err(e) => r == Err::<(), ConfigError>(e),
        },
{
    match f {
        Flag::Game => {
            props.system_name = val.clone();
            Ok(())
        },
        Flag::ImageframeOutput => {
            props.imageframe_output = val.clone();
            Ok(())
        },
        Flag::SoundframeOutput => {
            props.soundframe_output = val.clone();
            Ok(())
        },
        Flag::CmdInput => {
            props.cmd_input = val.clone();
            Ok(())
        },
        Flag::Fps => match parse_count(val.as_str()) {
            Some(n) => {
                props.fps = n;
                Ok(())
            },
            None => Err(ConfigError::InvalidNumber),
        },
        Flag::KeyframeInterval => match parse_count(val.as_str()) {
            Some(n) => {
                props.keyframe_interval = n;
                Ok(())
            },
            None => Err(ConfigError::InvalidNumber),
        },
        Flag::IdleTimeout => match parse_decimal(val.as_str()) {
            Some(n) => {
                props.idle_timeout_secs = n;
                Ok(())
            },
            None => Err(ConfigError::InvalidNumber),
        },
        Flag::Resolution => match parse_resolution(val.as_str()) {
            Some((w, h)) => {
                props.resolution = Resolution::from_size(w, h);
                Ok(())
            },
            None => Err(ConfigError::InvalidResolution),
        },
    }
}

/// Reads the configuration from the command line (program name included). Flags that take
/// a value consume the next argument; unknown flags, missing values, bad numbers or
/// resolutions and a missing `--game` are refused.
pub fn extract_properties_from_args(args: &Vec<String>) -> (r: Result<GameProperties, ConfigError>)
    ensures
        match properties_spec(args@) {
            Ok(v) => r matches Ok(p) && p@ == v,
            Err(e) => r matches Err(e2) && e2 == e,
        },
{
    let mut props = GameProperties {
        resolution: Resolution::from_size(480, 320),
        fps: 30,
        keyframe_interval: 12,
        system_name: String::new(),
        imageframe_output: String::from_str("ipc://./images.ipc"),
        soundframe_output: String::from_str("ipc://./sounds.ipc"),
        cmd_input: String::from_str("ipc://./cmds.ipc"),
        idle_timeout_secs: 0,
    };
    let mut game = false;
    let n = args.len();
    let ghost av = arg_views(args@);
    assert(props@ == default_props());
    let mut i: usize = 0;
    while i < n
        invariant
            n == args@.len(),
            av == arg_views(args@),
            av.len() == n,
            i <= n,
            properties_spec(args@) == args_from(av, i as int, props@, game),
        decreases n - i,
    {
        let a = args[i].as_str();
        assert(av[i as int] == a@);
        match flag_of(a) {
            Some(f) => {
                if i + 1 >= n {
                    return Err(ConfigError::MissingValue);
                }
                assert(av[i + 1] == args@[i + 1]@);
                match apply_flag(&mut props, f, &args[i + 1]) {
                    Ok(()) => {},
                    Err(e) => {
                        return Err(e);
                    },
                }
                if f == Flag::Game {
                    game = true;
                }
                i += 2;
            },
            None => {
                if is_flag_like(a) {
                    return Err(ConfigError::UnknownFlag);
                }
                i += 1;
            },
        }
    }
    if !game {
        return Err(ConfigError::MissingGame);
    }
    Ok(props)
}

} // verus!
