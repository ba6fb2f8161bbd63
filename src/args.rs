//! Resolving command-line arguments into a `Config`: a first pass that
//! finds which settings file to start from, and a second that applies
//! every other flag on top of it.
use vstd::prelude::*;
use crate::config::{Config, ConfigView, Features, Mode};
use crate::encoding::{encoding_named, Encoding};
use crate::text::{has_prefix, parse_usize, starts, str_eq, trim, trim_of, usize_of};

verus! {

pub const MIX_CONFIG: &'static str = "can't mix --config and --no-config";
pub const NEED_CONFIG: &'static str = "need a config file";
pub const LOAD_PREFIX: &'static str = "error loading config: ";
pub const RAW_NEEDS_URL: &'static str = "--raw needs gopher-url";
pub const TLS_NOTLS: &'static str = "can't set both --tls and --no-tls";
pub const TOR_NOTOR: &'static str = "can't set both --tor and --no-tor";
pub const NO_TLS_SUPPORT: &'static str = "phetch was compiled without TLS support";
pub const NO_TOR_SUPPORT: &'static str = "phetch was compiled without Tor support";
pub const WRAP_ARG: &'static str = "--wrap expects a COLUMN arg";
pub const MEDIA_ARG: &'static str = "--media expects a PROGRAM arg";
pub const MEDIA_NOMEDIA: &'static str = "can't set both --media and --no-media";
pub const NOMEDIA_AUTOPLAY: &'static str = "can't set both --no-media and --autoplay";
pub const AUTOPLAY_NOAUTOPLAY: &'static str = "can't set both --autoplay and --no-autoplay";
pub const ENCODING_ARG: &'static str = "--encoding expects an ENCODING arg";
pub const UNKNOWN_FLAG: &'static str = "unknown flag: ";
pub const UNKNOWN_ARG: &'static str = "unknown argument: ";
pub const TOR_TLS: &'static str = "can't set both --tor and --tls";
/// Where `--local` points.
pub const LOCAL_URL: &'static str = "gopher://127.0.0.1:7070";

/// The error returned if something goes awry while parsing the
/// command line arguments.
#[derive(Debug)]
pub struct ArgError {
    details: String,
}

impl View for ArgError {
    type V = Seq<char>;

    closed spec fn view(&self) -> Seq<char> {
        self.details@
    }
}

impl ArgError {
    /// An ArgError represents an error in the user-supplied command
    /// line arguments.
    pub fn new(err: &str) -> (r: ArgError)
        ensures
            r@ == err@,
    {
        ArgError { details: err.to_owned() }
    }

    /// The error for a settings file that could not be loaded, given
    /// the cause.
    pub fn config_load(cause: &str) -> (r: ArgError)
        ensures
            r@ == LOAD_PREFIX@ + cause@,
    {
        ArgError { details: String::from_str(LOAD_PREFIX).concat(cause) }
    }

    /// The message.
    pub fn description(&self) -> (r: &str)
        ensures
            r@ == self@,
    {
        self.details.as_str()
    }

    /// The message, as an owned string.
    pub fn to_string(&self) -> (r: String)
        ensures
            r@ == self@,
    {
        self.details.clone()
    }
}

/// What a command-line token is.
#[derive(Copy, Clone, PartialEq, Eq, Structural, Debug)]
pub enum Flag {
    Version,
    Help,
    Raw,
    Print,
    Local,
    NoConfig,
    Config,
    ConfigInline,
    Tls,
    NoTls,
    Tor,
    NoTor,
    Wrap,
    Media,
    NoMedia,
    Autoplay,
    NoAutoplay,
    Encoding,
    /// Starts with `-` and is no known flag.
    Unknown,
    /// A positional token.
    Bare,
}

/// `s` is the short, long or single-dash long spelling of a flag.
pub open spec fn spelled(s: Seq<char>, short: &str, long: &str, single: &str) -> bool {
    s == short@ || s == long@ || s == single@
}

/// The kind of a token.
#[verifier::opaque]
pub open spec fn flag_of(s: Seq<char>) -> Flag {
    if spelled(s, "-v", "--version", "-version") {
        Flag::Version
    } else if spelled(s, "-h", "--help", "-help") {
        Flag::Help
    } else if spelled(s, "-r", "--raw", "-raw") {
        Flag::Raw
    } else if spelled(s, "-p", "--print", "-print") {
        Flag::Print
    } else if spelled(s, "-l", "--local", "-local") {
        Flag::Local
    } else if spelled(s, "-C", "--no-config", "-no-config") {
        Flag::NoConfig
    } else if spelled(s, "-c", "--config", "-config") {
        Flag::Config
    } else if starts(s, "--config="@) || starts(s, "-config="@) {
        Flag::ConfigInline
    } else if spelled(s, "-s", "--tls", "-tls") {
        Flag::Tls
    } else if spelled(s, "-S", "--no-tls", "-no-tls") {
        Flag::NoTls
    } else if spelled(s, "-o", "--tor", "-tor") {
        Flag::Tor
    } else if spelled(s, "-O", "--no-tor", "-no-tor") {
        Flag::NoTor
    } else if spelled(s, "-w", "--wrap", "-wrap") {
        Flag::Wrap
    } else if spelled(s, "-m", "--media", "-media") {
        Flag::Media
    } else if spelled(s, "-M", "--no-media", "-no-media") {
        Flag::NoMedia
    } else if spelled(s, "-a", "--autoplay", "-autoplay") {
        Flag::Autoplay
    } else if spelled(s, "-A", "--no-autoplay", "-no-autoplay") {
        Flag::NoAutoplay
    } else if spelled(s, "-e", "--encoding", "-encoding") {
        Flag::Encoding
    } else if s.len() > 0 && s[0] == '-' {
        Flag::Unknown
    } else {
        Flag::Bare
    }
}

fn is_spelled(s: &str, short: &str, long: &str, single: &str) -> (r: bool)
    ensures
        r == spelled(s@, short, long, single),
{
    str_eq(s, short) || str_eq(s, long) || str_eq(s, single)
}

/// The kind of a token.
pub fn classify(s: &str) -> (r: Flag)
    ensures
        r == flag_of(s@),
{
    reveal(flag_of);
    if is_spelled(s, "-v", "--version", "-version") {
        Flag::Version
    } else if is_spelled(s, "-h", "--help", "-help") {
        Flag::Help
    } else if is_spelled(s, "-r", "--raw", "-raw") {
        Flag::Raw
    } else if is_spelled(s, "-p", "--print", "-print") {
        Flag::Print
    } else if is_spelled(s, "-l", "--local", "-local") {
        Flag::Local
    } else if is_spelled(s, "-C", "--no-config", "-no-config") {
        Flag::NoConfig
    } else if is_spelled(s, "-c", "--config", "-config") {
        Flag::Config
    } else if has_prefix(s, "--config=") || has_prefix(s, "-config=") {
        Flag::ConfigInline
    } else if is_spelled(s, "-s", "--tls", "-tls") {
        Flag::Tls
    } else if is_spelled(s, "-S", "--no-tls", "-no-tls") {
        Flag::NoTls
    } else if is_spelled(s, "-o", "--tor", "-tor") {
        Flag::Tor
    } else if is_spelled(s, "-O", "--no-tor", "-no-tor") {
        Flag::NoTor
    } else if is_spelled(s, "-w", "--wrap", "-wrap") {
        Flag::Wrap
    } else if is_spelled(s, "-m", "--media", "-media") {
        Flag::Media
    } else if is_spelled(s, "-M", "--no-media", "-no-media") {
        Flag::NoMedia
    } else if is_spelled(s, "-a", "--autoplay", "-autoplay") {
        Flag::Autoplay
    } else if is_spelled(s, "-A", "--no-autoplay", "-no-autoplay") {
        Flag::NoAutoplay
    } else if is_spelled(s, "-e", "--encoding", "-encoding") {
        Flag::Encoding
    } else if s.unicode_len() > 0 && s.get_char(0) == '-' {
        Flag::Unknown
    } else {
        Flag::Bare
    }
}

/// A `--config=` token starts with one of its two spellings.
pub proof fn lemma_inline_spelling(s: Seq<char>)
    requires
        flag_of(s) == Flag::ConfigInline,
    ensures
        starts(s, "--config="@) || starts(s, "-config="@),
{
    reveal(flag_of);
}

/// The tokens of an argument list, as character sequences.
pub open spec fn tokens(args: Seq<&str>) -> Seq<Seq<char>> {
    args.map_values(|a: &str| a@)
}

/// The file that `--config=<file>` names: what follows the `=`.
pub open spec fn inline_file(s: Seq<char>) -> Seq<char> {
    if starts(s, "--config="@) {
        s.subrange("--config="@.len() as int, s.len() as int)
    } else {
        s.subrange("-config="@.len() as int, s.len() as int)
    }
}

/// What the first pass finds, as values.
pub struct ScanView {
    pub files: Seq<Seq<char>>,
    pub error: Option<Seq<char>>,
    pub explicit: bool,
}

/// The first pass from token `i` on, having seen `--config` (`cfg`) or
/// `--no-config` (`nocfg`) and named `files` so far.
pub open spec fn scan_at(t: Seq<Seq<char>>, i: int, cfg: bool, nocfg: bool, files: Seq<Seq<char>>) -> ScanView
    decreases t.len() - i,
{
    if i >= t.len() {
        ScanView { files, error: None, explicit: cfg || nocfg }
    } else {
        match flag_of(t[i]) {
            Flag::NoConfig => if cfg {
                ScanView { files, error: Some(MIX_CONFIG@), explicit: true }
            } else {
                scan_at(t, i + 1, cfg, true, files)
            },
            Flag::Config => if nocfg {
                ScanView { files, error: Some(MIX_CONFIG@), explicit: true }
            } else if i + 1 >= t.len() {
                ScanView { files, error: Some(NEED_CONFIG@), explicit: true }
            } else {
                scan_at(t, i + 2, true, nocfg, files.push(t[i + 1]))
            },
            Flag::ConfigInline => if nocfg {
                ScanView { files, error: Some(MIX_CONFIG@), explicit: true }
            } else {
                scan_at(t, i + 1, true, nocfg, files.push(inline_file(t[i])))
            },
            _ => scan_at(t, i + 1, cfg, nocfg, files),
        }
    }
}

/// The first pass over a whole argument list.
pub open spec fn scan_spec(t: Seq<Seq<char>>) -> ScanView {
    scan_at(t, 0, false, false, Seq::empty())
}

/// What the first pass finds: the settings files named, in the order they
/// are loaded, the error that ended the scan, if any, and whether a
/// settings flag (`--config` or `--no-config`) was given.
///
/// The files are loaded one after the other, the last one loaded being the
/// base that flags are applied to; a failed load ends resolution before
/// the error is looked at. Where no settings flag was given, the file at
/// the default location, if there is one, is the base.
pub struct ConfigScan {
    pub files: Vec<String>,
    pub error: Option<ArgError>,
    pub explicit: bool,
}

pub open spec fn strings_view(v: Seq<String>) -> Seq<Seq<char>> {
    v.map_values(|f: String| f@)
}

impl View for ConfigScan {
    type V = ScanView;

    open spec fn view(&self) -> ScanView {
        ScanView {
            files: strings_view(self.files@),
            error: match self.error {
                Some(e) => Some(e@),
                None => None,
            },
            explicit: self.explicit,
        }
    }
}

fn push_file(files: &mut Vec<String>, f: String)
    ensures
        strings_view(final(files)@) == strings_view(old(files)@).push(f@),
{
    files.push(f);
    assert(strings_view(files@) =~= strings_view(old(files)@).push(f@));
}

/// First pass: find which settings files the arguments name, and check
/// that `--config` and `--no-config` are not mixed and that `--config`
/// has a file.
pub fn scan_config(args: &[&str]) -> (r: ConfigScan)
    ensures
        r@ == scan_spec(tokens(args@)),
{
    let ghost t = tokens(args@);
    let n = args.len();
    let mut cfg = false;
    let mut nocfg = false;
    let mut files: Vec<String> = Vec::new();
    let mut i: usize = 0;
    assert(strings_view(files@) =~= Seq::<Seq<char>>::empty());
    while i < n
        invariant
            n == args@.len(),
            t == tokens(args@),
            i <= n,
            scan_at(t, i as int, cfg, nocfg, strings_view(files@)) == scan_spec(t),
        decreases n - i,
    {
        let a: &str = args[i];
        assert(t[i as int] == a@);
        match classify(a) {
            Flag::NoConfig => {
                if cfg {
                    return ConfigScan { files, error: Some(ArgError::new(MIX_CONFIG)), explicit: true };
                }
                nocfg = true;
                i += 1;
            },
            Flag::Config => {
                if nocfg {
                    return ConfigScan { files, error: Some(ArgError::new(MIX_CONFIG)), explicit: true };
                }
                if i + 1 >= n {
                    return ConfigScan { files, error: Some(ArgError::new(NEED_CONFIG)), explicit: true };
                }
                cfg = true;
                assert(t[i + 1] == args@[i + 1]@);
                push_file(&mut files, args[i + 1].to_owned());
                i += 2;
            },
            Flag::ConfigInline => {
                if nocfg {
                    return ConfigScan { files, error: Some(ArgError::new(MIX_CONFIG)), explicit: true };
                }
                cfg = true;
                proof {
                    lemma_inline_spelling(a@);
                }
                let len = a.unicode_len();
                let from = if has_prefix(a, "--config=") {
                    "--config=".unicode_len()
                } else {
                    "-config=".unicode_len()
                };
                push_file(&mut files, a.substring_char(from, len).to_owned());
                i += 1;
            },
            _ => {
                i += 1;
            },
        }
    }
    ConfigScan { files, error: None, explicit: cfg || nocfg }
}

/// Which flags of an opposing pair, and whether a target, were given so far.
#[derive(Copy, Clone, PartialEq, Eq, Structural, Debug)]
pub struct Switches {
    pub got_url: bool,
    pub set_tls: bool,
    pub set_notls: bool,
    pub set_tor: bool,
    pub set_notor: bool,
    pub set_media: bool,
    pub set_nomedia: bool,
    pub set_autoplay: bool,
    pub set_noautoplay: bool,
}

/// No flag given yet.
pub open spec fn no_switches() -> Switches {
    Switches {
        got_url: false,
        set_tls: false,
        set_notls: false,
        set_tor: false,
        set_notor: false,
        set_media: false,
        set_nomedia: false,
        set_autoplay: false,
        set_noautoplay: false,
    }
}

/// What one token of the second pass leads to.
pub enum Step {
    /// Resolution ends here, with this result.
    Stop(Result<ConfigView, Seq<char>>),
    /// Resolution goes on at the given token, with these settings and
    /// switches.
    Go(int, ConfigView, Switches),
}

/// The token after the value that token `i` takes.
pub open spec fn after_value(t: Seq<Seq<char>>, i: int) -> int {
    if i + 1 < t.len() {
        i + 2
    } else {
        t.len() as int
    }
}

/// The second pass on token `i`, over `n` arguments in all, with the
/// settings `c` and the switches `w` reached so far.
pub open spec fn step_at(t: Seq<Seq<char>>, i: int, n: int, f: Features, c: ConfigView, w: Switches) -> Step {
    let a = t[i];
    match flag_of(a) {
        Flag::Version => Step::Stop(Ok(ConfigView { mode: Mode::Version, ..c })),
        Flag::Help => Step::Stop(Ok(ConfigView { mode: Mode::Help, ..c })),
        Flag::Raw => if n > 1 {
            Step::Go(i + 1, ConfigView { mode: Mode::Raw, ..c }, w)
        } else {
            Step::Stop(Err(RAW_NEEDS_URL@))
        },
        Flag::Print => Step::Go(i + 1, ConfigView { mode: Mode::Print, ..c }, w),
        Flag::Local => Step::Go(i + 1, ConfigView { start: LOCAL_URL@, ..c }, w),
        Flag::NoConfig => Step::Go(i + 1, c, w),
        Flag::ConfigInline => Step::Go(i + 1, c, w),
        Flag::Config => Step::Go(after_value(t, i), c, w),
        Flag::Tls => if w.set_notls {
            Step::Stop(Err(TLS_NOTLS@))
        } else if !f.tls {
            Step::Stop(Err(NO_TLS_SUPPORT@))
        } else {
            Step::Go(i + 1, ConfigView { tls: true, ..c }, Switches { set_tls: true, ..w })
        },
        Flag::NoTls => if w.set_tls {
            Step::Stop(Err(TLS_NOTLS@))
        } else {
            Step::Go(i + 1, ConfigView { tls: false, ..c }, Switches { set_notls: true, ..w })
        },
        Flag::Tor => if w.set_notor {
            Step::Stop(Err(TOR_NOTOR@))
        } else if !f.tor {
            Step::Stop(Err(NO_TOR_SUPPORT@))
        } else {
            Step::Go(i + 1, ConfigView { tor: true, ..c }, Switches { set_tor: true, ..w })
        },
        Flag::NoTor => if w.set_tor {
            Step::Stop(Err(TOR_NOTOR@))
        } else {
            Step::Go(i + 1, ConfigView { tor: false, ..c }, Switches { set_notor: true, ..w })
        },
        Flag::Wrap => if i + 1 >= t.len() {
            Step::Stop(Err(WRAP_ARG@))
        } else {
            match usize_of(t[i + 1]) {
                Some(v) => Step::Go(i + 2, ConfigView { wrap: v, ..c }, w),
                None => Step::Stop(Err(WRAP_ARG@)),
            }
        },
        Flag::Media => if w.set_nomedia {
            Step::Stop(Err(MEDIA_NOMEDIA@))
        } else if i + 1 >= t.len() {
            Step::Stop(Err(MEDIA_ARG@))
        } else {
            Step::Go(i + 2, ConfigView { media: Some(t[i + 1]), ..c }, Switches { set_media: true, ..w })
        },
        Flag::NoMedia => if w.set_media {
            Step::Stop(Err(MEDIA_NOMEDIA@))
        } else {
            Step::Go(i + 1, ConfigView { media: None, ..c }, Switches { set_nomedia: true, ..w })
        },
        Flag::Autoplay => if w.set_nomedia {
            Step::Stop(Err(NOMEDIA_AUTOPLAY@))
        } else if w.set_noautoplay {
            Step::Stop(Err(AUTOPLAY_NOAUTOPLAY@))
        } else {
            Step::Go(i + 1, ConfigView { autoplay: true, ..c }, Switches { set_autoplay: true, ..w })
        },
        Flag::NoAutoplay => if w.set_autoplay {
            Step::Stop(Err(AUTOPLAY_NOAUTOPLAY@))
        } else {
            Step::Go(i + 1, ConfigView { autoplay: false, ..c }, Switches { set_noautoplay: true, ..w })
        },
        Flag::Encoding => if i + 1 >= t.len() {
            Step::Stop(Err(ENCODING_ARG@))
        } else {
            match encoding_named(t[i + 1]) {
                Ok(e) => Step::Go(i + 2, ConfigView { encoding: e, ..c }, w),
                Err(m) => Step::Stop(Err(m)),
            }
        },
        Flag::Unknown => Step::Stop(Err(UNKNOWN_FLAG@ + a)),
        Flag::Bare => if w.got_url {
            Step::Stop(Err(UNKNOWN_ARG@ + a))
        } else {
            Step::Go(i + 1, ConfigView { start: trim_of(a), ..c }, Switches { got_url: true, ..w })
        },
    }
}

/// Each step of the second pass moves forward and stays within the tokens.
pub proof fn lemma_step_advances(t: Seq<Seq<char>>, i: int, n: int, f: Features, c: ConfigView, w: Switches)
    requires
        0 <= i < t.len(),
    ensures
        step_at(t, i, n, f, c, w) matches Step::Go(j, _, _) ==> i < j <= t.len(),
{
}

/// The second pass from token `i` on, over `n` arguments in all, with the
/// settings `c` and the switches `w` reached so far: the final settings,
/// or the message of the error that ends resolution.
pub open spec fn run_at(t: Seq<Seq<char>>, i: int, n: int, f: Features, c: ConfigView, w: Switches) -> Result<ConfigView, Seq<char>>
    decreases t.len() - i,
{
    if i < 0 || i >= t.len() {
        if c.tor && c.tls {
            Err(TOR_TLS@)
        } else {
            Ok(c)
        }
    } else {
        match step_at(t, i, n, f, c, w) {
            Step::Stop(r) => r,
            Step::Go(j, c2, w2) => if i < j <= t.len() {
                run_at(t, j, n, f, c2, w2)
            } else {
                Ok(c)
            },
        }
    }
}

/// The second pass over a whole argument list, on top of `base`.
pub open spec fn flags_spec(t: Seq<Seq<char>>, base: ConfigView, f: Features) -> Result<ConfigView, Seq<char>> {
    run_at(t, 0, t.len() as int, f, base, no_switches())
}

/// Both passes, with `base` as the settings the first one led to.
pub open spec fn parse_spec(t: Seq<Seq<char>>, base: ConfigView, f: Features) -> Result<ConfigView, Seq<char>> {
    match scan_spec(t).error {
        Some(e) => Err(e),
        None => flags_spec(t, base, f),
    }
}

/// A result of resolution, as values.
pub open spec fn outcome(r: Result<Config, ArgError>) -> Result<ConfigView, Seq<char>> {
    match r {
        Ok(c) => Ok(c@),
        Err(e) => Err(e@),
    }
}

fn joined(prefix: &str, a: &str) -> (r: ArgError)
    ensures
        r@ == prefix@ + a@,
{
    ArgError { details: String::from_str(prefix).concat(a) }
}

/// What one token of the second pass did to the settings.
pub enum Advance {
    /// Go on at this token.
    Continue(usize),
    /// Resolution is done: the settings are final.
    Finished,
    /// Resolution failed.
    Failed(ArgError),
}

/// What an `Advance` that left the settings `c` and switches `w` says of
/// a step.
pub open spec fn agrees(s: Step, r: Advance, c: ConfigView, w: Switches) -> bool {
    match r {
        Advance::Continue(j) => s == Step::Go(j as int, c, w),
        Advance::Finished => s == Step::Stop(Ok(c)),
        Advance::Failed(e) => s == Step::Stop(Err(e@)),
    }
}

/// Apply token `i` of `args`, a flag of an opposing pair.
#[verifier::rlimit(100)]
fn apply_switch(args: &[&str], i: usize, cfg: &mut Config, w: &mut Switches, features: Features) -> (r: Advance)
    requires
        i < args@.len(),
        flag_of(args@[i as int]@) == Flag::Tls
            || flag_of(args@[i as int]@) == Flag::NoTls
            || flag_of(args@[i as int]@) == Flag::Tor
            || flag_of(args@[i as int]@) == Flag::NoTor
            || flag_of(args@[i as int]@) == Flag::NoMedia
            || flag_of(args@[i as int]@) == Flag::Autoplay
            || flag_of(args@[i as int]@) == Flag::NoAutoplay,
    ensures
        agrees(step_at(tokens(args@), i as int, args@.len() as int, features, old(cfg)@, *old(w)), r, final(cfg)@, *final(w)),
{
    let ghost t = tokens(args@);
    let n = args.len();
    let a: &str = args[i];
    let flag = classify(a);
    assert(t.len() == n);
    assert(t[i as int] == a@);
    if i + 1 < n {
        assert(t[i + 1] == args@[i + 1]@);
    }
    match flag {
        Flag::Tls => {
            if w.set_notls {
                return Advance::Failed(ArgError::new(TLS_NOTLS));
            }
            if !features.tls {
                return Advance::Failed(ArgError::new(NO_TLS_SUPPORT));
            }
            w.set_tls = true;
            cfg.tls = true;
            Advance::Continue(i + 1)
        },
        Flag::NoTls => {
            if w.set_tls {
                return Advance::Failed(ArgError::new(TLS_NOTLS));
            }
            w.set_notls = true;
            cfg.tls = false;
            Advance::Continue(i + 1)
        },
        Flag::Tor => {
            if w.set_notor {
                return Advance::Failed(ArgError::new(TOR_NOTOR));
            }
            if !features.tor {
                return Advance::Failed(ArgError::new(NO_TOR_SUPPORT));
            }
            w.set_tor = true;
            cfg.tor = true;
            Advance::Continue(i + 1)
        },
        Flag::NoTor => {
            if w.set_tor {
                return Advance::Failed(ArgError::new(TOR_NOTOR));
            }
            w.set_notor = true;
            cfg.tor = false;
            Advance::Continue(i + 1)
        },
        Flag::NoMedia => {
            if w.set_media {
                return Advance::Failed(ArgError::new(MEDIA_NOMEDIA));
            }
            w.set_nomedia = true;
            cfg.media = None;
            Advance::Continue(i + 1)
        },
        Flag::Autoplay => {
            if w.set_nomedia {
                return Advance::Failed(ArgError::new(NOMEDIA_AUTOPLAY));
            }
            if w.set_noautoplay {
                return Advance::Failed(ArgError::new(AUTOPLAY_NOAUTOPLAY));
            }
            w.set_autoplay = true;
            cfg.autoplay = true;
            Advance::Continue(i + 1)
        },
        Flag::NoAutoplay => {
            if w.set_autoplay {
                return Advance::Failed(ArgError::new(AUTOPLAY_NOAUTOPLAY));
            }
            w.set_noautoplay = true;
            cfg.autoplay = false;
            Advance::Continue(i + 1)
        },
        _ => Advance::Continue(i + 1),
    }
}

/// Apply token `i` of `args`, a flag that takes a value.
#[verifier::rlimit(100)]
fn apply_value(args: &[&str], i: usize, cfg: &mut Config, w: &mut Switches, features: Features) -> (r: Advance)
    requires
        i < args@.len(),
        flag_of(args@[i as int]@) == Flag::Wrap
            || flag_of(args@[i as int]@) == Flag::Media
            || flag_of(args@[i as int]@) == Flag::Encoding,
    ensures
        agrees(step_at(tokens(args@), i as int, args@.len() as int, features, old(cfg)@, *old(w)), r, final(cfg)@, *final(w)),
{
    let ghost t = tokens(args@);
    let n = args.len();
    let a: &str = args[i];
    let flag = classify(a);
    assert(t.len() == n);
    assert(t[i as int] == a@);
    if i + 1 < n {
        assert(t[i + 1] == args@[i + 1]@);
    }
    match flag {
        Flag::Wrap => {
            if i + 1 >= n {
                return Advance::Failed(ArgError::new(WRAP_ARG));
            }
            match parse_usize(args[i + 1]) {
                Some(col) => {
                    cfg.wrap = col;
                    Advance::Continue(i + 2)
                },
                None => Advance::Failed(ArgError::new(WRAP_ARG)),
            }
        },
        Flag::Media => {
            if w.set_nomedia {
                return Advance::Failed(ArgError::new(MEDIA_NOMEDIA));
            }
            if i + 1 >= n {
                return Advance::Failed(ArgError::new(MEDIA_ARG));
            }
            w.set_media = true;
            cfg.media = Some(args[i + 1].to_owned());
            Advance::Continue(i + 2)
        },
        Flag::Encoding => {
            if i + 1 >= n {
                return Advance::Failed(ArgError::new(ENCODING_ARG));
            }
            match Encoding::from_str(args[i + 1]) {
                Ok(e) => {
                    cfg.encoding = e;
                    Advance::Continue(i + 2)
                },
                Err(m) => Advance::Failed(ArgError::new(m.as_str())),
            }
        },
        _ => Advance::Continue(i + 1),
    }
}

/// Apply token `i` of `args`, one of the remaining kinds.
#[verifier::rlimit(100)]
fn apply_other(args: &[&str], i: usize, cfg: &mut Config, w: &mut Switches, features: Features) -> (r: Advance)
    requires
        i < args@.len(),
        flag_of(args@[i as int]@) == Flag::Version
            || flag_of(args@[i as int]@) == Flag::Help
            || flag_of(args@[i as int]@) == Flag::Raw
            || flag_of(args@[i as int]@) == Flag::Print
            || flag_of(args@[i as int]@) == Flag::Local
            || flag_of(args@[i as int]@) == Flag::NoConfig
            || flag_of(args@[i as int]@) == Flag::Config
            || flag_of(args@[i as int]@) == Flag::ConfigInline
            || flag_of(args@[i as int]@) == Flag::Unknown
            || flag_of(args@[i as int]@) == Flag::Bare,
    ensures
        agrees(step_at(tokens(args@), i as int, args@.len() as int, features, old(cfg)@, *old(w)), r, final(cfg)@, *final(w)),
{
    let ghost t = tokens(args@);
    let n = args.len();
    let a: &str = args[i];
    let flag = classify(a);
    assert(t.len() == n);
    assert(t[i as int] == a@);
    if i + 1 < n {
        assert(t[i + 1] == args@[i + 1]@);
    }
    match flag {
        Flag::Version => {
            cfg.mode = Mode::Version;
            Advance::Finished
        },
        Flag::Help => {
            cfg.mode = Mode::Help;
            Advance::Finished
        },
        Flag::Raw => {
            if n > 1 {
                cfg.mode = Mode::Raw;
                Advance::Continue(i + 1)
            } else {
                Advance::Failed(ArgError::new(RAW_NEEDS_URL))
            }
        },
        Flag::Print => {
            cfg.mode = Mode::Print;
            Advance::Continue(i + 1)
        },
        Flag::Local => {
            cfg.start = LOCAL_URL.to_owned();
            Advance::Continue(i + 1)
        },
        Flag::NoConfig | Flag::ConfigInline => Advance::Continue(i + 1),
        Flag::Config => {
            if i + 1 < n {
                Advance::Continue(i + 2)
            } else {
                Advance::Continue(n)
            }
        },
        Flag::Unknown => Advance::Failed(joined(UNKNOWN_FLAG, a)),
        Flag::Bare => {
            if w.got_url {
                return Advance::Failed(joined(UNKNOWN_ARG, a));
            }
            w.got_url = true;
            cfg.start = trim(a);
            Advance::Continue(i + 1)
        },
        _ => Advance::Continue(i + 1),
    }
}

/// Apply token `i` of `args`.
fn apply_one(args: &[&str], i: usize, cfg: &mut Config, w: &mut Switches, features: Features) -> (r: Advance)
    requires
        i < args@.len(),
    ensures
        agrees(step_at(tokens(args@), i as int, args@.len() as int, features, old(cfg)@, *old(w)), r, final(cfg)@, *final(w)),
{
    match classify(args[i]) {
        Flag::Tls | Flag::NoTls | Flag::Tor | Flag::NoTor | Flag::NoMedia | Flag::Autoplay
        | Flag::NoAutoplay => apply_switch(args, i, cfg, w, features),
        Flag::Wrap | Flag::Media | Flag::Encoding => apply_value(args, i, cfg, w, features),
        _ => apply_other(args, i, cfg, w, features),
    }
}

/// Second pass: apply every flag of `args` on top of `base`, the settings
/// the first pass led to.
pub fn apply_flags(args: &[&str], base: Config, features: Features) -> (r: Result<Config, ArgError>)
    ensures
        outcome(r) == flags_spec(tokens(args@), base@, features),
{
    let ghost t = tokens(args@);
    let ghost b = base@;
    let mut cfg = base;
    let n = args.len();
    let mut w = Switches {
        got_url: false,
        set_tls: false,
        set_notls: false,
        set_tor: false,
        set_notor: false,
        set_media: false,
        set_nomedia: false,
        set_autoplay: false,
        set_noautoplay: false,
    };
    let mut i: usize = 0;
    assert(t.len() == n);
    #[verifier::loop_isolation(false)]
    while i < n
        invariant
            n == args@.len(),
            t == tokens(args@),
            t.len() == n,
            i <= n,
            run_at(t, i as int, n as int, features, cfg@, w) == flags_spec(t, b, features),
        decreases n - i,
    {
        proof {
            lemma_step_advances(t, i as int, n as int, features, cfg@, w);
        }
        match apply_one(args, i, &mut cfg, &mut w, features) {
            Advance::Continue(j) => {
                i = j;
            },
            Advance::Finished => {
                return Ok(cfg);
            },
            Advance::Failed(e) => {
                return Err(e);
            },
        }
    }
    if cfg.tor && cfg.tls {
        return Err(ArgError::new(TOR_TLS));
    }
    Ok(cfg)
}

/// Resolve `args` on top of `base`, the settings that the files named by
/// `scan_config(args)` (or the file at the default location) gave: the
/// first pass's error, if it found one, else the second pass's result.
pub fn parse(args: &[&str], base: Config, features: Features) -> (r: Result<Config, ArgError>)
    ensures
        outcome(r) == parse_spec(tokens(args@), base@, features),
{
    let scan = scan_config(args);
    match scan.error {
        Some(e) => Err(e),
        None => apply_flags(args, base, features),
    }
}

/// The mode once it is known whether output goes to an interactive
/// terminal: anything but raw output is printed plainly when it does not.
pub open spec fn settled_mode(mode: Mode, interactive: bool) -> Mode {
    if !interactive && mode != Mode::Raw {
        Mode::NoTTY
    } else {
        mode
    }
}

/// Switch to plain output where standard output is not a terminal.
pub fn settle_mode(cfg: Config, interactive: bool) -> (r: Config)
    ensures
        r@ == (ConfigView { mode: settled_mode(cfg.mode, interactive), ..cfg@ }),
{
    let mut cfg = cfg;
    if !interactive && cfg.mode != Mode::Raw {
        cfg.mode = Mode::NoTTY;
    }
    cfg
}

} // verus!
