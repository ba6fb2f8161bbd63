//! The settings a run of the client uses.
use vstd::prelude::*;
use crate::encoding::Encoding;

verus! {

/// What the client does once its settings are resolved.
#[derive(Copy, Clone, PartialEq, Eq, Structural, Debug)]
pub enum Mode {
    /// Browse interactively.
    Normal,
    /// Print the raw server response.
    Raw,
    /// Print a rendered page.
    Print,
    /// Show usage.
    Help,
    /// Show the version.
    Version,
    /// Output is not a terminal: fetch and print.
    NoTTY,
}

/// Column width used when none is given.
pub const DEFAULT_WRAP: usize = 80;

/// The settings of one run.
#[derive(Debug)]
pub struct Config {
    /// The resource opened first.
    pub start: String,
    /// Show emoji in menus.
    pub emoji: bool,
    /// Connect over TLS.
    pub tls: bool,
    /// Connect through Tor.
    pub tor: bool,
    /// Use the full terminal width.
    pub wide: bool,
    /// Column that text is wrapped at.
    pub wrap: usize,
    /// Program that plays media items.
    pub media: Option<String>,
    /// Play media without asking.
    pub autoplay: bool,
    /// Encoding documents are shown in.
    pub encoding: Encoding,
    /// What the run does.
    pub mode: Mode,
}

/// A `Config` with its strings as character sequences.
pub struct ConfigView {
    pub start: Seq<char>,
    pub emoji: bool,
    pub tls: bool,
    pub tor: bool,
    pub wide: bool,
    pub wrap: usize,
    pub media: Option<Seq<char>>,
    pub autoplay: bool,
    pub encoding: Encoding,
    pub mode: Mode,
}

impl View for Config {
    type V = ConfigView;

    open spec fn view(&self) -> ConfigView {
        ConfigView {
            start: self.start@,
            emoji: self.emoji,
            tls: self.tls,
            tor: self.tor,
            wide: self.wide,
            wrap: self.wrap,
            media: match self.media {
                Some(m) => Some(m@),
                None => None,
            },
            autoplay: self.autoplay,
            encoding: self.encoding,
            mode: self.mode,
        }
    }
}

/// The built-in settings.
pub open spec fn default_config() -> ConfigView {
    ConfigView {
        start: Seq::empty(),
        emoji: false,
        tls: false,
        tor: false,
        wide: false,
        wrap: DEFAULT_WRAP,
        media: None,
        autoplay: false,
        encoding: Encoding::UTF8,
        mode: Mode::Normal,
    }
}

impl Default for Config {
    fn default() -> (r: Config)
        ensures
            r@ == default_config(),
    {
        let start = String::new();
        proof {
            assert(start@ =~= Seq::<char>::empty());
        }
        Config {
            start,
            emoji: false,
            tls: false,
            tor: false,
            wide: false,
            wrap: DEFAULT_WRAP,
            media: None,
            autoplay: false,
            encoding: Encoding::UTF8,
            mode: Mode::Normal,
        }
    }
}

/// Optional transports this build can use.
#[derive(Copy, Clone, PartialEq, Eq, Structural, Debug)]
pub struct Features {
    /// TLS connections are available.
    pub tls: bool,
    /// Tor connections are available.
    pub tor: bool,
}

} // verus!
