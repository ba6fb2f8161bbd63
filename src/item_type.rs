//! Gopher item types, as defined by RFC 1436, and their one-character
//! codes.
use vstd::prelude::*;

verus! {

/// Gopher types are defined according to RFC 1436.
#[derive(Copy, Clone, PartialEq, Eq, Structural, Debug)]
pub enum Type {
    Text,
    Menu,
    CSOEntity,
    Error,
    Binhex,
    DOSFile,
    UUEncoded,
    Search,
    Telnet,
    Binary,
    Mirror,
    GIF,
    Telnet3270,
    HTML,
    Image,
    PNG,
    Info,
    Sound,
    Document,
    Video,
    Xml,
    Executable,
    Command,
    Mailbox,
}

/// The RFC character that encodes an item type.
pub open spec fn code_of(t: Type) -> char {
    match t {
        Type::Text => '0',
        Type::Menu => '1',
        Type::CSOEntity => '2',
        Type::Error => '3',
        Type::Binhex => '4',
        Type::DOSFile => '5',
        Type::UUEncoded => '6',
        Type::Search => '7',
        Type::Telnet => '8',
        Type::Binary => '9',
        Type::Mirror => '+',
        Type::GIF => 'g',
        Type::Telnet3270 => 'T',
        Type::HTML => 'h',
        Type::Image => 'I',
        Type::PNG => 'p',
        Type::Info => 'i',
        Type::Sound => 's',
        Type::Document => 'd',
        Type::Video => ';',
        Type::Command => 'c',
        Type::Xml => 'X',
        Type::Executable => 'x',
        Type::Mailbox => 'M',
    }
}

/// The item type that an RFC character encodes, if any.
pub open spec fn type_of(c: char) -> Option<Type> {
    if c == '0' { Some(Type::Text) }
    else if c == '1' { Some(Type::Menu) }
    else if c == '2' { Some(Type::CSOEntity) }
    else if c == '3' { Some(Type::Error) }
    else if c == '4' { Some(Type::Binhex) }
    else if c == '5' { Some(Type::DOSFile) }
    else if c == '6' { Some(Type::UUEncoded) }
    else if c == '7' { Some(Type::Search) }
    else if c == '8' { Some(Type::Telnet) }
    else if c == '9' { Some(Type::Binary) }
    else if c == '+' { Some(Type::Mirror) }
    else if c == 'g' { Some(Type::GIF) }
    else if c == 'T' { Some(Type::Telnet3270) }
    else if c == 'h' { Some(Type::HTML) }
    else if c == 'I' { Some(Type::Image) }
    else if c == 'p' { Some(Type::PNG) }
    else if c == 'i' { Some(Type::Info) }
    else if c == 's' { Some(Type::Sound) }
    else if c == 'd' { Some(Type::Document) }
    else if c == ';' { Some(Type::Video) }
    else if c == 'c' { Some(Type::Command) }
    else if c == 'x' { Some(Type::Executable) }
    else if c == 'X' { Some(Type::Xml) }
    else if c == 'M' { Some(Type::Mailbox) }
    else { None }
}

/// Item types offered for download rather than displayed.
pub open spec fn downloadable(t: Type) -> bool {
    match t {
        Type::Binhex | Type::DOSFile | Type::UUEncoded | Type::Binary | Type::GIF | Type::Image
        | Type::PNG | Type::Sound | Type::Video | Type::Command | Type::Document
        | Type::Executable => true,
        _ => false,
    }
}

/// Item types this client cannot open.
pub open spec fn unsupported(t: Type) -> bool {
    match t {
        Type::CSOEntity | Type::Mirror | Type::Telnet3270 | Type::Mailbox => true,
        _ => false,
    }
}

impl Type {
    /// Is this an info line?
    pub fn is_info(self) -> (r: bool)
        ensures
            r == (self == Type::Info),
    {
        self == Type::Info
    }

    /// Text document?
    pub fn is_text(self) -> (r: bool)
        ensures
            r == (self == Type::Text || self == Type::Xml),
    {
        matches!(self, Type::Text | Type::Xml)
    }

    /// HTML link?
    pub fn is_html(self) -> (r: bool)
        ensures
            r == (self == Type::HTML),
    {
        self == Type::HTML
    }

    /// Telnet link?
    pub fn is_telnet(self) -> (r: bool)
        ensures
            r == (self == Type::Telnet),
    {
        self == Type::Telnet
    }

    /// Is this a link, ie something we can navigate to or open?
    pub fn is_link(self) -> (r: bool)
        ensures
            r == (self != Type::Info),
    {
        !self.is_info()
    }

    /// Is this something we can download?
    pub fn is_download(self) -> (r: bool)
        ensures
            r == downloadable(self),
    {
        matches!(
            self,
            Type::Binhex
                | Type::DOSFile
                | Type::UUEncoded
                | Type::Binary
                | Type::GIF
                | Type::Image
                | Type::PNG
                | Type::Sound
                | Type::Video
                | Type::Command
                | Type::Document
                | Type::Executable
        )
    }

    /// Check if media to open in player
    pub fn is_media(self) -> (r: bool)
        ensures
            r == (self == Type::Sound || self == Type::Video),
    {
        matches!(self, Type::Sound | Type::Video)
    }

    /// Is this a type the client supports?
    pub fn is_supported(self) -> (r: bool)
        ensures
            r == !unsupported(self),
    {
        !matches!(self, Type::CSOEntity | Type::Mirror | Type::Telnet3270 | Type::Mailbox)
    }

    /// Gopher Item Type to RFC char.
    pub fn to_char(self) -> (r: char)
        ensures
            r == code_of(self),
    {
        match self {
            Type::Text => '0',
            Type::Menu => '1',
            Type::CSOEntity => '2',
            Type::Error => '3',
            Type::Binhex => '4',
            Type::DOSFile => '5',
            Type::UUEncoded => '6',
            Type::Search => '7',
            Type::Telnet => '8',
            Type::Binary => '9',
            Type::Mirror => '+',
            Type::GIF => 'g',
            Type::Telnet3270 => 'T',
            Type::HTML => 'h',
            Type::Image => 'I',
            Type::PNG => 'p',
            Type::Info => 'i',
            Type::Sound => 's',
            Type::Document => 'd',
            Type::Video => ';',
            Type::Command => 'c',
            Type::Xml => 'X',
            Type::Executable => 'x',
            Type::Mailbox => 'M',
        }
    }

    /// Create a Gopher Item Type from its RFC char code.
    pub fn from(c: char) -> (r: Option<Type>)
        ensures
            r == type_of(c),
    {
        Some(
            match c {
                '0' => Type::Text,
                '1' => Type::Menu,
                '2' => Type::CSOEntity,
                '3' => Type::Error,
                '4' => Type::Binhex,
                '5' => Type::DOSFile,
                '6' => Type::UUEncoded,
                '7' => Type::Search,
                '8' => Type::Telnet,
                '9' => Type::Binary,
                '+' => Type::Mirror,
                'g' => Type::GIF,
                'T' => Type::Telnet3270,
                'h' => Type::HTML,
                'I' => Type::Image,
                'p' => Type::PNG,
                'i' => Type::Info,
                's' => Type::Sound,
                'd' => Type::Document,
                ';' => Type::Video,
                'c' => Type::Command,
                'x' => Type::Executable,
                'X' => Type::Xml,
                'M' => Type::Mailbox,
                _ => return None,
            },
        )
    }
}

/// Decoding the code of an item type gives the item type back.
pub proof fn lemma_decode_encode(t: Type)
    ensures
        type_of(code_of(t)) == Some(t),
{
}

/// No two item types share a code.
pub proof fn lemma_encode_injective(t: Type, u: Type)
    ensures
        code_of(t) == code_of(u) ==> t == u,
{
}

/// A character decodes to an item type exactly when it is that type's
/// code, so a character outside the table decodes to nothing.
pub proof fn lemma_decode_only_codes(c: char)
    ensures
        type_of(c) is None <==> (forall|t: Type| code_of(t) != c),
        type_of(c) matches Some(t) ==> code_of(t) == c,
{
    if type_of(c) is None {
        assert forall|t: Type| code_of(t) != c by {
            lemma_decode_encode(t);
        }
    } else {
        assert(code_of(type_of(c).unwrap()) == c);
    }
}

} // verus!
