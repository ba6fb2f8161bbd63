use phetch::item_type::Type;

const ALL: [Type; 24] = [
    Type::Text, Type::Menu, Type::CSOEntity, Type::Error, Type::Binhex, Type::DOSFile,
    Type::UUEncoded, Type::Search, Type::Telnet, Type::Binary, Type::Mirror, Type::GIF,
    Type::Telnet3270, Type::HTML, Type::Image, Type::PNG, Type::Info, Type::Sound,
    Type::Document, Type::Video, Type::Xml, Type::Executable, Type::Command, Type::Mailbox,
];

#[test]
fn decode_of_encode_is_identity() {
    for t in ALL {
        assert_eq!(Type::from(t.to_char()), Some(t));
    }
}

#[test]
fn codes_are_distinct() {
    for (i, a) in ALL.iter().enumerate() {
        for b in &ALL[i + 1..] {
            assert_ne!(a.to_char(), b.to_char());
        }
    }
}

#[test]
fn unknown_codes_decode_to_none() {
    for c in ['a', 'Z', '-', ' ', 'é', '\n'] {
        assert_eq!(Type::from(c), None);
    }
}

#[test]
fn known_codes() {
    assert_eq!(Type::Video.to_char(), ';');
    assert_eq!(Type::from('+'), Some(Type::Mirror));
    assert_eq!(Type::from('X'), Some(Type::Xml));
    assert_eq!(Type::from('x'), Some(Type::Executable));
}

#[test]
fn classification() {
    assert!(Type::Info.is_info() && !Type::Info.is_link());
    assert!(Type::Menu.is_link());
    assert!(Type::Text.is_text() && Type::Xml.is_text() && !Type::HTML.is_text());
    assert!(Type::HTML.is_html() && Type::Telnet.is_telnet());
    assert!(Type::Sound.is_media() && Type::Video.is_media() && !Type::GIF.is_media());
    assert!(Type::PNG.is_download() && Type::Executable.is_download() && !Type::Menu.is_download());
    assert!(!Type::Mailbox.is_supported() && !Type::Telnet3270.is_supported());
    assert!(Type::Search.is_supported());
    let downloads = ALL.iter().filter(|t| t.is_download()).count();
    assert_eq!(downloads, 12);
    let unsupported = ALL.iter().filter(|t| !t.is_supported()).count();
    assert_eq!(unsupported, 4);
}
