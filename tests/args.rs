use phetch::args::{parse, scan_config, settle_mode, ArgError};
use phetch::config::{Config, Features, Mode};
use phetch::encoding::Encoding;

fn run(args: &[&str]) -> Result<Config, ArgError> {
    parse(args, Config::default(), Features { tls: true, tor: true })
}

#[test]
fn test_simple() {
    let cfg = run(&["-l"]).expect("failed to parse");
    assert_eq!(cfg.start, "gopher://127.0.0.1:7070");
    assert!(!cfg.wide);
}

#[test]
fn test_ignore_trailing_whitespace() {
    let cfg = run(&["some-url.io   "]).expect("should work");
    assert_eq!(cfg.start, "some-url.io");
}

#[test]
fn test_unknown() {
    let err = run(&["-z"]).expect_err("-z shouldn't exist");
    assert_eq!(err.to_string(), "unknown flag: -z");

    let err = run(&["-l", "-x"]).expect_err("-x shouldn't exist");
    assert_eq!(err.to_string(), "unknown flag: -x");

    let err = run(&["sdf.org", "sdf2.org"]).expect_err("two urls should fail");
    assert_eq!(err.to_string(), "unknown argument: sdf2.org");
}

#[test]
fn test_local() {
    let cfg = run(&["--local"]).expect("should work");
    assert_eq!(cfg.start, "gopher://127.0.0.1:7070");

    let cfg = run(&["-s", "-l"]).expect("should work");
    assert_eq!(cfg.start, "gopher://127.0.0.1:7070");
    assert!(cfg.tls);
}

#[test]
fn test_raw() {
    let cfg = run(&["--raw", "sdf.org"]).expect("should work");
    assert_eq!(cfg.mode, Mode::Raw);
    assert_eq!(cfg.start, "sdf.org");

    let err = run(&["--raw"]).expect_err("should fail");
    assert_eq!(err.to_string(), "--raw needs gopher-url");
}

#[test]
fn test_print() {
    let cfg = run(&["--print", "sdf.org"]).expect("should work");
    assert_eq!(cfg.mode, Mode::Print);
    assert_eq!(cfg.start, "sdf.org");
    let _ = run(&["--print"]).expect("should work");
    assert_eq!(cfg.mode, Mode::Print);
}

#[test]
fn test_help() {
    let cfg = run(&["--help"]).expect("should work");
    assert_eq!(cfg.mode, Mode::Help);
}

#[test]
fn test_version() {
    let cfg = run(&["--version"]).expect("should work");
    assert_eq!(cfg.mode, Mode::Version);
}

#[test]
fn test_tls_tor() {
    let err = run(&["--tls", "--tor"]).expect_err("should fail");
    assert_eq!(err.to_string(), "can\'t set both --tor and --tls");

    let err = run(&["--tls", "--no-tls"]).expect_err("should fail");
    assert_eq!(err.to_string(), "can\'t set both --tls and --no-tls");
    let err = run(&["-s", "-S"]).expect_err("should fail");
    assert_eq!(err.to_string(), "can\'t set both --tls and --no-tls");

    let cfg = run(&["--tor", "--no-tls"]).expect("should work");
    assert!(cfg.tor);
    assert!(!cfg.tls);
}

#[test]
fn test_mix_and_match() {
    let cfg = run(&["-r", "-s", "-C"]).expect("should work");
    assert_eq!(cfg.mode, Mode::Raw);
    assert!(cfg.tls);
}

// Loading a settings file is the caller's part: the library names the
// files, and the caller reports a failed load through `config_load`.
fn load_missing(args: &[&str]) -> ArgError {
    let scan = scan_config(args);
    assert!(scan.error.is_none());
    assert_eq!(scan.files, vec!["file.conf".to_string()]);
    ArgError::config_load(&std::io::Error::from_raw_os_error(2).to_string())
}

#[test]
fn test_config() {
    let err = run(&["-c"]).expect_err("should fail");
    assert_eq!(err.to_string(), "need a config file");

    let err = run(&["-C", "-c", "file.conf"]).expect_err("should fail");
    assert_eq!(err.to_string(), "can't mix --config and --no-config");

    let err = load_missing(&["-c", "file.conf"]);
    assert_eq!(
        err.to_string(),
        "error loading config: No such file or directory (os error 2)"
    );

    let err = load_missing(&["--config=file.conf"]);
    assert_eq!(
        err.to_string(),
        "error loading config: No such file or directory (os error 2)"
    );

    let err = load_missing(&["--config", "file.conf"]);
    assert_eq!(
        err.to_string(),
        "error loading config: No such file or directory (os error 2)"
    );

    let cfg = run(&["-C"]).expect("should work");
    assert!(!cfg.tls);
}

#[test]
fn version_ignores_trailing_invalid_flag() {
    let cfg = run(&["--version", "-z"]).expect("should work");
    assert_eq!(cfg.mode, Mode::Version);
}

#[test]
fn conflicting_pairs_in_both_orders() {
    let cases: Vec<(Vec<&str>, &str)> = vec![
        (vec!["-s", "-S"], "can't set both --tls and --no-tls"),
        (vec!["-S", "-s"], "can't set both --tls and --no-tls"),
        (vec!["-o", "-O"], "can't set both --tor and --no-tor"),
        (vec!["-O", "-o"], "can't set both --tor and --no-tor"),
        (vec!["-m", "mpv", "-M"], "can't set both --media and --no-media"),
        (vec!["-M", "-m", "mpv"], "can't set both --media and --no-media"),
        (vec!["-a", "-A"], "can't set both --autoplay and --no-autoplay"),
        (vec!["-A", "-a"], "can't set both --autoplay and --no-autoplay"),
        (vec!["-M", "-a"], "can't set both --no-media and --autoplay"),
        (vec!["-c", "f", "-C"], "can't mix --config and --no-config"),
        (vec!["-C", "--config=f"], "can't mix --config and --no-config"),
        (vec!["-o", "-s"], "can't set both --tor and --tls"),
    ];
    for (args, msg) in cases {
        let err = run(&args).expect_err("should fail");
        assert_eq!(err.to_string(), msg);
    }
}

#[test]
fn permuted_switches_agree() {
    let a = run(&["-p", "-s", "-O", "-M", "-A", "-C"]).expect("should work");
    let b = run(&["-C", "-A", "-M", "-O", "-s", "-p"]).expect("should work");
    assert_eq!(a.mode, b.mode);
    assert_eq!(a.tls, b.tls);
    assert_eq!(a.tor, b.tor);
    assert_eq!(a.media, b.media);
    assert_eq!(a.autoplay, b.autoplay);
    assert_eq!(a.mode, Mode::Print);
    assert!(a.tls && !a.tor && a.media.is_none() && !a.autoplay);
}

#[test]
fn defaults_are_kept_without_flags() {
    let cfg = run(&[]).expect("should work");
    assert_eq!(cfg.start, "");
    assert_eq!(cfg.wrap, 80);
    assert_eq!(cfg.mode, Mode::Normal);
    assert_eq!(cfg.encoding, Encoding::UTF8);
    assert!(!cfg.tls && !cfg.tor && !cfg.autoplay && cfg.media.is_none());
}

#[test]
fn value_flags() {
    let cfg = run(&["-w", "72", "-m", "mpv", "-a", "-e", "cp437"]).expect("should work");
    assert_eq!(cfg.wrap, 72);
    assert_eq!(cfg.media, Some("mpv".to_string()));
    assert!(cfg.autoplay);
    assert_eq!(cfg.encoding, Encoding::CP437);
    let cfg = run(&["--wrap", "+7", "--encoding", "utf-8"]).expect("should work");
    assert_eq!(cfg.wrap, 7);
    assert_eq!(cfg.encoding, Encoding::UTF8);
}

#[test]
fn value_flag_errors() {
    let cases: Vec<(Vec<&str>, &str)> = vec![
        (vec!["-w"], "--wrap expects a COLUMN arg"),
        (vec!["-w", "wide"], "--wrap expects a COLUMN arg"),
        (vec!["-w", "-1"], "--wrap expects a COLUMN arg"),
        (vec!["-m"], "--media expects a PROGRAM arg"),
        (vec!["-e"], "--encoding expects an ENCODING arg"),
        (vec!["-e", "latin1"], "unknown encoding: latin1"),
    ];
    for (args, msg) in cases {
        let err = run(&args).expect_err("should fail");
        assert_eq!(err.to_string(), msg);
    }
}

#[test]
fn missing_transport_support() {
    let none = Features { tls: false, tor: false };
    let err = parse(&["-s"], Config::default(), none).expect_err("should fail");
    assert_eq!(err.to_string(), "phetch was compiled without TLS support");
    let err = parse(&["-o"], Config::default(), none).expect_err("should fail");
    assert_eq!(err.to_string(), "phetch was compiled without Tor support");
}

#[test]
fn raw_counts_every_argument() {
    let cfg = run(&["-r", "-p"]).expect("should work");
    assert_eq!(cfg.mode, Mode::Print);
    let cfg = run(&["-p", "-r"]).expect("should work");
    assert_eq!(cfg.mode, Mode::Raw);
}

#[test]
fn base_settings_are_kept() {
    let mut base = Config::default();
    base.tls = true;
    base.wrap = 100;
    let cfg = parse(&["sdf.org"], base, Features { tls: true, tor: true }).expect("should work");
    assert!(cfg.tls);
    assert_eq!(cfg.wrap, 100);
    let mut base = Config::default();
    base.tls = true;
    let err = parse(&["-o"], base, Features { tls: true, tor: true }).expect_err("should fail");
    assert_eq!(err.to_string(), "can't set both --tor and --tls");
}

#[test]
fn scan_lists_files_in_order() {
    let scan = scan_config(&["-c", "a.conf", "-l", "-config=b.conf"]);
    assert!(scan.error.is_none());
    assert!(scan.explicit);
    assert_eq!(scan.files, vec!["a.conf".to_string(), "b.conf".to_string()]);
    let scan = scan_config(&["-l", "x"]);
    assert!(!scan.explicit && scan.files.is_empty());
    let scan = scan_config(&["-c", "a.conf", "-C"]);
    assert_eq!(scan.files, vec!["a.conf".to_string()]);
    assert_eq!(scan.error.expect("should fail").description(), "can't mix --config and --no-config");
}

#[test]
fn settle_mode_when_piped() {
    let cfg = settle_mode(Config::default(), false);
    assert_eq!(cfg.mode, Mode::NoTTY);
    let cfg = settle_mode(run(&["-r", "x"]).expect("should work"), false);
    assert_eq!(cfg.mode, Mode::Raw);
    let cfg = settle_mode(Config::default(), true);
    assert_eq!(cfg.mode, Mode::Normal);
}

#[test]
fn arg_error_messages() {
    assert_eq!(ArgError::new("boom").to_string(), "boom");
    assert_eq!(ArgError::new("boom").description(), "boom");
    assert_eq!(ArgError::config_load("gone").to_string(), "error loading config: gone");
}
