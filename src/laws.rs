//! Laws of argument resolution, stated over its specification.
use vstd::prelude::*;
use vstd::seq_lib::group_to_multiset_ensures;
use crate::args::{
    flag_of, parse_spec, run_at, scan_at, step_at, Flag, Step, Switches, no_switches,
    AUTOPLAY_NOAUTOPLAY, LOCAL_URL, MEDIA_NOMEDIA, MIX_CONFIG, NOMEDIA_AUTOPLAY, RAW_NEEDS_URL,
    TLS_NOTLS, TOR_NOTOR, TOR_TLS,
};
use crate::config::{ConfigView, Features, Mode};

verus! {

/// Giving both flags of an opposing switch pair, in either order, fails
/// with that pair's own message: `--tls`/`--no-tls` and `--tor`/`--no-tor`
/// (where the build has the transport), `--autoplay`/`--no-autoplay`, and
/// `--tor`/`--tls` (where the build has both). `--no-media` before
/// `--autoplay` fails with its message too.
pub proof fn lemma_opposing_switches(x: Seq<char>, y: Seq<char>, base: ConfigView, f: Features)
    ensures
        flag_of(x) == Flag::Tls && flag_of(y) == Flag::NoTls && f.tls ==> parse_spec(seq![x, y], base, f)
            == Err::<ConfigView, Seq<char>>(TLS_NOTLS@) && parse_spec(seq![y, x], base, f) == Err::<
            ConfigView,
            Seq<char>,
        >(TLS_NOTLS@),
        flag_of(x) == Flag::Tor && flag_of(y) == Flag::NoTor && f.tor ==> parse_spec(seq![x, y], base, f)
            == Err::<ConfigView, Seq<char>>(TOR_NOTOR@) && parse_spec(seq![y, x], base, f) == Err::<
            ConfigView,
            Seq<char>,
        >(TOR_NOTOR@),
        flag_of(x) == Flag::Autoplay && flag_of(y) == Flag::NoAutoplay ==> parse_spec(seq![x, y], base, f)
            == Err::<ConfigView, Seq<char>>(AUTOPLAY_NOAUTOPLAY@) && parse_spec(seq![y, x], base, f)
            == Err::<ConfigView, Seq<char>>(AUTOPLAY_NOAUTOPLAY@),
        flag_of(x) == Flag::Tor && flag_of(y) == Flag::Tls && f.tls && f.tor ==> parse_spec(seq![x, y], base, f)
            == Err::<ConfigView, Seq<char>>(TOR_TLS@) && parse_spec(seq![y, x], base, f) == Err::<
            ConfigView,
            Seq<char>,
        >(TOR_TLS@),
        flag_of(x) == Flag::NoMedia && flag_of(y) == Flag::Autoplay ==> parse_spec(seq![x, y], base, f)
            == Err::<ConfigView, Seq<char>>(NOMEDIA_AUTOPLAY@),
{
    reveal_with_fuel(scan_at, 3);
    reveal_with_fuel(run_at, 3);
    let s1 = seq![x, y];
    let s2 = seq![y, x];
    assert(s1.len() == 2 && s1[0] == x && s1[1] == y);
    assert(s2.len() == 2 && s2[0] == y && s2[1] == x);
}

/// `--media <program>` and `--no-media` together fail, in either order,
/// with their message; so do `--config <file>` (or `--config=<file>`) and
/// `--no-config`.
pub proof fn lemma_opposing_values(x: Seq<char>, v: Seq<char>, y: Seq<char>, base: ConfigView, f: Features)
    ensures
        flag_of(x) == Flag::Media && flag_of(y) == Flag::NoMedia && flag_of(v) != Flag::NoConfig
            && flag_of(v) != Flag::Config && flag_of(v) != Flag::ConfigInline ==> parse_spec(
            seq![x, v, y],
            base,
            f,
        ) == Err::<ConfigView, Seq<char>>(MEDIA_NOMEDIA@) && parse_spec(seq![y, x, v], base, f)
            == Err::<ConfigView, Seq<char>>(MEDIA_NOMEDIA@),
        flag_of(x) == Flag::Config && flag_of(y) == Flag::NoConfig ==> parse_spec(seq![x, v, y], base, f)
            == Err::<ConfigView, Seq<char>>(MIX_CONFIG@) && parse_spec(seq![y, x, v], base, f) == Err::<
            ConfigView,
            Seq<char>,
        >(MIX_CONFIG@),
        flag_of(x) == Flag::ConfigInline && flag_of(y) == Flag::NoConfig ==> parse_spec(seq![x, y], base, f)
            == Err::<ConfigView, Seq<char>>(MIX_CONFIG@) && parse_spec(seq![y, x], base, f) == Err::<
            ConfigView,
            Seq<char>,
        >(MIX_CONFIG@),
{
    reveal_with_fuel(scan_at, 4);
    reveal_with_fuel(run_at, 3);
    let s1 = seq![x, v, y];
    let s2 = seq![y, x, v];
    let s3 = seq![x, y];
    let s4 = seq![y, x];
    assert(s1.len() == 3 && s1[0] == x && s1[1] == v && s1[2] == y);
    assert(s2.len() == 3 && s2[0] == y && s2[1] == x && s2[2] == v);
    assert(s3.len() == 2 && s3[0] == x && s3[1] == y);
    assert(s4.len() == 2 && s4[0] == y && s4[1] == x);
}

/// Flags that take no value, do not end resolution and name no target.
pub open spec fn is_switch(fl: Flag) -> bool {
    fl == Flag::Raw || fl == Flag::Print || fl == Flag::Local || fl == Flag::NoConfig || fl
        == Flag::Tls || fl == Flag::NoTls || fl == Flag::Tor || fl == Flag::NoTor || fl
        == Flag::NoMedia || fl == Flag::Autoplay || fl == Flag::NoAutoplay
}

/// A token from `i` on is of kind `fl`.
pub open spec fn has_from(t: Seq<Seq<char>>, i: int, fl: Flag) -> bool {
    exists|k: int| i <= k < t.len() && #[trigger] flag_of(t[k]) == fl
}

/// Every token from `i` on is a switch.
pub open spec fn switches_only(t: Seq<Seq<char>>, i: int) -> bool {
    forall|k: int| i <= k < t.len() ==> is_switch(#[trigger] flag_of(t[k]))
}

/// The tokens from `i` on hold no two flags that exclude each other or that
/// both set the mode, and no transport the build lacks.
pub open spec fn no_clash(t: Seq<Seq<char>>, i: int, f: Features) -> bool {
    &&& !(has_from(t, i, Flag::Tls) && has_from(t, i, Flag::NoTls))
    &&& !(has_from(t, i, Flag::Tor) && has_from(t, i, Flag::NoTor))
    &&& !(has_from(t, i, Flag::Autoplay) && has_from(t, i, Flag::NoAutoplay))
    &&& !(has_from(t, i, Flag::NoMedia) && has_from(t, i, Flag::Autoplay))
    &&& !(has_from(t, i, Flag::Raw) && has_from(t, i, Flag::Print))
    &&& (has_from(t, i, Flag::Tls) ==> f.tls)
    &&& (has_from(t, i, Flag::Tor) ==> f.tor)
}

/// The switches `w` given earlier exclude no token from `i` on.
pub open spec fn fits(w: Switches, t: Seq<Seq<char>>, i: int) -> bool {
    &&& !(w.set_tls && has_from(t, i, Flag::NoTls))
    &&& !(w.set_notls && has_from(t, i, Flag::Tls))
    &&& !(w.set_tor && has_from(t, i, Flag::NoTor))
    &&& !(w.set_notor && has_from(t, i, Flag::Tor))
    &&& !(w.set_media && has_from(t, i, Flag::NoMedia))
    &&& !(w.set_nomedia && has_from(t, i, Flag::Autoplay))
    &&& !(w.set_autoplay && has_from(t, i, Flag::NoAutoplay))
    &&& !(w.set_noautoplay && has_from(t, i, Flag::Autoplay))
}

/// The settings `c` with the switches from `i` on applied: each by which
/// switches occur, not where.
pub open spec fn switched(t: Seq<Seq<char>>, i: int, c: ConfigView) -> ConfigView {
    ConfigView {
        mode: if has_from(t, i, Flag::Raw) {
            Mode::Raw
        } else if has_from(t, i, Flag::Print) {
            Mode::Print
        } else {
            c.mode
        },
        start: if has_from(t, i, Flag::Local) {
            LOCAL_URL@
        } else {
            c.start
        },
        tls: if has_from(t, i, Flag::Tls) {
            true
        } else if has_from(t, i, Flag::NoTls) {
            false
        } else {
            c.tls
        },
        tor: if has_from(t, i, Flag::Tor) {
            true
        } else if has_from(t, i, Flag::NoTor) {
            false
        } else {
            c.tor
        },
        media: if has_from(t, i, Flag::NoMedia) {
            None
        } else {
            c.media
        },
        autoplay: if has_from(t, i, Flag::Autoplay) {
            true
        } else if has_from(t, i, Flag::NoAutoplay) {
            false
        } else {
            c.autoplay
        },
        ..c
    }
}

/// The result of the switches from `i` on, over `n` arguments in all.
pub open spec fn switched_result(t: Seq<Seq<char>>, i: int, n: int, c: ConfigView) -> Result<ConfigView, Seq<char>> {
    if has_from(t, i, Flag::Raw) && n <= 1 {
        Err(RAW_NEEDS_URL@)
    } else if switched(t, i, c).tor && switched(t, i, c).tls {
        Err(TOR_TLS@)
    } else {
        Ok(switched(t, i, c))
    }
}

proof fn lemma_has_step(t: Seq<Seq<char>>, i: int, fl: Flag)
    requires
        0 <= i < t.len(),
    ensures
        has_from(t, i, fl) == (flag_of(t[i]) == fl || has_from(t, i + 1, fl)),
{
    if has_from(t, i, fl) {
        let k = choose|k: int| i <= k < t.len() && #[trigger] flag_of(t[k]) == fl;
        if k != i {
            assert(flag_of(t[k]) == fl);
        }
    }
    if has_from(t, i + 1, fl) {
        let k = choose|k: int| i + 1 <= k < t.len() && #[trigger] flag_of(t[k]) == fl;
        assert(flag_of(t[k]) == fl);
    }
    if flag_of(t[i]) == fl {
        assert(flag_of(t[i]) == fl);
    }
}

proof fn lemma_has_steps(t: Seq<Seq<char>>, i: int)
    requires
        0 <= i < t.len(),
    ensures
        forall|fl: Flag| #[trigger] has_from(t, i, fl) == (flag_of(t[i]) == fl || has_from(t, i + 1, fl)),
{
    assert forall|fl: Flag| #[trigger] has_from(t, i, fl) == (flag_of(t[i]) == fl || has_from(t, i + 1, fl)) by {
        lemma_has_step(t, i, fl);
    }
}

/// What one switch does, stated over the settings its step leads to.
pub open spec fn step_agrees(t: Seq<Seq<char>>, i: int, n: int, f: Features, c: ConfigView, w: Switches) -> bool {
    match step_at(t, i, n, f, c, w) {
        Step::Stop(r) => r == switched_result(t, i, n, c),
        Step::Go(j, c2, w2) => j == i + 1 && no_clash(t, i + 1, f) && fits(w2, t, i + 1)
            && switched_result(t, i + 1, n, c2) == switched_result(t, i, n, c),
    }
}

#[verifier::rlimit(100)]
proof fn lemma_mode_step(t: Seq<Seq<char>>, i: int, n: int, f: Features, c: ConfigView, w: Switches)
    requires
        0 <= i < t.len(),
        flag_of(t[i]) == Flag::Raw || flag_of(t[i]) == Flag::Print || flag_of(t[i]) == Flag::Local || flag_of(t[i]) == Flag::NoConfig,
        no_clash(t, i, f),
        fits(w, t, i),
    ensures
        step_agrees(t, i, n, f, c, w),
{
    lemma_has_steps(t, i);
}

#[verifier::rlimit(100)]
proof fn lemma_tls_step(t: Seq<Seq<char>>, i: int, n: int, f: Features, c: ConfigView, w: Switches)
    requires
        0 <= i < t.len(),
        flag_of(t[i]) == Flag::Tls || flag_of(t[i]) == Flag::NoTls,
        no_clash(t, i, f),
        fits(w, t, i),
    ensures
        step_agrees(t, i, n, f, c, w),
{
    lemma_has_steps(t, i);
}

#[verifier::rlimit(100)]
proof fn lemma_tor_step(t: Seq<Seq<char>>, i: int, n: int, f: Features, c: ConfigView, w: Switches)
    requires
        0 <= i < t.len(),
        flag_of(t[i]) == Flag::Tor || flag_of(t[i]) == Flag::NoTor,
        no_clash(t, i, f),
        fits(w, t, i),
    ensures
        step_agrees(t, i, n, f, c, w),
{
    lemma_has_steps(t, i);
}

#[verifier::rlimit(100)]
proof fn lemma_media_step(t: Seq<Seq<char>>, i: int, n: int, f: Features, c: ConfigView, w: Switches)
    requires
        0 <= i < t.len(),
        flag_of(t[i]) == Flag::NoMedia || flag_of(t[i]) == Flag::Autoplay || flag_of(t[i]) == Flag::NoAutoplay,
        no_clash(t, i, f),
        fits(w, t, i),
    ensures
        step_agrees(t, i, n, f, c, w),
{
    lemma_has_steps(t, i);
}

/// Switches alone end in the result their set determines.
proof fn lemma_switch_run(t: Seq<Seq<char>>, i: int, n: int, f: Features, c: ConfigView, w: Switches)
    requires
        0 <= i <= t.len(),
        switches_only(t, i),
        no_clash(t, i, f),
        fits(w, t, i),
    ensures
        run_at(t, i, n, f, c, w) == switched_result(t, i, n, c),
    decreases t.len() - i,
{
    if i == t.len() {
        assert(switched(t, i, c) == c);
    } else {
        let fl = flag_of(t[i]);
        assert(is_switch(fl));
        if fl == Flag::Raw || fl == Flag::Print || fl == Flag::Local || fl == Flag::NoConfig {
            lemma_mode_step(t, i, n, f, c, w);
        } else if fl == Flag::Tls || fl == Flag::NoTls {
            lemma_tls_step(t, i, n, f, c, w);
        } else if fl == Flag::Tor || fl == Flag::NoTor {
            lemma_tor_step(t, i, n, f, c, w);
        } else {
            lemma_media_step(t, i, n, f, c, w);
        }
        match step_at(t, i, n, f, c, w) {
            Step::Stop(_) => {},
            Step::Go(j, c2, w2) => {
                assert(switches_only(t, i + 1));
                lemma_switch_run(t, i + 1, n, f, c2, w2);
            },
        }
    }
}

proof fn lemma_scan_switches(t: Seq<Seq<char>>, i: int, nocfg: bool, files: Seq<Seq<char>>)
    requires
        0 <= i <= t.len(),
        switches_only(t, i),
    ensures
        scan_at(t, i, false, nocfg, files).error is None,
    decreases t.len() - i,
{
    if i < t.len() {
        assert(is_switch(flag_of(t[i])));
        lemma_scan_switches(t, i + 1, nocfg || flag_of(t[i]) == Flag::NoConfig, files);
    }
}

proof fn lemma_has_permuted(t1: Seq<Seq<char>>, t2: Seq<Seq<char>>, fl: Flag)
    requires
        t1.to_multiset() == t2.to_multiset(),
    ensures
        has_from(t1, 0, fl) ==> has_from(t2, 0, fl),
{
    broadcast use group_to_multiset_ensures;

    if has_from(t1, 0, fl) {
        let k = choose|k: int| 0 <= k < t1.len() && #[trigger] flag_of(t1[k]) == fl;
        let s = t1[k];
        assert(t1.contains(s));
        assert(t2.to_multiset().count(s) > 0);
        assert(t2.contains(s));
        let k2 = choose|k2: int| 0 <= k2 < t2.len() && t2[k2] == s;
        assert(flag_of(t2[k2]) == fl);
    }
}

proof fn lemma_switches_permuted(t1: Seq<Seq<char>>, t2: Seq<Seq<char>>)
    requires
        t1.to_multiset() == t2.to_multiset(),
        switches_only(t1, 0),
    ensures
        switches_only(t2, 0),
{
    broadcast use group_to_multiset_ensures;

    assert forall|k2: int| 0 <= k2 < t2.len() implies is_switch(#[trigger] flag_of(t2[k2])) by {
        let s = t2[k2];
        assert(t2.contains(s));
        assert(t1.to_multiset().count(s) > 0);
        assert(t1.contains(s));
        let k = choose|k: int| 0 <= k < t1.len() && t1[k] == s;
        assert(is_switch(flag_of(t1[k])));
    }
}

/// Switches (`--raw`, `--print`, `--local`, `--no-config`, `--tls`,
/// `--no-tls`, `--tor`, `--no-tor`, `--no-media`, `--autoplay`,
/// `--no-autoplay`) of which no two exclude each other or both set the
/// mode, and with no transport the build lacks, resolve the same in any
/// order.
pub proof fn lemma_switch_order(t1: Seq<Seq<char>>, t2: Seq<Seq<char>>, base: ConfigView, f: Features)
    requires
        t1.to_multiset() == t2.to_multiset(),
        switches_only(t1, 0),
        no_clash(t1, 0, f),
    ensures
        parse_spec(t1, base, f) == parse_spec(t2, base, f),
{
    broadcast use group_to_multiset_ensures;

    t1.to_multiset_ensures();
    t2.to_multiset_ensures();
    assert(t1.len() == t2.len());
    assert forall|fl: Flag| #[trigger] has_from(t1, 0, fl) == has_from(t2, 0, fl) by {
        lemma_has_permuted(t1, t2, fl);
        lemma_has_permuted(t2, t1, fl);
    }
    lemma_switches_permuted(t1, t2);
    lemma_scan_switches(t1, 0, false, Seq::empty());
    lemma_scan_switches(t2, 0, false, Seq::empty());
    lemma_switch_run(t1, 0, t1.len() as int, f, base, no_switches());
    lemma_switch_run(t2, 0, t2.len() as int, f, base, no_switches());
}

} // verus!
