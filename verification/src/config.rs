//! Configuration data and the settings-dialog sanitation rules.
//!
//! Persistence of the configuration (its file format) is the surrounding
//! application's business; what is kept here is the data itself, its
//! defaults, and the rules that turn the dialog's free-text fields into a
//! valid configuration.

use vstd::prelude::*;

verus! {

/// SOCKS5 proxy configuration for model downloads.
pub struct Socks5 {
    pub enabled: bool,
    pub url: String,
    pub port: u16,
}

impl Default for Socks5 {
    /// The proxy defaults to a local endpoint, disabled.
    fn default() -> (c: Socks5)
        ensures
            !c.enabled,
            c.url@ == "127.0.0.1"@,
            c.port == 1080,
    {
        Socks5 { enabled: false, url: String::from_str("127.0.0.1"), port: 1080 }
    }
}

/// Window and font settings of the user interface.
pub struct UI {
    pub font_size: u32,
    pub font_family: String,
    pub win_width: u32,
    pub win_height: u32,
    pub language: String,
}

impl Default for UI {
    fn default() -> (c: UI)
        ensures
            c.font_size == 18,
            c.font_family@ == "SourceHanSerifCN"@,
            c.win_width == 600,
            c.win_height == 800,
            c.language@ == "cn"@,
    {
        UI {
            font_size: 18,
            font_family: String::from_str("SourceHanSerifCN"),
            win_width: 600,
            win_height: 800,
            language: String::from_str("cn"),
        }
    }
}

/// The whole configuration: paths the application fills in at startup, the
/// user-interface settings, and the proxy.
pub struct Config {
    pub config_path: String,
    pub db_path: String,
    pub cache_dir: String,
    pub ui: UI,
    pub socks5: Socks5,
}

impl Default for Config {
    fn default() -> (c: Config)
        ensures
            c.config_path@.len() == 0,
            c.db_path@.len() == 0,
            c.cache_dir@.len() == 0,
            c.ui.font_size == 18,
            c.ui.font_family@ == "SourceHanSerifCN"@,
            c.ui.win_width == 600,
            c.ui.win_height == 800,
            c.ui.language@ == "cn"@,
            !c.socks5.enabled,
            c.socks5.url@ == "127.0.0.1"@,
            c.socks5.port == 1080,
    {
        Config {
            config_path: String::new(),
            db_path: String::new(),
            cache_dir: String::new(),
            ui: UI::default(),
            socks5: Socks5::default(),
        }
    }
}

/// The proxy endpoint a fetch should use, if the configuration enables one.
pub fn proxy_of(conf: &Socks5) -> (r: Option<(String, u16)>)
    ensures
        conf.enabled ==> (r matches Some((h, p)) && h@ == conf.url@ && p == conf.port),
        !conf.enabled ==> r is None,
{
    if conf.enabled {
        Some((conf.url.clone(), conf.port))
    } else {
        None
    }
}

/// Whether every character of `s` is a decimal digit.
pub open spec fn spec_all_digits(s: Seq<char>) -> bool {
    forall|i: int| 0 <= i < s.len() ==> '0' <= #[trigger] s[i] <= '9'
}

/// The number the digit string `s` denotes.
pub open spec fn spec_digits_val(s: Seq<char>) -> int
    decreases s.len(),
{
    if s.len() == 0 {
        0
    } else {
        spec_digits_val(s.drop_last()) * 10 + (s.last() as int - '0' as int)
    }
}

/// What parsing `s` as a decimal number yields: its value when `s` is one
/// or more digits denoting at most `u32::MAX`, nothing otherwise.
pub open spec fn spec_parse_u32(s: Seq<char>) -> Option<u32> {
    if s.len() > 0 && spec_all_digits(s) && spec_digits_val(s) <= 0xFFFFFFFF {
        Some(spec_digits_val(s) as u32)
    } else {
        None
    }
}

proof fn lemma_digits_val_nonneg(s: Seq<char>)
    requires
        spec_all_digits(s),
    ensures
        spec_digits_val(s) >= 0,
    decreases s.len(),
{
    if s.len() > 0 {
        assert(spec_all_digits(s.drop_last()));
        lemma_digits_val_nonneg(s.drop_last());
    }
}

proof fn lemma_digits_val_mono(s: Seq<char>, i: int)
    requires
        spec_all_digits(s),
        0 <= i <= s.len(),
    ensures
        spec_digits_val(s) >= spec_digits_val(s.take(i)),
    decreases s.len() - i,
{
    if i == s.len() {
        assert(s.take(i) =~= s);
    } else {
        lemma_digits_val_mono(s, i + 1);
        assert(s.take(i + 1).drop_last() =~= s.take(i));
        assert(s.take(i + 1).last() == s[i]);
        assert(spec_all_digits(s.take(i)));
        lemma_digits_val_nonneg(s.take(i));
    }
}

/// Parses a string of decimal digits; anything else, or a value beyond
/// `u32::MAX`, yields nothing.
pub fn parse_u32(s: &str) -> (r: Option<u32>)
    ensures
        r == spec_parse_u32(s@),
{
    let n = s.unicode_len();
    if n == 0 {
        return None;
    }
    let mut acc: u32 = 0;
    let mut i: usize = 0;
    while i < n
        invariant
            i <= n,
            n == s@.len(),
            spec_all_digits(s@.take(i as int)),
            acc as int == spec_digits_val(s@.take(i as int)),
        decreases n - i,
    {
        let c = s.get_char(i);
        if c < '0' || c > '9' {
            assert(!spec_all_digits(s@)) by {
                assert(s@[i as int] == c);
            }
            return None;
        }
        let d: u32 = (c as u32) - 48;
        let next: u64 = (acc as u64) * 10 + (d as u64);
        proof {
            assert(s@.take(i + 1).drop_last() =~= s@.take(i as int));
            assert(s@.take(i + 1).last() == s@[i as int]);
        }
        if next > 0xFFFFFFFF {
            proof {
                if spec_all_digits(s@) {
                    lemma_digits_val_mono(s@, i + 1);
                }
            }
            return None;
        }
        acc = next as u32;
        i = i + 1;
    }
    proof {
        assert(s@.take(n as int) =~= s@);
    }
    Some(acc)
}

/// Parses as `parse_u32` does, falling back to `default` on anything that
/// is not a number.
pub fn parse_u32_or(s: &str, default: u32) -> (r: u32)
    ensures
        r as int == match spec_parse_u32(s@) {
            Some(v) => v as int,
            None => default as int,
        },
{
    match parse_u32(s) {
        Some(v) => v,
        None => default,
    }
}

fn max_u32(a: u32, b: u32) -> (r: u32)
    ensures
        r == if a >= b {
            a
        } else {
            b
        },
{
    if a >= b {
        a
    } else {
        b
    }
}

/// What a settings-dialog field denotes once sanitized: the parsed number,
/// or `default` when the field is not a number, and never below `floor`.
pub open spec fn spec_sanitized(s: Seq<char>, default: u32, floor: u32) -> int {
    let v = match spec_parse_u32(s) {
        Some(v) => v as int,
        None => default as int,
    };
    if v >= floor {
        v
    } else {
        floor as int
    }
}

/// Turns the settings dialog's free-text fields into a valid configuration:
/// numbers fall back to their defaults when unparsable, the window is never
/// smaller than 800 by 600, and the port falls back to the default proxy
/// port.
pub fn apply_setting(
    font_size: &str,
    font_family: &str,
    win_width: &str,
    win_height: &str,
    language: &str,
    proxy_enabled: bool,
    proxy_url: &str,
    proxy_port: &str,
) -> (r: (UI, Socks5))
    ensures
        r.0.font_size as int == match spec_parse_u32(font_size@) {
            Some(v) => v as int,
            None => 18,
        },
        r.0.font_family@ == font_family@,
        r.0.win_width as int == spec_sanitized(win_width@, 800, 800),
        r.0.win_height as int == spec_sanitized(win_height@, 600, 600),
        r.0.language@ == language@,
        r.1.enabled == proxy_enabled,
        r.1.url@ == proxy_url@,
        r.1.port as int == match spec_parse_u32(proxy_port@) {
            Some(v) => if v <= 0xFFFF {
                v as int
            } else {
                1080
            },
            None => 1080,
        },
{
    let ui = UI {
        font_size: parse_u32_or(font_size, 18),
        font_family: font_family.to_owned(),
        win_width: max_u32(parse_u32_or(win_width, 800), 800),
        win_height: max_u32(parse_u32_or(win_height, 600), 600),
        language: language.to_owned(),
    };
    let port: u16 = match parse_u32(proxy_port) {
        Some(v) => {
            if v <= 0xFFFF {
                v as u16
            } else {
                1080
            }
        },
        None => 1080,
    };
    let socks5 = Socks5 { enabled: proxy_enabled, url: proxy_url.to_owned(), port };
    (ui, socks5)
}

} // verus!

use crate::fsutil::{spec_dec, u64_to_dec};

verus! {

/// What the settings dialog shows: every numeric field as text.
pub struct SettingDialog {
    pub font_size: String,
    pub font_family: String,
    pub win_width: String,
    pub win_height: String,
    pub language: String,
    pub proxy_enabled: bool,
    pub proxy_url: String,
    pub proxy_port: String,
}

/// Renders the current configuration for the settings dialog: numbers in
/// decimal, the window sizes clamped to the minimum layout of 800 by 600.
pub fn setting_dialog_strings(ui: &UI, socks5: &Socks5) -> (d: SettingDialog)
    ensures
        d.font_size@ == spec_dec(ui.font_size as nat),
        d.font_family@ == ui.font_family@,
        d.win_width@ == spec_dec((if ui.win_width >= 800 { ui.win_width } else { 800u32 }) as nat),
        d.win_height@ == spec_dec((if ui.win_height >= 600 { ui.win_height } else { 600u32 }) as nat),
        d.language@ == ui.language@,
        d.proxy_enabled == socks5.enabled,
        d.proxy_url@ == socks5.url@,
        d.proxy_port@ == spec_dec(socks5.port as nat),
{
    SettingDialog {
        font_size: u64_to_dec(ui.font_size as u64),
        font_family: ui.font_family.clone(),
        win_width: u64_to_dec(max_u32(ui.win_width, 800) as u64),
        win_height: u64_to_dec(max_u32(ui.win_height, 600) as u64),
        language: ui.language.clone(),
        proxy_enabled: socks5.enabled,
        proxy_url: socks5.url.clone(),
        proxy_port: u64_to_dec(socks5.port as u64),
    }
}

} // verus!
