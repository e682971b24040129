//! Localized error messages: the locale is chosen from the locale
//! settings of the environment, and messages are looked up by key.

use vstd::prelude::*;

use crate::json::text_eq;

verus! {

/// A message language.
#[derive(Debug, Clone, Copy, PartialEq, Eq, Structural)]
pub enum Locale {
    EnUs,
    DeDe,
}

impl Locale {
    /// The locale's code.
    pub open spec fn code_text(self) -> Seq<char> {
        match self {
            Locale::EnUs => "en_us"@,
            Locale::DeDe => "de_de"@,
        }
    }

    pub fn code(&self) -> (r: &'static str)
        ensures
            r@ == self.code_text(),
    {
        match self {
            Locale::EnUs => "en_us",
            Locale::DeDe => "de_de",
        }
    }
}

/// The first of the settings that is present and not empty.
pub open spec fn first_setting(
    lc_all: Option<Seq<char>>,
    lc_messages: Option<Seq<char>>,
    lang: Option<Seq<char>>,
) -> Option<Seq<char>> {
    if lc_all is Some && lc_all->0.len() > 0 {
        lc_all
    } else if lc_messages is Some && lc_messages->0.len() > 0 {
        lc_messages
    } else if lang is Some && lang->0.len() > 0 {
        lang
    } else {
        None
    }
}

/// German when the chosen setting starts with `de`, English otherwise.
pub open spec fn locale_of(setting: Option<Seq<char>>) -> Locale {
    match setting {
        Some(s) => if s.len() >= 2 && s[0] == 'd' && s[1] == 'e' {
            Locale::DeDe
        } else {
            Locale::EnUs
        },
        None => Locale::EnUs,
    }
}

/// Whether `s` starts with `de`.
fn starts_with_de(s: &str) -> (r: bool)
    ensures
        r == (s@.len() >= 2 && s@[0] == 'd' && s@[1] == 'e'),
{
    s.unicode_len() >= 2 && s.get_char(0) == 'd' && s.get_char(1) == 'e'
}

/// Whether an optional setting is present and not empty.
fn is_set(o: Option<&str>) -> (r: bool)
    ensures
        r == (o is Some && o->0@.len() > 0),
{
    match o {
        Some(s) => s.unicode_len() > 0,
        None => false,
    }
}

/// Picks the locale from the values of `LC_ALL`, `LC_MESSAGES` and `LANG`
/// (in that order of precedence; an empty value counts as unset).
pub fn locale_from_settings(lc_all: Option<&str>, lc_messages: Option<&str>, lang: Option<&str>) -> (r:
    Locale)
    ensures
        r == locale_of(first_setting(lc_all.deep_view(), lc_messages.deep_view(), lang.deep_view())),
{
    let chosen = if is_set(lc_all) {
        lc_all
    } else if is_set(lc_messages) {
        lc_messages
    } else if is_set(lang) {
        lang
    } else {
        None
    };
    match chosen {
        Some(s) => if starts_with_de(s) {
            Locale::DeDe
        } else {
            Locale::EnUs
        },
        None => Locale::EnUs,
    }
}

/// The message for `key` in `locale`, when there is one.
pub open spec fn message(locale: Locale, key: Seq<char>) -> Option<Seq<char>> {
    match locale {
        Locale::EnUs => if key == "socket_missing"@ {
            Some("Settings daemon socket not found"@)
        } else if key == "connection_failed"@ {
            Some("Failed to connect to the settings daemon"@)
        } else if key == "protocol_error"@ {
            Some("Settings daemon protocol error"@)
        } else if key == "server_error"@ {
            Some("Settings daemon reported an error"@)
        } else if key == "parse_error"@ {
            Some("Failed to parse the settings daemon reply"@)
        } else {
            None
        },
        Locale::DeDe => if key == "socket_missing"@ {
            Some("Settings-Daemon-Socket nicht gefunden"@)
        } else if key == "connection_failed"@ {
            Some("Verbindung zum Settings-Daemon fehlgeschlagen"@)
        } else if key == "protocol_error"@ {
            Some("Settings-Daemon-Protokollfehler"@)
        } else if key == "server_error"@ {
            Some("Settings-Daemon meldet einen Fehler"@)
        } else if key == "parse_error"@ {
            Some("Antwort des Settings-Daemon konnte nicht gelesen werden"@)
        } else {
            None
        },
    }
}

/// The message for `key` in `locale`, or `key` itself when it has none.
pub open spec fn localized(locale: Locale, key: Seq<char>) -> Seq<char> {
    match message(locale, key) {
        Some(m) => m,
        None => key,
    }
}

/// The message text for `key` in `locale`, when there is one.
fn lookup(locale: Locale, key: &str) -> (r: Option<&'static str>)
    ensures
        match r {
            Some(m) => message(locale, key@) == Some(m@),
            None => message(locale, key@) is None,
        },
{
    let german = match locale {
        Locale::DeDe => true,
        Locale::EnUs => false,
    };
    if text_eq(key, "socket_missing") {
        Some(
            if german {
                "Settings-Daemon-Socket nicht gefunden"
            } else {
                "Settings daemon socket not found"
            },
        )
    } else if text_eq(key, "connection_failed") {
        Some(
            if german {
                "Verbindung zum Settings-Daemon fehlgeschlagen"
            } else {
                "Failed to connect to the settings daemon"
            },
        )
    } else if text_eq(key, "protocol_error") {
        Some(
            if german {
                "Settings-Daemon-Protokollfehler"
            } else {
                "Settings daemon protocol error"
            },
        )
    } else if text_eq(key, "server_error") {
        Some(
            if german {
                "Settings-Daemon meldet einen Fehler"
            } else {
                "Settings daemon reported an error"
            },
        )
    } else if text_eq(key, "parse_error") {
        Some(
            if german {
                "Antwort des Settings-Daemon konnte nicht gelesen werden"
            } else {
                "Failed to parse the settings daemon reply"
            },
        )
    } else {
        None
    }
}

/// The message for `key` in `locale`, or `key` itself when it is missing.
/// Never fails.
pub fn t(locale: Locale, key: &str) -> (r: String)
    ensures
        r@ == localized(locale, key@),
{
    match lookup(locale, key) {
        Some(m) => m.to_owned(),
        None => key.to_owned(),
    }
}

} // verus!
