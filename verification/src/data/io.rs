//! Input and output devices.

use vstd::prelude::*;
use super::display::Display;

verus! {

/// The USB host controller of the guest.
#[derive(Debug, Clone, Copy, PartialEq, Eq, Structural)]
pub enum USBController {
    Disabled,
    Ehci,
    Xhci,
}

/// The pointing device of the guest.
#[derive(Debug, Clone, Copy, PartialEq, Eq, Structural)]
pub enum Mouse {
    Usb,
    Tablet,
    Virtio,
    PS2,
}

/// The sound card of the guest.
#[derive(Debug, Clone, Copy, PartialEq, Eq, Structural)]
pub enum SoundCard {
    Disabled,
    IntelHDA,
    AC97,
    ES1370,
    SB16,
    USBAudio,
}

/// The keyboard device of the guest.
#[derive(Debug, Clone, Copy, PartialEq, Eq, Structural)]
pub enum Keyboard {
    Usb,
    Virtio,
    PS2,
}

impl Default for Keyboard {
    fn default() -> (r: Self)
        ensures
            r == Keyboard::Usb,
    {
        Keyboard::Usb
    }
}

/// The keyboard layouts that QEMU knows.
#[derive(Debug, Clone, Copy, PartialEq, Eq, Structural)]
pub enum KeyboardLayout {
    Arabic,
    SwissGerman,
    Spanish,
    Faroese,
    FrenchCanadian,
    Hungarian,
    Japanese,
    Macedonian,
    Norwegian,
    BrazilianPortuguese,
    Swedish,
    Danish,
    BritishEnglish,
    Estonian,
    French,
    SwissFrench,
    Icelandic,
    Lithuanian,
    Dutch,
    Polish,
    Russian,
    Thai,
    German,
    AmericanEnglish,
    Finnish,
    BelgianFrench,
    Croatian,
    Italian,
    Latvian,
    NorwegianBokmal,
    Portuguese,
    Slovenian,
    Turkish,
}

impl Default for KeyboardLayout {
    fn default() -> (r: Self)
        ensures
            r == KeyboardLayout::AmericanEnglish,
    {
        KeyboardLayout::AmericanEnglish
    }
}

impl KeyboardLayout {
    /// The code by which QEMU names the layout.
    pub open spec fn spec_str(self) -> Seq<char> {
        match self {
            KeyboardLayout::Arabic => "ar"@,
            KeyboardLayout::SwissGerman => "de-ch"@,
            KeyboardLayout::Spanish => "es"@,
            KeyboardLayout::Faroese => "fo"@,
            KeyboardLayout::FrenchCanadian => "fr-ca"@,
            KeyboardLayout::Hungarian => "hu"@,
            KeyboardLayout::Japanese => "ja"@,
            KeyboardLayout::Macedonian => "mk"@,
            KeyboardLayout::Norwegian => "no"@,
            KeyboardLayout::BrazilianPortuguese => "pt-br"@,
            KeyboardLayout::Swedish => "sv"@,
            KeyboardLayout::Danish => "da"@,
            KeyboardLayout::BritishEnglish => "en-gb"@,
            KeyboardLayout::Estonian => "et"@,
            KeyboardLayout::French => "fr"@,
            KeyboardLayout::SwissFrench => "fr-ch"@,
            KeyboardLayout::Icelandic => "is"@,
            KeyboardLayout::Lithuanian => "lt"@,
            KeyboardLayout::Dutch => "nl"@,
            KeyboardLayout::Polish => "pl"@,
            KeyboardLayout::Russian => "ru"@,
            KeyboardLayout::Thai => "th"@,
            KeyboardLayout::German => "de"@,
            KeyboardLayout::AmericanEnglish => "en-us"@,
            KeyboardLayout::Finnish => "fi"@,
            KeyboardLayout::BelgianFrench => "fr-be"@,
            KeyboardLayout::Croatian => "hr"@,
            KeyboardLayout::Italian => "it"@,
            KeyboardLayout::Latvian => "lv"@,
            KeyboardLayout::NorwegianBokmal => "nb"@,
            KeyboardLayout::Portuguese => "pt"@,
            KeyboardLayout::Slovenian => "sl"@,
            KeyboardLayout::Turkish => "tr"@,
        }
    }

    /// The code by which QEMU names the layout.
    pub fn as_str(&self) -> (r: &'static str)
        ensures
            r@ == self.spec_str(),
    {
        match self {
            KeyboardLayout::Arabic => "ar",
            KeyboardLayout::SwissGerman => "de-ch",
            KeyboardLayout::Spanish => "es",
            KeyboardLayout::Faroese => "fo",
            KeyboardLayout::FrenchCanadian => "fr-ca",
            KeyboardLayout::Hungarian => "hu",
            KeyboardLayout::Japanese => "ja",
            KeyboardLayout::Macedonian => "mk",
            KeyboardLayout::Norwegian => "no",
            KeyboardLayout::BrazilianPortuguese => "pt-br",
            KeyboardLayout::Swedish => "sv",
            KeyboardLayout::Danish => "da",
            KeyboardLayout::BritishEnglish => "en-gb",
            KeyboardLayout::Estonian => "et",
            KeyboardLayout::French => "fr",
            KeyboardLayout::SwissFrench => "fr-ch",
            KeyboardLayout::Icelandic => "is",
            KeyboardLayout::Lithuanian => "lt",
            KeyboardLayout::Dutch => "nl",
            KeyboardLayout::Polish => "pl",
            KeyboardLayout::Russian => "ru",
            KeyboardLayout::Thai => "th",
            KeyboardLayout::German => "de",
            KeyboardLayout::AmericanEnglish => "en-us",
            KeyboardLayout::Finnish => "fi",
            KeyboardLayout::BelgianFrench => "fr-be",
            KeyboardLayout::Croatian => "hr",
            KeyboardLayout::Italian => "it",
            KeyboardLayout::Latvian => "lv",
            KeyboardLayout::NorwegianBokmal => "nb",
            KeyboardLayout::Portuguese => "pt",
            KeyboardLayout::Slovenian => "sl",
            KeyboardLayout::Turkish => "tr",
        }
    }
}

/// A number that a layout code of two letters, or of two and two letters
/// joined by `-`, is known by: its letters' code points in order.
pub open spec fn layout_key(s: Seq<char>) -> int {
    if s.len() == 2 {
        (s[0] as int) * 256 + (s[1] as int)
    } else {
        ((s[0] as int) * 256 + (s[1] as int)) * 65536 + (s[3] as int) * 256 + (s[4] as int)
    }
}

/// The layout known by a number (see `layout_key`), if any.
pub open spec fn layout_of_key(k: int) -> Option<KeyboardLayout> {
    if k == 24946 {
        Some(KeyboardLayout::Arabic)
    } else if k == 1684366184 {
        Some(KeyboardLayout::SwissGerman)
    } else if k == 25971 {
        Some(KeyboardLayout::Spanish)
    } else if k == 26223 {
        Some(KeyboardLayout::Faroese)
    } else if k == 1718772577 {
        Some(KeyboardLayout::FrenchCanadian)
    } else if k == 26741 {
        Some(KeyboardLayout::Hungarian)
    } else if k == 27233 {
        Some(KeyboardLayout::Japanese)
    } else if k == 28011 {
        Some(KeyboardLayout::Macedonian)
    } else if k == 28271 {
        Some(KeyboardLayout::Norwegian)
    } else if k == 1886675570 {
        Some(KeyboardLayout::BrazilianPortuguese)
    } else if k == 29558 {
        Some(KeyboardLayout::Swedish)
    } else if k == 25697 {
        Some(KeyboardLayout::Danish)
    } else if k == 1701734242 {
        Some(KeyboardLayout::BritishEnglish)
    } else if k == 25972 {
        Some(KeyboardLayout::Estonian)
    } else if k == 26226 {
        Some(KeyboardLayout::French)
    } else if k == 1718772584 {
        Some(KeyboardLayout::SwissFrench)
    } else if k == 26995 {
        Some(KeyboardLayout::Icelandic)
    } else if k == 27764 {
        Some(KeyboardLayout::Lithuanian)
    } else if k == 28268 {
        Some(KeyboardLayout::Dutch)
    } else if k == 28780 {
        Some(KeyboardLayout::Polish)
    } else if k == 29301 {
        Some(KeyboardLayout::Russian)
    } else if k == 29800 {
        Some(KeyboardLayout::Thai)
    } else if k == 25701 {
        Some(KeyboardLayout::German)
    } else if k == 1701737843 {
        Some(KeyboardLayout::AmericanEnglish)
    } else if k == 26217 {
        Some(KeyboardLayout::Finnish)
    } else if k == 1718772325 {
        Some(KeyboardLayout::BelgianFrench)
    } else if k == 26738 {
        Some(KeyboardLayout::Croatian)
    } else if k == 26996 {
        Some(KeyboardLayout::Italian)
    } else if k == 27766 {
        Some(KeyboardLayout::Latvian)
    } else if k == 28258 {
        Some(KeyboardLayout::NorwegianBokmal)
    } else if k == 28788 {
        Some(KeyboardLayout::Portuguese)
    } else if k == 29548 {
        Some(KeyboardLayout::Slovenian)
    } else if k == 29810 {
        Some(KeyboardLayout::Turkish)
    } else {
        None
    }
}

/// Each layout is known again by the number of its code.
proof fn lemma_layout_key(a: KeyboardLayout)
    ensures
        layout_of_key(layout_key(a.spec_str())) == Some(a),
{
        reveal_strlit("ar");
        reveal_strlit("de-ch");
        reveal_strlit("es");
        reveal_strlit("fo");
        reveal_strlit("fr-ca");
        reveal_strlit("hu");
        reveal_strlit("ja");
        reveal_strlit("mk");
        reveal_strlit("no");
        reveal_strlit("pt-br");
        reveal_strlit("sv");
        reveal_strlit("da");
        reveal_strlit("en-gb");
        reveal_strlit("et");
        reveal_strlit("fr");
        reveal_strlit("fr-ch");
        reveal_strlit("is");
        reveal_strlit("lt");
        reveal_strlit("nl");
        reveal_strlit("pl");
        reveal_strlit("ru");
        reveal_strlit("th");
        reveal_strlit("de");
        reveal_strlit("en-us");
        reveal_strlit("fi");
        reveal_strlit("fr-be");
        reveal_strlit("hr");
        reveal_strlit("it");
        reveal_strlit("lv");
        reveal_strlit("nb");
        reveal_strlit("pt");
        reveal_strlit("sl");
        reveal_strlit("tr");
}

/// Different keyboard layouts have different QEMU codes, so a code names
/// one layout.
pub proof fn law_layout_codes_distinct(a: KeyboardLayout, b: KeyboardLayout)
    ensures
        a != b ==> a.spec_str() != b.spec_str(),
{
    lemma_layout_key(a);
    lemma_layout_key(b);
}

/// USB devices of the host that are passed through to the guest.
#[derive(Debug, Clone, PartialEq)]
pub struct USBDevices(pub Option<Vec<String>>);

/// A directory of the host that is shared with the guest, if any.
#[derive(Debug, Clone, PartialEq)]
pub struct PublicDir(pub Option<String>);

impl PublicDir {
    /// The directory that is shared when the configuration names none: the
    /// user's public directory, unless that is the home directory itself,
    /// which is never shared.
    pub fn from_user_dirs(public_dir: Option<String>, home_dir: Option<String>) -> (r: PublicDir)
        ensures
            r.0 == (if opt_view(&home_dir) != opt_view(&public_dir) { public_dir } else { None }),
    {
        let same = match (&public_dir, &home_dir) {
            (Some(p), Some(h)) => crate::text::str_eq(p.as_str(), h.as_str()),
            (None, None) => true,
            _ => false,
        };
        if !same {
            PublicDir(public_dir)
        } else {
            PublicDir(None)
        }
    }

    /// Reads the setting of a configuration file: `default` gives the
    /// default directory, `none` shares nothing, any other text names a
    /// directory, which must exist.
    pub fn from_setting(value: &str, default: PublicDir, value_is_dir: bool) -> (r: Result<PublicDir, String>)
        ensures
            value@ == "default"@ ==> r == Ok::<PublicDir, String>(default),
            value@ == "none"@ ==> (r matches Ok(d) && d.0 is None),
            value@ != "default"@ && value@ != "none"@ ==> (
                (r matches Ok(d) && d.0 matches Some(p) && p@ == value@) <==> value_is_dir),
            value@ != "default"@ && value@ != "none"@ && !value_is_dir ==> r is Err,
    {
        proof {
            reveal_strlit("default");
            reveal_strlit("none");
        }
        assert("none"@.len() == 4);
        assert("default"@.len() == 7);
        if crate::text::str_eq(value, "default") {
            Ok(default)
        } else if crate::text::str_eq(value, "none") {
            Ok(PublicDir(None))
        } else if !value_is_dir {
            let mut msg = String::from_str("Path '");
            msg.append(value);
            msg.append("' is not a directory");
            Err(msg)
        } else {
            Ok(PublicDir(Some(String::from_str(value))))
        }
    }
}

/// The view of an optional string.
pub open spec fn opt_view(s: &Option<String>) -> Option<Seq<char>> {
    match s {
        Some(x) => Some(x@),
        None => None,
    }
}

/// The input and output settings of a virtual machine.
#[derive(Debug, Clone)]
pub struct Io {
    pub usb_controller: Option<USBController>,
    pub keyboard: Option<Keyboard>,
    pub keyboard_layout: KeyboardLayout,
    pub mouse: Option<Mouse>,
    pub soundcard: Option<SoundCard>,
    pub display: Display,
    pub public_dir: PublicDir,
}

} // verus!
