//! The language of the client's own messages, chosen from the locale.
use vstd::prelude::*;

use crate::text::{ascii_lower, chars_eq, chars_of, starts_with, to_ascii_lower, trim, trim_chars};

verus! {

#[derive(Clone, Copy, PartialEq, Eq, Debug, Structural)]
pub enum Language {
    English,
    Chinese,
}

/// The language a locale name asks for: Chinese for `zh`, `zh-*` and `zh_*`
/// (any case, surrounding whitespace ignored), English otherwise.
pub open spec fn locale_language(locale: Seq<char>) -> Language {
    let l = ascii_lower(trim(locale));
    if l == "zh"@ || "zh-"@.is_prefix_of(l) || "zh_"@.is_prefix_of(l) {
        Language::Chinese
    } else {
        Language::English
    }
}

/// Locale names that say nothing about a language.
pub open spec fn neutral_locale(locale: Seq<char>) -> bool {
    let l = ascii_lower(trim(locale));
    l == "c"@ || l == "posix"@ || l == "c.utf-8"@ || l == "c.utf8"@
}

/// A variable that is set to something other than blanks.
pub open spec fn given(v: Option<Seq<char>>) -> bool {
    v matches Some(s) && trim(s).len() > 0
}

/// A locale variable that names a language.
pub open spec fn telling(v: Option<Seq<char>>) -> bool {
    v matches Some(s) && trim(s).len() > 0 && !neutral_locale(s)
}

pub open spec fn opt_view(v: Option<String>) -> Option<Seq<char>> {
    match v {
        Some(s) => Some(s@),
        None => None,
    }
}

/// The language the environment asks for, if it asks: `ICODING_LANG` when
/// given, else the first of `LC_ALL`, `LC_MESSAGES`, `LANG` that names a language.
pub open spec fn environment_language(
    icoding_lang: Option<Seq<char>>,
    lc_all: Option<Seq<char>>,
    lc_messages: Option<Seq<char>>,
    lang: Option<Seq<char>>,
) -> Option<Language> {
    if given(icoding_lang) {
        Some(locale_language(icoding_lang->0))
    } else if telling(lc_all) {
        Some(locale_language(lc_all->0))
    } else if telling(lc_messages) {
        Some(locale_language(lc_messages->0))
    } else if telling(lang) {
        Some(locale_language(lang->0))
    } else {
        None
    }
}

/// `ICODING_LANG`, when given, decides; otherwise the first of `LC_ALL`,
/// `LC_MESSAGES` and `LANG` that names a language decides, whatever the
/// later ones say; when none does, the environment asks for nothing.
pub proof fn law_environment_precedence(
    icoding_lang: Option<Seq<char>>,
    lc_all: Option<Seq<char>>,
    lc_messages: Option<Seq<char>>,
    lang: Option<Seq<char>>,
)
    ensures
        ({
            let r = environment_language(icoding_lang, lc_all, lc_messages, lang);
            &&& given(icoding_lang) ==> r == Some(locale_language(icoding_lang->0))
            &&& !given(icoding_lang) && telling(lc_all) ==> r == Some(locale_language(lc_all->0))
            &&& !given(icoding_lang) && !telling(lc_all) && telling(lc_messages) ==> r == Some(
                locale_language(lc_messages->0),
            )
            &&& !given(icoding_lang) && !telling(lc_all) && !telling(lc_messages) && telling(lang)
                ==> r == Some(locale_language(lang->0))
            &&& r is None <==> !given(icoding_lang) && !telling(lc_all) && !telling(lc_messages)
                && !telling(lang)
        }),
        !given(icoding_lang) ==> environment_language(icoding_lang, lc_all, lc_messages, lang)
            == environment_language(None, lc_all, lc_messages, lang),
        !telling(lc_all) ==> environment_language(icoding_lang, lc_all, lc_messages, lang)
            == environment_language(icoding_lang, None, lc_messages, lang),
        !telling(lc_messages) ==> environment_language(icoding_lang, lc_all, lc_messages, lang)
            == environment_language(icoding_lang, lc_all, None, lang),
{
}

fn lowered_trimmed(s: &str) -> (res: Vec<char>)
    ensures
        res@ == ascii_lower(trim(s@)),
{
    let cs = chars_of(s);
    let t = trim_chars(cs.as_slice());
    to_ascii_lower(t.as_slice())
}

fn is_blank(s: &str) -> (res: bool)
    ensures
        res == (trim(s@).len() == 0),
{
    let cs = chars_of(s);
    let t = trim_chars(cs.as_slice());
    t.len() == 0
}

fn same(a: &[char], b: &str) -> (res: bool)
    ensures
        res == (a@ == b@),
{
    let bc = chars_of(b);
    chars_eq(a, bc.as_slice())
}

fn prefixed(a: &[char], b: &str) -> (res: bool)
    ensures
        res == b@.is_prefix_of(a@),
{
    let bc = chars_of(b);
    starts_with(a, bc.as_slice())
}

/// Whether a locale name says nothing about a language (`C`, `POSIX`, `C.UTF-8`).
pub fn is_neutral_locale(locale: &str) -> (res: bool)
    ensures
        res == neutral_locale(locale@),
{
    let l = lowered_trimmed(locale);
    same(l.as_slice(), "c") || same(l.as_slice(), "posix") || same(l.as_slice(), "c.utf-8") || same(
        l.as_slice(),
        "c.utf8",
    )
}

fn is_given(v: &Option<String>) -> (res: bool)
    ensures
        res == given(opt_view(*v)),
{
    match v {
        Some(s) => !is_blank(s.as_str()),
        None => false,
    }
}

fn is_telling(v: &Option<String>) -> (res: bool)
    ensures
        res == telling(opt_view(*v)),
{
    match v {
        Some(s) => !is_blank(s.as_str()) && !is_neutral_locale(s.as_str()),
        None => false,
    }
}

impl Language {
    /// The language a locale name asks for.
    pub fn from_locale(locale: &str) -> (res: Language)
        ensures
            res == locale_language(locale@),
    {
        let l = lowered_trimmed(locale);
        if same(l.as_slice(), "zh") || prefixed(l.as_slice(), "zh-") || prefixed(
            l.as_slice(),
            "zh_",
        ) {
            Language::Chinese
        } else {
            Language::English
        }
    }

    /// The text for this language.
    pub fn select(self, english: &'static str, chinese: &'static str) -> (res: &'static str)
        ensures
            res == match self {
                Language::English => english,
                Language::Chinese => chinese,
            },
    {
        match self {
            Language::English => english,
            Language::Chinese => chinese,
        }
    }

    /// The language the environment variables ask for, if they ask; `None`
    /// means the system locale decides.
    pub fn from_environment(
        icoding_lang: Option<String>,
        lc_all: Option<String>,
        lc_messages: Option<String>,
        lang: Option<String>,
    ) -> (res: Option<Language>)
        ensures
            res == environment_language(
                opt_view(icoding_lang),
                opt_view(lc_all),
                opt_view(lc_messages),
                opt_view(lang),
            ),
    {
        if is_given(&icoding_lang) {
            return Some(Self::from_locale(icoding_lang.unwrap().as_str()));
        }
        if is_telling(&lc_all) {
            return Some(Self::from_locale(lc_all.unwrap().as_str()));
        }
        if is_telling(&lc_messages) {
            return Some(Self::from_locale(lc_messages.unwrap().as_str()));
        }
        if is_telling(&lang) {
            return Some(Self::from_locale(lang.unwrap().as_str()));
        }
        None
    }

    /// The language of the system locale, English when it is unknown.
    pub fn from_system_locale(locale: Option<String>) -> (res: Language)
        ensures
            res == match locale {
                Some(l) => locale_language(l@),
                None => Language::English,
            },
    {
        match locale {
            Some(l) => Self::from_locale(l.as_str()),
            None => Language::English,
        }
    }
}

} // verus!
