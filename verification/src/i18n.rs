//! The interface language: which one to use, and how it is detected.
//!
//! The messages themselves live in the translation catalogues; this module
//! only decides which column of those catalogues is read.

use vstd::prelude::*;
use crate::text::{
    ascii_lower, chars2, chars_of, eq_str, seqs, split_on_chars, split_set, to_ascii_lower, trim,
    trim_ws,
};

verus! {

/// A language plz ships translations for.
#[derive(Debug, Clone, Copy, PartialEq, Eq, Structural)]
pub enum Lang {
    En,
    Ru,
    Es,
    Fr,
    De,
}

/// The locale code of each language.
pub open spec fn lang_code(lang: Lang) -> &'static str {
    match lang {
        Lang::En => "en",
        Lang::Ru => "ru",
        Lang::Es => "es",
        Lang::Fr => "fr",
        Lang::De => "de",
    }
}

/// The language a primary subtag (already lowercased) names.
pub open spec fn lang_of_subtag(tag: Seq<char>) -> Option<Lang> {
    if tag == "en"@ {
        Some(Lang::En)
    } else if tag == "ru"@ {
        Some(Lang::Ru)
    } else if tag == "es"@ {
        Some(Lang::Es)
    } else if tag == "fr"@ {
        Some(Lang::Fr)
    } else if tag == "de"@ {
        Some(Lang::De)
    } else {
        None
    }
}

/// The primary subtag of a locale tag: what comes before the encoding
/// (`.`), the modifier (`@`) and the region (`_` or `-`), ASCII-lowercased.
pub open spec fn primary_subtag(raw: Seq<char>) -> Seq<char> {
    let tag = split_set(trim(raw), seq!['.', '@'])[0];
    ascii_lower(split_set(tag, seq!['_', '-'])[0])
}

/// The language a locale tag names, if plz ships it.
pub open spec fn lang_of_tag(raw: Seq<char>) -> Option<Lang> {
    lang_of_subtag(primary_subtag(raw))
}

impl Lang {
    /// Every language, in the order of the catalogues.
    pub const ALL: [Lang; 5] = [Lang::En, Lang::Ru, Lang::Es, Lang::Fr, Lang::De];

    /// The locale code, which is also the key of the column in the catalogues.
    pub fn code(self) -> (r: &'static str)
        ensures
            r@ == lang_code(self)@,
    {
        match self {
            Lang::En => "en",
            Lang::Ru => "ru",
            Lang::Es => "es",
            Lang::Fr => "fr",
            Lang::De => "de",
        }
    }

    /// Match a locale tag against the supported languages.
    ///
    /// Accepts what the platforms actually hand out: `ru_RU.UTF-8`, `fr-CA`,
    /// `es_ES@euro`, a bare `de`. Only the primary subtag decides, so `fr-CA`
    /// and `fr-FR` are one language here. `C`, `POSIX` and every unsupported
    /// language give `None`, which the caller reads as English.
    pub fn from_tag(raw: &str) -> (r: Option<Lang>)
        ensures
            r == lang_of_tag(raw@),
    {
        let v = chars_of(raw);
        let t = trim_ws(&v);
        let parts = split_on_chars(&t, &chars2('.', '@'));
        assert(seqs(parts@)[0] == parts@[0]@);
        let subparts = split_on_chars(&parts[0], &chars2('_', '-'));
        assert(seqs(subparts@)[0] == subparts@[0]@);
        let tag = to_ascii_lower(&subparts[0]);
        if eq_str(&tag, "en") {
            Some(Lang::En)
        } else if eq_str(&tag, "ru") {
            Some(Lang::Ru)
        } else if eq_str(&tag, "es") {
            Some(Lang::Es)
        } else if eq_str(&tag, "fr") {
            Some(Lang::Fr)
        } else if eq_str(&tag, "de") {
            Some(Lang::De)
        } else {
            None
        }
    }
}

/// The first entry of a list that names a supported language.
pub open spec fn first_lang(entries: Seq<Seq<char>>) -> Option<Lang>
    decreases entries.len(),
{
    if entries.len() == 0 {
        None
    } else if lang_of_tag(entries[0]) is Some {
        lang_of_tag(entries[0])
    } else {
        first_lang(entries.drop_first())
    }
}

/// The first supported language of a list separated by `:` or `,`, as GNU
/// `LANGUAGE=it:de_DE:en` has it.
pub open spec fn first_supported_of(list: Seq<char>) -> Option<Lang> {
    first_lang(split_set(list, seq![':', ',']))
}

/// The first supported language in a list, for `LANGUAGE=it:de_DE:en`.
pub fn first_supported(list: &str) -> (r: Option<Lang>)
    ensures
        r == first_supported_of(list@),
{
    let v = chars_of(list);
    let entries = split_on_chars(&v, &chars2(':', ','));
    let ghost all = seqs(entries@);
    let mut i: usize = 0;
    assert(all.skip(0) =~= all);
    while i < entries.len()
        invariant
            i <= entries.len(),
            all == seqs(entries@),
            all == split_set(list@, seq![':', ',']),
            first_lang(all) == first_lang(all.skip(i as int)),
        decreases entries.len() - i,
    {
        let s = crate::text::string_of(&entries[i]);
        let found = Lang::from_tag(s.as_str());
        proof {
            assert(all.skip(i as int).len() > 0);
            assert(s@ == all[i as int]);
            assert(all.skip(i as int)[0] == all[i as int]);
            assert(all.skip(i as int).drop_first() =~= all.skip(i + 1));
        }
        if found.is_some() {
            assert(lang_of_tag(all.skip(i as int)[0]) == found);
            assert(first_lang(all.skip(i as int)) == found);
            return found;
        }
        i += 1;
    }
    assert(all.skip(i as int) =~= Seq::<Seq<char>>::empty());
    None
}

/// The language picked from a forced choice and a detected one.
pub open spec fn resolved(forced: Option<Seq<char>>, detected: Option<Seq<char>>) -> Lang {
    let from_forced = match forced {
        Some(f) => first_supported_of(f),
        None => None,
    };
    let from_detected = match detected {
        Some(d) => first_supported_of(d),
        None => None,
    };
    if from_forced is Some {
        from_forced->0
    } else if from_detected is Some {
        from_detected->0
    } else {
        Lang::En
    }
}

/// Pick the language from the sources, in priority order.
///
/// `forced` comes first so a single run can be overridden without touching
/// anything on disk. Whatever is undetectable or unsupported means English.
pub fn resolve(forced: Option<&str>, detected: Option<&str>) -> (r: Lang)
    ensures
        r == resolved(
            match forced {
                Some(f) => Some(f@),
                None => None,
            },
            match detected {
                Some(d) => Some(d@),
                None => None,
            },
        ),
{
    if let Some(f) = forced {
        if let Some(lang) = first_supported(f) {
            return lang;
        }
    }
    if let Some(d) = detected {
        if let Some(lang) = first_supported(d) {
            return lang;
        }
    }
    Lang::En
}

/// The first supported language of an optional list.
pub open spec fn supported_of(source: Option<Seq<char>>) -> Option<Lang> {
    match source {
        Some(s) => first_supported_of(s),
        None => None,
    }
}

/// The interface language from its three sources, in priority order:
/// `PLZ_LANG` for a single run, then the `language` setting of the
/// configuration, then the OS locale. A source that names no supported
/// language (unset, `auto`, an unsupported one) passes the choice on to the
/// next, and English is what is left when none names one.
pub open spec fn interface_language(
    forced: Option<Seq<char>>,
    configured: Option<Seq<char>>,
    detected: Option<Seq<char>>,
) -> Lang {
    if supported_of(forced) is Some {
        supported_of(forced)->0
    } else if supported_of(configured) is Some {
        supported_of(configured)->0
    } else if supported_of(detected) is Some {
        supported_of(detected)->0
    } else {
        Lang::En
    }
}

/// The text of an optional string.
pub open spec fn opt_seq(s: Option<&str>) -> Option<Seq<char>> {
    match s {
        Some(t) => Some(t@),
        None => None,
    }
}

/// Pick the interface language from `PLZ_LANG`, the configured `language`
/// and the OS locale, in that order.
pub fn interface_lang(forced: Option<&str>, configured: Option<&str>, detected: Option<&str>) -> (r: Lang)
    ensures
        r == interface_language(opt_seq(forced), opt_seq(configured), opt_seq(detected)),
{
    if let Some(f) = forced {
        if let Some(lang) = first_supported(f) {
            return lang;
        }
    }
    if let Some(c) = configured {
        if let Some(lang) = first_supported(c) {
            return lang;
        }
    }
    if let Some(d) = detected {
        if let Some(lang) = first_supported(d) {
            return lang;
        }
    }
    Lang::En
}

/// A `PLZ_LANG` that names no supported language is as good as unset: the
/// configured language, and after it the OS locale, still decide.
pub proof fn lemma_unsupported_override_passes_the_choice_on(
    forced: Option<Seq<char>>,
    configured: Option<Seq<char>>,
    detected: Option<Seq<char>>,
)
    requires
        supported_of(forced) is None,
    ensures
        interface_language(forced, configured, detected) == interface_language(None, configured, detected),
{
}

/// The English name of a language, as the prompt names it to the model.
pub open spec fn lang_name(lang: Lang) -> &'static str {
    match lang {
        Lang::En => "English",
        Lang::Ru => "Russian",
        Lang::Es => "Spanish",
        Lang::Fr => "French",
        Lang::De => "German",
    }
}

impl Lang {
    /// The English name of the language.
    pub fn name(self) -> (r: &'static str)
        ensures
            r == lang_name(self),
    {
        match self {
            Lang::En => "English",
            Lang::Ru => "Russian",
            Lang::Es => "Spanish",
            Lang::Fr => "French",
            Lang::De => "German",
        }
    }
}

/// A piece of interface text: shown as it is, or looked up in the message
/// catalogues under a key.
#[derive(Debug, Clone, Copy, PartialEq, Eq)]
pub enum Label {
    /// Text shown as it is (a URL, a brand name)
    Verbatim(&'static str),
    /// The key of a catalogue message, shown in the current language
    Message(&'static str),
}

} // verus!
