use vstd::prelude::*;

verus! {

/// Languages that can be used for the input and output of the translator.
///
/// The set is closed: each variant carries a two-letter code used on the
/// wire and a human-readable display name, both constant.
///
/// The spelling `Russain` and its code `rs` (not the standard `ru`) are
/// deliberate: they are the service's observed, possibly load-bearing
/// behavior, and correcting either would change what goes on the wire.
#[derive(Debug, Clone, Copy, PartialEq, Eq, Structural)]
pub enum Language {
    English,
    Arabic,
    Chinese,
    French,
    German,
    Italian,
    Portuguese,
    Russain,
    Spanish,
}

impl Language {
    /// The two-letter code of this language, as a sequence of characters.
    pub open spec fn spec_code(self) -> Seq<char> {
        match self {
            Language::English => "en"@,
            Language::Arabic => "ar"@,
            Language::Chinese => "zh"@,
            Language::French => "fr"@,
            Language::German => "de"@,
            Language::Italian => "it"@,
            Language::Portuguese => "pt"@,
            Language::Russain => "rs"@,
            Language::Spanish => "es"@,
        }
    }

    /// The full English name of this language, as a sequence of characters.
    pub open spec fn spec_pretty(self) -> Seq<char> {
        match self {
            Language::English => "English"@,
            Language::Arabic => "Arabic"@,
            Language::Chinese => "Chinese"@,
            Language::French => "French"@,
            Language::German => "German"@,
            Language::Italian => "Italian"@,
            Language::Portuguese => "Portuguese"@,
            Language::Russain => "Russain"@,
            Language::Spanish => "Spanish"@,
        }
    }

    /// Return the language code name. (ex. "ar", "de")
    pub fn code(&self) -> (r: &str)
        ensures
            r@ == self.spec_code(),
    {
        match self {
            Language::English => "en",
            Language::Arabic => "ar",
            Language::Chinese => "zh",
            Language::French => "fr",
            Language::German => "de",
            Language::Italian => "it",
            Language::Portuguese => "pt",
            Language::Russain => "rs",
            Language::Spanish => "es",
        }
    }

    /// Return the language's full English name. (ex. "Arabic", "German")
    pub fn pretty(&self) -> (r: &str)
        ensures
            r@ == self.spec_pretty(),
    {
        match self {
            Language::English => "English",
            Language::Arabic => "Arabic",
            Language::Chinese => "Chinese",
            Language::French => "French",
            Language::German => "German",
            Language::Italian => "Italian",
            Language::Portuguese => "Portuguese",
            Language::Russain => "Russain",
            Language::Spanish => "Spanish",
        }
    }
}

/// Every language code is a two-character string, every display name is
/// non-empty, and no two distinct languages share a code or a display name.
pub proof fn lemma_language_tables_unique(a: Language, b: Language)
    ensures
        a.spec_code().len() == 2,
        a.spec_pretty().len() > 0,
        a.spec_code() == b.spec_code() ==> a == b,
        a.spec_pretty() == b.spec_pretty() ==> a == b,
{
    reveal_strlit("en");
    reveal_strlit("ar");
    reveal_strlit("zh");
    reveal_strlit("fr");
    reveal_strlit("de");
    reveal_strlit("it");
    reveal_strlit("pt");
    reveal_strlit("rs");
    reveal_strlit("es");
    reveal_strlit("English");
    reveal_strlit("Arabic");
    reveal_strlit("Chinese");
    reveal_strlit("French");
    reveal_strlit("German");
    reveal_strlit("Italian");
    reveal_strlit("Portuguese");
    reveal_strlit("Russain");
    reveal_strlit("Spanish");
    if a.spec_code() == b.spec_code() {
        assert(a.spec_code()[0] == b.spec_code()[0]);
        assert(a.spec_code()[1] == b.spec_code()[1]);
    }
    if a.spec_pretty() == b.spec_pretty() {
        assert(a.spec_pretty()[0] == b.spec_pretty()[0]);
    }
}

/// `code` and `pretty` are pure lookups: whatever two calls on the same
/// variant return, the two results are the same string, since each call's
/// result is fixed by the variant alone.
pub proof fn lemma_language_lookups_repeatable(
    v: Language,
    code1: Seq<char>,
    code2: Seq<char>,
    pretty1: Seq<char>,
    pretty2: Seq<char>,
)
    requires
        code1 == v.spec_code(),
        code2 == v.spec_code(),
        pretty1 == v.spec_pretty(),
        pretty2 == v.spec_pretty(),
    ensures
        code1 == code2,
        pretty1 == pretty2,
{
}

} // verus!
