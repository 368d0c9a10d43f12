//! The display languages that the interface supports.

use vstd::prelude::*;

use crate::text::chars_of;

verus! {

/// A display language.
#[derive(Clone, Copy, Debug, PartialEq, Eq, Hash, Structural)]
pub enum Locale {
    EnUs,
    ZhCn,
}

/// The stable identifier under which a locale is stored.
pub open spec fn locale_id(l: Locale) -> Seq<char> {
    match l {
        Locale::EnUs => "en-US"@,
        Locale::ZhCn => "zh-CN"@,
    }
}

/// The name of a locale in its own language.
pub open spec fn locale_display_name(l: Locale) -> Seq<char> {
    match l {
        Locale::EnUs => "English"@,
        Locale::ZhCn => "简体中文"@,
    }
}

/// Where the resource of a locale is bundled.
pub open spec fn locale_resource_path(l: Locale) -> Seq<char> {
    "bundled/i18n/"@ + locale_id(l) + ".ftl"@
}

/// One character of an identifier brought to its canonical form: `_`
/// becomes `-` and ASCII capitals become small letters.
pub open spec fn normalize_char(c: char) -> char {
    if c == '_' {
        '-'
    } else if 'A' <= c && c <= 'Z' {
        ((c as u32) + 32) as char
    } else {
        c
    }
}

/// An identifier in its canonical form.
pub open spec fn normalize_id(s: Seq<char>) -> Seq<char> {
    s.map_values(|c: char| normalize_char(c))
}

/// The locale that an identifier names, in any mix of letter case and with
/// `_` or `-` as separator: `en-us` and `en` name English, `zh-cn`,
/// `zh-hans` and `zh` Simplified Chinese.
pub open spec fn parse_locale(s: Seq<char>) -> Option<Locale> {
    let n = normalize_id(s);
    if n == "en-us"@ || n == "en"@ {
        Some(Locale::EnUs)
    } else if n == "zh-cn"@ || n == "zh-hans"@ || n == "zh"@ {
        Some(Locale::ZhCn)
    } else {
        None
    }
}

impl Default for Locale {
    fn default() -> (l: Locale)
        ensures
            l == Locale::EnUs,
    {
        Locale::EnUs
    }
}

/// Whether the canonical form of `v` is `lit`.
fn normalized_equals(v: &Vec<char>, lit: &str) -> (r: bool)
    ensures
        r == (normalize_id(v@) == lit@),
{
    let l = chars_of(lit);
    if v.len() != l.len() {
        assert(normalize_id(v@).len() == v@.len());
        return false;
    }
    let mut i: usize = 0;
    while i < v.len()
        invariant
            v@.len() == l@.len(),
            l@ == lit@,
            i <= v@.len(),
            forall|k: int| 0 <= k < i ==> normalize_char(v@[k]) == l@[k],
        decreases v@.len() - i,
    {
        let c = v[i];
        let e = l[i];
        let same = if c == '_' {
            e == '-'
        } else if 'A' <= c && c <= 'Z' {
            (c as u32) + 32 == (e as u32)
        } else {
            c == e
        };
        proof {
            vstd::utf8::char_u32_cast(e, e as u32);
        }
        if !same {
            assert(normalize_id(v@)[i as int] != lit@[i as int]);
            return false;
        }
        i = i + 1;
    }
    assert(normalize_id(v@) =~= lit@);
    true
}

impl Locale {
    /// The locale used where no other is chosen, and whose messages stand
    /// in for those that another locale lacks.
    pub const FALLBACK: Locale = Locale::EnUs;

    /// The supported locales, in the order that settings list them.
    pub fn supported() -> (r: &'static [Locale])
        ensures
            r@ == seq![Locale::EnUs, Locale::ZhCn],
    {
        &[Locale::EnUs, Locale::ZhCn]
    }

    /// The locale that `value` names, if it names a supported one.
    pub fn parse(value: &str) -> (r: Option<Locale>)
        ensures
            r == parse_locale(value@),
    {
        let v = chars_of(value);
        if normalized_equals(&v, "en-us") || normalized_equals(&v, "en") {
            Some(Locale::EnUs)
        } else if normalized_equals(&v, "zh-cn") || normalized_equals(&v, "zh-hans")
            || normalized_equals(&v, "zh") {
            Some(Locale::ZhCn)
        } else {
            None
        }
    }

    /// The stable identifier under which the locale is stored.
    pub fn as_str(self) -> (r: &'static str)
        ensures
            r@ == locale_id(self),
    {
        match self {
            Locale::EnUs => "en-US",
            Locale::ZhCn => "zh-CN",
        }
    }

    /// The name of the locale in its own language.
    pub fn display_name(self) -> (r: &'static str)
        ensures
            r@ == locale_display_name(self),
    {
        match self {
            Locale::EnUs => "English",
            Locale::ZhCn => "简体中文",
        }
    }

    /// Where the resource of the locale is bundled.
    pub fn resource_path(self) -> (r: String)
        ensures
            r@ == locale_resource_path(self),
    {
        let mut path = "bundled/i18n/".to_owned();
        path.append(self.as_str());
        path.append(".ftl");
        path
    }
}


/// Reading back the stored identifier of a locale gives that locale.
pub proof fn lemma_parse_stored_id(l: Locale)
    ensures
        parse_locale(locale_id(l)) == Some(l),
{
    reveal_strlit("en-US");
    reveal_strlit("zh-CN");
    reveal_strlit("en-us");
    reveal_strlit("en");
    reveal_strlit("zh-cn");
    match l {
        Locale::EnUs => {
            assert(normalize_id("en-US"@) =~= "en-us"@);
            assert(parse_locale(locale_id(l)) == Some(Locale::EnUs));
        },
        Locale::ZhCn => {
            let n = normalize_id("zh-CN"@);
            assert(n =~= "zh-cn"@);
            assert(n[1] != "en-us"@[1]);
            assert(n != "en"@);
        },
    }
}

/// Letter case and the choice of `_` or `-` as separator do not change
/// which locale an identifier names.
pub proof fn lemma_parse_ignores_spelling(s: Seq<char>)
    ensures
        parse_locale(s) == parse_locale(normalize_id(s)),
{
    assert forall|i: int| 0 <= i < s.len() implies normalize_char(normalize_char(s[i]))
        == normalize_char(s[i]) by {
        let c = s[i];
        if 'A' <= c && c <= 'Z' {
            assert(((c as u32) + 32) as char as u32 == (c as u32) + 32);
        }
    }
    assert(normalize_id(normalize_id(s)) =~= normalize_id(s));
}


/// An identifier names English exactly when its canonical form is `en-us`
/// or `en`, Simplified Chinese exactly when it is `zh-cn`, `zh-hans` or
/// `zh`, and no locale otherwise.
pub proof fn lemma_parse_accepts_exactly(s: Seq<char>)
    ensures
        (parse_locale(s) == Some(Locale::EnUs)) <==> (normalize_id(s) == "en-us"@ || normalize_id(s)
            == "en"@),
        (parse_locale(s) == Some(Locale::ZhCn)) <==> (normalize_id(s) == "zh-cn"@ || normalize_id(s)
            == "zh-hans"@ || normalize_id(s) == "zh"@),
        parse_locale(s) is None <==> !(normalize_id(s) == "en-us"@ || normalize_id(s) == "en"@
            || normalize_id(s) == "zh-cn"@ || normalize_id(s) == "zh-hans"@ || normalize_id(s)
            == "zh"@),
{
    reveal_strlit("en-us");
    reveal_strlit("en");
    reveal_strlit("zh-cn");
    reveal_strlit("zh-hans");
    reveal_strlit("zh");
    let n = normalize_id(s);
    if n == "zh-cn"@ || n == "zh-hans"@ || n == "zh"@ {
        assert(n[0] == 'z');
        assert(n != "en-us"@ && n != "en"@);
    }
}

} // verus!
