//! The translator that the interface asks for its text: messages of the
//! active locale, English where the active locale lacks one, and the key
//! itself where English lacks it too.

use vstd::prelude::*;

use crate::catalog::{arg_views, interpolate, resource_messages, Catalog};
use crate::keys::{key_id, I18nKey};
use crate::locale::{locale_resource_path, Locale};
use crate::text::{decimal, decimal_string};
use crate::placeholders::{placeholder_names, unfilled_placeholders, without_arguments};

verus! {

/// The message that stands for `key`: the active catalog's where it has
/// one, otherwise the fallback catalog's, otherwise none.
pub open spec fn template_for(
    active: Option<Map<Seq<char>, Seq<char>>>,
    fallback: Map<Seq<char>, Seq<char>>,
    key: Seq<char>,
) -> Option<Seq<char>> {
    if active is Some && active->0.dom().contains(key) {
        Some(active->0[key])
    } else if fallback.dom().contains(key) {
        Some(fallback[key])
    } else {
        None
    }
}

/// Where the text shown for a key comes from.
#[derive(Clone, Copy, Debug, PartialEq, Eq, Structural)]
pub enum TextSource {
    /// The catalog of the active locale.
    Active,
    /// The English catalog.
    Fallback,
    /// Neither: the key itself is shown.
    Key,
}

/// Which catalog serves `key`, as `template_for` chooses.
pub open spec fn source_for(
    active: Option<Map<Seq<char>, Seq<char>>>,
    fallback: Map<Seq<char>, Seq<char>>,
    key: Seq<char>,
) -> TextSource {
    if active is Some && active->0.dom().contains(key) {
        TextSource::Active
    } else if fallback.dom().contains(key) {
        TextSource::Fallback
    } else {
        TextSource::Key
    }
}

/// A translator as plain values.
pub struct I18nView {
    pub locale: Locale,
    pub fallback: Map<Seq<char>, Seq<char>>,
    pub active: Option<Map<Seq<char>, Seq<char>>>,
}

impl I18nView {
    /// The text shown for `key`: its message, or the key itself where no
    /// catalog has one.
    pub open spec fn translation(self, key: Seq<char>) -> Seq<char> {
        match template_for(self.active, self.fallback, key) {
            Some(m) => m,
            None => key,
        }
    }

    /// Where the text shown for `key` comes from.
    pub open spec fn source(self, key: Seq<char>) -> TextSource {
        source_for(self.active, self.fallback, key)
    }

    /// The placeholders of the message shown for `key` for which `args`
    /// gives no argument; none where the key itself is shown.
    pub open spec fn unfilled(self, key: Seq<char>, args: Seq<(Seq<char>, Seq<char>)>) -> Seq<
        Seq<char>,
    > {
        match template_for(self.active, self.fallback, key) {
            Some(m) => without_arguments(placeholder_names(m), args),
            None => Seq::empty(),
        }
    }

    /// The text shown for `key` with the named arguments put in; the key
    /// itself, as it is, where no catalog has a message for it.
    pub open spec fn formatted(self, key: Seq<char>, args: Seq<(Seq<char>, Seq<char>)>) -> Seq<
        char,
    > {
        match template_for(self.active, self.fallback, key) {
            Some(m) => interpolate(m, args),
            None => key,
        }
    }
}

/// Why a locale's resource could not be read.
#[derive(Debug)]
pub enum LoadError {
    /// No resource is bundled at this path.
    MissingResource(String),
    /// The resource is not UTF-8: its first `valid_up_to` bytes are, and
    /// then either an invalid sequence of `error_len` bytes follows or,
    /// where `error_len` is `None`, the input ends inside a sequence.
    InvalidUtf8 { valid_up_to: usize, error_len: Option<usize> },
}

/// What `std::str::Utf8Error` documents of a failure to decode `bytes`:
/// `valid_up_to` is the greatest length of a prefix that is valid UTF-8;
/// an invalid sequence is one to three bytes long; where the input ends
/// inside a sequence, one to three bytes follow the valid prefix.
pub open spec fn utf8_failure(bytes: Seq<u8>, valid_up_to: usize, error_len: Option<usize>) -> bool {
    &&& !vstd::utf8::valid_utf8(bytes)
    &&& valid_up_to <= bytes.len()
    &&& vstd::utf8::valid_utf8(bytes.take(valid_up_to as int))
    &&& forall|w: int|
        valid_up_to < w <= bytes.len() ==> !vstd::utf8::valid_utf8(#[trigger] bytes.take(w))
    &&& match error_len {
        Some(n) => 1 <= n <= 3,
        None => 1 <= bytes.len() - valid_up_to <= 3,
    }
}

/// The text with which a load error is reported: for a missing resource the
/// path, for invalid UTF-8 the text of `std::str::Utf8Error`'s `Display`.
pub open spec fn load_error_message(e: LoadError) -> Seq<char> {
    match e {
        LoadError::MissingResource(path) => "missing i18n resource "@ + path@,
        LoadError::InvalidUtf8 { valid_up_to, error_len } => match error_len {
            Some(n) => "invalid utf-8 sequence of "@ + decimal(n as nat) + " bytes from index "@
                + decimal(valid_up_to as nat),
            None => "incomplete utf-8 byte sequence from index "@ + decimal(valid_up_to as nat),
        },
    }
}

impl LoadError {
    /// The text with which the error is reported.
    pub fn message(&self) -> (r: String)
        ensures
            r@ == load_error_message(*self),
    {
        match self {
            LoadError::MissingResource(path) => {
                let mut m = "missing i18n resource ".to_owned();
                m.append(path.as_str());
                m
            },
            LoadError::InvalidUtf8 { valid_up_to, error_len } => match error_len {
                Some(n) => {
                    let mut m = "invalid utf-8 sequence of ".to_owned();
                    m.append(decimal_string(*n).as_str());
                    m.append(" bytes from index ");
                    m.append(decimal_string(*valid_up_to).as_str());
                    m
                },
                None => {
                    let mut m = "incomplete utf-8 byte sequence from index ".to_owned();
                    m.append(decimal_string(*valid_up_to).as_str());
                    m
                },
            },
        }
    }
}

/// The text that `bytes` encode, or where they are not UTF-8, the
/// `valid_up_to` and `error_len` of the error.
///
/// Calls `std::str::from_utf8`. Claimed: the result is `Ok` exactly when
/// the bytes are valid UTF-8, and then the text's UTF-8 encoding is `bytes`;
/// an error's two numbers are as `utf8_failure` states, after the
/// documentation of `Utf8Error::valid_up_to` and `Utf8Error::error_len`.
#[verifier::external_body]
fn utf8_text(bytes: &[u8]) -> (r: Result<&str, (usize, Option<usize>)>)
    ensures
        r is Ok <==> vstd::utf8::valid_utf8(bytes@),
        r matches Ok(s) ==> vstd::utf8::encode_utf8(s@) == bytes@,
        r matches Err((v, n)) ==> utf8_failure(bytes@, v, n),
{
    match std::str::from_utf8(bytes) {
        Ok(s) => Ok(s),
        Err(e) => Err((e.valid_up_to(), e.error_len())),
    }
}

/// The catalog of `locale` from its bundled resource `data`, `None` where no
/// resource is bundled.
pub fn catalog_from_resource(locale: Locale, data: Option<&[u8]>) -> (r: Result<Catalog, LoadError>)
    ensures
        match data {
            None => r matches Err(LoadError::MissingResource(p)) && p@ == locale_resource_path(
                locale,
            ),
            Some(bytes) => if vstd::utf8::valid_utf8(bytes@) {
                r matches Ok(c) && c@ == resource_messages(vstd::utf8::decode_utf8(bytes@))
            } else {
                r matches Err(LoadError::InvalidUtf8 { valid_up_to, error_len }) && utf8_failure(
                    bytes@,
                    valid_up_to,
                    error_len,
                )
            },
        },
{
    match data {
        None => Err(LoadError::MissingResource(locale.resource_path())),
        Some(bytes) => match utf8_text(bytes) {
            Err((valid_up_to, error_len)) => Err(LoadError::InvalidUtf8 { valid_up_to, error_len }),
            Ok(text) => {
                proof {
                    vstd::utf8::encode_utf8_decode_utf8(text@);
                }
                Ok(Catalog::parse(text))
            },
        },
    }
}

/// The translator of one locale.
pub struct I18n {
    locale: Locale,
    fallback: Catalog,
    active: Option<Catalog>,
}

/// A catalog, if any, as plain values.
pub open spec fn option_view(c: Option<Catalog>) -> Option<Map<Seq<char>, Seq<char>>> {
    match c {
        Some(c) => Some(c@),
        None => None,
    }
}

impl View for I18n {
    type V = I18nView;

    closed spec fn view(&self) -> I18nView {
        I18nView { locale: self.locale, fallback: self.fallback@, active: option_view(self.active) }
    }
}

impl I18n {
    /// A translator for `locale` from catalogs already read.
    pub fn from_catalogs_for_test(locale: Locale, fallback: Catalog, active: Option<Catalog>) -> (r:
        I18n)
        ensures
            r@.locale == locale,
            r@.fallback == fallback@,
            r@.active == option_view(active),
    {
        I18n { locale, fallback, active }
    }

    /// The translator for `locale` from the bundled resources: `fallback` is
    /// the English resource, `active` that of `locale`, which is read only
    /// where `locale` is not English. The English catalog is empty where its
    /// resource cannot be read; the active one is left out where its resource
    /// cannot be read, and the error is handed back to be reported.
    pub fn load(locale: Locale, fallback: Option<&[u8]>, active: Option<&[u8]>) -> (r: (
        I18n,
        Option<LoadError>,
    ))
        ensures
            r.0@.locale == locale,
            match fallback {
                Some(bytes) if vstd::utf8::valid_utf8(bytes@) => r.0@.fallback == resource_messages(
                    vstd::utf8::decode_utf8(bytes@),
                ),
                _ => r.0@.fallback == Map::<Seq<char>, Seq<char>>::empty(),
            },
            locale == Locale::EnUs ==> r.0@.active is None && r.1 is None,
            locale != Locale::EnUs ==> match active {
                Some(bytes) if vstd::utf8::valid_utf8(bytes@) => r.0@.active == Some(
                    resource_messages(vstd::utf8::decode_utf8(bytes@)),
                ) && r.1 is None,
                Some(bytes) => r.0@.active is None && (r.1 matches Some(
                    LoadError::InvalidUtf8 { valid_up_to, error_len },
                ) && utf8_failure(bytes@, valid_up_to, error_len)),
                None => r.0@.active is None && (r.1 matches Some(LoadError::MissingResource(p))
                    && p@ == locale_resource_path(locale)),
            },
    {
        let fallback = match catalog_from_resource(Locale::FALLBACK, fallback) {
            Ok(c) => c,
            Err(_) => Catalog::default(),
        };
        if locale == Locale::FALLBACK {
            (I18n { locale, fallback, active: None }, None)
        } else {
            match catalog_from_resource(locale, active) {
                Ok(c) => (I18n { locale, fallback, active: Some(c) }, None),
                Err(e) => (I18n { locale, fallback, active: None }, Some(e)),
            }
        }
    }

    /// The locale of the translator.
    pub fn locale(&self) -> (r: Locale)
        ensures
            r == self@.locale,
    {
        self.locale
    }

    /// The message that stands for `key`, and the catalog it comes from.
    fn message(&self, key: I18nKey) -> (r: Option<(&str, TextSource)>)
        ensures
            match r {
                Some((m, source)) => template_for(self@.active, self@.fallback, key_id(key)) == Some(
                    m@,
                ) && source == self@.source(key_id(key)),
                None => template_for(self@.active, self@.fallback, key_id(key)) is None
                    && self@.source(key_id(key)) == TextSource::Key,
            },
    {
        let key_str = key.as_str();
        if let Some(active) = &self.active {
            if let Some(m) = active.get(key_str) {
                return Some((m, TextSource::Active));
            }
        }
        match self.fallback.get(key_str) {
            Some(m) => Some((m, TextSource::Fallback)),
            None => None,
        }
    }

    /// The text shown for `key`.
    fn lookup(&self, key: I18nKey) -> (r: &str)
        ensures
            r@ == self@.translation(key_id(key)),
    {
        match self.message(key) {
            Some((m, _)) => m,
            None => key.as_str(),
        }
    }

    /// The text shown for `key`, with where it comes from: the active
    /// locale, English, or, where neither has a message, the key itself.
    pub fn tr_with_source(&self, key: I18nKey) -> (r: (String, TextSource))
        ensures
            r.0@ == self@.translation(key_id(key)),
            r.1 == self@.source(key_id(key)),
    {
        match self.message(key) {
            Some((m, source)) => (m.to_owned(), source),
            None => (key.as_str().to_owned(), TextSource::Key),
        }
    }

    /// The placeholders of the message shown for `key` that no argument in
    /// `args` names, in order; none where the key itself is shown.
    pub fn unfilled_arguments(&self, key: I18nKey, args: &[(&str, &str)]) -> (r: Vec<String>)
        ensures
            r@.map_values(|s: String| s@) == self@.unfilled(key_id(key), arg_views(args@)),
    {
        match self.message(key) {
            Some((m, _)) => unfilled_placeholders(m, args),
            None => {
                let r: Vec<String> = Vec::new();
                assert(r@.map_values(|s: String| s@) =~= Seq::<Seq<char>>::empty());
                r
            },
        }
    }

    /// The text shown for `key`: the active locale's message, else the
    /// English one, else the key itself.
    pub fn tr(&self, key: I18nKey) -> (r: String)
        ensures
            r@ == self@.translation(key_id(key)),
    {
        self.lookup(key).to_owned()
    }

    /// The text shown for `key` with the named arguments put in: the active
    /// locale's message, else the English one, else the key itself.
    pub fn tr_args(&self, key: I18nKey, args: &[(&str, &str)]) -> (r: String)
        ensures
            r@ == self@.formatted(key_id(key), arg_views(args@)),
    {
        let key_str = key.as_str();
        if let Some(active) = &self.active {
            if active.contains(key_str) {
                return match active.format(key_str, args) {
                    Some(m) => m,
                    None => key_str.to_owned(),
                };
            }
        }
        match self.fallback.format(key_str, args) {
            Some(m) => m,
            None => key_str.to_owned(),
        }
    }
}


/// The text shown for a key comes from the active locale where it has a
/// message for the key, from English where only English has one, and is
/// the key itself where neither has one.
pub proof fn lemma_fallback_order(v: I18nView, key: Seq<char>)
    ensures
        v.active is Some && v.active->0.dom().contains(key) ==> v.translation(key)
            == v.active->0[key],
        !(v.active is Some && v.active->0.dom().contains(key)) && v.fallback.dom().contains(key)
            ==> v.translation(key) == v.fallback[key],
        !(v.active is Some && v.active->0.dom().contains(key)) && !v.fallback.dom().contains(key)
            ==> v.translation(key) == key,
{
}

/// Where some catalog holds a message for the key, `tr_args` shows the text
/// that `tr` shows with the arguments put in, whether or not the translator
/// has an active catalog; for a translator without one, that is the English
/// message with the arguments put in.
pub proof fn lemma_arguments_fill_translation(
    v: I18nView,
    key: Seq<char>,
    args: Seq<(Seq<char>, Seq<char>)>,
)
    requires
        v.fallback.dom().contains(key) || (v.active is Some && v.active->0.dom().contains(key)),
    ensures
        v.formatted(key, args) == interpolate(v.translation(key), args),
        v.active is None ==> v.formatted(key, args) == interpolate(v.fallback[key], args),
        v.active is Some && v.active->0.dom().contains(key) ==> v.formatted(key, args)
            == interpolate(v.active->0[key], args),
{
}

/// With no arguments, `tr_args` shows what `tr` shows.
pub proof fn lemma_no_arguments_is_plain_translation(v: I18nView, key: Seq<char>)
    ensures
        v.formatted(key, Seq::empty()) == v.translation(key),
{
}

} // verus!
