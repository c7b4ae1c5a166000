//! Negotiation of the formatter's locale from the user's preferences.

use vstd::prelude::*;

use crate::error::{TimelineDateError, TimelineDateResult};
use crate::options::string_views;
use crate::text::{ascii_lower, trim, trim_text};

verus! {

#[verifier::external_type_specification]
#[verifier::external_body]
pub struct ExLanguageTag(mf2_i18n::LanguageTag);

#[verifier::external_type_specification]
#[verifier::external_body]
pub struct ExMf2CoreError(mf2_i18n::CoreError);

/// The locale used when no preference matches a bundled catalog.
pub const DEFAULT_LOCALE: &'static str = "en";

/// The locales the bundled catalogs cover.
pub const SUPPORTED_LOCALES: [&'static str; 3] = ["en", "es", "fr"];

/// The bundled locales as character sequences.
pub open spec fn supported_locale_views() -> Seq<Seq<char>> {
    seq!["en"@, "es"@, "fr"@]
}

/// An ASCII letter.
pub open spec fn is_ascii_letter(c: char) -> bool {
    ('a' <= c <= 'z') || ('A' <= c <= 'Z')
}

/// Only ASCII letters.
pub open spec fn all_ascii_letters(s: Seq<char>) -> bool {
    forall|i: int| 0 <= i < s.len() ==> is_ascii_letter(#[trigger] s[i])
}

/// The ASCII upper-case form of `c`.
pub open spec fn ascii_upper_char(c: char) -> char {
    if 'a' <= c <= 'z' {
        ((c as u32) - 32) as char
    } else {
        c
    }
}

/// `s` with ASCII lower-case letters upper-cased.
pub open spec fn ascii_upper(s: Seq<char>) -> Seq<char> {
    s.map_values(|c: char| ascii_upper_char(c))
}

/// `s` with its first character upper-cased and the rest lower-cased.
pub open spec fn title_case(s: Seq<char>) -> Seq<char> {
    if s.len() == 0 {
        s
    } else {
        seq![ascii_upper_char(s[0])] + ascii_lower(s.drop_first())
    }
}

/// A region subtag: two ASCII letters or three ASCII digits.
pub open spec fn is_region_subtag(s: Seq<char>) -> bool {
    ||| s.len() == 2 && all_ascii_letters(s)
    ||| s.len() == 3 && forall|i: int| 0 <= i < 3 ==> '0' <= #[trigger] s[i] <= '9'
}

/// The normalized forms of the subtags after the language subtag, each
/// trimmed: a one-byte subtag is lower-cased, the first four-letter subtag
/// title-cased as the script, the first region subtag upper-cased, and any
/// other subtag lower-cased.
pub open spec fn normalized_rest(
    subtags: Seq<Seq<char>>,
    script_seen: bool,
    region_seen: bool,
) -> Seq<Seq<char>>
    decreases subtags.len(),
{
    if subtags.len() == 0 {
        seq![]
    } else {
        let part = trim(subtags[0]);
        let rest = subtags.drop_first();
        if is_singleton(part) {
            seq![ascii_lower(part)] + normalized_rest(rest, script_seen, region_seen)
        } else if !script_seen && part.len() == 4 && all_ascii_letters(part) {
            seq![title_case(part)] + normalized_rest(rest, true, region_seen)
        } else if !region_seen && is_region_subtag(part) {
            seq![ascii_upper(part)] + normalized_rest(rest, script_seen, true)
        } else {
            seq![ascii_lower(part)] + normalized_rest(rest, script_seen, region_seen)
        }
    }
}

/// The normalized form that `mf2_i18n::LanguageTag::parse` gives `input`,
/// or `None` when it rejects it: the input is trimmed and must not be
/// empty; it is split at `-`, and no subtag may be empty; the first subtag,
/// trimmed, must be two to eight ASCII letters and is lower-cased; the
/// others are normalized by `normalized_rest`; the subtags are joined with
/// `-` again.
pub open spec fn language_tag_normalized(input: Seq<char>) -> Option<Seq<char>> {
    let trimmed = trim(input);
    let subtags = dash_subtags(trimmed);
    let first = trim(subtags[0]);
    if trimmed.len() == 0 {
        None
    } else if exists|i: int| 0 <= i < subtags.len() && #[trigger] subtags[i].len() == 0 {
        None
    } else if !(all_ascii_letters(first) && 2 <= first.len() <= 8) {
        None
    } else {
        Some(
            join_subtags(
                seq![ascii_lower(first)] + normalized_rest(subtags.drop_first(), false, false),
            ),
        )
    }
}

/// The subtags of a tag: the pieces between its `-` separators.
pub open spec fn dash_subtags(tag: Seq<char>) -> Seq<Seq<char>>
    decreases tag.len(),
{
    if tag.len() == 0 {
        seq![seq![]]
    } else {
        let pieces = dash_subtags(tag.drop_last());
        if tag.last() == '-' {
            pieces.push(seq![])
        } else {
            pieces.update(pieces.len() - 1, pieces.last().push(tag.last()))
        }
    }
}

/// A subtag of a single ASCII character, which ends the subtags used for
/// matching.
pub open spec fn is_singleton(subtag: Seq<char>) -> bool {
    subtag.len() == 1 && (subtag[0] as u32) < 128
}

/// The leading subtags before the first singleton.
pub open spec fn before_singleton(subtags: Seq<Seq<char>>) -> Seq<Seq<char>>
    decreases subtags.len(),
{
    if subtags.len() == 0 || is_singleton(subtags[0]) {
        seq![]
    } else {
        seq![subtags[0]] + before_singleton(subtags.drop_first())
    }
}

/// The subtags used for matching: the language subtag, then the following
/// subtags up to the first singleton.
pub open spec fn match_subtags(tag: Seq<char>) -> Seq<Seq<char>> {
    let subtags = dash_subtags(tag);
    seq![subtags[0]] + before_singleton(subtags.drop_first())
}

/// Subtags joined with `-`.
pub open spec fn join_subtags(subtags: Seq<Seq<char>>) -> Seq<char>
    decreases subtags.len(),
{
    if subtags.len() == 0 {
        seq![]
    } else if subtags.len() == 1 {
        subtags[0]
    } else {
        join_subtags(subtags.drop_last()) + seq!['-'] + subtags.last()
    }
}

/// The joined first `count`, `count - 1`, ..., 1 matching subtags.
pub open spec fn shorter_prefixes(subtags: Seq<Seq<char>>, count: int) -> Seq<Seq<char>>
    decreases count,
{
    if count < 1 {
        seq![]
    } else {
        seq![join_subtags(subtags.take(count))] + shorter_prefixes(subtags, count - 1)
    }
}

/// The forms a requested tag is tried as, in order: the tag itself, its
/// matching subtags joined when that differs, then each shorter prefix.
pub open spec fn lookup_attempts(tag: Seq<char>) -> Seq<Seq<char>> {
    let matching = match_subtags(tag);
    let full = join_subtags(matching);
    seq![tag] + (if full != tag {
        seq![full]
    } else {
        seq![]
    }) + shorter_prefixes(matching, matching.len() - 1)
}

/// The first attempt that is a supported tag.
pub open spec fn first_supported(attempts: Seq<Seq<char>>, supported: Seq<Seq<char>>) -> Option<
    Seq<char>,
>
    decreases attempts.len(),
{
    if attempts.len() == 0 {
        None
    } else if supported.contains(attempts[0]) {
        Some(attempts[0])
    } else {
        first_supported(attempts.drop_first(), supported)
    }
}

/// The tag the lookup negotiation selects, over normalized forms: the
/// first requested tag that some attempt of it matches a supported tag
/// decides; without one, the default.
pub open spec fn lookup_selection(
    requested: Seq<Seq<char>>,
    supported: Seq<Seq<char>>,
    default_locale: Seq<char>,
) -> Seq<char>
    decreases requested.len(),
{
    if requested.len() == 0 {
        default_locale
    } else {
        match first_supported(lookup_attempts(requested[0]), supported) {
            Some(found) => found,
            None => lookup_selection(requested.drop_first(), supported, default_locale),
        }
    }
}

proof fn lemma_first_supported_is_supported(attempts: Seq<Seq<char>>, supported: Seq<Seq<char>>)
    ensures
        first_supported(attempts, supported) matches Some(found) ==> supported.contains(found),
    decreases attempts.len(),
{
    if attempts.len() > 0 {
        lemma_first_supported_is_supported(attempts.drop_first(), supported);
    }
}

/// The lookup selects a supported tag or the default, and the default when
/// nothing is requested.
pub proof fn lemma_lookup_selects_supported_or_default(
    requested: Seq<Seq<char>>,
    supported: Seq<Seq<char>>,
    default_locale: Seq<char>,
)
    ensures
        lookup_selection(requested, supported, default_locale) == default_locale
            || supported.contains(lookup_selection(requested, supported, default_locale)),
        requested.len() == 0 ==> lookup_selection(requested, supported, default_locale)
            == default_locale,
    decreases requested.len(),
{
    if requested.len() > 0 {
        lemma_first_supported_is_supported(lookup_attempts(requested[0]), supported);
        lemma_lookup_selects_supported_or_default(
            requested.drop_first(),
            supported,
            default_locale,
        );
    }
}

/// A bare language subtag: two to eight lower-case ASCII letters.
pub open spec fn is_plain_language_subtag(s: Seq<char>) -> bool {
    &&& 2 <= s.len() <= 8
    &&& forall|i: int| 0 <= i < s.len() ==> 'a' <= #[trigger] s[i] <= 'z'
}

/// A parsed language tag with its normalized form.
#[derive(Debug)]
pub struct ParsedLocale {
    tag: mf2_i18n::LanguageTag,
    normalized: String,
}

impl ParsedLocale {
    /// The normalized form of the tag.
    pub closed spec fn normalized_spec(&self) -> Seq<char> {
        self.normalized@
    }

    /// The normalized form of the tag.
    pub fn normalized(&self) -> (normalized: &str)
        ensures
            normalized@ == self.normalized_spec(),
    {
        self.normalized.as_str()
    }
}

/// The normalized forms of a list of parsed tags.
pub open spec fn normalized_views(tags: Seq<ParsedLocale>) -> Seq<Seq<char>> {
    tags.map_values(|tag: ParsedLocale| tag.normalized_spec())
}

/// A two-letter upper-case region subtag.
pub open spec fn is_plain_region_subtag(s: Seq<char>) -> bool {
    &&& s.len() == 2
    &&& forall|i: int| 0 <= i < s.len() ==> 'A' <= #[trigger] s[i] <= 'Z'
}

proof fn lemma_dash_subtags_without_dash(s: Seq<char>)
    requires
        forall|i: int| 0 <= i < s.len() ==> s[i] != '-',
    ensures
        dash_subtags(s) == seq![s],
    decreases s.len(),
{
    if s.len() > 0 {
        lemma_dash_subtags_without_dash(s.drop_last());
        assert(s.drop_last().push(s.last()) =~= s);
        assert(dash_subtags(s) =~= seq![s]);
    } else {
        assert(s =~= Seq::<char>::empty());
    }
}

proof fn lemma_dash_subtags_after_dash(front: Seq<char>, back: Seq<char>)
    requires
        forall|i: int| 0 <= i < back.len() ==> back[i] != '-',
    ensures
        dash_subtags(front + seq!['-'] + back) == dash_subtags(front).push(back),
    decreases back.len(),
{
    let whole = front + seq!['-'] + back;
    if back.len() == 0 {
        assert(whole.drop_last() =~= front);
        assert(back =~= Seq::<char>::empty());
    } else {
        lemma_dash_subtags_after_dash(front, back.drop_last());
        assert(whole.drop_last() =~= front + seq!['-'] + back.drop_last());
        assert(back.drop_last().push(back.last()) =~= back);
        assert(dash_subtags(whole) =~= dash_subtags(front).push(back));
    }
}

proof fn lemma_letters_are_untrimmed(s: Seq<char>)
    requires
        s.len() > 0,
        all_ascii_letters(s),
    ensures
        trim(s) == s,
{
    assert(is_ascii_letter(s[0]));
    assert(is_ascii_letter(s.last()));
    reveal_with_fuel(crate::text::trim_start, 2);
    reveal_with_fuel(crate::text::trim_end, 2);
}

/// A bare lower-case language subtag is its own normalized form.
pub proof fn lemma_plain_language_tag_normalized(language: Seq<char>)
    requires
        is_plain_language_subtag(language),
    ensures
        language_tag_normalized(language) == Some(language),
{
    assert(all_ascii_letters(language));
    lemma_letters_are_untrimmed(language);
    lemma_dash_subtags_without_dash(language);
    assert(ascii_lower(language) =~= language);
    assert(seq![language].drop_first() =~= Seq::<Seq<char>>::empty());
    assert(seq![ascii_lower(language)] + normalized_rest(Seq::<Seq<char>>::empty(), false, false)
        =~= seq![language]);
}

/// A lower-case language subtag followed by an upper-case two-letter region
/// is its own normalized form.
pub proof fn lemma_language_region_tag_normalized(language: Seq<char>, region: Seq<char>)
    requires
        is_plain_language_subtag(language),
        is_plain_region_subtag(region),
    ensures
        language_tag_normalized(language + seq!['-'] + region) == Some(
            language + seq!['-'] + region,
        ),
{
    let tag = language + seq!['-'] + region;
    assert(all_ascii_letters(language));
    assert(all_ascii_letters(region));
    assert(tag[0] == language[0]);
    assert(tag.last() == region.last());
    assert(is_ascii_letter(tag[0]) && is_ascii_letter(tag.last()));
    reveal_with_fuel(crate::text::trim_start, 2);
    reveal_with_fuel(crate::text::trim_end, 2);
    assert(trim(tag) == tag);
    lemma_dash_subtags_without_dash(language);
    lemma_dash_subtags_after_dash(language, region);
    let subtags = seq![language, region];
    assert(dash_subtags(tag) =~= subtags);
    lemma_letters_are_untrimmed(language);
    lemma_letters_are_untrimmed(region);
    assert(ascii_lower(language) =~= language);
    assert(ascii_upper(region) =~= region);
    assert(subtags.drop_first() =~= seq![region]);
    assert(seq![region].drop_first() =~= Seq::<Seq<char>>::empty());
    assert(!is_singleton(region));
    assert(is_region_subtag(region));
    assert(seq![region][0] == region);
    reveal_with_fuel(normalized_rest, 2);
    assert(normalized_rest(seq![region], false, false) =~= seq![region]);
    let parts = seq![ascii_lower(language)] + normalized_rest(seq![region], false, false);
    assert(parts =~= seq![language, region]);
    assert(seq![language, region].drop_last() =~= seq![language]);
    reveal_with_fuel(join_subtags, 2);
    assert(join_subtags(seq![language, region]) =~= tag);
}

/// Calls `mf2_i18n::LanguageTag::parse` and keeps the tag with its
/// `normalized()` form, which `language_tag_normalized` states.
#[verifier::external_body]
fn mf2_parse_language_tag(input: &str) -> (res: Result<ParsedLocale, mf2_i18n::CoreError>)
    ensures
        res is Ok <==> language_tag_normalized(input@) is Some,
        res matches Ok(tag) ==> language_tag_normalized(input@) == Some(tag.normalized_spec()),
{
    mf2_i18n::LanguageTag::parse(input).map(|tag| {
        let normalized = tag.normalized().to_owned();
        ParsedLocale { tag, normalized }
    })
}

/// Calls `mf2_i18n::negotiate_lookup` and returns the normalized form of the
/// selected tag. For each requested tag in order it tries the tag's
/// normalized form, then its matching subtags joined when that differs, then
/// each shorter prefix of them, and selects the first supported tag whose
/// normalized form equals an attempt; without one, the default. A tag's
/// matching subtags are its normalized subtags up to the first one-byte
/// subtag, so the selection is a function of the normalized forms.
#[verifier::external_body]
fn mf2_negotiate_lookup(
    requested: &Vec<ParsedLocale>,
    supported: &Vec<ParsedLocale>,
    default_locale: &ParsedLocale,
) -> (selected: String)
    ensures
        selected@ == lookup_selection(
            normalized_views(requested@),
            normalized_views(supported@),
            default_locale.normalized_spec(),
        ),
{
    let requested: Vec<mf2_i18n::LanguageTag> = requested.iter().map(|p| p.tag.clone()).collect();
    let supported: Vec<mf2_i18n::LanguageTag> = supported.iter().map(|p| p.tag.clone()).collect();
    let negotiation = mf2_i18n::negotiate_lookup(&requested, &supported, &default_locale.tag);
    negotiation.selected.normalized().to_owned()
}

/// The normalized forms of the usable preferences, in order and without
/// repeats, or the first non-blank preference (trimmed) that is no
/// language tag.
pub open spec fn requested_locales(preferences: Seq<Seq<char>>) -> Result<
    Seq<Seq<char>>,
    Seq<char>,
>
    decreases preferences.len(),
{
    if preferences.len() == 0 {
        Ok(seq![])
    } else {
        match requested_locales(preferences.drop_last()) {
            Err(bad) => Err(bad),
            Ok(requested) => {
                let value = trim(preferences.last());
                if value.len() == 0 {
                    Ok(requested)
                } else {
                    match language_tag_normalized(value) {
                        None => Err(value),
                        Some(normalized) => if requested.contains(normalized) {
                            Ok(requested)
                        } else {
                            Ok(requested.push(normalized))
                        },
                    }
                }
            },
        }
    }
}

/// The usable preferences hold each normalized tag at most once.
pub proof fn lemma_requested_locales_distinct(preferences: Seq<Seq<char>>)
    ensures
        requested_locales(preferences) matches Ok(requested) ==> requested.no_duplicates(),
    decreases preferences.len(),
{
    if preferences.len() > 0 {
        lemma_requested_locales_distinct(preferences.drop_last());
        if let Ok(requested) = requested_locales(preferences.drop_last()) {
            let value = trim(preferences.last());
            if value.len() > 0 {
                if let Some(normalized) = language_tag_normalized(value) {
                    if !requested.contains(normalized) {
                        let longer = requested.push(normalized);
                        assert forall|i: int, j: int|
                            0 <= i < longer.len() && 0 <= j < longer.len() && i != j implies longer[i]
                            != longer[j] by {
                            if j == requested.len() as int {
                                assert(requested[i] == longer[i]);
                            } else if i == requested.len() as int {
                                assert(requested[j] == longer[j]);
                            }
                        }
                    }
                }
            }
        }
    }
}

/// The locale `select_locale` settles on, or the rejected preference.
pub open spec fn selected_locale_for(preferences: Seq<Seq<char>>) -> Result<Seq<char>, Seq<char>> {
    match requested_locales(preferences) {
        Err(bad) => Err(bad),
        Ok(requested) => Ok(lookup_selection(requested, supported_locale_views(), "en"@)),
    }
}

fn contains_normalized(tags: &Vec<ParsedLocale>, value: &String) -> (found: bool)
    ensures
        found == normalized_views(tags@).contains(value@),
{
    let n: usize = tags.len();
    let mut i: usize = 0;
    while i < n
        invariant
            n == tags@.len(),
            i <= n,
            forall|k: int| 0 <= k < i ==> normalized_views(tags@)[k] != value@,
        decreases n - i,
    {
        if tags[i].normalized == *value {
            assert(normalized_views(tags@)[i as int] == value@);
            return true;
        }
        i = i + 1;
    }
    false
}

/// Parses the usable preferences: blank entries are skipped, entries are
/// trimmed, and a tag whose normalized form was seen before is dropped.
fn parse_requested(preferences: &Vec<String>) -> (res: TimelineDateResult<Vec<ParsedLocale>>)
    ensures
        match requested_locales(string_views(preferences@)) {
            Err(bad) => res matches Err(TimelineDateError::InvalidLocale(value)) && value@ == bad,
            Ok(requested) => res matches Ok(tags) && normalized_views(tags@) == requested,
        },
{
    let mut requested: Vec<ParsedLocale> = Vec::new();
    let n: usize = preferences.len();
    let mut i: usize = 0;
    proof {
        assert(string_views(preferences@).take(0) =~= Seq::<Seq<char>>::empty());
        assert(normalized_views(requested@) =~= Seq::<Seq<char>>::empty());
    }
    while i < n
        invariant
            n == preferences@.len(),
            i <= n,
            requested_locales(string_views(preferences@).take(i as int)) == Ok::<
                Seq<Seq<char>>,
                Seq<char>,
            >(normalized_views(requested@)),
        decreases n - i,
    {
        let ghost before = requested@;
        proof {
            assert(string_views(preferences@).take(i + 1).drop_last() =~= string_views(
                preferences@,
            ).take(i as int));
            assert(string_views(preferences@).take(i + 1).last() == preferences@[i as int]@);
        }
        let trimmed: String = trim_text(preferences[i].as_str());
        if trimmed.unicode_len() > 0 {
            let tag = match mf2_parse_language_tag(trimmed.as_str()) {
                Ok(tag) => tag,
                Err(_) => {
                    proof {
                        lemma_requested_error_persists(string_views(preferences@), i as int + 1);
                    }
                    return Err(TimelineDateError::InvalidLocale(trimmed));
                },
            };
            if !contains_normalized(&requested, &tag.normalized) {
                requested.push(tag);
                proof {
                    assert(normalized_views(requested@) =~= normalized_views(before).push(
                        requested@.last().normalized_spec(),
                    ));
                }
            }
        }
        i = i + 1;
    }
    proof {
        assert(string_views(preferences@).take(n as int) =~= string_views(preferences@));
    }
    Ok(requested)
}

proof fn lemma_requested_error_persists(preferences: Seq<Seq<char>>, i: int)
    requires
        0 <= i <= preferences.len(),
        requested_locales(preferences.take(i)) is Err,
    ensures
        requested_locales(preferences) == requested_locales(preferences.take(i)),
    decreases preferences.len() - i,
{
    if i < preferences.len() {
        assert(preferences.take(i + 1).drop_last() =~= preferences.take(i));
        lemma_requested_error_persists(preferences, i + 1);
    } else {
        assert(preferences.take(i) =~= preferences);
    }
}

/// The internal error reported for a bundled locale that is no language
/// tag.
pub open spec fn invalid_supported_locale_message(locale: Seq<char>) -> Seq<char> {
    "invalid supported locale: "@ + locale
}

/// Parses one of the bundled locales; one that is no language tag is an
/// internal error.
pub fn parse_locale(locale: &str) -> (res: TimelineDateResult<ParsedLocale>)
    ensures
        res is Ok <==> language_tag_normalized(locale@) is Some,
        res matches Ok(tag) ==> language_tag_normalized(locale@) == Some(tag.normalized_spec()),
        res matches Err(e) ==> (e matches TimelineDateError::Internal(m) && m@
            == invalid_supported_locale_message(locale@)),
        is_plain_language_subtag(locale@) ==> (res matches Ok(tag) && tag.normalized_spec()
            == locale@),
{
    proof {
        if is_plain_language_subtag(locale@) {
            lemma_plain_language_tag_normalized(locale@);
        }
    }
    match mf2_parse_language_tag(locale) {
        Ok(tag) => Ok(tag),
        Err(_) => Err(
            TimelineDateError::Internal(
                String::from_str("invalid supported locale: ").concat(locale),
            ),
        ),
    }
}

/// Selects the bundled locale that best serves the preferences.
pub fn select_locale(preferences: &Vec<String>) -> (res: TimelineDateResult<String>)
    ensures
        match selected_locale_for(string_views(preferences@)) {
            Err(bad) => res matches Err(TimelineDateError::InvalidLocale(value)) && value@ == bad,
            Ok(selected) => res matches Ok(locale) && locale@ == selected,
        },
        res matches Ok(locale) ==> supported_locale_views().contains(locale@),
        requested_locales(string_views(preferences@)) == Ok::<Seq<Seq<char>>, Seq<char>>(
            seq![],
        ) ==> (res matches Ok(locale) && locale@ == DEFAULT_LOCALE@),
{
    let requested = parse_requested(preferences)?;
    proof {
        reveal_strlit("en");
        reveal_strlit("es");
        reveal_strlit("fr");
    }
    let mut supported: Vec<ParsedLocale> = Vec::new();
    supported.push(parse_locale(SUPPORTED_LOCALES[0])?);
    supported.push(parse_locale(SUPPORTED_LOCALES[1])?);
    supported.push(parse_locale(SUPPORTED_LOCALES[2])?);
    let default_locale = parse_locale(DEFAULT_LOCALE)?;
    proof {
        assert(normalized_views(supported@) =~= supported_locale_views());
    }
    let selected = mf2_negotiate_lookup(&requested, &supported, &default_locale);
    proof {
        lemma_lookup_selects_supported_or_default(
            normalized_views(requested@),
            normalized_views(supported@),
            default_locale.normalized_spec(),
        );
        assert(supported_locale_views()[0] == "en"@);
        if normalized_views(requested@).len() == 0 {
            assert(requested@.len() == 0);
        }
    }
    Ok(selected)
}

/// Every usable preference is requested: when the preferences are
/// accepted, each non-blank one, trimmed, is a language tag whose
/// normalized form is among the requested tags, and every requested tag is
/// the normalized form of a non-blank preference.
pub proof fn lemma_usable_preferences_are_requested(preferences: Seq<Seq<char>>)
    ensures
        requested_locales(preferences) matches Ok(requested) ==> {
            &&& forall|i: int|
                0 <= i < preferences.len() && trim(#[trigger] preferences[i]).len() > 0
                    ==> (language_tag_normalized(trim(preferences[i])) matches Some(n)
                    && requested.contains(n))
            &&& forall|j: int|
                0 <= j < requested.len() ==> exists|i: int|
                    0 <= i < preferences.len() && trim(#[trigger] preferences[i]).len() > 0
                        && language_tag_normalized(trim(preferences[i])) == Some(
                        #[trigger] requested[j],
                    )
        },
    decreases preferences.len(),
{
    if preferences.len() > 0 {
        let front = preferences.drop_last();
        lemma_usable_preferences_are_requested(front);
        if let Ok(requested) = requested_locales(preferences) {
            if let Ok(before) = requested_locales(front) {
                assert forall|i: int|
                    0 <= i < preferences.len() && trim(#[trigger] preferences[i]).len()
                        > 0 implies (language_tag_normalized(trim(preferences[i])) matches Some(n)
                    && requested.contains(n)) by {
                    if i < front.len() {
                        assert(front[i] == preferences[i]);
                        let n = language_tag_normalized(trim(front[i]))->0;
                        assert(before.contains(n));
                        let k = choose|k: int| 0 <= k < before.len() && before[k] == n;
                        if requested != before {
                            let value = trim(preferences.last());
                            let normalized = language_tag_normalized(value)->0;
                            assert(requested == before.push(normalized));
                            assert(requested[k] == before[k]);
                        }
                        assert(requested.contains(n));
                    } else {
                        assert(preferences[i] == preferences.last());
                        let value = trim(preferences.last());
                        let normalized = language_tag_normalized(value)->0;
                        if before.contains(normalized) {
                            assert(requested == before);
                        } else {
                            assert(requested == before.push(normalized));
                            assert(requested[before.len() as int] == normalized);
                        }
                    }
                }
                assert forall|j: int| 0 <= j < requested.len() implies exists|i: int|
                    0 <= i < preferences.len() && trim(#[trigger] preferences[i]).len() > 0
                        && language_tag_normalized(trim(preferences[i])) == Some(
                        #[trigger] requested[j],
                    ) by {
                    if j < before.len() {
                        assert(requested[j] == before[j]);
                        let i = choose|i: int|
                            0 <= i < front.len() && trim(#[trigger] front[i]).len() > 0
                                && language_tag_normalized(trim(front[i])) == Some(
                                #[trigger] before[j],
                            );
                        assert(preferences[i] == front[i]);
                    } else {
                        let last = preferences.len() - 1;
                        assert(preferences[last] == preferences.last());
                    }
                }
            }
        }
    }
}

/// The lookup passes over requested tags that no attempt matches: when the
/// tags before position `k` match no supported tag and tag `k` is itself
/// supported, tag `k` is selected.
pub proof fn lemma_lookup_passes_unmatched_tags(
    requested: Seq<Seq<char>>,
    supported: Seq<Seq<char>>,
    default_locale: Seq<char>,
    k: int,
)
    requires
        0 <= k < requested.len(),
        forall|j: int|
            0 <= j < k ==> first_supported(lookup_attempts(#[trigger] requested[j]), supported)
                is None,
        supported.contains(requested[k]),
    ensures
        lookup_selection(requested, supported, default_locale) == requested[k],
    decreases k,
{
    if k == 0 {
        assert(lookup_attempts(requested[0])[0] == requested[0]);
    } else {
        assert(first_supported(lookup_attempts(requested[0]), supported) is None);
        let rest = requested.drop_first();
        assert forall|j: int| 0 <= j < k - 1 implies first_supported(
            lookup_attempts(#[trigger] rest[j]),
            supported,
        ) is None by {
            assert(rest[j] == requested[j + 1]);
        }
        assert(rest[k - 1] == requested[k]);
        lemma_lookup_passes_unmatched_tags(rest, supported, default_locale, k - 1);
    }
}

} // verus!
