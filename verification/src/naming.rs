//! File names for generated images: slugs of the free-text inputs, a base
//! name made of them, and file stems that end in a random suffix.

use rand::seq::SliceRandom;
use vstd::prelude::*;
use vstd::utf8::{encode_utf8, is_ascii_chars, is_ascii_chars_encode_utf8};

use crate::text::{
    chars_of, decimal, decimal_text, is_alphanumeric, is_alphanumeric_char, is_blank, join,
    joined, lower, lower_char, nonblank, string_of, text_of, trim, trimmed, view_of,
};

verus! {

/// The prefix of the file names.
pub const DEFAULT_FILE_NAME_PREFIX: &'static str = "mawaku";

/// How many characters a random suffix has, unless another length is set.
pub const DEFAULT_RANDOM_SUFFIX_LENGTH: usize = 5;

/// How many characters a token has at most.
pub const COMPONENT_MAX_LEN: usize = 10;

/// How many characters a random suffix can be drawn from.
pub const SUFFIX_ALPHABET_LEN: usize = 36;

/// The slug of a text: its ASCII letters and digits in lower case, with one
/// `-` wherever other characters stand between two of them.
pub open spec fn slug(s: Seq<char>) -> Seq<char>
    decreases s.len(),
{
    if s.len() == 0 {
        Seq::empty()
    } else if !is_alphanumeric(s.last()) {
        slug(s.drop_last())
    } else if slug(s.drop_last()).len() > 0 && !is_alphanumeric(s[s.len() - 2]) {
        slug(s.drop_last()).push('-').push(lower(s.last()))
    } else {
        slug(s.drop_last()).push(lower(s.last()))
    }
}

/// The slug of a text, or nothing where the text has no letter or digit.
pub open spec fn slugified(s: Seq<char>) -> Option<Seq<char>> {
    if slug(s).len() == 0 {
        None
    } else {
        Some(slug(s))
    }
}

/// Lower-case ASCII letters and digits.
pub open spec fn is_slug_letter(c: char) -> bool {
    ('a' <= c && c <= 'z') || ('0' <= c && c <= '9')
}

/// Texts made of lower-case letters, digits and single dashes between them.
pub open spec fn is_slug(s: Seq<char>) -> bool {
    &&& forall|i: int| 0 <= i < s.len() ==> is_slug_letter(#[trigger] s[i]) || s[i] == '-'
    &&& forall|i: int| 0 <= i < s.len() - 1 ==> !(#[trigger] s[i] == '-' && s[i + 1] == '-')
    &&& s.len() > 0 ==> s[0] != '-' && s.last() != '-'
}

/// `s` without the dashes at its end.
pub open spec fn without_trailing_dashes(s: Seq<char>) -> Seq<char>
    decreases s.len(),
{
    if s.len() > 0 && s.last() == '-' {
        without_trailing_dashes(s.drop_last())
    } else {
        s
    }
}

/// A slug cut down to `COMPONENT_MAX_LEN` characters. A text whose UTF-8 form
/// fits is left alone; otherwise the dashes at the end of the cut are
/// dropped, unless the cut holds dashes only.
pub open spec fn truncated(s: Seq<char>) -> Seq<char> {
    if encode_utf8(s).len() <= COMPONENT_MAX_LEN {
        s
    } else {
        let cut = if s.len() <= COMPONENT_MAX_LEN {
            s
        } else {
            s.take(COMPONENT_MAX_LEN as int)
        };
        if without_trailing_dashes(cut).len() == 0 {
            cut
        } else {
            without_trailing_dashes(cut)
        }
    }
}

/// The token that a component contributes to a file name.
pub open spec fn token(s: Seq<char>) -> Option<Seq<char>> {
    match slugified(s) {
        Some(t) => Some(truncated(t)),
        None => None,
    }
}

/// The slug of any text is a slug.
pub proof fn lemma_slug_is_slug(s: Seq<char>)
    ensures
        is_slug(slug(s)),
        s.len() > 0 && is_alphanumeric(s.last()) ==> slug(s).len() > 0,
    decreases s.len(),
{
    if s.len() > 0 {
        lemma_slug_is_slug(s.drop_last());
        let init = slug(s.drop_last());
        if is_alphanumeric(s.last()) {
            assert(is_slug_letter(lower(s.last())));
            if init.len() > 0 && !is_alphanumeric(s[s.len() - 2]) {
                let t = init.push('-').push(lower(s.last()));
                assert(forall|i: int| 0 <= i < init.len() ==> t[i] == init[i]);
                assert(is_slug(t));
            } else {
                let t = init.push(lower(s.last()));
                assert(forall|i: int| 0 <= i < init.len() ==> t[i] == init[i]);
                assert(is_slug(t));
            }
        }
    }
}

/// On a text that is a slug but for a dash at its end, `slug` drops that dash
/// and changes nothing else.
proof fn lemma_slug_of_slug_prefix(s: Seq<char>, k: int)
    requires
        is_slug(s),
        0 <= k <= s.len(),
    ensures
        slug(s.take(k)) == if k > 0 && s[k - 1] == '-' {
            s.take(k - 1)
        } else {
            s.take(k)
        },
    decreases k,
{
    if k > 0 {
        lemma_slug_of_slug_prefix(s, k - 1);
        let p = s.take(k);
        assert(p.drop_last() =~= s.take(k - 1));
        assert(p.last() == s[k - 1]);
        let c = s[k - 1];
        if c == '-' {
            assert(k - 1 > 0);
            assert(s[k - 2] != '-');
        } else {
            assert(is_slug_letter(c));
            assert(lower(c) == c);
            if k - 1 > 0 {
                assert(p[p.len() - 2] == s[k - 2]);
                if s[k - 2] == '-' {
                    assert(k - 2 > 0);
                    assert(s.take(k - 2).push('-').push(c) =~= s.take(k));
                } else {
                    assert(is_slug_letter(s[k - 2]));
                    assert(s.take(k - 1).push(c) =~= s.take(k));
                }
            } else {
                assert(s.take(k - 1).push(c) =~= s.take(k));
            }
        }
    }
}

/// A slug is its own slug.
pub proof fn lemma_slug_of_slug(s: Seq<char>)
    requires
        is_slug(s),
    ensures
        slug(s) == s,
{
    lemma_slug_of_slug_prefix(s, s.len() as int);
    assert(s.take(s.len() as int) =~= s);
}

/// Slugifying is idempotent: the slug of a slug is that slug again.
pub proof fn lemma_slugify_idempotent(x: Seq<char>)
    ensures
        slug(slug(x)) == slug(x),
        match slugified(x) {
            Some(y) => slugified(y) == Some(y),
            None => true,
        },
{
    lemma_slug_is_slug(x);
    lemma_slug_of_slug(slug(x));
}

/// The token of any text is a slug of at most `COMPONENT_MAX_LEN`
/// characters, and is not empty.
pub proof fn lemma_token_is_short_slug(s: Seq<char>)
    ensures
        match token(s) {
            Some(t) => 0 < t.len() <= COMPONENT_MAX_LEN && is_slug(t),
            None => true,
        },
{
    lemma_slug_is_slug(s);
    let t = slug(s);
    if t.len() > 0 {
        assert(is_ascii_chars(t));
        is_ascii_chars_encode_utf8(t);
        if t.len() > COMPONENT_MAX_LEN {
            let cut = t.take(COMPONENT_MAX_LEN as int);
            lemma_without_trailing_dashes(cut);
            let kept = without_trailing_dashes(cut);
            assert(cut[0] != '-');
            assert(kept.len() > 0);
            assert(kept[0] == t[0]);
            assert(forall|i: int| 0 <= i < kept.len() ==> kept[i] == t[i]);
            assert(is_slug(kept));
        }
    }
}

/// What `without_trailing_dashes` keeps is the longest prefix that does not
/// end in a dash.
pub proof fn lemma_without_trailing_dashes(s: Seq<char>)
    ensures
        without_trailing_dashes(s).len() <= s.len(),
        without_trailing_dashes(s) == s.take(without_trailing_dashes(s).len() as int),
        without_trailing_dashes(s).len() > 0 ==> without_trailing_dashes(s).last() != '-',
        forall|i: int|
            without_trailing_dashes(s).len() <= i < s.len() ==> #[trigger] s[i] == '-',
    decreases s.len(),
{
    if s.len() > 0 && s.last() == '-' {
        lemma_without_trailing_dashes(s.drop_last());
        let k = without_trailing_dashes(s).len() as int;
        assert(s.drop_last().take(k) =~= s.take(k));
        assert forall|i: int| k <= i < s.len() implies #[trigger] s[i] == '-' by {
            if i < s.len() - 1 {
                assert(s.drop_last()[i] == '-');
            }
        }
    } else {
        assert(s.take(s.len() as int) =~= s);
    }
}

/// The slug of `input`, or `None` where it holds no ASCII letter or digit.
pub fn slugify(input: &str) -> (r: Option<String>)
    ensures
        text_of(r) == slugified(input@),
{
    let chars = chars_of(input);
    let mut out: Vec<char> = Vec::new();
    let mut last_was_separator = false;
    let mut i: usize = 0;
    while i < chars.len()
        invariant
            i <= chars.len(),
            last_was_separator == (slug(chars@.take(i as int)).len() > 0 && !is_alphanumeric(
                chars@[i - 1],
            )),
            out@ == if last_was_separator {
                slug(chars@.take(i as int)).push('-')
            } else {
                slug(chars@.take(i as int))
            },
        decreases chars.len() - i,
    {
        let ch = chars[i];
        proof {
            let next = chars@.take(i + 1);
            assert(next.drop_last() =~= chars@.take(i as int));
            assert(next.last() == ch);
            if i > 0 {
                assert(next[next.len() - 2] == chars@[i - 1]);
            }
            lemma_slug_is_slug(next);
        }
        if is_alphanumeric_char(ch) {
            out.push(lower_char(ch));
            last_was_separator = false;
        } else if !last_was_separator && out.len() > 0 {
            out.push('-');
            last_was_separator = true;
        }
        i += 1;
    }
    proof {
        assert(chars@.take(chars.len() as int) =~= chars@);
    }
    if last_was_separator {
        out.pop();
        assert(out@ =~= slug(input@));
    }
    if out.len() == 0 {
        None
    } else {
        Some(string_of(&out))
    }
}

/// The slug cut down to `COMPONENT_MAX_LEN` characters.
pub fn truncate_component(slug: &str) -> (r: String)
    ensures
        r@ == truncated(slug@),
{
    if slug.as_bytes().len() <= COMPONENT_MAX_LEN {
        return slug.to_owned();
    }
    let chars = chars_of(slug);
    let cut: usize = if chars.len() <= COMPONENT_MAX_LEN {
        chars.len()
    } else {
        COMPONENT_MAX_LEN
    };
    let mut end: usize = cut;
    while end > 0 && chars[end - 1] == '-'
        invariant
            end <= cut <= chars.len(),
            without_trailing_dashes(chars@.take(cut as int)) == without_trailing_dashes(
                chars@.take(end as int),
            ),
        decreases end,
    {
        assert(chars@.take(end as int).drop_last() =~= chars@.take(end - 1));
        end -= 1;
    }
    proof {
        assert(chars@.take(chars.len() as int) =~= chars@);
        assert(chars@.take(end as int) =~= chars@.subrange(0, end as int));
        assert(chars@.take(cut as int) =~= chars@.subrange(0, cut as int));
    }
    if end == 0 {
        slug.substring_char(0, cut).to_owned()
    } else {
        slug.substring_char(0, end).to_owned()
    }
}

/// The token that `input` contributes to a file name: its slug, cut down.
pub fn component_token(input: &str) -> (r: Option<String>)
    ensures
        text_of(r) == token(input@),
        match r {
            Some(t) => 0 < t@.len() <= COMPONENT_MAX_LEN && is_slug(t@),
            None => true,
        },
{
    proof {
        lemma_token_is_short_slug(input@);
    }
    match slugify(input) {
        Some(slug) => Some(truncate_component(slug.as_str())),
        None => None,
    }
}

/// The alphabet of random suffixes: `A` to `Z`, then `0` to `9`.
pub open spec fn suffix_alphabet() -> Seq<u8> {
    Seq::new(
        SUFFIX_ALPHABET_LEN as nat,
        |i: int|
            if i < 26 {
                (65 + i) as u8
            } else {
                (22 + i) as u8
            },
    )
}

/// Upper-case ASCII letters and digits.
pub open spec fn is_suffix_letter(c: char) -> bool {
    ('A' <= c && c <= 'Z') || ('0' <= c && c <= '9')
}

/// What holds of every random suffix asked for with `length`: it has that
/// many characters, or the whole alphabet where more were asked for, each an
/// upper-case letter or a digit, and none twice.
pub open spec fn is_suffix(s: Seq<char>, length: usize) -> bool {
    &&& s.len() == if length <= SUFFIX_ALPHABET_LEN {
        length
    } else {
        SUFFIX_ALPHABET_LEN
    }
    &&& forall|i: int| 0 <= i < s.len() ==> is_suffix_letter(#[trigger] s[i])
    &&& s.no_duplicates()
}

/// `picked` holds the items of `pool` at `picked.len()` different places.
pub open spec fn is_selection(picked: Seq<u8>, pool: Seq<u8>) -> bool {
    exists|places: Seq<int>|
        {
            &&& places.len() == picked.len()
            &&& places.no_duplicates()
            &&& forall|i: int|
                0 <= i < places.len() ==> 0 <= #[trigger] places[i] < pool.len() && picked[i]
                    == pool[places[i]]
        }
}

/// `rand::seq::SliceRandom::choose_multiple` on a byte slice, with the
/// thread-local generator: it hands out `amount` items of the slice, or all
/// of them where the slice is shorter, taken from different places. Which
/// ones, and in what order, is left to chance.
#[verifier::external_body]
fn choose_multiple(pool: &Vec<u8>, amount: usize) -> (picked: Vec<u8>)
    ensures
        picked@.len() == if amount <= pool@.len() {
            amount as int
        } else {
            pool@.len() as int
        },
        is_selection(picked@, pool@),
{
    pool.choose_multiple(&mut rand::thread_rng(), amount).copied().collect()
}

/// The suffix alphabet as bytes.
fn suffix_alphabet_bytes() -> (pool: Vec<u8>)
    ensures
        pool@ == suffix_alphabet(),
{
    let mut pool: Vec<u8> = Vec::new();
    let mut letter: u8 = 65;
    while letter < 91
        invariant
            65 <= letter <= 91,
            pool@.len() == letter - 65,
            forall|i: int| 0 <= i < pool@.len() ==> #[trigger] pool@[i] == suffix_alphabet()[i],
        decreases 91 - letter,
    {
        pool.push(letter);
        letter += 1;
    }
    let mut figure: u8 = 48;
    while figure < 58
        invariant
            48 <= figure <= 58,
            pool@.len() == 26 + figure - 48,
            forall|i: int| 0 <= i < pool@.len() ==> #[trigger] pool@[i] == suffix_alphabet()[i],
        decreases 58 - figure,
    {
        pool.push(figure);
        figure += 1;
    }
    assert(pool@ =~= suffix_alphabet());
    pool
}

/// The text that a sequence of ASCII bytes spells.
pub open spec fn spelled(bytes: Seq<u8>) -> Seq<char> {
    bytes.map_values(|b: u8| b as char)
}

/// Every draw from the suffix alphabet spells a suffix.
pub proof fn lemma_draw_is_suffix(picked: Seq<u8>, length: usize)
    requires
        picked.len() == if length <= SUFFIX_ALPHABET_LEN {
            length
        } else {
            SUFFIX_ALPHABET_LEN
        },
        is_selection(picked, suffix_alphabet()),
    ensures
        is_suffix(spelled(picked), length),
{
    let text = spelled(picked);
    let places = choose|places: Seq<int>|
        {
            &&& places.len() == picked.len()
            &&& places.no_duplicates()
            &&& forall|i: int|
                0 <= i < places.len() ==> 0 <= #[trigger] places[i] < suffix_alphabet().len()
                    && picked[i] == suffix_alphabet()[places[i]]
        };
    assert forall|i: int| 0 <= i < text.len() implies is_suffix_letter(#[trigger] text[i]) by {
        let p = places[i];
        assert(picked[i] == suffix_alphabet()[p]);
    }
    assert forall|i: int, j: int|
        0 <= i < text.len() && 0 <= j < text.len() && i != j implies text[i] != text[j] by {
        let p = places[i];
        let q = places[j];
        assert(picked[i] == suffix_alphabet()[p]);
        assert(picked[j] == suffix_alphabet()[q]);
        assert(p != q);
    }
}

/// The text that `bytes` spell, one character for each byte.
pub fn spell(bytes: &Vec<u8>) -> (r: String)
    ensures
        r@ == spelled(bytes@),
{
    let mut r = String::new();
    let mut i: usize = 0;
    while i < bytes.len()
        invariant
            i <= bytes.len(),
            r@ == spelled(bytes@).take(i as int),
        decreases bytes.len() - i,
    {
        r.push(bytes[i] as char);
        assert(spelled(bytes@).take(i + 1) =~= spelled(bytes@).take(i as int).push(
            spelled(bytes@)[i as int],
        ));
        i += 1;
    }
    assert(spelled(bytes@).take(bytes.len() as int) =~= spelled(bytes@));
    r
}

/// A fresh random suffix of `length` characters, none of them twice; more
/// than the alphabet holds cannot be had.
pub fn unique_suffix(length: usize) -> (r: String)
    ensures
        is_suffix(r@, length),
{
    let pool = suffix_alphabet_bytes();
    let picked = choose_multiple(&pool, length);
    proof {
        lemma_draw_is_suffix(picked@, length);
    }
    spell(&picked)
}

/// The token of a component that may be missing.
pub open spec fn component(value: Option<Seq<char>>) -> Option<Seq<char>> {
    match value {
        Some(v) => token(v),
        None => None,
    }
}

/// The tokens of the components that have one, in order.
pub open spec fn tokens(components: Seq<Option<Seq<char>>>) -> Seq<Seq<char>>
    decreases components.len(),
{
    if components.len() == 0 {
        Seq::empty()
    } else {
        match component(components.last()) {
            Some(t) => tokens(components.drop_last()).push(t),
            None => tokens(components.drop_last()),
        }
    }
}

/// A file stem: the base name, `-p` and the index, then `-` and the suffix.
pub open spec fn stem(base: Seq<char>, index: nat, suffix: Seq<char>) -> Seq<char> {
    base + "-p"@ + decimal(index) + "-"@ + suffix
}

/// Collects the parts of a base name.
#[derive(Debug, Clone)]
pub struct ImageNameBuilder {
    parts: Vec<String>,
    random_suffix_length: usize,
}

/// A base name, and the length of the random suffix of its file stems.
#[derive(Debug, Clone)]
pub struct ImageNameContext {
    base: String,
    random_suffix_length: usize,
}

impl ImageNameBuilder {
    /// The parts collected so far, the prefix first.
    pub closed spec fn parts(&self) -> Seq<Seq<char>> {
        self.parts.deep_view()
    }

    /// The suffix length that the built context will have.
    pub closed spec fn suffix_length(&self) -> usize {
        self.random_suffix_length
    }

    /// A builder that holds the prefix and nothing else yet.
    pub fn new(prefix: &str) -> (builder: Self)
        ensures
            builder.parts() == seq![prefix@],
            builder.suffix_length() == DEFAULT_RANDOM_SUFFIX_LENGTH,
    {
        let mut parts: Vec<String> = Vec::new();
        parts.push(prefix.to_owned());
        assert(parts.deep_view() =~= seq![prefix@]);
        ImageNameBuilder { parts, random_suffix_length: DEFAULT_RANDOM_SUFFIX_LENGTH }
    }

    /// The same builder, for suffixes of another length.
    pub fn with_random_suffix_length(self, length: usize) -> (builder: Self)
        ensures
            builder.parts() == self.parts(),
            builder.suffix_length() == length,
    {
        ImageNameBuilder { parts: self.parts, random_suffix_length: length }
    }

    /// Adds the token of `value`, where it is given and has one.
    pub fn push_component(&mut self, value: Option<&str>)
        ensures
            final(self).suffix_length() == old(self).suffix_length(),
            final(self).parts() == match component(view_of(value)) {
                Some(t) => old(self).parts().push(t),
                None => old(self).parts(),
            },
    {
        if let Some(value) = value {
            if let Some(token) = component_token(value) {
                self.parts.push(token);
                assert(self.parts.deep_view() =~= old(self).parts.deep_view().push(token@));
            }
        }
    }

    /// The context whose base name is the parts joined by `-`.
    pub fn build(self) -> (context: ImageNameContext)
        ensures
            context.base_text() == joined(self.parts(), "-"@),
            context.suffix_length() == self.suffix_length(),
    {
        let base = join(&self.parts, "-");
        ImageNameContext { base, random_suffix_length: self.random_suffix_length }
    }
}

impl ImageNameContext {
    /// The base name: the prefix and the tokens, joined by `-`.
    pub closed spec fn base_text(&self) -> Seq<char> {
        self.base@
    }

    /// The length of the random suffix of each file stem.
    pub closed spec fn suffix_length(&self) -> usize {
        self.random_suffix_length
    }

    /// The context for `prefix` and the components that have a token.
    pub fn new(prefix: &str, components: &Vec<Option<&str>>) -> (context: Self)
        ensures
            context.base_text() == joined(
                seq![prefix@] + tokens(components@.map_values(|c: Option<&str>| view_of(c))),
                "-"@,
            ),
            context.suffix_length() == DEFAULT_RANDOM_SUFFIX_LENGTH,
    {
        let ghost views = components@.map_values(|c: Option<&str>| view_of(c));
        let mut builder = ImageNameBuilder::new(prefix);
        let mut i: usize = 0;
        assert(views.take(0) =~= Seq::<Option<Seq<char>>>::empty());
        while i < components.len()
            invariant
                i <= components.len(),
                views == components@.map_values(|c: Option<&str>| view_of(c)),
                builder.suffix_length() == DEFAULT_RANDOM_SUFFIX_LENGTH,
                builder.parts() == seq![prefix@] + tokens(views.take(i as int)),
            decreases components.len() - i,
        {
            builder.push_component(components[i]);
            proof {
                assert(views.take(i + 1).drop_last() =~= views.take(i as int));
                assert(views.take(i + 1).last() == view_of(components@[i as int]));
                assert(builder.parts() =~= seq![prefix@] + tokens(views.take(i + 1)));
            }
            i += 1;
        }
        assert(views.take(components.len() as int) =~= views);
        builder.build()
    }

    /// The base name.
    pub fn base(&self) -> (r: &str)
        ensures
            r@ == self.base_text(),
    {
        self.base.as_str()
    }

    /// The length of the random suffix of each file stem.
    pub fn random_suffix_length(&self) -> (r: usize)
        ensures
            r == self.suffix_length(),
    {
        self.random_suffix_length
    }

    /// The file stem for `index` that ends in the given suffix.
    pub fn file_stem_with_suffix(&self, index: usize, suffix: &str) -> (r: String)
        ensures
            r@ == stem(self.base_text(), index as nat, suffix@),
    {
        let mut r = self.base.clone();
        r.append("-p");
        r.append(decimal_text(index as u128).as_str());
        r.append("-");
        r.append(suffix);
        r
    }

    /// The file stem for `index`, with a fresh random suffix: each call draws
    /// its own.
    pub fn file_stem(&self, index: usize) -> (r: String)
        ensures
            exists|suffix: Seq<char>|
                is_suffix(suffix, self.suffix_length()) && r@ == stem(
                    self.base_text(),
                    index as nat,
                    suffix,
                ),
    {
        let suffix = unique_suffix(self.random_suffix_length);
        let r = self.file_stem_with_suffix(index, suffix.as_str());
        assert(is_suffix(suffix@, self.suffix_length()) && r@ == stem(
            self.base_text(),
            index as nat,
            suffix@,
        ));
        r
    }
}

/// The trimmed items that are not blank, in order.
pub open spec fn nonblank_items(items: Seq<Seq<char>>) -> Seq<Seq<char>>
    decreases items.len(),
{
    if items.len() == 0 {
        Seq::empty()
    } else if is_blank(items.last()) {
        nonblank_items(items.drop_last())
    } else {
        nonblank_items(items.drop_last()).push(trimmed(items.last()))
    }
}

/// The items that are not blank, trimmed and separated by a comma and a
/// space; `Unspecified` where none is left.
pub open spec fn listed(items: Seq<Seq<char>>) -> Seq<char> {
    if nonblank_items(items).len() == 0 {
        "Unspecified"@
    } else {
        joined(nonblank_items(items), ", "@)
    }
}

/// The label, a colon and a space, then the trimmed value, or `Unspecified`
/// where the value is missing or blank.
pub open spec fn context_line(label: Seq<char>, value: Option<Seq<char>>) -> Seq<char> {
    label + ": "@ + match nonblank(value) {
        Some(text) => text,
        None => "Unspecified"@,
    }
}

/// The trimmed text, or `None` where the text is missing or blank.
pub fn trimmed_or_none<'a>(input: Option<&'a str>) -> (r: Option<&'a str>)
    ensures
        view_of(r) == nonblank(view_of(input)),
{
    match input {
        Some(value) => {
            let t = trim(value);
            if t.unicode_len() == 0 {
                None
            } else {
                Some(t)
            }
        },
        None => None,
    }
}

/// The items that are not blank, trimmed and separated by a comma and a
/// space; `Unspecified` where none is left.
pub fn list_or_unspecified(items: &Vec<String>) -> (r: String)
    ensures
        r@ == listed(items.deep_view()),
{
    let mut filtered: Vec<String> = Vec::new();
    let mut i: usize = 0;
    assert(items.deep_view().take(0) =~= Seq::<Seq<char>>::empty());
    while i < items.len()
        invariant
            i <= items.len(),
            filtered.deep_view() == nonblank_items(items.deep_view().take(i as int)),
        decreases items.len() - i,
    {
        let t = trim(items[i].as_str());
        proof {
            let next = items.deep_view().take(i + 1);
            assert(next.drop_last() =~= items.deep_view().take(i as int));
            assert(next.last() == items@[i as int]@);
        }
        if t.unicode_len() != 0 {
            let ghost before = filtered.deep_view();
            filtered.push(t.to_owned());
            assert(filtered.deep_view() =~= before.push(t@));
        }
        i += 1;
    }
    assert(items.deep_view().take(items.len() as int) =~= items.deep_view());
    if filtered.len() == 0 {
        "Unspecified".to_owned()
    } else {
        join(&filtered, ", ")
    }
}

/// The label, then the trimmed value or `Unspecified`.
pub fn format_context_line(label: &str, value: Option<&str>) -> (r: String)
    ensures
        r@ == context_line(label@, view_of(value)),
{
    let mut r = label.to_owned();
    r.append(": ");
    match trimmed_or_none(value) {
        Some(text) => r.append(text),
        None => r.append("Unspecified"),
    }
    r
}

} // verus!
