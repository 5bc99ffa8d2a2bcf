//! Casing conventions for identifiers: deciding whether a name follows a
//! convention, and deriving the name that does.
//!
//! Letters are the ASCII letters. Every other character, a digit included, has
//! no case: it is kept as it is and never starts a word.

use vstd::prelude::*;

verus! {

/// The casing convention that an identifier is expected to follow.
#[derive(Clone, Copy, Debug, PartialEq, Eq, Structural)]
pub enum CaseType {
    /// `some_function`, `some_field`
    LowerSnakeCase,
    /// `SomeStruct`
    UpperCamelCase,
}

impl CaseType {
    /// How the convention is called in a message.
    pub open spec fn spec_label(self) -> Seq<char> {
        match self {
            CaseType::LowerSnakeCase => "snake_case"@,
            CaseType::UpperCamelCase => "CamelCase"@,
        }
    }

    /// How the convention is called in a message: `snake_case` or `CamelCase`.
    pub fn label(self) -> (r: &'static str)
        ensures
            r@ == self.spec_label(),
    {
        match self {
            CaseType::LowerSnakeCase => "snake_case",
            CaseType::UpperCamelCase => "CamelCase",
        }
    }
}

/// Whether `c` is one of the letters `A` to `Z`.
pub open spec fn is_upper(c: char) -> bool {
    'A' <= c && c <= 'Z'
}

/// Whether `c` is one of the letters `a` to `z`.
pub open spec fn is_lower(c: char) -> bool {
    'a' <= c && c <= 'z'
}

/// Whether `c` is one of the digits `0` to `9`.
pub open spec fn is_digit(c: char) -> bool {
    '0' <= c && c <= '9'
}

/// The lowercase form of an uppercase letter; any other character unchanged.
pub open spec fn to_lower(c: char) -> char {
    if is_upper(c) {
        ((c as u8) + 32) as char
    } else {
        c
    }
}

/// The uppercase form of a lowercase letter; any other character unchanged.
pub open spec fn to_upper(c: char) -> char {
    if is_lower(c) {
        ((c as u8) - 32) as char
    } else {
        c
    }
}

/// The first position at or after `i` that holds no underscore, or the length
/// of `s` if there is none.
pub open spec fn skip_underscores(s: Seq<char>, i: int) -> int
    decreases s.len() - i,
{
    if 0 <= i < s.len() && s[i] == '_' {
        skip_underscores(s, i + 1)
    } else {
        i
    }
}

/// The end of the last stretch before `j` that does not end in an underscore,
/// or 0 if there is none.
pub open spec fn skip_underscores_back(s: Seq<char>, j: int) -> int
    decreases j,
{
    if 0 < j <= s.len() && s[j - 1] == '_' {
        skip_underscores_back(s, j - 1)
    } else {
        j
    }
}

/// Where the stem of a name begins: behind its leading underscores.
pub open spec fn stem_start(s: Seq<char>) -> int {
    skip_underscores(s, 0)
}

/// Where the stem of a name ends: before its trailing underscores.
pub open spec fn stem_end(s: Seq<char>) -> int {
    skip_underscores_back(s, s.len() as int)
}

/// Whether a name holds anything but underscores.
pub open spec fn has_stem(s: Seq<char>) -> bool {
    stem_start(s) < stem_end(s)
}

/// A name without its leading and trailing underscores.
pub open spec fn stem(s: Seq<char>) -> Seq<char> {
    s.subrange(stem_start(s), stem_end(s))
}

/// Whether a new word starts at position `i` of `s` because of the letters'
/// case alone: an uppercase letter that follows a lowercase letter or a digit,
/// or that ends a run of uppercase letters and is followed by a lowercase
/// letter.
pub open spec fn case_boundary(s: Seq<char>, i: int) -> bool {
    &&& 0 < i < s.len()
    &&& is_upper(s[i])
    &&& {
        ||| is_lower(s[i - 1])
        ||| is_digit(s[i - 1])
        ||| (is_upper(s[i - 1]) && i + 1 < s.len() && is_lower(s[i + 1]))
    }
}

/// Whether a word starts at position `i` of `s`: at the very beginning,
/// behind an underscore, or at a case boundary. An underscore itself belongs
/// to no word.
pub open spec fn starts_word(s: Seq<char>, i: int) -> bool {
    &&& 0 <= i < s.len()
    &&& s[i] != '_'
    &&& (i == 0 || s[i - 1] == '_' || case_boundary(s, i))
}

/// The words of the first `n` characters of a stem. The characters are
/// taken from left to right: an underscore ends the word before it and
/// belongs to none, a character at which a word starts opens a new word, and
/// every other character joins the word before it.
pub open spec fn words_upto(s: Seq<char>, n: int) -> Seq<Seq<char>>
    decreases n,
{
    if n <= 0 {
        Seq::empty()
    } else {
        let before = words_upto(s, n - 1);
        if s[n - 1] == '_' {
            before
        } else if starts_word(s, n - 1) {
            before.push(seq![s[n - 1]])
        } else {
            before.drop_last().push(before.last().push(s[n - 1]))
        }
    }
}

/// The words of a stem, in their order.
pub open spec fn words(s: Seq<char>) -> Seq<Seq<char>> {
    words_upto(s, s.len() as int)
}

/// A word with its letters in lowercase.
pub open spec fn lowercased(word: Seq<char>) -> Seq<char> {
    Seq::new(word.len(), |i: int| to_lower(word[i]))
}

/// A word with its first letter in uppercase and the others in lowercase.
pub open spec fn capitalized(word: Seq<char>) -> Seq<char> {
    Seq::new(
        word.len(),
        |i: int|
            if i == 0 {
                to_upper(word[i])
            } else {
                to_lower(word[i])
            },
    )
}

/// The words in lowercase, with one underscore between each two.
pub open spec fn snake_joined(words: Seq<Seq<char>>) -> Seq<char>
    decreases words.len(),
{
    if words.len() == 0 {
        Seq::empty()
    } else if words.len() == 1 {
        lowercased(words[0])
    } else {
        snake_joined(words.drop_last()) + seq!['_'] + lowercased(words.last())
    }
}

/// The words capitalized, with nothing between them.
pub open spec fn camel_joined(words: Seq<Seq<char>>) -> Seq<char>
    decreases words.len(),
{
    if words.len() == 0 {
        Seq::empty()
    } else {
        camel_joined(words.drop_last()) + capitalized(words.last())
    }
}

/// The words put together as `case` asks.
pub open spec fn joined(words: Seq<Seq<char>>, case: CaseType) -> Seq<char> {
    match case {
        CaseType::LowerSnakeCase => snake_joined(words),
        CaseType::UpperCamelCase => camel_joined(words),
    }
}

/// The name that follows `case` and is made of the words of `s`: the leading
/// and trailing underscores of `s` around the words of its stem, joined as
/// `case` asks.
pub open spec fn suggestion(s: Seq<char>, case: CaseType) -> Seq<char> {
    if has_stem(s) {
        s.take(stem_start(s)) + joined(words(stem(s)), case) + s.skip(stem_end(s))
    } else {
        s
    }
}

/// Whether a stem is in lower snake case: no uppercase letter, and no two
/// underscores in a row.
pub open spec fn is_snake_stem(s: Seq<char>) -> bool {
    &&& forall|i: int| 0 <= i < s.len() ==> !is_upper(#[trigger] s[i])
    &&& forall|i: int| 0 <= i && i + 1 < s.len() ==> !(#[trigger] s[i] == '_' && s[i + 1] == '_')
}

/// Whether a stem is in upper camel case: no underscore, and no lowercase
/// letter in front.
pub open spec fn is_camel_stem(s: Seq<char>) -> bool {
    &&& s.len() > 0 ==> !is_lower(s[0])
    &&& forall|i: int| 0 <= i < s.len() ==> #[trigger] s[i] != '_'
}

/// Whether the name `s` follows `case`. Leading and trailing underscores are
/// not looked at, and a name of underscores alone follows every convention.
pub open spec fn conforms(s: Seq<char>, case: CaseType) -> bool {
    !has_stem(s) || match case {
        CaseType::LowerSnakeCase => is_snake_stem(stem(s)),
        CaseType::UpperCamelCase => is_camel_stem(stem(s)),
    }
}

/// What the classifier answers for the name `s`: nothing where `s` follows
/// `case`, else the suggested name.
pub open spec fn classify(s: Seq<char>, case: CaseType) -> Option<Seq<char>> {
    if conforms(s, case) {
        None
    } else {
        Some(suggestion(s, case))
    }
}

/// The bounds of the stem: only underscores lie outside them, and a stem that
/// is not empty neither begins nor ends with an underscore.
pub proof fn lemma_stem_bounds(s: Seq<char>)
    ensures
        0 <= stem_start(s) <= s.len(),
        0 <= stem_end(s) <= s.len(),
        forall|i: int| 0 <= i < stem_start(s) ==> s[i] == '_',
        forall|i: int| stem_end(s) <= i < s.len() ==> s[i] == '_',
        stem_start(s) < s.len() ==> s[stem_start(s)] != '_',
        0 < stem_end(s) ==> s[stem_end(s) - 1] != '_',
        has_stem(s) <==> stem_start(s) < s.len(),
        has_stem(s) <==> 0 < stem_end(s),
{
    lemma_skip_underscores(s, 0);
    lemma_skip_underscores_back(s, s.len() as int);
}

proof fn lemma_skip_underscores(s: Seq<char>, i: int)
    requires
        0 <= i <= s.len(),
    ensures
        i <= skip_underscores(s, i) <= s.len(),
        forall|k: int| i <= k < skip_underscores(s, i) ==> s[k] == '_',
        skip_underscores(s, i) < s.len() ==> s[skip_underscores(s, i)] != '_',
    decreases s.len() - i,
{
    if i < s.len() && s[i] == '_' {
        lemma_skip_underscores(s, i + 1);
    }
}

proof fn lemma_skip_underscores_back(s: Seq<char>, j: int)
    requires
        0 <= j <= s.len(),
    ensures
        0 <= skip_underscores_back(s, j) <= j,
        forall|k: int| skip_underscores_back(s, j) <= k < j ==> s[k] == '_',
        0 < skip_underscores_back(s, j) ==> s[skip_underscores_back(s, j) - 1] != '_',
    decreases j,
{
    if 0 < j && s[j - 1] == '_' {
        lemma_skip_underscores_back(s, j - 1);
    }
}

/// The stem lies between `a` and `b` if only underscores lie outside them and
/// neither `s[a]` nor `s[b - 1]` is one.
pub proof fn lemma_stem_is(s: Seq<char>, a: int, b: int)
    requires
        0 <= a < b <= s.len(),
        forall|i: int| 0 <= i < a ==> s[i] == '_',
        forall|i: int| b <= i < s.len() ==> s[i] == '_',
        s[a] != '_',
        s[b - 1] != '_',
    ensures
        stem_start(s) == a,
        stem_end(s) == b,
        has_stem(s),
        stem(s) == s.subrange(a, b),
{
    lemma_stem_bounds(s);
}

/// What position `i` of a stem adds to the joined words: nothing for an
/// underscore; in lower snake case the lowercase character, behind an
/// underscore where a word but the first starts; in upper camel case the
/// character in uppercase where a word starts and in lowercase elsewhere.
spec fn piece(s: Seq<char>, i: int, case: CaseType) -> Seq<char> {
    if s[i] == '_' {
        Seq::empty()
    } else {
        match case {
            CaseType::LowerSnakeCase => if starts_word(s, i) && i > 0 {
                seq!['_', to_lower(s[i])]
            } else {
                seq![to_lower(s[i])]
            },
            CaseType::UpperCamelCase => if starts_word(s, i) {
                seq![to_upper(s[i])]
            } else {
                seq![to_lower(s[i])]
            },
        }
    }
}

/// What the first `n` positions of a stem add to the joined words.
spec fn reassemble(s: Seq<char>, case: CaseType, n: int) -> Seq<char>
    decreases n,
{
    if n <= 0 {
        Seq::empty()
    } else {
        reassemble(s, case, n - 1) + piece(s, n - 1, case)
    }
}

/// A stem of one character or more has a word, and none of its words is
/// empty.
proof fn lemma_words_not_empty(s: Seq<char>, n: int)
    requires
        0 < n <= s.len(),
        s[0] != '_',
    ensures
        words_upto(s, n).len() > 0,
        forall|j: int|
            0 <= j < words_upto(s, n).len() ==> (#[trigger] words_upto(s, n)[j]).len() > 0,
    decreases n,
{
    let before = words_upto(s, n - 1);
    let now = words_upto(s, n);
    if n > 1 {
        lemma_words_not_empty(s, n - 1);
    }
    assert forall|j: int| 0 <= j < now.len() implies (#[trigger] now[j]).len() > 0 by {
        if j < before.len() - 1 {
            assert(now[j] == before[j]);
        } else if j < before.len() && (s[n - 1] == '_' || starts_word(s, n - 1)) {
            assert(now[j] == before[j]);
        }
    }
}

/// Joining the words of a stem gives what its positions add one by one.
proof fn lemma_joined_by_position(s: Seq<char>, case: CaseType, n: int)
    requires
        0 <= n <= s.len(),
        n > 0 ==> s[0] != '_',
    ensures
        joined(words_upto(s, n), case) == reassemble(s, case, n),
    decreases n,
{
    if n > 0 {
        let c = s[n - 1];
        let before = words_upto(s, n - 1);
        let now = words_upto(s, n);
        lemma_joined_by_position(s, case, n - 1);
        if n > 1 {
            lemma_words_not_empty(s, n - 1);
        }
        if c == '_' {
            assert(reassemble(s, case, n) =~= reassemble(s, case, n - 1));
        } else if starts_word(s, n - 1) {
            assert(now.drop_last() =~= before);
            assert(lowercased(seq![c]) =~= seq![to_lower(c)]);
            assert(capitalized(seq![c]) =~= seq![to_upper(c)]);
            assert(joined(now, case) =~= reassemble(s, case, n));
        } else {
            let word = before.last();
            assert(now.drop_last() =~= before.drop_last());
            assert(lowercased(word.push(c)) =~= lowercased(word).push(to_lower(c)));
            assert(capitalized(word.push(c)) =~= capitalized(word).push(to_lower(c)));
            assert(joined(now, case) =~= joined(before, case).push(to_lower(c)));
            assert(joined(now, case) =~= reassemble(s, case, n));
        }
    }
}

/// The suggestion, position by position.
proof fn lemma_suggestion_by_position(s: Seq<char>, case: CaseType)
    requires
        has_stem(s),
    ensures
        suggestion(s, case) == s.take(stem_start(s)) + reassemble(
            stem(s),
            case,
            stem(s).len() as int,
        ) + s.skip(stem_end(s)),
{
    lemma_stem_bounds(s);
    lemma_joined_by_position(stem(s), case, stem(s).len() as int);
}

proof fn lemma_case_maps(c: char)
    ensures
        !is_upper(to_lower(c)),
        !is_lower(to_upper(c)),
        c != '_' ==> to_lower(c) != '_' && to_upper(c) != '_',
        to_lower(to_lower(c)) == to_lower(c),
        to_lower(to_upper(c)) == to_lower(c),
{
}

proof fn lemma_reassemble_snake(s: Seq<char>, n: int)
    requires
        0 < n <= s.len(),
        s[0] != '_',
    ensures
        reassemble(s, CaseType::LowerSnakeCase, n).len() > 0,
        reassemble(s, CaseType::LowerSnakeCase, n)[0] != '_',
        reassemble(s, CaseType::LowerSnakeCase, n).last() != '_',
        is_snake_stem(reassemble(s, CaseType::LowerSnakeCase, n)),
    decreases n,
{
    let case = CaseType::LowerSnakeCase;
    let before = reassemble(s, case, n - 1);
    let added = piece(s, n - 1, case);
    let r = reassemble(s, case, n);
    assert(r == before + added);
    lemma_case_maps(s[n - 1]);
    if n == 1 {
        assert(before =~= Seq::empty());
        assert(r =~= added);
    } else {
        lemma_reassemble_snake(s, n - 1);
        assert forall|i: int| 0 <= i && i + 1 < r.len() implies !(#[trigger] r[i] == '_' && r[i
            + 1] == '_') by {
            if i + 1 < before.len() {
                assert(r[i] == before[i] && r[i + 1] == before[i + 1]);
            } else if i + 1 == before.len() {
                assert(r[i] == before.last());
            } else {
                assert(r[i + 1] == added[i + 1 - before.len()]);
            }
        }
        assert forall|i: int| 0 <= i < r.len() implies !is_upper(#[trigger] r[i]) by {
            if i < before.len() {
                assert(r[i] == before[i]);
            } else {
                assert(r[i] == added[i - before.len()]);
            }
        }
    }
}

proof fn lemma_reassemble_camel(s: Seq<char>, n: int)
    requires
        0 < n <= s.len(),
        s[0] != '_',
    ensures
        reassemble(s, CaseType::UpperCamelCase, n).len() > 0,
        is_camel_stem(reassemble(s, CaseType::UpperCamelCase, n)),
    decreases n,
{
    let case = CaseType::UpperCamelCase;
    let before = reassemble(s, case, n - 1);
    let added = piece(s, n - 1, case);
    let r = reassemble(s, case, n);
    assert(r == before + added);
    lemma_case_maps(s[n - 1]);
    if n == 1 {
        assert(before =~= Seq::empty());
        assert(r =~= added);
    } else {
        lemma_reassemble_camel(s, n - 1);
        assert(r[0] == before[0]);
        assert forall|i: int| 0 <= i < r.len() implies #[trigger] r[i] != '_' by {
            if i < before.len() {
                assert(r[i] == before[i]);
            } else {
                assert(r[i] == added[i - before.len()]);
            }
        }
    }
}

/// Every suggested name follows the convention it was made for.
pub proof fn lemma_suggestion_conforms(s: Seq<char>, case: CaseType)
    ensures
        conforms(suggestion(s, case), case),
{
    lemma_stem_bounds(s);
    if has_stem(s) {
        let st = stem(s);
        let r = reassemble(st, case, st.len() as int);
        lemma_suggestion_by_position(s, case);
        match case {
            CaseType::LowerSnakeCase => lemma_reassemble_snake(st, st.len() as int),
            CaseType::UpperCamelCase => lemma_reassemble_camel(st, st.len() as int),
        }
        lemma_stem_is(suggestion(s, case), stem_start(s), stem_start(s) + r.len());
    }
}

proof fn lemma_snake_stem_is_kept(s: Seq<char>, n: int)
    requires
        0 < n <= s.len(),
        s[0] != '_',
        is_snake_stem(s),
    ensures
        reassemble(s, CaseType::LowerSnakeCase, n) == if s[n - 1] == '_' {
            s.take(n - 1)
        } else {
            s.take(n)
        },
    decreases n,
{
    let case = CaseType::LowerSnakeCase;
    let before = reassemble(s, case, n - 1);
    let added = piece(s, n - 1, case);
    assert(!is_upper(s[n - 1]));
    if n == 1 {
        assert(before + added =~= s.take(1));
    } else {
        lemma_snake_stem_is_kept(s, n - 1);
        assert(!is_upper(s[n - 2]));
        assert(!(s[n - 2] == '_' && s[n - 2 + 1] == '_'));
        if s[n - 1] == '_' {
            assert(before + added =~= s.take(n - 1));
        } else {
            assert(before + added =~= s.take(n));
        }
    }
}


/// A name is in lower snake case exactly if putting its words together
/// again in lower snake case gives the name itself.
pub proof fn lemma_snake_case_is_fixed(s: Seq<char>)
    ensures
        conforms(s, CaseType::LowerSnakeCase) <==> suggestion(s, CaseType::LowerSnakeCase) == s,
{
    let case = CaseType::LowerSnakeCase;
    lemma_stem_bounds(s);
    lemma_suggestion_conforms(s, case);
    if has_stem(s) && conforms(s, case) {
        let st = stem(s);
        lemma_suggestion_by_position(s, case);
        lemma_snake_stem_is_kept(st, st.len() as int);
        assert(st.take(st.len() as int) =~= st);
        assert(s =~= s.take(stem_start(s)) + st + s.skip(stem_end(s)));
    }
}

/// What every spelling of a name has in common: its characters without the
/// underscores, the letters in lowercase.
pub open spec fn folded(s: Seq<char>) -> Seq<char>
    decreases s.len(),
{
    if s.len() == 0 {
        Seq::empty()
    } else if s.last() == '_' {
        folded(s.drop_last())
    } else {
        folded(s.drop_last()).push(to_lower(s.last()))
    }
}

proof fn lemma_folded_one(c: char)
    ensures
        folded(seq![c]) == if c == '_' {
            Seq::<char>::empty()
        } else {
            seq![to_lower(c)]
        },
{
    assert(seq![c].drop_last() =~= Seq::<char>::empty());
    assert(folded(Seq::<char>::empty()) =~= Seq::<char>::empty());
}

proof fn lemma_folded_concat(a: Seq<char>, b: Seq<char>)
    ensures
        folded(a + b) == folded(a) + folded(b),
    decreases b.len(),
{
    if b.len() > 0 {
        assert((a + b).drop_last() =~= a + b.drop_last());
        lemma_folded_concat(a, b.drop_last());
    }
}

proof fn lemma_folded_reassemble(s: Seq<char>, case: CaseType, n: int)
    requires
        0 <= n <= s.len(),
    ensures
        folded(reassemble(s, case, n)) == folded(s.take(n)),
    decreases n,
{
    if n > 0 {
        let c = s[n - 1];
        let added = piece(s, n - 1, case);
        lemma_folded_reassemble(s, case, n - 1);
        lemma_folded_concat(reassemble(s, case, n - 1), added);
        assert(s.take(n).drop_last() =~= s.take(n - 1));
        assert(folded(added) =~= if c == '_' {
            Seq::empty()
        } else {
            seq![to_lower(c)]
        }) by {
            lemma_case_maps(c);
            if added.len() == 1 {
                lemma_folded_one(added[0]);
            } else if added.len() == 2 {
                lemma_folded_one('_');
                lemma_folded_one(added[1]);
                lemma_folded_concat(seq!['_'], seq![added[1]]);
                assert(added =~= seq!['_'] + seq![added[1]]);
            }
        }
    }
}

/// A suggestion changes nothing but the case of letters and the underscores
/// between them: it drops no character of the name and adds none.
pub proof fn lemma_suggestion_keeps_letters(s: Seq<char>, case: CaseType)
    ensures
        folded(suggestion(s, case)) == folded(s),
{
    lemma_stem_bounds(s);
    if has_stem(s) {
        let before = s.take(stem_start(s));
        let after = s.skip(stem_end(s));
        let st = stem(s);
        let r = reassemble(st, case, st.len() as int);
        lemma_suggestion_by_position(s, case);
        lemma_folded_reassemble(st, case, st.len() as int);
        assert(st.take(st.len() as int) =~= st);
        lemma_folded_concat(before, r);
        lemma_folded_concat(before + r, after);
        lemma_folded_concat(before, st);
        lemma_folded_concat(before + st, after);
        assert(s =~= before + st + after);
    }
}

/// A name that does not follow a convention differs from the name suggested
/// for it.
pub proof fn lemma_suggestion_differs(s: Seq<char>, case: CaseType)
    requires
        !conforms(s, case),
    ensures
        suggestion(s, case) != s,
{
    lemma_suggestion_conforms(s, case);
}

/// Classifying is idempotent: the name that comes out of one round, the
/// suggestion or else the name itself, is never flagged by a second round.
pub proof fn lemma_classify_idempotent(s: Seq<char>, case: CaseType)
    ensures
        classify(
            match classify(s, case) {
                Some(t) => t,
                None => s,
            },
            case,
        ) is None,
{
    lemma_suggestion_conforms(s, case);
}

fn char_is_upper(c: char) -> (r: bool)
    ensures
        r == is_upper(c),
{
    'A' <= c && c <= 'Z'
}

fn char_is_lower(c: char) -> (r: bool)
    ensures
        r == is_lower(c),
{
    'a' <= c && c <= 'z'
}

fn char_is_digit(c: char) -> (r: bool)
    ensures
        r == is_digit(c),
{
    '0' <= c && c <= '9'
}

fn char_to_lower(c: char) -> (r: char)
    ensures
        r == to_lower(c),
{
    if char_is_upper(c) {
        let b: u8 = c as u8;
        (b + 32) as char
    } else {
        c
    }
}

fn char_to_upper(c: char) -> (r: char)
    ensures
        r == to_upper(c),
{
    if char_is_lower(c) {
        let b: u8 = c as u8;
        (b - 32) as char
    } else {
        c
    }
}

/// `String::push`: the string grows by the one character `c` at its end.
#[verifier::external_body]
fn push_char(s: &mut String, c: char)
    ensures
        final(s)@ == old(s)@.push(c),
{
    s.push(c)
}

/// The characters of `name`, in order.
fn chars_of(name: &str) -> (chars: Vec<char>)
    ensures
        chars@ == name@,
{
    let mut chars: Vec<char> = Vec::new();
    for c in it: name.chars()
        invariant
            it.seq() == name@,
            chars@ == it.seq().take(it.index()),
    {
        chars.push(c);
    }
    chars
}

/// Whether the stem `chars[start..end]` is in lower snake case.
fn snake_stem_check(chars: &Vec<char>, start: usize, end: usize) -> (r: bool)
    requires
        start <= end <= chars.len(),
    ensures
        r == is_snake_stem(chars@.subrange(start as int, end as int)),
{
    let ghost st = chars@.subrange(start as int, end as int);
    let mut i: usize = start;
    while i < end
        invariant
            start <= i <= end <= chars.len(),
            st == chars@.subrange(start as int, end as int),
            forall|k: int| 0 <= k < i - start ==> !is_upper(#[trigger] st[k]),
            forall|k: int|
                0 <= k && k + 1 < i - start ==> !(#[trigger] st[k] == '_' && st[k + 1] == '_'),
        decreases end - i,
    {
        let c = chars[i];
        assert(st[i - start] == c);
        if char_is_upper(c) {
            return false;
        }
        if i > start && c == '_' && chars[i - 1] == '_' {
            assert(st[i - start - 1] == '_' && st[i - start - 1 + 1] == '_');
            return false;
        }
        i += 1;
    }
    true
}

/// Whether the stem `chars[start..end]` is in upper camel case.
fn camel_stem_check(chars: &Vec<char>, start: usize, end: usize) -> (r: bool)
    requires
        start <= end <= chars.len(),
    ensures
        r == is_camel_stem(chars@.subrange(start as int, end as int)),
{
    if start < end && char_is_lower(chars[start]) {
        return false;
    }
    let ghost st = chars@.subrange(start as int, end as int);
    let mut i: usize = start;
    while i < end
        invariant
            start <= i <= end <= chars.len(),
            st == chars@.subrange(start as int, end as int),
            forall|k: int| 0 <= k < i - start ==> #[trigger] st[k] != '_',
        decreases end - i,
    {
        if chars[i] == '_' {
            assert(st[i - start] == '_');
            return false;
        }
        i += 1;
    }
    true
}

/// Whether a word starts at `chars[i]`, within the stem `chars[start..end]`.
fn word_starts_at(chars: &Vec<char>, start: usize, end: usize, i: usize) -> (r: bool)
    requires
        start <= i < end <= chars.len(),
    ensures
        r == starts_word(chars@.subrange(start as int, end as int), i - start),
{
    let c = chars[i];
    if c == '_' {
        return false;
    }
    if i == start {
        return true;
    }
    let before = chars[i - 1];
    if before == '_' {
        return true;
    }
    if !char_is_upper(c) {
        return false;
    }
    if char_is_lower(before) || char_is_digit(before) {
        return true;
    }
    if char_is_upper(before) && i + 1 < end {
        char_is_lower(chars[i + 1])
    } else {
        false
    }
}

/// The name made of `chars[..start]`, the reassembled stem `chars[start..end]`
/// and `chars[end..]`.
fn reassembled(chars: &Vec<char>, start: usize, end: usize, case: CaseType) -> (out: String)
    requires
        start <= end <= chars.len(),
    ensures
        out@ == chars@.take(start as int) + reassemble(
            chars@.subrange(start as int, end as int),
            case,
            end - start,
        ) + chars@.skip(end as int),
{
    let ghost st = chars@.subrange(start as int, end as int);
    let mut out = String::new();
    let mut i: usize = 0;
    while i < start
        invariant
            i <= start <= chars.len(),
            out@ == chars@.take(i as int),
        decreases start - i,
    {
        push_char(&mut out, chars[i]);
        i += 1;
    }
    while i < end
        invariant
            start <= i <= end <= chars.len(),
            st == chars@.subrange(start as int, end as int),
            out@ == chars@.take(start as int) + reassemble(st, case, i - start),
        decreases end - i,
    {
        let c = chars[i];
        if c != '_' {
            let first = word_starts_at(chars, start, end, i);
            match case {
                CaseType::LowerSnakeCase => {
                    if first && i > start {
                        push_char(&mut out, '_');
                    }
                    push_char(&mut out, char_to_lower(c));
                },
                CaseType::UpperCamelCase => {
                    if first {
                        push_char(&mut out, char_to_upper(c));
                    } else {
                        push_char(&mut out, char_to_lower(c));
                    }
                },
            }
        }
        i += 1;
    }
    let ghost middle = out@;
    while i < chars.len()
        invariant
            end <= i <= chars.len(),
            out@ == middle + chars@.subrange(end as int, i as int),
        decreases chars.len() - i,
    {
        push_char(&mut out, chars[i]);
        i += 1;
    }
    out
}

/// Classifies `name` against `convention`: nothing if the name follows it,
/// else the name to suggest in its place.
///
/// The name is cut into words: an underscore always ends a word and is
/// dropped, an uppercase letter behind a lowercase letter or a digit starts a
/// word, and so does the last letter of a run of uppercase letters that a
/// lowercase letter follows. The words are put together again as the
/// convention asks, between the leading and trailing underscores of `name`.
pub fn classify_and_suggest(name: &str, convention: CaseType) -> (r: Option<String>)
    ensures
        r.deep_view() == classify(name@, convention),
{
    let chars = chars_of(name);
    let n = chars.len();
    proof {
        lemma_stem_bounds(name@);
    }
    let mut start: usize = 0;
    while start < n && chars[start] == '_'
        invariant
            start <= n == chars.len(),
            forall|k: int| 0 <= k < start ==> chars@[k] == '_',
        decreases n - start,
    {
        start += 1;
    }
    if start == n {
        return None;
    }
    let mut end: usize = n;
    while chars[end - 1] == '_'
        invariant
            start < end <= n == chars.len(),
            chars@[start as int] != '_',
            forall|k: int| end <= k < n ==> chars@[k] == '_',
        decreases end,
    {
        end -= 1;
    }
    proof {
        lemma_stem_is(name@, start as int, end as int);
    }
    let follows = match convention {
        CaseType::LowerSnakeCase => snake_stem_check(&chars, start, end),
        CaseType::UpperCamelCase => camel_stem_check(&chars, start, end),
    };
    if follows {
        return None;
    }
    proof {
        lemma_suggestion_by_position(name@, convention);
    }
    Some(reassembled(&chars, start, end, convention))
}

/// The lower snake case name to suggest for `ident`, if it is not in lower
/// snake case already.
pub fn to_lower_snake_case(ident: &str) -> (r: Option<String>)
    ensures
        r.deep_view() == classify(ident@, CaseType::LowerSnakeCase),
{
    classify_and_suggest(ident, CaseType::LowerSnakeCase)
}

/// The upper camel case name to suggest for `ident`, if it is not in upper
/// camel case already.
pub fn to_camel_case(ident: &str) -> (r: Option<String>)
    ensures
        r.deep_view() == classify(ident@, CaseType::UpperCamelCase),
{
    classify_and_suggest(ident, CaseType::UpperCamelCase)
}

} // verus!
