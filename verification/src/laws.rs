//! Properties that hold of the library as a whole.
use crate::personas::{
    gender_from, gender_text, learned_words, orientation_from, orientation_text, persona_words,
    Gender, PersonalityBase, PoliticalOrientation,
};
use crate::scoring::{content_score, vote_counts};
use crate::models::{vote_type_from, VoteType};
use crate::text::{decimal, is_whitespace, replace_all, word_count};
use vstd::prelude::*;

verus! {

/// Whether `pat` occurs somewhere in `s`.
pub open spec fn occurs_in(s: Seq<char>, pat: Seq<char>) -> bool {
    exists|i: int| 0 <= i && i + pat.len() <= s.len() && #[trigger] s.subrange(i, i + pat.len()) == pat
}

/// Replacing a placeholder that does not occur leaves the text as it is.
pub proof fn replace_absent_is_identity(s: Seq<char>, pat: Seq<char>, rep: Seq<char>)
    requires
        pat.len() > 0,
        !occurs_in(s, pat),
    ensures
        replace_all(s, pat, rep) == s,
    decreases s.len(),
{
    if s.len() > 0 {
        let t = s.drop_first();
        assert forall|i: int| 0 <= i && i + pat.len() <= t.len() implies #[trigger] t.subrange(
            i,
            i + pat.len(),
        ) != pat by {
            assert(t.subrange(i, i + pat.len()) =~= s.subrange(i + 1, i + 1 + pat.len()));
        }
        if pat.len() <= s.len() && s.subrange(0, pat.len() as int) == pat {
            assert(s.subrange(0, 0int + pat.len()) == pat);
            assert(occurs_in(s, pat));
        }
        replace_absent_is_identity(t, pat, rep);
        assert(seq![s[0]] + t =~= s);
    }
}

/// Replacing a non-empty placeholder by itself leaves the text as it is.
pub proof fn replace_by_itself_is_identity(s: Seq<char>, pat: Seq<char>)
    requires
        pat.len() > 0,
    ensures
        replace_all(s, pat, pat) == s,
    decreases s.len(),
{
    if s.len() > 0 {
        if pat.len() <= s.len() && s.subrange(0, pat.len() as int) == pat {
            replace_by_itself_is_identity(s.skip(pat.len() as int), pat);
            assert(pat + s.skip(pat.len() as int) =~= s);
        } else {
            replace_by_itself_is_identity(s.drop_first(), pat);
            assert(seq![s[0]] + s.drop_first() =~= s);
        }
    }
}

/// A text has no more words than characters.
pub proof fn words_at_most_chars(s: Seq<char>)
    ensures
        word_count(s) <= s.len(),
    decreases s.len(),
{
    if s.len() > 0 {
        words_at_most_chars(s.drop_last());
    }
}

/// Joining two texts with a whitespace character gives the words of both.
pub proof fn words_of_joined_texts(a: Seq<char>, c: char, b: Seq<char>)
    requires
        is_whitespace(c),
    ensures
        word_count(a + seq![c] + b) == word_count(a) + word_count(b),
    decreases b.len(),
{
    let j = a + seq![c] + b;
    if b.len() == 0 {
        assert(j.drop_last() =~= a);
        assert(j.last() == c);
    } else {
        words_of_joined_texts(a, c, b.drop_last());
        assert(j.drop_last() =~= a + seq![c] + b.drop_last());
        assert(j.last() == b.last());
        if b.len() == 1 {
            assert(j[j.len() - 2] == c);
        } else {
            assert(j[j.len() - 2] == b[b.len() - 2]);
        }
    }
}

/// A gender's text names that gender again.
pub proof fn gender_text_round_trip(g: Gender)
    ensures
        gender_from(gender_text(g)) == g,
{
    reveal_strlit("male");
    reveal_strlit("female");
    reveal_strlit("other");
    reveal_strlit("rather_not_say");
    assert("male"@.len() == 4);
    assert("female"@.len() == 6);
    assert("other"@.len() == 5);
    assert("rather_not_say"@.len() == 14);
    assert("other"@[0] != "male"@[0]);
}

/// An orientation's text names that orientation again.
pub proof fn orientation_text_round_trip(o: PoliticalOrientation)
    ensures
        orientation_from(orientation_text(o)) == o,
{
    reveal_strlit("right");
    reveal_strlit("left");
    reveal_strlit("center");
    assert("right"@.len() == 5);
    assert("left"@.len() == 4);
    assert("center"@.len() == 6);
}

/// A vote counts once, as exactly one kind of vote.
pub proof fn vote_counts_once(v: VoteType)
    ensures
        vote_counts(v).0 + vote_counts(v).1 + vote_counts(v).2 == 1,
        0 <= vote_counts(v).0 <= 1,
        0 <= vote_counts(v).1 <= 1,
        0 <= vote_counts(v).2 <= 1,
{
}

/// The content-attribute score never lowers a score when the counts and the
/// weight are not negative.
pub proof fn content_score_never_lowers(
    score: i64,
    mastery_vocabulary: i64,
    invalid_vote_count: i64,
    weight: i64,
)
    requires
        mastery_vocabulary + invalid_vote_count >= 0,
        weight >= 0,
    ensures
        content_score(score, mastery_vocabulary, invalid_vote_count, weight) >= score,
{
    let terms = mastery_vocabulary + invalid_vote_count;
    assert(terms * weight >= 0) by (nonlinear_arith)
        requires
            terms >= 0,
            weight >= 0,
    ;
}

/// The counts of a vote depend on its kind alone, never on its reason: a
/// valid vote is one valid vote, an invalid vote one invalid vote, an
/// abstention one abstention.
pub proof fn vote_counts_by_kind(reason: Option<String>)
    ensures
        vote_counts(VoteType::Valid(reason)) == (1i64, 0i64, 0i64),
        vote_counts(VoteType::Invalid(reason)) == (0i64, 1i64, 0i64),
        vote_counts(VoteType::Abstain(reason)) == (0i64, 0i64, 1i64),
{
}

/// Two votes of the same kind count the same, whatever their reasons.
pub proof fn vote_counts_ignore_reason(a: Option<String>, b: Option<String>)
    ensures
        vote_counts(VoteType::Valid(a)) == vote_counts(VoteType::Valid(b)),
        vote_counts(VoteType::Invalid(a)) == vote_counts(VoteType::Invalid(b)),
        vote_counts(VoteType::Abstain(a)) == vote_counts(VoteType::Abstain(b)),
{
}

/// A vote read from the model's answer is counted as the kind the answer
/// names: `valid` as one valid vote, `invalid` as one invalid vote, anything
/// else as one abstention.
pub proof fn answered_vote_counts(answer: Seq<char>)
    ensures
        answer == "valid"@ ==> vote_counts(vote_type_from(answer)) == (1i64, 0i64, 0i64),
        answer == "invalid"@ ==> vote_counts(vote_type_from(answer)) == (0i64, 1i64, 0i64),
        answer != "valid"@ && answer != "invalid"@ ==> vote_counts(vote_type_from(answer)) == (
            0i64,
            0i64,
            1i64,
        ),
{
    reveal_strlit("valid");
    reveal_strlit("invalid");
    assert("valid"@.len() != "invalid"@.len());
}

/// With no mastery word and no invalid vote, or with a zero weight, the
/// content-attribute score is the score so far.
pub proof fn content_score_without_terms(s: i64, m: i64, i: i64, w: i64)
    ensures
        content_score(s, 0, 0, w) == s,
        content_score(s, m, i, 0) == s,
{
}

/// One more mastery word adds exactly the weight to the score, whatever the
/// number of invalid votes.
pub proof fn content_score_per_mastery_word(s: i64, m: i64, i: i64, w: i64)
    requires
        m < i64::MAX,
    ensures
        content_score(s, (m + 1) as i64, i, w) == content_score(s, m, i, w) + w,
{
    assert((m + 1 + i) * w == (m + i) * w + w) by (nonlinear_arith);
}

/// One more invalid vote adds exactly the weight to the score, whatever the
/// number of mastery words.
pub proof fn content_score_per_invalid_vote(s: i64, m: i64, i: i64, w: i64)
    requires
        i < i64::MAX,
    ensures
        content_score(s, m, (i + 1) as i64, w) == content_score(s, m, i, w) + w,
{
    assert((m + (i + 1)) * w == (m + i) * w + w) by (nonlinear_arith);
}

/// Mastery words and invalid votes weigh the same: only their total counts.
pub proof fn content_score_pools_terms(s: i64, m: i64, i: i64, w: i64)
    requires
        i64::MIN <= m + i <= i64::MAX,
    ensures
        content_score(s, m, i, w) == content_score(s, i, m, w),
        content_score(s, m, i, w) == content_score(s, (m + i) as i64, 0, w),
{
}

/// With a positive weight the score strictly grows with the number of
/// mastery words.
pub proof fn content_score_grows_with_mastery(s: i64, m1: i64, m2: i64, i: i64, w: i64)
    requires
        m1 < m2,
        w > 0,
    ensures
        content_score(s, m1, i, w) < content_score(s, m2, i, w),
{
    assert((m1 + i) * w < (m2 + i) * w) by (nonlinear_arith)
        requires
            m1 < m2,
            w > 0,
    ;
}

/// Which characters separate words: the ASCII blanks do, and no printable
/// ASCII character does (the apostrophe and the hyphen among them).
pub proof fn whitespace_of_ascii(c: char)
    ensures
        c == ' ' || c == '\t' || c == '\n' || c == '\r' || c as u32 == 0x0B || c as u32 == 0x0C
            ==> is_whitespace(c),
        0x21 <= c as u32 <= 0x7E ==> !is_whitespace(c),
{
}

/// A non-empty text without whitespace is exactly one word.
pub proof fn text_without_whitespace_is_one_word(s: Seq<char>)
    requires
        s.len() > 0,
        forall|k: int| 0 <= k < s.len() ==> !is_whitespace(#[trigger] s[k]),
    ensures
        word_count(s) == 1,
    decreases s.len(),
{
    assert(!is_whitespace(s[s.len() - 1]));
    if s.len() == 1 {
        assert(word_count(s.drop_last()) == 0);
    } else {
        let t = s.drop_last();
        assert forall|k: int| 0 <= k < t.len() implies !is_whitespace(#[trigger] t[k]) by {
            assert(t[k] == s[k]);
        }
        text_without_whitespace_is_one_word(t);
        assert(!is_whitespace(s[s.len() - 2]));
    }
}

/// How one more character changes the count: a character that continues a
/// word, or a whitespace character, leaves it as it is; a non-whitespace
/// character at the start or after whitespace begins one more word.
pub proof fn word_count_after_push(a: Seq<char>, c: char)
    ensures
        !is_whitespace(c) && a.len() > 0 && !is_whitespace(a.last()) ==> word_count(a.push(c))
            == word_count(a),
        is_whitespace(c) ==> word_count(a.push(c)) == word_count(a),
        !is_whitespace(c) && (a.len() == 0 || is_whitespace(a.last())) ==> word_count(a.push(c))
            == word_count(a) + 1,
{
    let t = a.push(c);
    assert(t.drop_last() =~= a);
    assert(t.last() == c);
    if a.len() > 0 {
        assert(t[t.len() - 2] == a.last());
    }
}

/// Inserting a non-whitespace character between two characters of a word
/// leaves the number of words as it is.
pub proof fn word_count_insert_inside_word(a: Seq<char>, c: char, b: Seq<char>)
    requires
        a.len() > 0,
        !is_whitespace(a.last()),
        !is_whitespace(c),
    ensures
        word_count(a + seq![c] + b) == word_count(a + b),
    decreases b.len(),
{
    if b.len() == 0 {
        assert(a + seq![c] + b =~= a.push(c));
        assert(a + b =~= a);
        word_count_after_push(a, c);
    } else {
        let b0 = b.drop_last();
        let x = b.last();
        word_count_insert_inside_word(a, c, b0);
        let l = a + seq![c] + b0;
        let r = a + b0;
        assert(a + seq![c] + b =~= l.push(x));
        assert(a + b =~= r.push(x));
        word_count_after_push(l, x);
        word_count_after_push(r, x);
        if b0.len() == 0 {
            assert(l.last() == c);
            assert(r =~= a);
        } else {
            assert(l.last() == b0.last());
            assert(r.last() == b0.last());
        }
    }
}

/// The values that a persona gives a content or vote prompt name its own
/// attributes: its orientation as `right`, `left` or `center`, which reads
/// back as that orientation; its gender by a non-empty text that reads back
/// as that gender; its enneagram type and age in decimal; its core fear and
/// desire as they are; each under its placeholder, in order.
pub proof fn persona_words_name_the_persona(
    content: Seq<char>,
    o: PoliticalOrientation,
    g: Gender,
    age: i64,
    base: PersonalityBase,
)
    ensures
        persona_words(content, o, g, age, base).len() == 7,
        persona_words(content, o, g, age, base)[0] == ("THIS_CONTENT"@, content),
        persona_words(content, o, g, age, base)[1].0 == "POLITICAL_ORIENTATION"@,
        o == PoliticalOrientation::Right ==> persona_words(content, o, g, age, base)[1].1
            == "right"@,
        o == PoliticalOrientation::Left ==> persona_words(content, o, g, age, base)[1].1
            == "left"@,
        o == PoliticalOrientation::Center ==> persona_words(content, o, g, age, base)[1].1
            == "center"@,
        persona_words(content, o, g, age, base)[1].1.len() > 0,
        orientation_from(persona_words(content, o, g, age, base)[1].1) == o,
        persona_words(content, o, g, age, base)[2] == ("ENNEAGRAM_TYPE"@, decimal(
            base.enneagram as int,
        )),
        persona_words(content, o, g, age, base)[3].0 == "GENDER"@,
        persona_words(content, o, g, age, base)[3].1.len() > 0,
        gender_from(persona_words(content, o, g, age, base)[3].1) == g,
        persona_words(content, o, g, age, base)[4] == ("AGE"@, decimal(age as int)),
        persona_words(content, o, g, age, base)[5] == ("CORE_FEAR"@, base.core_fear@),
        persona_words(content, o, g, age, base)[6] == ("CORE_DESIRE"@, base.core_desire@),
{
    persona_text_facts(o, g);
}

/// The values that a persona gives the prompt that asks what it learned name
/// the content, the reply and its own attributes: its orientation as `right`,
/// `left` or `center`, which reads back as that orientation; its gender by a
/// non-empty text that reads back as that gender; its enneagram type and age
/// in decimal; its core fear and desire as they are; each under its
/// placeholder, in order.
pub proof fn learned_words_name_the_persona(
    content: Seq<char>,
    reply: Seq<char>,
    o: PoliticalOrientation,
    g: Gender,
    age: i64,
    base: PersonalityBase,
)
    ensures
        learned_words(content, reply, o, g, age, base).len() == 8,
        learned_words(content, reply, o, g, age, base)[0] == ("THIS_CONTENT"@, content),
        learned_words(content, reply, o, g, age, base)[1] == ("THIS_RESPONSE"@, reply),
        learned_words(content, reply, o, g, age, base)[2].0 == "POLITICAL_ORIENTATION"@,
        o == PoliticalOrientation::Right ==> learned_words(content, reply, o, g, age, base)[2].1
            == "right"@,
        o == PoliticalOrientation::Left ==> learned_words(content, reply, o, g, age, base)[2].1
            == "left"@,
        o == PoliticalOrientation::Center ==> learned_words(content, reply, o, g, age, base)[2].1
            == "center"@,
        learned_words(content, reply, o, g, age, base)[2].1.len() > 0,
        orientation_from(learned_words(content, reply, o, g, age, base)[2].1) == o,
        learned_words(content, reply, o, g, age, base)[3] == ("ENNEAGRAM_TYPE"@, decimal(
            base.enneagram as int,
        )),
        learned_words(content, reply, o, g, age, base)[4] == ("AGE"@, decimal(age as int)),
        learned_words(content, reply, o, g, age, base)[5].0 == "GENDER"@,
        learned_words(content, reply, o, g, age, base)[5].1.len() > 0,
        gender_from(learned_words(content, reply, o, g, age, base)[5].1) == g,
        learned_words(content, reply, o, g, age, base)[6] == ("CORE_FEAR"@, base.core_fear@),
        learned_words(content, reply, o, g, age, base)[7] == ("CORE_DESIRE"@, base.core_desire@),
{
    persona_text_facts(o, g);
}

/// The texts of an orientation and of a gender are the fixed words, not
/// empty, and read back as what they name.
proof fn persona_text_facts(o: PoliticalOrientation, g: Gender)
    ensures
        o == PoliticalOrientation::Right ==> orientation_text(o) == "right"@,
        o == PoliticalOrientation::Left ==> orientation_text(o) == "left"@,
        o == PoliticalOrientation::Center ==> orientation_text(o) == "center"@,
        orientation_text(o).len() > 0,
        orientation_from(orientation_text(o)) == o,
        gender_text(g).len() > 0,
        gender_from(gender_text(g)) == g,
{
    orientation_text_round_trip(o);
    gender_text_round_trip(g);
    reveal_strlit("right");
    reveal_strlit("left");
    reveal_strlit("center");
    reveal_strlit("male");
    reveal_strlit("female");
    reveal_strlit("other");
    reveal_strlit("rather_not_say");
}

} // verus!
