//! The integer part of scoring a response: the number of mastery words, the
//! content-attribute score, and the counts that one vote adds.
use crate::models::VoteType;
use vstd::prelude::*;

verus! {

/// The number of mastery words that the model named, as an `i64`; none when
/// it named no list.
pub open spec fn mastery_count(words: Option<Seq<String>>) -> i64 {
    match words {
        Some(w) => w.len() as i64,
        None => 0,
    }
}

/// The number of mastery words of a model's answer.
pub fn mastery_vocabulary(words: &Option<Vec<String>>) -> (n: i64)
    ensures
        n == mastery_count(
            match words {
                Some(w) => Some(w@),
                None => None,
            },
        ),
{
    match words {
        Some(w) => w.len() as i64,
        None => 0,
    }
}

/// Whether the content-attribute score of a response can be computed in
/// `i64` from these terms.
pub open spec fn content_score_fits(
    score: i64,
    mastery_vocabulary: i64,
    invalid_vote_count: i64,
    weight: i64,
) -> bool {
    let terms = mastery_vocabulary + invalid_vote_count;
    &&& i64::MIN <= terms <= i64::MAX
    &&& i64::MIN <= terms * weight <= i64::MAX
    &&& i64::MIN <= score + terms * weight <= i64::MAX
}

/// The content-attribute score of a response: its score so far, plus the
/// number of its mastery words and its invalid votes, times the whole part of
/// the sum of its relevance and its soundness (`weight`).
pub open spec fn content_score(
    score: i64,
    mastery_vocabulary: i64,
    invalid_vote_count: i64,
    weight: i64,
) -> int {
    score + (mastery_vocabulary + invalid_vote_count) * weight
}

/// The content-attribute score of a response.
pub fn content_attribute_score(
    score: i64,
    mastery_vocabulary: i64,
    invalid_vote_count: i64,
    weight: i64,
) -> (s: i64)
    requires
        content_score_fits(score, mastery_vocabulary, invalid_vote_count, weight),
    ensures
        s == content_score(score, mastery_vocabulary, invalid_vote_count, weight),
{
    let terms = mastery_vocabulary + invalid_vote_count;
    let added = terms * weight;
    score + added
}

/// The (valid, invalid, abstain) counts that one vote of this kind gives.
pub open spec fn vote_counts(v: VoteType) -> (i64, i64, i64) {
    match v {
        VoteType::Valid(_) => (1, 0, 0),
        VoteType::Invalid(_) => (0, 1, 0),
        VoteType::Abstain(_) => (0, 0, 1),
    }
}

/// The (valid, invalid, abstain) counts of a single vote.
pub fn tally_vote(v: &VoteType) -> (counts: (i64, i64, i64))
    ensures
        counts == vote_counts(*v),
{
    let mut counts: (i64, i64, i64) = (0, 0, 0);
    match v {
        VoteType::Valid(_) => counts.0 = counts.0 + 1,
        VoteType::Invalid(_) => counts.1 = counts.1 + 1,
        VoteType::Abstain(_) => counts.2 = counts.2 + 1,
    }
    counts
}

} // verus!
