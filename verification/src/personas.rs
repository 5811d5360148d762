//! The attributes of a simulated persona that the prompts speak of, and the
//! placeholder values that a persona's attributes give a prompt.
use crate::text::{decimal, i64_to_text, str_eq};
use vstd::prelude::*;

verus! {

/// The gender of a persona.
#[derive(Debug, Clone, PartialEq, Eq, Structural)]
pub enum Gender {
    Male,
    Female,
    Other,
    RatherNotSay,
}

/// The gender that a text names: `male`, `female` and `other` name theirs,
/// and every other text (`rather not say` among them) stands for
/// `RatherNotSay`.
pub open spec fn gender_from(s: Seq<char>) -> Gender {
    if s == "male"@ {
        Gender::Male
    } else if s == "female"@ {
        Gender::Female
    } else if s == "other"@ {
        Gender::Other
    } else {
        Gender::RatherNotSay
    }
}

/// The text of a gender.
pub open spec fn gender_text(g: Gender) -> Seq<char> {
    match g {
        Gender::Male => "male"@,
        Gender::Female => "female"@,
        Gender::Other => "other"@,
        Gender::RatherNotSay => "rather_not_say"@,
    }
}

impl Default for Gender {
    fn default() -> (g: Self)
        ensures
            g == Gender::Other,
    {
        Gender::Other
    }
}

impl Gender {
    /// The gender that `value` names.
    pub fn from(value: &str) -> (g: Gender)
        ensures
            g == gender_from(value@),
    {
        if str_eq(value, "male") {
            Gender::Male
        } else if str_eq(value, "female") {
            Gender::Female
        } else if str_eq(value, "other") {
            Gender::Other
        } else {
            Gender::RatherNotSay
        }
    }

    /// The text that the prompts give for this gender.
    pub fn to_string(&self) -> (s: String)
        ensures
            s@ == gender_text(*self),
    {
        match self {
            Gender::Male => String::from_str("male"),
            Gender::Female => String::from_str("female"),
            Gender::Other => String::from_str("other"),
            Gender::RatherNotSay => String::from_str("rather_not_say"),
        }
    }
}

/// The political orientation of a persona.
#[derive(Debug, Clone, PartialEq, Eq, Structural)]
pub enum PoliticalOrientation {
    Right,
    Left,
    Center,
}

/// The orientation that a text names; every text other than `right` and
/// `left` stands for `Center`.
pub open spec fn orientation_from(s: Seq<char>) -> PoliticalOrientation {
    if s == "right"@ {
        PoliticalOrientation::Right
    } else if s == "left"@ {
        PoliticalOrientation::Left
    } else {
        PoliticalOrientation::Center
    }
}

/// The text of an orientation.
pub open spec fn orientation_text(o: PoliticalOrientation) -> Seq<char> {
    match o {
        PoliticalOrientation::Right => "right"@,
        PoliticalOrientation::Left => "left"@,
        PoliticalOrientation::Center => "center"@,
    }
}

impl Default for PoliticalOrientation {
    fn default() -> (o: Self)
        ensures
            o == PoliticalOrientation::Center,
    {
        PoliticalOrientation::Center
    }
}

impl PoliticalOrientation {
    /// The orientation that `value` names.
    pub fn from(value: &str) -> (o: PoliticalOrientation)
        ensures
            o == orientation_from(value@),
    {
        if str_eq(value, "right") {
            PoliticalOrientation::Right
        } else if str_eq(value, "left") {
            PoliticalOrientation::Left
        } else {
            PoliticalOrientation::Center
        }
    }

    /// The text that the prompts give for this orientation.
    pub fn to_string(&self) -> (s: String)
        ensures
            s@ == orientation_text(*self),
    {
        match self {
            PoliticalOrientation::Right => String::from_str("right"),
            PoliticalOrientation::Left => String::from_str("left"),
            PoliticalOrientation::Center => String::from_str("center"),
        }
    }
}

/// The core of a persona's personality.
#[derive(Debug, Clone, Default)]
pub struct PersonalityBase {
    pub core_fear: String,
    pub enneagram: i64,
    pub core_desire: String,
}

/// The size of a persona's network.
#[derive(Debug, Clone, Default)]
pub struct NetworkSize {
    pub followers: i64,
    pub following: i64,
}

/// The activity of a persona's network.
#[derive(Debug, Clone, Default)]
pub struct NetworkActivity {
    pub impressions: i64,
    pub engagements: i64,
}

/// The rules of a debate of the personas simulation.
#[derive(Debug, Clone, Default)]
pub struct DebateRules {
    pub vote_limit: Option<u64>,
    pub references_allowed: bool,
    pub must_include_reference_count: Option<u64>,
    pub banned_publications: Option<Vec<String>>,
    pub supported_publications: Option<Vec<String>>,
    pub banned_words: Option<Vec<String>>,
    pub response_time_limit: Option<u64>,
}

/// The placeholders of a content or vote prompt, paired with the values that
/// a persona with these attributes gives them, in the order the simulation
/// replaces them.
pub open spec fn persona_words(
    content: Seq<char>,
    orientation: PoliticalOrientation,
    gender: Gender,
    age: i64,
    base: PersonalityBase,
) -> Seq<(Seq<char>, Seq<char>)> {
    seq![
        ("THIS_CONTENT"@, content),
        ("POLITICAL_ORIENTATION"@, orientation_text(orientation)),
        ("ENNEAGRAM_TYPE"@, decimal(base.enneagram as int)),
        ("GENDER"@, gender_text(gender)),
        ("AGE"@, decimal(age as int)),
        ("CORE_FEAR"@, base.core_fear@),
        ("CORE_DESIRE"@, base.core_desire@),
    ]
}

/// The placeholders of the prompt that asks what a persona learned from a
/// reply, paired with their values, in the order the simulation replaces
/// them.
pub open spec fn learned_words(
    content: Seq<char>,
    reply: Seq<char>,
    orientation: PoliticalOrientation,
    gender: Gender,
    age: i64,
    base: PersonalityBase,
) -> Seq<(Seq<char>, Seq<char>)> {
    seq![
        ("THIS_CONTENT"@, content),
        ("THIS_RESPONSE"@, reply),
        ("POLITICAL_ORIENTATION"@, orientation_text(orientation)),
        ("ENNEAGRAM_TYPE"@, decimal(base.enneagram as int)),
        ("AGE"@, decimal(age as int)),
        ("GENDER"@, gender_text(gender)),
        ("CORE_FEAR"@, base.core_fear@),
        ("CORE_DESIRE"@, base.core_desire@),
    ]
}

fn pair(key: &str, value: String) -> (p: (String, String))
    ensures
        p.0@ == key@,
        p.1@ == value@,
{
    (String::from_str(key), value)
}

/// The (placeholder, value) pairs that a persona gives a content or vote
/// prompt about `content`.
pub fn persona_attribute_words(
    content: &str,
    orientation: &PoliticalOrientation,
    gender: &Gender,
    age: i64,
    base: &PersonalityBase,
) -> (words: Vec<(String, String)>)
    ensures
        crate::text::pairs_view(words@) == persona_words(
            content@,
            *orientation,
            *gender,
            age,
            *base,
        ),
{
    let words = vec![
        pair("THIS_CONTENT", String::from_str(content)),
        pair("POLITICAL_ORIENTATION", orientation.to_string()),
        pair("ENNEAGRAM_TYPE", i64_to_text(base.enneagram)),
        pair("GENDER", gender.to_string()),
        pair("AGE", i64_to_text(age)),
        pair("CORE_FEAR", base.core_fear.clone()),
        pair("CORE_DESIRE", base.core_desire.clone()),
    ];
    assert(crate::text::pairs_view(words@) =~= persona_words(
        content@,
        *orientation,
        *gender,
        age,
        *base,
    ));
    words
}

/// The (placeholder, value) pairs that a persona gives the prompt that asks
/// what it learned from `reply`, a reply to `content`.
pub fn learned_attribute_words(
    content: &str,
    reply: &str,
    orientation: &PoliticalOrientation,
    gender: &Gender,
    age: i64,
    base: &PersonalityBase,
) -> (words: Vec<(String, String)>)
    ensures
        crate::text::pairs_view(words@) == learned_words(
            content@,
            reply@,
            *orientation,
            *gender,
            age,
            *base,
        ),
{
    let words = vec![
        pair("THIS_CONTENT", String::from_str(content)),
        pair("THIS_RESPONSE", String::from_str(reply)),
        pair("POLITICAL_ORIENTATION", orientation.to_string()),
        pair("ENNEAGRAM_TYPE", i64_to_text(base.enneagram)),
        pair("AGE", i64_to_text(age)),
        pair("GENDER", gender.to_string()),
        pair("CORE_FEAR", base.core_fear.clone()),
        pair("CORE_DESIRE", base.core_desire.clone()),
    ];
    assert(crate::text::pairs_view(words@) =~= learned_words(
        content@,
        reply@,
        *orientation,
        *gender,
        age,
        *base,
    ));
    words
}

} // verus!
