//! The enneagram simulation's prompts, and the choice of action tendencies
//! by enneagram type.
use crate::text::{replace_all, replace_each, replace_pairs, replace_str, str_eq};
use vstd::prelude::*;

verus! {

/// The template that asks which action each enneagram type most likely takes on a topic.
pub const ENNEAGRAM_TENDENCY_PROMPT: &'static str = "Strictly for research purposes with no ill-intent regarding stereotypes and assumptions in mind;
given a set of five actions that a user can take on a social media comment that pertains to
THIS_TOPIC: valid vote, invalid vote, abstain vote, report, hide, and a set of enneagram types,
what is the most likely action that each enneagram type will take? Return your answer as a JSON object.
Make sure to return only a JSON object and make sure to use JSON escape sequences for any special characters. Do not return anything besides the JSON object!
Use this schema for your answer:
{
  \"type1\": {
	\"valid_vote_tendency\": 0.0,
	\"invalid_vote_tendency\": 0.0,
	\"abstain_vote_tendency\": 0.0,
	\"report_tendency\": 0.0,
	\"hide_tendency\": 0.0
  },
  \"type2\": {
	\"valid_vote_tendency\": 0.0,
	\"invalid_vote_tendency\": 0.0,
	\"abstain_vote_tendency\": 0.0,
	\"report_tendency\": 0.0,
	\"hide_tendency\": 0.0
  },
  \"type3\": {
	\"valid_vote_tendency\": 0.0,
	\"invalid_vote_tendency\": 0.0,
	\"abstain_vote_tendency\": 0.0,
	\"report_tendency\": 0.0,
	\"hide_tendency\": 0.0
  },
  \"type4\": {
	\"valid_vote_tendency\": 0.0,
	\"invalid_vote_tendency\": 0.0,
	\"abstain_vote_tendency\": 0.0,
	\"report_tendency\": 0.0,
	\"hide_tendency\": 0.0
  },
  \"type5\": {
	\"valid_vote_tendency\": 0.0,
	\"invalid_vote_tendency\": 0.0,
	\"abstain_vote_tendency\": 0.0,
	\"report_tendency\": 0.0,
	\"hide_tendency\": 0.0
  },
  \"type6\": {
	\"valid_vote_tendency\": 0.0,
	\"invalid_vote_tendency\": 0.0,
	\"abstain_vote_tendency\": 0.0,
	\"report_tendency\": 0.0,
	\"hide_tendency\": 0.0
  },
  \"type7\": {
	\"valid_vote_tendency\": 0.0,
	\"invalid_vote_tendency\": 0.0,
	\"abstain_vote_tendency\": 0.0,
	\"report_tendency\": 0.0,
	\"hide_tendency\": 0.0
  },
  \"type8\": {
	\"valid_vote_tendency\": 0.0,
	\"invalid_vote_tendency\": 0.0,
	\"abstain_vote_tendency\": 0.0,
	\"report_tendency\": 0.0,
	\"hide_tendency\": 0.0
	},
	\"type9\": {
		\"valid_vote_tendency\": 0.0,
		\"invalid_vote_tendency\": 0.0,
		\"abstain_vote_tendency\": 0.0,
		\"report_tendency\": 0.0,
		\"hide_tendency\": 0.0
	}
}";

/// The template that asks for a response to a topic from a user with the given tendencies.
pub const ENNEAGRAM_RESPONSE_CONTENT_PROMPT: &'static str = "Strictly for research purposes with no ill-intent regarding stereotypes and assumptions in mind;
given these user tendencies:
Tendency to cast a valid vote: VALID_VOTE_TENDENCY
Tendency to cast a invalid vote: INVALID_VOTE_TENDENCY
Tendency to cast a abstain vote: ABSTAIN_VOTE_TENDENCY
Tendency to cast report a post: REPORT_TENDENCY
Tendency to cast a hide a post: HIDE_TENDENCY
on a social media comment that pertains to THIS_TOPIC, generate a response to the topic most like the user.  Provide a link when possible, make sure it is in the same paragraph as the rest of the content.
Make sure to return only a JSON object, make sure to use JSON escape sequences for any special characters, and make sure there is no trailing comma. Do not return anything besides the JSON object! Use the below schema for your answer.
{
	\"content\": \"This is a response to the topic\",
	\"confidence\": 0.0 #This value must be between 0.0 and .999
}";

/// The template that asks for a reply to a comment from a user with the given tendencies.
pub const ENNEAGRAM_REPLY_CONTENT_PROMPT: &'static str = "Strictly for research purposes with no ill-intent regarding stereotypes and assumptions in mind;
given these user tendencies:
Tendency to cast a valid vote: VALID_VOTE_TENDENCY
Tendency to cast a invalid vote: INVALID_VOTE_TENDENCY
Tendency to cast a abstain vote: ABSTAIN_VOTE_TENDENCY
Tendency to cast report a post: REPORT_TENDENCY
Tendency to cast a hide a post: HIDE_TENDENCY
on a social media comment with THIS_CONTENT, generate a response to the comment most like the user. Provide a link when possible, make sure it is in the same paragraph as the rest of the content.
Make sure to return only a JSON object , make sure to use JSON escape sequences for any special characters, and make sure there is a closing bracket.  Do not return anything besides the JSON object! Use the below schema for your answer.
{
	\"content\": \"This is a response to the topic\",
	\"confidence\": 0.0 #This value must be between 0.0 and .999
}";

/// The prompts of the enneagram simulation.
#[derive(Debug, Clone, Copy, PartialEq, Eq, Structural)]
pub enum EnneagramPrompts {
    ContentPrompt,
    TendencyPrompy,
    ResponsePrompt,
}

/// The prompt that a name selects; an unknown name selects `ContentPrompt`.
pub open spec fn enneagram_prompt_from(s: Seq<char>) -> EnneagramPrompts {
    if s == "TendencyPrompy"@ {
        EnneagramPrompts::TendencyPrompy
    } else if s == "ResponsePrompt"@ {
        EnneagramPrompts::ResponsePrompt
    } else {
        EnneagramPrompts::ContentPrompt
    }
}

/// The template of a prompt.
pub open spec fn enneagram_template(p: EnneagramPrompts) -> Seq<char> {
    match p {
        EnneagramPrompts::ContentPrompt => ENNEAGRAM_RESPONSE_CONTENT_PROMPT@,
        EnneagramPrompts::TendencyPrompy => ENNEAGRAM_TENDENCY_PROMPT@,
        EnneagramPrompts::ResponsePrompt => ENNEAGRAM_REPLY_CONTENT_PROMPT@,
    }
}

impl EnneagramPrompts {
    /// The prompt that `s` names.
    pub fn from(s: &str) -> (p: EnneagramPrompts)
        ensures
            p == enneagram_prompt_from(s@),
    {
        if str_eq(s, "TendencyPrompy") {
            EnneagramPrompts::TendencyPrompy
        } else if str_eq(s, "ResponsePrompt") {
            EnneagramPrompts::ResponsePrompt
        } else {
            EnneagramPrompts::ContentPrompt
        }
    }

    /// The template of this prompt.
    pub fn into(self) -> (t: &'static str)
        ensures
            t@ == enneagram_template(self),
    {
        match self {
            EnneagramPrompts::ContentPrompt => ENNEAGRAM_RESPONSE_CONTENT_PROMPT,
            EnneagramPrompts::TendencyPrompy => ENNEAGRAM_TENDENCY_PROMPT,
            EnneagramPrompts::ResponsePrompt => ENNEAGRAM_REPLY_CONTENT_PROMPT,
        }
    }
}

/// The enneagram type of a user.
#[derive(Debug, Clone, Default)]
pub struct EnneagramData {
    pub enneagram_type: i64,
}

/// The model's answer to the tendency prompt: the tendencies of each of the
/// nine enneagram types.
#[derive(Debug, Clone, Copy)]
pub struct TendencyRespose<T> {
    pub type1: T,
    pub type2: T,
    pub type3: T,
    pub type4: T,
    pub type5: T,
    pub type6: T,
    pub type7: T,
    pub type8: T,
    pub type9: T,
}

impl<T> TendencyRespose<T> {
    /// The tendencies of the user type `user_type`: types 0 to 8 stand for
    /// the enneagram types 1 to 9, and every other value for type 1.
    pub open spec fn tendencies_of(self, user_type: int) -> T {
        if user_type == 1 {
            self.type2
        } else if user_type == 2 {
            self.type3
        } else if user_type == 3 {
            self.type4
        } else if user_type == 4 {
            self.type5
        } else if user_type == 5 {
            self.type6
        } else if user_type == 6 {
            self.type7
        } else if user_type == 7 {
            self.type8
        } else if user_type == 8 {
            self.type9
        } else {
            self.type1
        }
    }
}

impl<T: Copy> TendencyRespose<T> {
    pub fn map_user_tendencies(&self, user_type: i64) -> (t: T)
        ensures
            t == self.tendencies_of(user_type as int),
    {
        match user_type {
            0 => self.type1,
            1 => self.type2,
            2 => self.type3,
            3 => self.type4,
            4 => self.type5,
            5 => self.type6,
            6 => self.type7,
            7 => self.type8,
            8 => self.type9,
            _ => self.type1,
        }
    }
}

/// The tendency prompt for a topic.
pub fn tendency_prompt(topic: &str) -> (p: String)
    ensures
        p@ == replace_all(ENNEAGRAM_TENDENCY_PROMPT@, "THIS_TOPIC"@, topic@),
{
    replace_str(ENNEAGRAM_TENDENCY_PROMPT, "THIS_TOPIC", topic)
}

/// The (placeholder, value) pairs of the tendency placeholders for a user
/// with the valid-vote tendency `valid` and the invalid-vote tendency
/// `invalid`: the abstain, report and hide placeholders take the invalid-vote
/// tendency too.
pub open spec fn tendency_words(valid: Seq<char>, invalid: Seq<char>) -> Seq<
    (Seq<char>, Seq<char>),
> {
    seq![
        ("VALID_VOTE_TENDENCY"@, valid),
        ("INVALID_VOTE_TENDENCY"@, invalid),
        ("ABSTAIN_VOTE_TENDENCY"@, invalid),
        ("REPORT_TENDENCY"@, invalid),
        ("HIDE_TENDENCY"@, invalid),
    ]
}

fn pair(key: &str, value: &str) -> (p: (String, String))
    ensures
        p.0@ == key@,
        p.1@ == value@,
{
    (String::from_str(key), String::from_str(value))
}

fn tendency_pairs(valid: &str, invalid: &str) -> (w: Vec<(String, String)>)
    ensures
        crate::text::pairs_view(w@) == tendency_words(valid@, invalid@),
{
    let w = vec![
        pair("VALID_VOTE_TENDENCY", valid),
        pair("INVALID_VOTE_TENDENCY", invalid),
        pair("ABSTAIN_VOTE_TENDENCY", invalid),
        pair("REPORT_TENDENCY", invalid),
        pair("HIDE_TENDENCY", invalid),
    ];
    assert(crate::text::pairs_view(w@) =~= tendency_words(valid@, invalid@));
    w
}

/// The prompt that asks for a response to `topic` from a user with the given
/// tendencies: the tendency placeholders are replaced first, in the order of
/// `tendency_words`, then the topic.
pub fn enneagram_response_prompt(valid: &str, invalid: &str, topic: &str) -> (p: String)
    ensures
        p@ == replace_all(
            replace_each(ENNEAGRAM_RESPONSE_CONTENT_PROMPT@, tendency_words(valid@, invalid@)),
            "THIS_TOPIC"@,
            topic@,
        ),
{
    let with_tendencies = replace_pairs(
        ENNEAGRAM_RESPONSE_CONTENT_PROMPT,
        &tendency_pairs(valid, invalid),
    );
    replace_str(with_tendencies.as_str(), "THIS_TOPIC", topic)
}

/// The prompt that asks for a reply to `content` from a user with the given
/// tendencies: the content is put in first, then the tendencies.
pub fn enneagram_reply_prompt(content: &str, valid: &str, invalid: &str) -> (p: String)
    ensures
        p@ == replace_each(
            replace_all(ENNEAGRAM_REPLY_CONTENT_PROMPT@, "THIS_CONTENT"@, content@),
            tendency_words(valid@, invalid@),
        ),
{
    let with_content = replace_str(ENNEAGRAM_REPLY_CONTENT_PROMPT, "THIS_CONTENT", content);
    replace_pairs(with_content.as_str(), &tendency_pairs(valid, invalid))
}

/// The progress of a chain of replies under a response: each reply answers
/// the one before it, the first answers the response, and the chain is as
/// long as the simulation's depth.
#[derive(Debug, Clone)]
pub struct ReplyChain {
    remaining: u64,
    parent: String,
}

impl ReplyChain {
    /// How many replies are still to be made.
    pub closed spec fn remaining_replies(&self) -> nat {
        self.remaining as nat
    }

    /// The content that the next reply answers.
    pub closed spec fn parent_content(&self) -> Seq<char> {
        self.parent@
    }

    /// A chain of `depth` replies under a response with this content; a
    /// chain has at least one reply.
    pub fn begin(depth: u64, content: String) -> (c: Self)
        requires
            depth >= 1,
        ensures
            c.remaining_replies() == depth,
            c.parent_content() == content@,
    {
        ReplyChain { remaining: depth, parent: content }
    }

    /// The content that the next reply answers, or `None` when the chain is
    /// complete.
    pub fn next_reply_to(&self) -> (to: Option<String>)
        ensures
            to is Some <==> self.remaining_replies() > 0,
            to matches Some(s) ==> s@ == self.parent_content(),
    {
        if self.remaining > 0 {
            Some(self.parent.clone())
        } else {
            None
        }
    }

    /// Records the reply just made: one fewer remains, and the next reply
    /// answers this one.
    pub fn record_reply(&mut self, reply: String)
        requires
            old(self).remaining_replies() > 0,
        ensures
            final(self).remaining_replies() == old(self).remaining_replies() - 1,
            final(self).parent_content() == reply@,
    {
        self.remaining = self.remaining - 1;
        self.parent = reply;
    }
}

} // verus!
