//! The prompts that make a persona write a response, tell what it learned
//! and cast a vote, and what the model answers to the last two.
use crate::llm::LLMRequest;
use crate::models::Learned;
use crate::text::{pairs_view, replace_each, replace_last, replace_last_pair, replace_pairs};
use vstd::prelude::*;

verus! {

/// The template that asks which response a persona would give.
pub const PERSONA_CONTENT_PROMPT: &'static str = "Strictly for research purposes with no ill-intent regarding stereotypes and assumptions in mind;
given THIS_CONTENT as a topic, and 
Political orientation: POLITICAL_ORIENTATION, 
Enneagram: ENNEAGRAM_TYPE, 
Gender: GENDER, 
Age: AGE, 
Core fear: CORE_FEAR, 
Core desire: CORE_DESISRE, as user attributes,
what response would this user give, what is the ethos, pathos, logos breakdown of the content, and why the uder took the action they did (thoroughly explain)? Make sure to return only a JSON object, make sure to use JSON escape sequences for any special characters, 
and make sure there is no trailing comma. Do not return anything besides the JSON object! Use the below schema for your answer.
{
    \"content\": \"string\",
    \"confidence\": 0.0, # 0.0 - 1.0
    \"ethos\": 0.0, # ethos, pathos,and logos must add up to 1.0
    \"pathos\": 0.0,
    \"logos\": 0.0,
    \"reason\": \"string\"
}";

/// A prompt that asks a model which response a persona would give.
#[derive(Debug, Clone)]
pub struct PersonaContentPrompt {
    pub content: String,
}

impl PersonaContentPrompt {
    pub fn new(content: &str) -> (p: Self)
        ensures
            p.content@ == content@,
    {
        Self { content: String::from_str(content) }
    }
}

impl Default for PersonaContentPrompt {
    fn default() -> (p: Self)
        ensures
            p.content@ == PERSONA_CONTENT_PROMPT@,
    {
        Self { content: String::from_str(PERSONA_CONTENT_PROMPT) }
    }
}

impl LLMRequest for PersonaContentPrompt {
    fn get_prompt(&self) -> (p: String)
        ensures
            p@ == self.content@,
    {
        self.content.clone()
    }

    /// Every pair is replaced in the prompt as it stood before the call, so
    /// that only the last pair's replacement stays: it becomes the prompt and
    /// is returned. Without pairs the prompt stays as it is.
    fn replace_attributes(&mut self, words: Vec<(String, String)>) -> (res: String)
        ensures
            res@ == replace_last(old(self).content@, pairs_view(words@)),
            final(self).content@ == res@,
    {
        let res = replace_last_pair(self.content.as_str(), &words);
        self.content = res.clone();
        res
    }
}

/// The template that asks for a persona's response with a link.
pub const PERSONA_CONTENT_PROMPT_WITH_REFERENCE: &'static str = "Strictly for research purposes with no ill-intent regarding stereotypes and assumptions in mind;
given THIS_CONTENT as a topic, and 
Political orientation: POLITICAL_ORIENTATION, 
Enneagram: ENNEAGRAM_TYPE, 
Gender: GENDER, 
Age: AGE, 
Core fear: CORE_FEAR, 
Core desire: CORE_DESISRE, as user attributes,
return a response most like this aforementioned user, the ethos, pathos, logos breakdown of the content, and why the user took the action the did(thoroughly explain)? 
Provide a link in the same paragraph as the response (and JSON object) when possible. Make sure to return only a JSON object, make sure to use JSON escape sequences for any special characters, 
and make sure there is no trailing comma. Do not return anything besides the JSON object! Use the below schema for your answer.
{
    \"content\": \"string\",
    \"confidence\": 0.0, # 0.0 - 1.0
    \"ethos\": 0.0, # ethos, pathos,and logos must add up to 1.0
    \"pathos\": 0.0,
    \"logos\": 0.0,
    \"reason\": \"string\",
    \"reference\": \"string\"
}";

/// A prompt that asks a model which response a persona would give.
#[derive(Debug, Clone)]
pub struct PersonaContentPromptWithReference {
    pub content: String,
}

impl PersonaContentPromptWithReference {
    pub fn new(content: &str) -> (p: Self)
        ensures
            p.content@ == content@,
    {
        Self { content: String::from_str(content) }
    }
}

impl Default for PersonaContentPromptWithReference {
    fn default() -> (p: Self)
        ensures
            p.content@ == PERSONA_CONTENT_PROMPT_WITH_REFERENCE@,
    {
        Self { content: String::from_str(PERSONA_CONTENT_PROMPT_WITH_REFERENCE) }
    }
}

impl LLMRequest for PersonaContentPromptWithReference {
    fn get_prompt(&self) -> (p: String)
        ensures
            p@ == self.content@,
    {
        self.content.clone()
    }

    /// Every pair is replaced in the prompt as it stood before the call, so
    /// that only the last pair's replacement stays: it becomes the prompt and
    /// is returned. Without pairs the prompt stays as it is.
    fn replace_attributes(&mut self, words: Vec<(String, String)>) -> (res: String)
        ensures
            res@ == replace_last(old(self).content@, pairs_view(words@)),
            final(self).content@ == res@,
    {
        let res = replace_last_pair(self.content.as_str(), &words);
        self.content = res.clone();
        res
    }
}

/// The template that asks for a persona's response with a link from the supported publications.
pub const PERSONA_CONTENT_PROMPT_WITH_SUPPORTED_REFERENCES: &'static str = "Strictly for research purposes with no ill-intent regarding stereotypes and assumptions in mind;
given THIS_CONTENT as a topic, and 
Political orientation: POLITICAL_ORIENTATION, 
Enneagram: ENNEAGRAM_TYPE, 
Gender: GENDER, 
Age: AGE, 
Core fear: CORE_FEAR,
Core desire: CORE_DESISRE, as user attributes,
what response would this user give, and why (thoroughly explain)? Provide a link in the same paragraph as the response when possible, (and JSON object) if a link is added, try to provide one from SUPPORTED_REFERENCES. 
Make sure to return only a JSON object, make sure to use JSON escape sequences for any special characters, 
and make sure there is no trailing comma. Do not return anything besides the JSON object! Use the below schema for your answer.
{
    \"content\": \"string\",
    \"confidence\": 0.0, # 0.0 - 1.0
    \"reason\": \"string\",
    \"reference\": \"string\"
}";

/// A prompt that asks a model which response a persona would give.
#[derive(Debug, Clone)]
pub struct PersonaContentPromptWithSupportedReferences {
    pub content: String,
    pub reference: String,
}

impl PersonaContentPromptWithSupportedReferences {
    pub fn new(content: &str, reference: &str) -> (p: Self)
        ensures
            p.content@ == content@,
            p.reference@ == reference@,
    {
        Self { content: String::from_str(content), reference: String::from_str(reference) }
    }
}

impl Default for PersonaContentPromptWithSupportedReferences {
    fn default() -> (p: Self)
        ensures
            p.content@ == PERSONA_CONTENT_PROMPT_WITH_SUPPORTED_REFERENCES@,
            p.reference@ == Seq::<char>::empty(),
    {
        Self { content: String::from_str(PERSONA_CONTENT_PROMPT_WITH_SUPPORTED_REFERENCES), reference: String::new() }
    }
}

impl LLMRequest for PersonaContentPromptWithSupportedReferences {
    fn get_prompt(&self) -> (p: String)
        ensures
            p@ == self.content@,
    {
        self.content.clone()
    }

    /// Every pair is replaced in the prompt as it stood before the call, so
    /// that only the last pair's replacement stays: it becomes the prompt and
    /// is returned. Without pairs the prompt stays as it is.
    fn replace_attributes(&mut self, words: Vec<(String, String)>) -> (res: String)
        ensures
            res@ == replace_last(old(self).content@, pairs_view(words@)),
            final(self).content@ == res@,
            final(self).reference == old(self).reference,
    {
        let res = replace_last_pair(self.content.as_str(), &words);
        self.content = res.clone();
        res
    }
}

/// The template that asks for a persona's response with a link from outside the supported publications.
pub const PERSONA_CONTENT_PROMPT_WITH_UNSUPPORTED_REFERENCES: &'static str = "Strictly for research purposes with no ill-intent regarding stereotypes and assumptions in mind;
given THIS_CONTENT as a topic, and 
Political orientation: POLITICAL_ORIENTATION, 
Enneagram: ENNEAGRAM_TYPE, 
Gender: GENDER, 
Age: AGE, 
Core fear: CORE_FEAR, 
Core desire: CORE_DESISRE, as user attributes,
what response would this user give, and why? Provide a link in the same paragraph as the response when possible, (and JSON object)  if a link is added, do not provide one from SUPPORTED_REFERENCES. 
Make sure to return only a JSON object, make sure to use JSON escape sequences for any special characters, 
and make sure there is no trailing comma. Do not return anything besides the JSON object! Use the below schema for your answer.
{
    \"content\": \"string\",
    \"confidence\": 0.0, # 0.0 - 1.0
    \"reason\": \"string\",
    \"reference\": \"string\"
}";

/// A prompt that asks a model which response a persona would give.
#[derive(Debug, Clone)]
pub struct PersonaContentPromptWithUnsupportedReferences {
    pub content: String,
    pub reference: String,
}

impl PersonaContentPromptWithUnsupportedReferences {
    pub fn new(content: &str, reference: &str) -> (p: Self)
        ensures
            p.content@ == content@,
            p.reference@ == reference@,
    {
        Self { content: String::from_str(content), reference: String::from_str(reference) }
    }
}

impl Default for PersonaContentPromptWithUnsupportedReferences {
    fn default() -> (p: Self)
        ensures
            p.content@ == PERSONA_CONTENT_PROMPT_WITH_UNSUPPORTED_REFERENCES@,
            p.reference@ == Seq::<char>::empty(),
    {
        Self { content: String::from_str(PERSONA_CONTENT_PROMPT_WITH_UNSUPPORTED_REFERENCES), reference: String::new() }
    }
}

impl LLMRequest for PersonaContentPromptWithUnsupportedReferences {
    fn get_prompt(&self) -> (p: String)
        ensures
            p@ == self.content@,
    {
        self.content.clone()
    }

    /// Every pair is replaced in the prompt as it stood before the call, so
    /// that only the last pair's replacement stays: it becomes the prompt and
    /// is returned. Without pairs the prompt stays as it is.
    fn replace_attributes(&mut self, words: Vec<(String, String)>) -> (res: String)
        ensures
            res@ == replace_last(old(self).content@, pairs_view(words@)),
            final(self).content@ == res@,
            final(self).reference == old(self).reference,
    {
        let res = replace_last_pair(self.content.as_str(), &words);
        self.content = res.clone();
        res
    }
}

/// The template that asks how the attributes of a persona change after it read a reply, and why.
pub const LEARNED_PROMPT: &'static str = "Strictly for research purposes with no ill-intent regarding stereotypes and assumptions in mind;
given THIS_CONTENT as content, THIS_RESPONSE as a response to the content, and 
POLITICAL_ORIENTATION, ENNEAGRAM_TYPE, GENDER, AGE, CORE_FEAR, CORE_DESISRE,
VALID_VOTE_TENDENCY, INVALID_VOTE_TENDENCY, ABSTAIN_VOTE_TENDENCY, REPORT_TENDENCY, and HIDE_TENDENCY as user attributes,
How do the attributes of the user change after interacting the response? And why?
Make sure to return only a JSON object. Do not return anything besides the JSON object! Use the below schema for your answer.
{
    \"political_orientation\": \"string\" # \"left\" or \"right\" or \"center\",
    \"enneagram_type\": \"string\" # \"1\" or \"2\" or \"3\" or \"4\" or \"5\" or \"6\" or \"7\" or \"8\" or \"9\",
    \"gender\": \"string\" # \"male\" or \"female\" or \"nonbinary\",
    \"age\": \"int\" ,
    \"core_fear\": \"string\",
    \"core_desire\": \"string\",
    \"valid_vote_tendency\": \"string\" # 0.0 - 1.0,
    \"invalid_vote_tendency\": \"string\" # 0.0 - 1.0,
    \"abstain_vote_tendency\": \"string\" # 0.0 - 1.0,
    \"report_tendency\": \"string\" # 0.0 - 1.0,
    \"hide_tendency\": \"string\" # 0.0 - 1.0,
    \"reason\": \"string\"
}";

/// A prompt whose placeholders are replaced one after the other.
#[derive(Debug, Clone)]
pub struct LearnedPrompt {
    content: String,
}

impl LearnedPrompt {
    /// The text of the prompt, for the contracts.
    pub closed spec fn text(&self) -> Seq<char> {
        self.content@
    }
}

impl Default for LearnedPrompt {
    fn default() -> (p: Self)
        ensures
            p.text() == LEARNED_PROMPT@,
    {
        Self { content: String::from_str(LEARNED_PROMPT) }
    }
}

impl LLMRequest for LearnedPrompt {
    fn get_prompt(&self) -> (p: String)
        ensures
            p@ == self.text(),
    {
        self.content.clone()
    }

    /// Replaces each placeholder in turn, keeps the result as the prompt and
    /// returns it.
    fn replace_attributes(&mut self, words: Vec<(String, String)>) -> (res: String)
        ensures
            res@ == replace_each(old(self).text(), pairs_view(words@)),
            final(self).text() == res@,
    {
        let res = replace_pairs(self.content.as_str(), &words);
        self.content = res.clone();
        res
    }
}

/// The template that asks which vote a persona would cast on a content, and why.
pub const VOTE_CONTENT_PROMPT: &'static str = "Strictly for research purposes with no ill-intent regarding stereotypes and assumptions in mind;
given THIS_CONTENT as a topic, and 
Political orientation: POLITICAL_ORIENTATION, 
Enneagram: ENNEAGRAM_TYPE, 
Gender: GENDER, 
Age: AGE, 
Core fear: CORE_FEAR, 
Core desire: CORE_DESISRE, as user attributes,
what vote is the user most likely to cast, and why? Make sure to return only a JSON object, make sure to use JSON escape sequences for any special characters, 
and make sure there is no trailing comma. Do not return anything besides the JSON object! Use the below schema for your answer.
{
    \"vote\": \"valid\" or \"invalid\" or \"abstain\",
    \"reason\": \"string\"
}";

/// A prompt whose placeholders are replaced one after the other.
#[derive(Debug, Clone)]
pub struct VoteContentPrompt {
    content: String,
}

impl VoteContentPrompt {
    /// The text of the prompt, for the contracts.
    pub closed spec fn text(&self) -> Seq<char> {
        self.content@
    }
}

impl Default for VoteContentPrompt {
    fn default() -> (p: Self)
        ensures
            p.text() == VOTE_CONTENT_PROMPT@,
    {
        Self { content: String::from_str(VOTE_CONTENT_PROMPT) }
    }
}

impl LLMRequest for VoteContentPrompt {
    fn get_prompt(&self) -> (p: String)
        ensures
            p@ == self.text(),
    {
        self.content.clone()
    }

    /// Replaces each placeholder in turn, keeps the result as the prompt and
    /// returns it.
    fn replace_attributes(&mut self, words: Vec<(String, String)>) -> (res: String)
        ensures
            res@ == replace_each(old(self).text(), pairs_view(words@)),
            final(self).text() == res@,
    {
        let res = replace_pairs(self.content.as_str(), &words);
        self.content = res.clone();
        res
    }
}

/// What the model answers to the learned prompt: the persona's attributes
/// after it read a reply, and the reason.
#[derive(Debug, Clone, Default)]
pub struct LearnedResponse {
    pub political_orientation: String,
    pub enneagram_type: String,
    pub gender: String,
    pub age: i64,
    pub core_fear: String,
    pub core_desire: String,
    pub valid_vote_tendency: String,
    pub invalid_vote_tendency: String,
    pub abstain_vote_tendency: String,
    pub report_tendency: String,
    pub hide_tendency: String,
    pub reason: String,
}

/// What a persona learned, as the simulation records the model's answer:
/// its political orientation after the reply, with no id and no reason yet.
pub fn learned_from_response(response: &LearnedResponse) -> (l: Learned)
    ensures
        l.id@ == Seq::<char>::empty(),
        l.learned_content@ == response.political_orientation@,
        l.reason@ == Seq::<char>::empty(),
{
    let mut l = Learned::default();
    l.learned_content = response.political_orientation.clone();
    l
}

/// What the model answers to the vote prompt: the vote and the reason.
#[derive(Debug, Clone, Default)]
pub struct VoteResponse {
    pub vote: String,
    pub reason: String,
}

} // verus!
