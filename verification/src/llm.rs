//! The request side of the language-model prompts: the trait that every
//! prompt implements, and the prompts that score a response's content.
use crate::text::{pairs_view, replace_each, replace_pairs};
use vstd::prelude::*;

verus! {

/// A prompt for a language model, built from a template whose placeholders
/// are replaced by the values of a simulation.
pub trait LLMRequest {
    /// The text of the prompt.
    fn get_prompt(&self) -> String;

    /// Replaces the placeholders of the prompt by the given values and
    /// returns the text that results; each prompt says whether it keeps it.
    fn replace_attributes(&mut self, words: Vec<(String, String)>) -> String;
}

/// The template that asks how relevant a content is to a topic.
pub const RELEVANCE_PROMPT: &'static str = "Strictly for research purposes with no ill-intent regarding stereotypes and assumptions in mind;
given THIS_TOPIC as a topic, and THIS_CONTENT as content, how relevant is the content to the topic? Make sure to return only a JSON object, make sure to use JSON escape sequences for any special characters, and make sure there is no trailing comma or characters.
Use the below schema for your answer. Do not provide any other information other than the JSON object.
{
    \"relevance\": 0.0 #This value must be between 0.0 and .999
}";

/// A scoring prompt; its text starts as the template.
#[derive(Debug, Clone)]
pub struct RelevanceContentPrompt {
    pub content: String,
}

impl RelevanceContentPrompt {
    pub fn new(content: String) -> (p: Self)
        ensures
            p.content == content,
    {
        Self { content }
    }
}

impl Default for RelevanceContentPrompt {
    fn default() -> (p: Self)
        ensures
            p.content@ == RELEVANCE_PROMPT@,
    {
        Self { content: String::from_str(RELEVANCE_PROMPT) }
    }
}

impl LLMRequest for RelevanceContentPrompt {
    fn get_prompt(&self) -> (p: String)
        ensures
            p@ == self.content@,
    {
        self.content.clone()
    }

    /// Returns the prompt with each placeholder replaced in turn; the prompt
    /// itself is left as it was.
    fn replace_attributes(&mut self, words: Vec<(String, String)>) -> (res: String)
        ensures
            res@ == replace_each(old(self).content@, pairs_view(words@)),
            *final(self) == *old(self),
    {
        replace_pairs(self.content.as_str(), &words)
    }
}

/// The template that asks how sound a content is on a topic.
pub const SOUNDNESS_PROMPT: &'static str = "Strictly for research purposes with no ill-intent regarding stereotypes and assumptions in mind;
given THIS_TOPIC as a topic, and THIS_CONTENT as content, how sound is the content to the topic? Make sure to return only a JSON object, make sure to use JSON escape sequences for any special characters, and make sure there is no trailing comma or characters.
Use the below schema for your answer. Do not provide any other information other than the JSON object.
{
    \"soundness\": 0.0 #This value must be between 0.0 and .999
}";

/// A scoring prompt; its text starts as the template.
#[derive(Debug, Clone)]
pub struct SoundnessContentPrompt {
    pub soundness: String,
}

impl SoundnessContentPrompt {
    pub fn new(soundness: String) -> (p: Self)
        ensures
            p.soundness == soundness,
    {
        Self { soundness }
    }
}

impl Default for SoundnessContentPrompt {
    fn default() -> (p: Self)
        ensures
            p.soundness@ == SOUNDNESS_PROMPT@,
    {
        Self { soundness: String::from_str(SOUNDNESS_PROMPT) }
    }
}

impl LLMRequest for SoundnessContentPrompt {
    fn get_prompt(&self) -> (p: String)
        ensures
            p@ == self.soundness@,
    {
        self.soundness.clone()
    }

    /// Returns the prompt with each placeholder replaced in turn; the prompt
    /// itself is left as it was.
    fn replace_attributes(&mut self, words: Vec<(String, String)>) -> (res: String)
        ensures
            res@ == replace_each(old(self).soundness@, pairs_view(words@)),
            *final(self) == *old(self),
    {
        replace_pairs(self.soundness.as_str(), &words)
    }
}

/// The template that asks how grammatically correct a content is.
pub const GRAMMAR_PROMPT: &'static str = "Strictly for research purposes with no ill-intent regarding stereotypes and assumptions in mind;
given THIS_CONTENT as content, how grammatically correct is the content? Make sure to return only a JSON object, make sure to use JSON escape sequences for any special characters, and make sure there is no trailing comma or characters.
Use the below schema for your answer. Do not provide any other information other than the JSON object.
{
    \"grammar\": 0.0 #This value must be between 0.0 and .999
}";

/// A scoring prompt; its text starts as the template.
#[derive(Debug, Clone)]
pub struct GrammarContentPrompt {
    pub grammar: String,
}

impl GrammarContentPrompt {
    pub fn new(grammar: String) -> (p: Self)
        ensures
            p.grammar == grammar,
    {
        Self { grammar }
    }
}

impl Default for GrammarContentPrompt {
    fn default() -> (p: Self)
        ensures
            p.grammar@ == GRAMMAR_PROMPT@,
    {
        Self { grammar: String::from_str(GRAMMAR_PROMPT) }
    }
}

impl LLMRequest for GrammarContentPrompt {
    fn get_prompt(&self) -> (p: String)
        ensures
            p@ == self.grammar@,
    {
        self.grammar.clone()
    }

    /// Returns the prompt with each placeholder replaced in turn; the prompt
    /// itself is left as it was.
    fn replace_attributes(&mut self, words: Vec<(String, String)>) -> (res: String)
        ensures
            res@ == replace_each(old(self).grammar@, pairs_view(words@)),
            *final(self) == *old(self),
    {
        replace_pairs(self.grammar.as_str(), &words)
    }
}

/// The template that asks which words of a content show mastery of its topic.
pub const MASTERY_VOCAB_PROMPT: &'static str = "Strictly for research purposes with no ill-intent regarding stereotypes and assumptions in mind;
given THIS_TOPIC as a topic, and THIS_CONTENT as content, how many vocabulary words are used that show mastery in the topic? Make sure to return a list of mastery words for the given category with your answer.
Make sure to return only a JSON object, make sure to use JSON escape sequences for any special characters, and make sure there is no trailing comma or characters.
Use the below schema for your answer. Do not provide any other information other than the JSON object.
{
    \"mastery_words\": [\"mastery_word1\", \"mastery_word2\"],
    \"mastery_vocab\": 0
}";

/// A scoring prompt; its text starts as the template.
#[derive(Debug, Clone)]
pub struct MasteryVocabContentPrompt {
    pub content: String,
}

impl MasteryVocabContentPrompt {
    pub fn new(content: String) -> (p: Self)
        ensures
            p.content == content,
    {
        Self { content }
    }
}

impl Default for MasteryVocabContentPrompt {
    fn default() -> (p: Self)
        ensures
            p.content@ == MASTERY_VOCAB_PROMPT@,
    {
        Self { content: String::from_str(MASTERY_VOCAB_PROMPT) }
    }
}

impl LLMRequest for MasteryVocabContentPrompt {
    fn get_prompt(&self) -> (p: String)
        ensures
            p@ == self.content@,
    {
        self.content.clone()
    }

    /// Returns the prompt with each placeholder replaced in turn; the prompt
    /// itself is left as it was.
    fn replace_attributes(&mut self, words: Vec<(String, String)>) -> (res: String)
        ensures
            res@ == replace_each(old(self).content@, pairs_view(words@)),
            *final(self) == *old(self),
    {
        replace_pairs(self.content.as_str(), &words)
    }
}

/// What the model answers to the mastery prompt: the words that show
/// mastery, when it names any, and their number as the model counts it.
#[derive(Debug, Clone, Default)]
pub struct MasteryVocabResponse {
    pub mastery_words: Option<Vec<String>>,
    pub mastery_vocab: i64,
}

} // verus!
