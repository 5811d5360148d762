//! The business simulation's prompts and the model's answers to them.
use crate::models::Reference;
use crate::text::{replace_all, replace_str};
use vstd::prelude::*;

verus! {

/// The template that asks for a company blog post on a topic.
pub const GENERATE_BLOG_PROMPT: &'static str = "Strictly for research purposes with no ill-intent regarding stereotypes and assumptions in mind;
Given THIS_TOPIC as a topic, generate a blog post about the topic similar to one that a company would publish on their blog.
Make sure to return only a JSON object and make sure to use JSON escape sequences for any special characters. Do not return anything besides the JSON object!
Use this schema for your answer:
{
  \"title\": \"\",
  \"body\": \"\"
}";

/// The template that asks whether a topic is about business, investing or technology.
pub const NAHCO_PROMPT: &'static str = "Does this topic: THIS_TOPIC, relate to any of the following? Entrepreneurship, Business, Marketing, Sales, Investing, Venture Capital, Startups, or Technology?
Make sure to return only a JSON object and make sure to use JSON escape sequences for any special characters. Do not return anything besides the JSON object!
Use this schema for your answer:
{
  \"answer\": \"true\" or \"false\"
}";

/// The template that asks for a persona's response that uses a given link as its reference.
pub const PERSONA_CONTENT_PROMPT_WITH_NAHCO_REFERENCE: &'static str = "Strictly for research purposes with no ill-intent regarding stereotypes and assumptions in mind;
given THIS_CONTENT as a topic, and 
Political orientation: POLITICAL_ORIENTATION, 
Enneagram: ENNEAGRAM_TYPE, 
Gender: GENDER, 
Age: AGE, 
Core fear: CORE_FEAR, 
Core desire: CORE_DESISRE, as user attributes,
return a response most like this aforementioned user, the ethos, pathos, logos breakdown of the content, and why the user took the action the did(thoroughly explain)? 
Use THIS_LINK as a reference in your answer. Make sure to return only a JSON object, make sure to use JSON escape sequences for any special characters, 
and make sure there is no trailing comma. Do not return anything besides the JSON object! Use the below schema for your answer.
{
    \"content\": \"string\",
    \"confidence\": 0.0, # 0.0 - 1.0
    \"ethos\": 0.0, # ethos, pathos,and logos must add up to 1.0
    \"pathos\": 0.0,
    \"logos\": 0.0,
    \"reason\": \"string\",
    \"reference\": \"string\"
}";

/// The data of a business simulation.
#[derive(Debug, Clone)]
pub struct BusinessData {}

/// What the model answers to the blog prompt.
#[derive(Debug, Clone, Default)]
pub struct GenerateBlogResponse {
    pub title: String,
    pub body: String,
}

/// What the model answers to the business-topic prompt.
#[derive(Debug, Clone, Copy, Default)]
pub struct NahcoResponse {
    pub answer: bool,
}

/// The blog prompt for a topic.
pub fn blog_prompt(topic: &str) -> (p: String)
    ensures
        p@ == replace_all(GENERATE_BLOG_PROMPT@, "THIS_TOPIC"@, topic@),
{
    replace_str(GENERATE_BLOG_PROMPT, "THIS_TOPIC", topic)
}

/// The business-topic prompt for a topic.
pub fn nahco_prompt(topic: &str) -> (p: String)
    ensures
        p@ == replace_all(NAHCO_PROMPT@, "THIS_TOPIC"@, topic@),
{
    replace_str(NAHCO_PROMPT, "THIS_TOPIC", topic)
}

/// The prompt that asks for a response with a given reference, for a topic.
pub fn nahco_reference_prompt(topic: &str) -> (p: String)
    ensures
        p@ == replace_all(PERSONA_CONTENT_PROMPT_WITH_NAHCO_REFERENCE@, "THIS_TOPIC"@, topic@),
{
    replace_str(PERSONA_CONTENT_PROMPT_WITH_NAHCO_REFERENCE, "THIS_TOPIC", topic)
}

/// The external reference that records the link a model's answer gave, or an
/// empty one when it gave none.
pub fn answer_reference(link: Option<String>) -> (r: Reference)
    ensures
        r.id@ == Seq::<char>::empty(),
        !r.internal,
        r.trust == 0,
        r.distrust == 0,
        r.content@ == match link {
            Some(l) => l@,
            None => Seq::<char>::empty(),
        },
{
    let mut r = Reference::default();
    r.content = match link {
        Some(l) => l,
        None => String::new(),
    };
    r.internal = false;
    r
}

} // verus!
