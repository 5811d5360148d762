use pulpcalc::business::{answer_reference, blog_prompt, nahco_prompt, nahco_reference_prompt, GENERATE_BLOG_PROMPT, NAHCO_PROMPT, PERSONA_CONTENT_PROMPT_WITH_NAHCO_REFERENCE};
use pulpcalc::enneagram::{enneagram_reply_prompt, enneagram_response_prompt, tendency_prompt, EnneagramPrompts, ReplyChain, TendencyRespose, ENNEAGRAM_REPLY_CONTENT_PROMPT, ENNEAGRAM_RESPONSE_CONTENT_PROMPT, ENNEAGRAM_TENDENCY_PROMPT};
use pulpcalc::llm::{GrammarContentPrompt, LLMRequest, MasteryVocabContentPrompt, RelevanceContentPrompt, SoundnessContentPrompt, GRAMMAR_PROMPT, MASTERY_VOCAB_PROMPT, RELEVANCE_PROMPT, SOUNDNESS_PROMPT};
use pulpcalc::persona_prompts::{learned_from_response, LearnedPrompt, LearnedResponse, PersonaContentPrompt, PersonaContentPromptWithReference, PersonaContentPromptWithSupportedReferences, PersonaContentPromptWithUnsupportedReferences, VoteContentPrompt, LEARNED_PROMPT, PERSONA_CONTENT_PROMPT, PERSONA_CONTENT_PROMPT_WITH_REFERENCE, PERSONA_CONTENT_PROMPT_WITH_SUPPORTED_REFERENCES, PERSONA_CONTENT_PROMPT_WITH_UNSUPPORTED_REFERENCES, VOTE_CONTENT_PROMPT};
use pulpcalc::personas::{learned_attribute_words, persona_attribute_words, Gender, PersonalityBase, PoliticalOrientation};

fn pairs(ps: &[(&str, &str)]) -> Vec<(String, String)> {
    ps.iter().map(|(a, b)| (a.to_string(), b.to_string())).collect()
}

fn topic_and_content() -> Vec<(String, String)> {
    pairs(&[("THIS_TOPIC", "taxes"), ("THIS_CONTENT", "lower them")])
}

#[test]
fn scoring_prompts_start_as_their_templates() {
    assert_eq!(RelevanceContentPrompt::default().content, RELEVANCE_PROMPT);
    assert_eq!(SoundnessContentPrompt::default().soundness, SOUNDNESS_PROMPT);
    assert_eq!(GrammarContentPrompt::default().grammar, GRAMMAR_PROMPT);
    assert_eq!(MasteryVocabContentPrompt::default().content, MASTERY_VOCAB_PROMPT);
    assert_eq!(RelevanceContentPrompt::new("x".to_string()).get_prompt(), "x");
    assert_eq!(SoundnessContentPrompt::new("y".to_string()).get_prompt(), "y");
    assert_eq!(GrammarContentPrompt::new("z".to_string()).get_prompt(), "z");
    assert_eq!(MasteryVocabContentPrompt::new("w".to_string()).get_prompt(), "w");
}

#[test]
fn scoring_prompts_return_the_replacement_and_keep_the_template() {
    let mut p = RelevanceContentPrompt::default();
    let out = p.replace_attributes(topic_and_content());
    assert_eq!(out, RELEVANCE_PROMPT.replace("THIS_TOPIC", "taxes").replace("THIS_CONTENT", "lower them"));
    assert!(out.contains("given taxes as a topic, and lower them as content"));
    assert_eq!(p.content, RELEVANCE_PROMPT);

    let mut s = SoundnessContentPrompt::default();
    s.replace_attributes(topic_and_content());
    assert_eq!(s.soundness, SOUNDNESS_PROMPT);
    let mut g = GrammarContentPrompt::default();
    assert_eq!(g.replace_attributes(topic_and_content()), GRAMMAR_PROMPT.replace("THIS_CONTENT", "lower them"));
    assert_eq!(g.grammar, GRAMMAR_PROMPT);
    let mut m = MasteryVocabContentPrompt::default();
    m.replace_attributes(topic_and_content());
    assert_eq!(m.content, MASTERY_VOCAB_PROMPT);
}

#[test]
fn persona_prompts_keep_only_the_last_replacement() {
    let mut p = PersonaContentPrompt::default();
    let out = p.replace_attributes(pairs(&[("THIS_CONTENT", "hello"), ("GENDER", "male")]));
    assert_eq!(out, PERSONA_CONTENT_PROMPT.replace("GENDER", "male"));
    assert!(out.contains("given THIS_CONTENT as a topic"));
    assert_eq!(p.content, out);

    let mut r = PersonaContentPromptWithReference::new("AGE and AGE");
    assert_eq!(r.replace_attributes(pairs(&[("AGE", "30")])), "30 and 30");
    assert_eq!(r.get_prompt(), "30 and 30");

    let mut s = PersonaContentPromptWithSupportedReferences::new("X Y", "ref");
    assert_eq!(s.replace_attributes(pairs(&[("X", "1"), ("Y", "2")])), "X 2");
    assert_eq!(s.reference, "ref");

    let mut u = PersonaContentPromptWithUnsupportedReferences::default();
    assert_eq!(u.replace_attributes(Vec::new()), PERSONA_CONTENT_PROMPT_WITH_UNSUPPORTED_REFERENCES);
    assert_eq!(u.reference, "");
    assert_eq!(PersonaContentPromptWithReference::default().content, PERSONA_CONTENT_PROMPT_WITH_REFERENCE);
    assert_eq!(PersonaContentPromptWithSupportedReferences::default().content, PERSONA_CONTENT_PROMPT_WITH_SUPPORTED_REFERENCES);
}

#[test]
fn persona_prompt_of_a_simulated_user_is_the_template() {
    // The simulation's last pair replaces CORE_DESIRE, which the template
    // spells CORE_DESISRE, so the prompt that is sent is the template.
    let base = PersonalityBase { core_fear: "death".to_string(), enneagram: 4, core_desire: "money".to_string() };
    let words = persona_attribute_words("content", &PoliticalOrientation::Left, &Gender::Female, 30, &base);
    let mut p = PersonaContentPrompt::default();
    assert_eq!(p.replace_attributes(words), PERSONA_CONTENT_PROMPT);
}

#[test]
fn persona_attribute_words_in_order() {
    let base = PersonalityBase { core_fear: "death".to_string(), enneagram: 4, core_desire: "money".to_string() };
    let words = persona_attribute_words("content", &PoliticalOrientation::Left, &Gender::Female, -3, &base);
    assert_eq!(words, pairs(&[
        ("THIS_CONTENT", "content"),
        ("POLITICAL_ORIENTATION", "left"),
        ("ENNEAGRAM_TYPE", "4"),
        ("GENDER", "female"),
        ("AGE", "-3"),
        ("CORE_FEAR", "death"),
        ("CORE_DESIRE", "money"),
    ]));
    let lw = learned_attribute_words("c", "r", &PoliticalOrientation::Right, &Gender::RatherNotSay, 61, &base);
    assert_eq!(lw, pairs(&[
        ("THIS_CONTENT", "c"),
        ("THIS_RESPONSE", "r"),
        ("POLITICAL_ORIENTATION", "right"),
        ("ENNEAGRAM_TYPE", "4"),
        ("AGE", "61"),
        ("GENDER", "rather_not_say"),
        ("CORE_FEAR", "death"),
        ("CORE_DESIRE", "money"),
    ]));
}

#[test]
fn learned_and_vote_prompts_replace_every_pair() {
    let base = PersonalityBase { core_fear: "death".to_string(), enneagram: 7, core_desire: "money".to_string() };
    let mut l = LearnedPrompt::default();
    assert_eq!(l.get_prompt(), LEARNED_PROMPT);
    let out = l.replace_attributes(learned_attribute_words("the post", "the reply", &PoliticalOrientation::Center, &Gender::Male, 40, &base));
    assert!(out.contains("given the post as content, the reply as a response to the content"));
    assert!(out.contains("center, 7, male, 40, death, CORE_DESISRE"));
    assert_eq!(l.get_prompt(), out);

    let mut v = VoteContentPrompt::default();
    assert_eq!(v.get_prompt(), VOTE_CONTENT_PROMPT);
    let out = v.replace_attributes(persona_attribute_words("a post", &PoliticalOrientation::Right, &Gender::Other, 25, &base));
    assert!(out.contains("Political orientation: right"));
    assert!(out.contains("Gender: other"));
    assert!(out.contains("Age: 25"));
    assert_eq!(v.get_prompt(), out);
}

#[test]
fn learned_records_the_new_orientation() {
    let mut r = LearnedResponse::default();
    r.political_orientation = "left".to_string();
    r.reason = "read the reply".to_string();
    let l = learned_from_response(&r);
    assert_eq!(l.learned_content, "left");
    assert_eq!(l.id, "");
    assert_eq!(l.reason, "");
}

#[test]
fn enneagram_response_prompt_fills_tendencies_and_topic() {
    let p = enneagram_response_prompt("0.7", "0.2", "climate");
    let expected = ENNEAGRAM_RESPONSE_CONTENT_PROMPT
        .replace("VALID_VOTE_TENDENCY", "0.7")
        .replace("INVALID_VOTE_TENDENCY", "0.2")
        .replace("ABSTAIN_VOTE_TENDENCY", "0.2")
        .replace("REPORT_TENDENCY", "0.2")
        .replace("HIDE_TENDENCY", "0.2")
        .replace("THIS_TOPIC", "climate");
    assert_eq!(p, expected);
    // The valid placeholder is part of the invalid one, so the invalid
    // tendency never reaches the prompt.
    assert!(p.contains("Tendency to cast a invalid vote: IN0.7"));
    assert!(p.contains("Tendency to cast a abstain vote: 0.2"));
    assert!(p.contains("pertains to climate"));
}

#[test]
fn enneagram_reply_and_tendency_prompts() {
    let p = enneagram_reply_prompt("nice post", "0.1", "0.9");
    assert!(p.contains("comment with nice post,"));
    assert!(p.contains("Tendency to cast a hide a post: 0.9"));
    assert_eq!(p, ENNEAGRAM_REPLY_CONTENT_PROMPT.replace("THIS_CONTENT", "nice post").replace("VALID_VOTE_TENDENCY", "0.1").replace("INVALID_VOTE_TENDENCY", "0.9").replace("ABSTAIN_VOTE_TENDENCY", "0.9").replace("REPORT_TENDENCY", "0.9").replace("HIDE_TENDENCY", "0.9"));
    assert_eq!(tendency_prompt("ai"), ENNEAGRAM_TENDENCY_PROMPT.replace("THIS_TOPIC", "ai"));
}

#[test]
fn enneagram_prompts_by_name() {
    assert_eq!(EnneagramPrompts::from("TendencyPrompy"), EnneagramPrompts::TendencyPrompy);
    assert_eq!(EnneagramPrompts::from("ResponsePrompt"), EnneagramPrompts::ResponsePrompt);
    assert_eq!(EnneagramPrompts::from("ContentPrompt"), EnneagramPrompts::ContentPrompt);
    assert_eq!(EnneagramPrompts::from("anything"), EnneagramPrompts::ContentPrompt);
    assert_eq!(EnneagramPrompts::ContentPrompt.into(), ENNEAGRAM_RESPONSE_CONTENT_PROMPT);
    assert_eq!(EnneagramPrompts::TendencyPrompy.into(), ENNEAGRAM_TENDENCY_PROMPT);
    assert_eq!(EnneagramPrompts::ResponsePrompt.into(), ENNEAGRAM_REPLY_CONTENT_PROMPT);
}

#[test]
fn tendencies_by_user_type() {
    let t = TendencyRespose { type1: 1, type2: 2, type3: 3, type4: 4, type5: 5, type6: 6, type7: 7, type8: 8, type9: 9 };
    for i in 0..9i64 {
        assert_eq!(t.map_user_tendencies(i), i + 1);
    }
    assert_eq!(t.map_user_tendencies(9), 1);
    assert_eq!(t.map_user_tendencies(-1), 1);
    assert_eq!(t.map_user_tendencies(100), 1);
}

#[test]
fn business_prompts_put_in_the_topic() {
    assert_eq!(blog_prompt("fintech"), GENERATE_BLOG_PROMPT.replace("THIS_TOPIC", "fintech"));
    assert!(nahco_prompt("fintech").starts_with("Does this topic: fintech, relate"));
    assert_eq!(nahco_prompt("x"), NAHCO_PROMPT.replace("THIS_TOPIC", "x"));
    // The reference template has no topic placeholder.
    assert_eq!(nahco_reference_prompt("fintech"), PERSONA_CONTENT_PROMPT_WITH_NAHCO_REFERENCE);
}

#[test]
fn answer_reference_records_the_link() {
    let r = answer_reference(Some("https://a.b".to_string()));
    assert_eq!(r.content, "https://a.b");
    assert!(!r.internal);
    assert_eq!((r.trust, r.distrust), (0, 0));
    assert_eq!(answer_reference(None).content, "");
}

#[test]
fn reply_chain_answers_each_previous_reply() {
    let mut chain = ReplyChain::begin(3, "root".to_string());
    let mut answered: Vec<String> = Vec::new();
    let mut n = 0;
    while let Some(to) = chain.next_reply_to() {
        n += 1;
        answered.push(to);
        chain.record_reply(format!("r{}", n));
    }
    assert_eq!(answered, vec!["root".to_string(), "r1".to_string(), "r2".to_string()]);
    assert_eq!(chain.next_reply_to(), None);
}

#[test]
fn reply_chain_of_one_reply() {
    let mut chain = ReplyChain::begin(1, "topic".to_string());
    assert_eq!(chain.next_reply_to(), Some("topic".to_string()));
    chain.record_reply("only".to_string());
    assert_eq!(chain.next_reply_to(), None);
}
