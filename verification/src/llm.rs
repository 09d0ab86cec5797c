//! The prompts that are sent to the local model.

use crate::primitives::{trim_text, trimmed_text};
use vstd::prelude::*;
use vstd::string::StringExecFns;

verus! {

/// How the prompt for an answer opens, up to the style.
pub const ANSWER_OPENING: &'static str =
    "You are an expert interview coach. Generate a personalized interview answer.\n\nFORMAT: ";

/// The styles explained, and the heading of the question, up to its topic.
pub const ANSWER_STYLES: &'static str =
    " style\n- STAR: Situation → Task → Action → Result\n- QUANT: Bullet points with specific metrics and numbers\n- HYBRID: STAR structure + quantified bullets in the Result\n\nINTERVIEW QUESTION / PROMPT:\nTopic: ";

/// What stands between the topic and the details of the question.
pub const ANSWER_DETAILS: &'static str =
    "\nDetails: ";

/// The empty line between two parts of a prompt.
pub const PARAGRAPH: &'static str =
    "\n\n";

/// The instructions that close the prompt for an answer.
pub const ANSWER_INSTRUCTIONS: &'static str =
    "\n\nINSTRUCTIONS:\n1. Use ONLY the personal context above to make the answer specific\n2. Make every claim concrete — include numbers, timeframes, team sizes\n3. Keep it under 280 words (≈ 2 minutes spoken)\n4. Use first-person \"I\" statements, not \"we\"\n5. Lead with the strongest signal for this role\n\nGenerate the answer now:";

/// What stands in place of the personal context where there is none.
pub const NO_CONTEXT: &'static str =
    "No personal context provided — give a general example answer.";

/// The line that opens the personal context.
pub const CONTEXT_OPENING: &'static str =
    "--- USER'S PERSONAL CONTEXT (from their resume/notes) ---\n";

/// The line that closes the personal context.
pub const CONTEXT_CLOSING: &'static str =
    "\n---";

/// How the prompt for scoring opens, up to the question.
pub const SCORE_OPENING: &'static str =
    "You are an expert interview coach. Evaluate this interview answer rigorously.\n\nQuestion: ";

/// What stands between the question and the expected style.
pub const SCORE_STYLE: &'static str =
    "\nExpected style: ";

/// What stands between the expected style and the answer.
pub const SCORE_ANSWER: &'static str =
    "\nCandidate's answer:\n";

/// The format of the score that closes the prompt for scoring.
pub const SCORE_FORMAT: &'static str =
    "\n\nReturn ONLY valid JSON with this exact structure (no markdown, no explanation):\n{\n\"overall\": 7,\n\"dimensions\": {\n\"specificity\": 8,\n\"quantification\": 6,\n\"structure\": 7,\n\"relevance\": 8,\n\"confidence\": 7\n},\n\"strengths\": [\"strength 1\", \"strength 2\"],\n\"improvements\": [\"improvement 1\", \"improvement 2\"],\n\"improved_closing\": \"A stronger 1-2 sentence closing for this answer.\"\n}";

/// How the prompt for a job analysis opens, up to the job description.
pub const JOB_OPENING: &'static str =
    "You are a career coach. Analyze this job description for interview preparation.\n\nJOB DESCRIPTION:\n";

/// The format of the analysis that closes the prompt for a job analysis.
pub const JOB_FORMAT: &'static str =
    "\n\nReturn ONLY valid JSON (no markdown) with this structure:\n{\n\"role\": \"exact job title\",\n\"level\": \"junior/mid/senior/staff/lead\",\n\"company_type\": \"startup/scale-up/enterprise/agency\",\n\"key_competencies\": [\"6-8 core skills they MUST have\"],\n\"likely_questions\": [\n{\"question\": \"...\", \"category\": \"Behavioural/Technical/Leadership/Product\"}\n],\n\"culture_signals\": [\"3-4 values/culture signals from the text\"],\n\"red_flags\": [\"any concerning signals, or empty array\"],\n\"preparation_tips\": [\"4 specific preparation tips for this exact role\"]\n}";

/// Whether `text` holds nothing but white space.
pub open spec fn is_blank_text(text: Seq<char>) -> bool {
    trimmed_text(text).len() == 0
}

/// The part of the prompt that holds the personal context, given whether
/// that context is blank.
pub open spec fn context_block_text(rag_context: Seq<char>, blank: bool) -> Seq<char> {
    if blank {
        NO_CONTEXT@
    } else {
        CONTEXT_OPENING@ + rag_context + CONTEXT_CLOSING@
    }
}

/// The prompt for an answer to a question in a style, around a context
/// block.
pub open spec fn answer_prompt_text(
    prompt_title: Seq<char>,
    prompt_body: Seq<char>,
    context_block: Seq<char>,
    style: Seq<char>,
) -> Seq<char> {
    ANSWER_OPENING@ + style + ANSWER_STYLES@ + prompt_title + ANSWER_DETAILS@ + prompt_body
        + PARAGRAPH@ + context_block + ANSWER_INSTRUCTIONS@
}

/// The prompt for scoring an answer to a question.
pub open spec fn score_prompt_text(
    question: Seq<char>,
    answer: Seq<char>,
    style: Seq<char>,
) -> Seq<char> {
    SCORE_OPENING@ + question + SCORE_STYLE@ + style + SCORE_ANSWER@ + answer + SCORE_FORMAT@
}

/// The prompt for the analysis of a job description.
pub open spec fn job_prompt_text(job_text: Seq<char>) -> Seq<char> {
    JOB_OPENING@ + job_text + JOB_FORMAT@
}

/// Whether `text` holds nothing but white space.
pub fn is_blank(text: &str) -> (blank: bool)
    ensures
        blank == is_blank_text(text@),
{
    trim_text(text).is_empty()
}

/// Makes the context block of a prompt: the personal context between its
/// two marker lines, or a note that there is none where it is blank.
pub fn context_block(rag_context: &str, blank: bool) -> (block: String)
    ensures
        block@ == context_block_text(rag_context@, blank),
{
    if blank {
        NO_CONTEXT.to_owned()
    } else {
        let mut block = CONTEXT_OPENING.to_owned();
        block.append(rag_context);
        block.append(CONTEXT_CLOSING);
        block
    }
}

/// Builds the prompt that asks for an answer to the question
/// `prompt_title` with the details `prompt_body`, in the given style and
/// from the given personal context.
pub fn answer_prompt(
    prompt_title: &str,
    prompt_body: &str,
    rag_context: &str,
    style: &str,
) -> (prompt: String)
    ensures
        prompt@ == answer_prompt_text(
            prompt_title@,
            prompt_body@,
            context_block_text(rag_context@, is_blank_text(rag_context@)),
            style@,
        ),
{
    let block = context_block(rag_context, is_blank(rag_context));
    let mut prompt = ANSWER_OPENING.to_owned();
    prompt.append(style);
    prompt.append(ANSWER_STYLES);
    prompt.append(prompt_title);
    prompt.append(ANSWER_DETAILS);
    prompt.append(prompt_body);
    prompt.append(PARAGRAPH);
    prompt.append(block.as_str());
    prompt.append(ANSWER_INSTRUCTIONS);
    prompt
}

/// Builds the prompt that asks for a score of `answer` as an answer to
/// `question` in the given style.
pub fn score_prompt(question: &str, answer: &str, style: &str) -> (prompt: String)
    ensures
        prompt@ == score_prompt_text(question@, answer@, style@),
{
    let mut prompt = SCORE_OPENING.to_owned();
    prompt.append(question);
    prompt.append(SCORE_STYLE);
    prompt.append(style);
    prompt.append(SCORE_ANSWER);
    prompt.append(answer);
    prompt.append(SCORE_FORMAT);
    prompt
}

/// Builds the prompt that asks for the analysis of a job description.
pub fn job_prompt(job_text: &str) -> (prompt: String)
    ensures
        prompt@ == job_prompt_text(job_text@),
{
    let mut prompt = JOB_OPENING.to_owned();
    prompt.append(job_text);
    prompt.append(JOB_FORMAT);
    prompt
}

} // verus!
