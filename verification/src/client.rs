//! What is asked of the analysis: the prompt around a list of ideas, and the
//! request that carries it.

use crate::drainer::texts;
use crate::reader_config::{AIClientConfig, AIClientConfigView, AIClientDetails};
use vstd::prelude::*;
use vstd::string::StringExecFns;

verus! {

/// The prompt up to the list of ideas.
pub const PROMPT_OPEN: &'static str =
    "I have a list of ideas - they could be startup ideas, product concepts, hobby projects, or experimental tools. For EACH idea below, provide relevant analysis and context.\n\
     \n\
     **IMPORTANT**: \n\
     - Assess the scale and nature of each idea (hobby project vs business venture vs research experiment)\n\
     - Only include sections that are meaningful for that specific idea\n\
     - If it's a hobby project, focus on learning opportunities, tech stack, and cool factor\n\
     - If it's a business idea, focus on market and monetization\n\
     - If unsure about something, say so\n\
     - Skip sections that don't apply\n\
     \n\
     Consider including (when relevant):\n\
     - **Idea Type & Scale**: Is this a hobby project, side hustle, startup, or enterprise product?\n\
     - **What Makes This Interesting**: Why is this worth building or exploring?\n\
     - **Technical Approach**: Key technologies, architecture decisions, implementation complexity\n\
     - **Learning Opportunities**: New skills or concepts you'd gain (especially for hobby projects)\n\
     - **Market Analysis**: Market size, competitors, target users (for business ideas)\n\
     - **Business Model**: Revenue streams, monetization strategy (if applicable)\n\
     - **Time & Resource Estimate**: Rough effort required (hours/days/weeks/months)\n\
     - **Risks & Challenges**: Technical hurdles, market risks, or other obstacles\n\
     - **Similar Projects/Inspiration**: Existing tools or projects to learn from\n\
     - **Research Resources**: Relevant articles, papers, docs, or tutorials (with URLs when possible)\n\
     - **Next Steps**: Concrete first actions to validate or build this\n\
     \n\
     **IDEAS:**\n\
     \n\
     ";

/// The prompt after the list of ideas.
pub const PROMPT_CLOSE: &'static str =
    "\n\
     \n\
     For each idea:\n\
     - Use clear headings like \"=== IDEA #1: [brief description] ===\"\n\
     - Be practical and honest about feasibility\n\
     - Tailor your analysis to the idea's nature and scale\n\
     - Include any other insights particularly important for that idea";

/// The header under which the token travels.
pub const KEY_HEADER: &'static str = "x-goog-api-key";

/// How the standard library writes a list of texts out for inspection: in
/// square brackets, each text in double quotes and with its special
/// characters escaped, a comma and a space between two.
pub uninterp spec fn debug_text(ideas: Seq<Seq<char>>) -> Seq<char>;

/// The `{:?}` form of a vector of strings, by `format!` of the standard
/// library. The contract gives the result its name and claims no more: the
/// same texts are always written out the same way.
#[verifier::external_body]
fn debug_list(ideas: &Vec<String>) -> (r: String)
    ensures
        r@ == debug_text(texts(ideas@)),
{
    format!("{:?}", ideas)
}

/// The prompt around a list of ideas that is already written out.
pub open spec fn prompt_text(listed: Seq<char>) -> Seq<char> {
    PROMPT_OPEN@ + listed + PROMPT_CLOSE@
}

/// Puts the prompt around a list of ideas that is already written out.
pub fn prompt_around(listed: &str) -> (prompt: String)
    ensures
        prompt@ == prompt_text(listed@),
{
    let mut prompt = PROMPT_OPEN.to_owned();
    prompt.append(listed);
    prompt.append(PROMPT_CLOSE);
    prompt
}

/// The prompt that asks for an analysis of `ideas`.
pub fn build_prompt(ideas: &Vec<String>) -> (prompt: String)
    ensures
        prompt@ == prompt_text(debug_text(texts(ideas@))),
{
    let listed = debug_list(ideas);
    prompt_around(listed.as_str())
}

/// What is sent to the analysis: where to, the token and the header it
/// travels under, and the prompt.
#[derive(Debug)]
pub struct AnalysisRequest {
    pub endpoint: String,
    pub key_header: String,
    pub key: String,
    pub prompt: String,
}

/// The request that carries `prompt` to the service that `config` names.
pub fn get_request(config: &AIClientConfig, prompt: String) -> (request: AnalysisRequest)
    ensures
        request.endpoint@ == config@.ai_client.spec_endpoint(),
        request.key_header@ == KEY_HEADER@,
        request.key@ == config@.bearer_token,
        request.prompt@ == prompt@,
{
    AnalysisRequest {
        endpoint: config.ai_client().endpoint().to_owned(),
        key_header: KEY_HEADER.to_owned(),
        key: config.bearer_token().clone(),
        prompt,
    }
}

} // verus!
