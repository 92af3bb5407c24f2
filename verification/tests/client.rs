use thought::client::{build_prompt, get_request, prompt_around};
use thought::reader_config::{AIClient, AIClientConfig};

fn prompt_for(listed: &str) -> String {
    format!(
        r#"I have a list of ideas - they could be startup ideas, product concepts, hobby projects, or experimental tools. For EACH idea below, provide relevant analysis and context.

**IMPORTANT**: 
- Assess the scale and nature of each idea (hobby project vs business venture vs research experiment)
- Only include sections that are meaningful for that specific idea
- If it's a hobby project, focus on learning opportunities, tech stack, and cool factor
- If it's a business idea, focus on market and monetization
- If unsure about something, say so
- Skip sections that don't apply

Consider including (when relevant):
- **Idea Type & Scale**: Is this a hobby project, side hustle, startup, or enterprise product?
- **What Makes This Interesting**: Why is this worth building or exploring?
- **Technical Approach**: Key technologies, architecture decisions, implementation complexity
- **Learning Opportunities**: New skills or concepts you'd gain (especially for hobby projects)
- **Market Analysis**: Market size, competitors, target users (for business ideas)
- **Business Model**: Revenue streams, monetization strategy (if applicable)
- **Time & Resource Estimate**: Rough effort required (hours/days/weeks/months)
- **Risks & Challenges**: Technical hurdles, market risks, or other obstacles
- **Similar Projects/Inspiration**: Existing tools or projects to learn from
- **Research Resources**: Relevant articles, papers, docs, or tutorials (with URLs when possible)
- **Next Steps**: Concrete first actions to validate or build this

**IDEAS:**

{}

For each idea:
- Use clear headings like "=== IDEA #1: [brief description] ==="
- Be practical and honest about feasibility
- Tailor your analysis to the idea's nature and scale
- Include any other insights particularly important for that idea"#,
        listed
    )
}

#[test]
fn the_prompt_stands_around_the_list() {
    assert_eq!(prompt_around("[\"b\"]"), prompt_for("[\"b\"]"));
    assert_eq!(prompt_around(""), prompt_for(""));
}

#[test]
fn ideas_are_listed_in_brackets_and_quotes() {
    let ideas = vec!["b".to_string()];
    assert_eq!(build_prompt(&ideas), prompt_for("[\"b\"]"));
}

#[test]
fn several_ideas_keep_their_order() {
    let ideas = vec!["first".to_string(), "second".to_string(), "third".to_string()];
    assert_eq!(
        build_prompt(&ideas),
        prompt_for("[\"first\", \"second\", \"third\"]")
    );
}

#[test]
fn special_characters_are_escaped() {
    let ideas = vec!["say \"hi\"\n".to_string()];
    assert_eq!(build_prompt(&ideas), prompt_for("[\"say \\\"hi\\\"\\n\"]"));
}

#[test]
fn no_ideas_make_an_empty_list() {
    assert_eq!(build_prompt(&Vec::new()), prompt_for("[]"));
}

#[test]
fn a_request_goes_to_the_configured_service() {
    let config = AIClientConfig::new("Bearer abc".to_string(), AIClient::Gemini);
    let request = get_request(&config, "what now?".to_string());
    assert_eq!(
        request.endpoint,
        "https://generativelanguage.googleapis.com/v1/models"
    );
    assert_eq!(request.key_header, "x-goog-api-key");
    assert_eq!(request.key, "Bearer abc");
    assert_eq!(request.prompt, "what now?");
}
