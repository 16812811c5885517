//! The fixed instruction texts sent to the text and image models.

use vstd::prelude::*;
use crate::text::{join2, is_blank, trimmed};

verus! {

/// Opening of the storyboard instruction; the journal entry follows it.
pub const STORYBOARD_PROMPT_HEAD: &'static str =
    "You are a helpful assistant that writes a short 3\u{2011}panel comic storyboard from a journal entry.\n\nGuidelines:\n- Keep tone light, hopeful, and not too dark; find a positive spin.\n- Avoid heavy or sensitive content; keep it PG and uplifting.\n- Privacy: do not reveal personal or identifying information from the journal entry; do not quote it verbatim. Replace names, places, dates, or unique details with neutral terms (e.g., 'a friend', 'a cafe', 'today').\n- Only include characters or speakers that are clearly present in the journal entry.\n- Do NOT invent specific locations, props, or events beyond what the journal clearly implies. If details are unspecified, use a neutral everyday setting.\n- Maintain continuity across panels.\n\nOutput strictly in this structure for exactly 3-4 panels (no extra commentary, no blank lines between panels):\nPanel 1\nDescription: <one concise sentence describing what the viewer sees>\nCaption: <optional; short; \u{2264} 12 words>\nCharacter 1: <optional; dialogue or inner thought; \u{2264} 12 words>\nCharacter 2: <optional; dialogue; \u{2264} 12 words>\nPanel 2\nDescription: <visual description>\nCaption: <optional>\nCharacter 1: <optional>\nPanel 3\nDescription: <visual description>\nCaption: <optional>\nCharacter 1: <optional>\n\nRules:\n- If a field is not needed for a panel, omit that line entirely (do not write \"none\").\n- Prefer everyday, grounded scenes that could plausibly match the journal entry.\n- Use generic references (e.g., \"a friend\") instead of names. Do not quote the journal directly.\n\nJournal Entry:\n";

/// Opening of the comic instruction, up to the style.
pub const COMIC_PROMPT_HEAD: &'static str =
    "Task: Render a single-row comic with 3-4 panels from the storyboard.\n\nStyle: ";

/// Layout rules of the comic instruction, between the style and the
/// storyboard.
pub const COMIC_PROMPT_LAYOUT: &'static str =
    "\nLayout Guidelines:\n- Layout: 3-4 panels, left-to-right in one horizontal row, equal width, small gutters.\n- Keep characters consistent across panels (appearance, clothing, hair).\n- Include speech bubbles and captions exactly as written in the storyboard.\n- Avoid extra text, UI, or watermarks beyond bubbles/captions.\n- Maintain clear line art, readable bubbles, cohesive backgrounds.\n- Tone: light, charming, hopeful.\n\nOutput: One coherent 3-4 panel comic image (single row).\n\nStoryboard:\n";

/// Instruction for a portrait avatar; the character description follows it.
pub const AVATAR_PROMPT_HEAD: &'static str =
    "Task: Render exactly one IMAGE of a single character portrait avatar in cartoon style.\n\nOutput Rules:\n- Return IMAGE output only (no text content in the response).\n- No acknowledgements, captions, watermarks, or UI elements.\n\nFraming & Style:\n- Waist-up framing, clean neutral background, neutral lighting.\n\nDeliverable:\n- One portrait image in cartoon style.\n\nCharacter Description:\n";

/// Instruction for turning a photo into a cartoon portrait.
pub const CARTOONIFY_PROMPT: &'static str =
    "Task: Transform the provided person photo into a clean, stylized cartoon portrait avatar.\n\nOutput Rules:\n- Return IMAGE output only (no text parts in the response).\n- No watermarks, UI elements, or captions.\n\nFraming & Style:\n- Waist-up framing, clean neutral background, neutral lighting.\n- Keep the person's identity: hair style, face shape, and key features should remain recognizable.\n- Produce a polished, illustration-like look suitable for an avatar.\n\nDeliverable:\n- One portrait image in cartoon style of the same person in the photo.";

/// Heading under which a character description is appended to an image
/// instruction.
pub const IMAGE_CONSISTENCY_HEADING: &'static str =
    "\n\nCharacter consistency: The protagonist must match this description consistently across images.\n";

/// Heading under which a character description is appended to a storyboard
/// handed to the remote renderer.
pub const PANEL_CONSISTENCY_HEADING: &'static str =
    "\n\nCharacter consistency: The protagonist must match this description consistently across panels.\n";

/// System instruction of the second, stricter request for an image.
pub const IMAGE_ONLY_INSTRUCTION: &'static str =
    "Return exactly one IMAGE. Do not include any text parts. If unsafe, return an IMAGE-only safe illustration.";

/// The storyboard instruction for a journal entry.
pub open spec fn storyboard_prompt(entry_text: Seq<char>) -> Seq<char> {
    STORYBOARD_PROMPT_HEAD@ + entry_text + "\n"@
}

/// The comic instruction for a storyboard in a style.
pub open spec fn comic_image_prompt(storyboard_text: Seq<char>, style: Seq<char>) -> Seq<char> {
    COMIC_PROMPT_HEAD@ + style + COMIC_PROMPT_LAYOUT@ + storyboard_text
}

/// The avatar instruction for a character description.
pub open spec fn avatar_image_prompt(description: Seq<char>) -> Seq<char> {
    AVATAR_PROMPT_HEAD@ + description
}

/// `text`, followed by `heading` and the description where there is a
/// description that is more than white space.
pub open spec fn with_description(
    text: Seq<char>,
    heading: Seq<char>,
    description: Option<Seq<char>>,
) -> Seq<char> {
    match description {
        Some(d) => if trimmed(d).len() == 0 {
            text
        } else {
            text + heading + d
        },
        None => text,
    }
}

/// Builds the instruction that asks the text model for a storyboard of a
/// journal entry.
pub fn build_storyboard_prompt(entry_text: &str) -> (prompt: String)
    ensures
        prompt@ == storyboard_prompt(entry_text@),
{
    let mut out = join2(STORYBOARD_PROMPT_HEAD, entry_text);
    out.append("\n");
    out
}

/// Builds the instruction that asks the image model for a single-row comic
/// of the storyboard in the given style.
pub fn build_gemini_image_prompt(storyboard_text: &str, style: &str) -> (prompt: String)
    ensures
        prompt@ == comic_image_prompt(storyboard_text@, style@),
{
    let mut out = join2(COMIC_PROMPT_HEAD, style);
    out.append(COMIC_PROMPT_LAYOUT);
    out.append(storyboard_text);
    out
}

/// Builds the instruction that asks the image model for a portrait avatar.
pub fn build_avatar_image_prompt(description: &str) -> (prompt: String)
    ensures
        prompt@ == avatar_image_prompt(description@),
{
    join2(AVATAR_PROMPT_HEAD, description)
}

/// Builds the instruction that asks the image model to redraw a photo as a
/// cartoon portrait.
pub fn build_cartoonify_prompt() -> (prompt: String)
    ensures
        prompt@ == CARTOONIFY_PROMPT@,
{
    CARTOONIFY_PROMPT.to_owned()
}

fn append_description(text: &str, heading: &str, description: Option<&str>) -> (out: String)
    ensures
        out@ == with_description(
            text@,
            heading@,
            match description {
                Some(d) => Some(d@),
                None => None,
            },
        ),
{
    let mut out = text.to_owned();
    match description {
        Some(d) => {
            if !is_blank(d) {
                out.append(heading);
                out.append(d);
            }
        },
        None => {},
    }
    out
}

/// An image instruction with the character description, if any, appended so
/// that the protagonist stays the same across images.
pub fn build_prompt_with_avatar_text(prompt: &str, avatar_description: Option<&str>) -> (out:
    String)
    ensures
        out@ == with_description(
            prompt@,
            IMAGE_CONSISTENCY_HEADING@,
            match avatar_description {
                Some(d) => Some(d@),
                None => None,
            },
        ),
{
    append_description(prompt, IMAGE_CONSISTENCY_HEADING, avatar_description)
}

/// A storyboard for the remote renderer with the character description, if
/// any, appended so that the protagonist stays the same across panels.
pub fn build_storyboard_with_avatar_text(
    storyboard_text: &str,
    avatar_description: Option<&str>,
) -> (out: String)
    ensures
        out@ == with_description(
            storyboard_text@,
            PANEL_CONSISTENCY_HEADING@,
            match avatar_description {
                Some(d) => Some(d@),
                None => None,
            },
        ),
{
    append_description(storyboard_text, PANEL_CONSISTENCY_HEADING, avatar_description)
}

} // verus!
