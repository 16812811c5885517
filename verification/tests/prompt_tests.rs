use toonana::prompt::{
    build_avatar_image_prompt, build_cartoonify_prompt, build_gemini_image_prompt,
    build_prompt_with_avatar_text, build_storyboard_prompt, build_storyboard_with_avatar_text,
    IMAGE_ONLY_INSTRUCTION,
};

#[test]
fn comic_prompt_embeds_style_and_storyboard() {
    let expected = r#"Task: Render a single-row comic with 3-4 panels from the storyboard.

Style: watercolor
Layout Guidelines:
- Layout: 3-4 panels, left-to-right in one horizontal row, equal width, small gutters.
- Keep characters consistent across panels (appearance, clothing, hair).
- Include speech bubbles and captions exactly as written in the storyboard.
- Avoid extra text, UI, or watermarks beyond bubbles/captions.
- Maintain clear line art, readable bubbles, cohesive backgrounds.
- Tone: light, charming, hopeful.

Output: One coherent 3-4 panel comic image (single row).

Storyboard:
Panel 1
Caption: Hello"#;
    assert_eq!(build_gemini_image_prompt("Panel 1\nCaption: Hello", "watercolor"), expected);
}

#[test]
fn storyboard_prompt_embeds_the_entry() {
    let expected = r#"You are a helpful assistant that writes a short 3‑panel comic storyboard from a journal entry.

Guidelines:
- Keep tone light, hopeful, and not too dark; find a positive spin.
- Avoid heavy or sensitive content; keep it PG and uplifting.
- Privacy: do not reveal personal or identifying information from the journal entry; do not quote it verbatim. Replace names, places, dates, or unique details with neutral terms (e.g., 'a friend', 'a cafe', 'today').
- Only include characters or speakers that are clearly present in the journal entry.
- Do NOT invent specific locations, props, or events beyond what the journal clearly implies. If details are unspecified, use a neutral everyday setting.
- Maintain continuity across panels.

Output strictly in this structure for exactly 3-4 panels (no extra commentary, no blank lines between panels):
Panel 1
Description: <one concise sentence describing what the viewer sees>
Caption: <optional; short; ≤ 12 words>
Character 1: <optional; dialogue or inner thought; ≤ 12 words>
Character 2: <optional; dialogue; ≤ 12 words>
Panel 2
Description: <visual description>
Caption: <optional>
Character 1: <optional>
Panel 3
Description: <visual description>
Caption: <optional>
Character 1: <optional>

Rules:
- If a field is not needed for a panel, omit that line entirely (do not write "none").
- Prefer everyday, grounded scenes that could plausibly match the journal entry.
- Use generic references (e.g., "a friend") instead of names. Do not quote the journal directly.

Journal Entry:
Went to the park today.
"#;
    assert_eq!(build_storyboard_prompt("Went to the park today."), expected);
}

#[test]
fn avatar_prompt_ends_with_the_description() {
    let expected = r#"Task: Render exactly one IMAGE of a single character portrait avatar in cartoon style.

Output Rules:
- Return IMAGE output only (no text content in the response).
- No acknowledgements, captions, watermarks, or UI elements.

Framing & Style:
- Waist-up framing, clean neutral background, neutral lighting.

Deliverable:
- One portrait image in cartoon style.

Character Description:
tall, red scarf"#;
    assert_eq!(build_avatar_image_prompt("tall, red scarf"), expected);
    assert!(build_avatar_image_prompt("").ends_with("Character Description:\n"));
}

#[test]
fn cartoonify_prompt_is_fixed() {
    let expected = r#"Task: Transform the provided person photo into a clean, stylized cartoon portrait avatar.

Output Rules:
- Return IMAGE output only (no text parts in the response).
- No watermarks, UI elements, or captions.

Framing & Style:
- Waist-up framing, clean neutral background, neutral lighting.
- Keep the person's identity: hair style, face shape, and key features should remain recognizable.
- Produce a polished, illustration-like look suitable for an avatar.

Deliverable:
- One portrait image in cartoon style of the same person in the photo."#;
    assert_eq!(build_cartoonify_prompt(), expected);
}

#[test]
fn description_is_appended_to_an_image_instruction() {
    assert_eq!(
        build_prompt_with_avatar_text("Draw this.", Some("green coat")),
        "Draw this.\n\nCharacter consistency: The protagonist must match this description consistently across images.\ngreen coat"
    );
    assert_eq!(build_prompt_with_avatar_text("Draw this.", None), "Draw this.");
    assert_eq!(build_prompt_with_avatar_text("Draw this.", Some("")), "Draw this.");
    assert_eq!(build_prompt_with_avatar_text("Draw this.", Some(" \t\n\u{a0}")), "Draw this.");
    assert_eq!(
        build_prompt_with_avatar_text("", Some(" x ")),
        "\n\nCharacter consistency: The protagonist must match this description consistently across images.\n x "
    );
}

#[test]
fn description_is_appended_to_a_storyboard() {
    assert_eq!(
        build_storyboard_with_avatar_text("Panel 1", Some("green coat")),
        "Panel 1\n\nCharacter consistency: The protagonist must match this description consistently across panels.\ngreen coat"
    );
    assert_eq!(build_storyboard_with_avatar_text("Panel 1", Some("   ")), "Panel 1");
    assert_eq!(build_storyboard_with_avatar_text("Panel 1", None), "Panel 1");
}

#[test]
fn second_request_instruction_is_fixed() {
    assert_eq!(
        IMAGE_ONLY_INSTRUCTION,
        "Return exactly one IMAGE. Do not include any text parts. If unsafe, return an IMAGE-only safe illustration."
    );
}
