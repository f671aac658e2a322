//! Dialogue identifiers, the scripted steps they resolve to, and the session
//! logic that opens, advances and closes a dialogue display.

use vstd::prelude::*;

use crate::typewriter::DialogueTypewriter;

verus! {

/// The symbolic identifiers a collectible can carry; each resolves to the
/// first step of its scripted dialogue.
#[derive(Clone, Copy, PartialEq, Eq, Structural, Debug)]
pub enum Dialogues {
    RelaxGuy,
    Romantic,
    Antichrist,
    Khole,
    Acid,
    Women,
}

/// A step's optional audio reference and whether it loops for the step's
/// duration. Playback stops implicitly when the display is despawned or
/// replaced.
#[derive(Clone, Copy, Debug)]
pub struct AudioCue {
    pub path: &'static str,
    pub looping: bool,
}

/// What a dismiss action does on a step: close the display, or replace its
/// content in place with the next step of the script.
pub enum Advance {
    Close,
    Branch(Box<DialogueStep>),
}

/// One scripted dialogue step: who speaks, the full body text, the portrait
/// and audio references, the reveal rate of its typewriter, and the advance
/// rule.
pub struct DialogueStep {
    pub speaker: &'static str,
    pub body: &'static str,
    pub portrait: &'static str,
    pub audio: Option<AudioCue>,
    pub chars_per_sec: u32,
    pub advance: Advance,
}

/// Directive to the input layer: suspend or restore player control.
pub enum PlayerControl {
    DisablePlayer,
    EnablePlayer,
}

/// An open dialogue: the step on display and the typewriter revealing its
/// text. Created when a step opens, destroyed when the display is dismissed
/// or replaced by a branch.
pub struct DialogueSession {
    pub step: DialogueStep,
    pub typewriter: DialogueTypewriter,
}

/// The step's textual and asset content, field by field.
pub open spec fn step_content_is(
    s: DialogueStep,
    speaker: Seq<char>,
    body: Seq<char>,
    portrait: Seq<char>,
    rate: u32,
) -> bool {
    &&& s.speaker@ == speaker
    &&& s.body@ == body
    &&& s.portrait@ == portrait
    &&& s.chars_per_sec == rate
}

/// The cue plays the given audio reference, looping or once.
pub open spec fn cue_is(c: Option<AudioCue>, path: Seq<char>, looping: bool) -> bool {
    &&& c matches Some(cue)
    &&& cue.path@ == path
    &&& cue.looping == looping
}

/// The scripted step each dialogue identifier resolves to.
pub open spec fn step_ok(id: Dialogues, s: DialogueStep) -> bool {
    match id {
        Dialogues::RelaxGuy => {
            &&& step_content_is(s, "Orange Man"@, "Relax Guy"@, "orangeman.gif"@, 15)
            &&& cue_is(s.audio, "orange_talk.ogg"@, true)
            &&& s.advance is Close
        },
        Dialogues::Romantic => {
            &&& step_content_is(
                s,
                "Applestein"@,
                "ê–á’·á’²á’²á’· âŠ£ğ™¹á’·Ê–Ê–á’·ê–á“­ â„¸â‘á”‘â„¸ âˆ´á’·á’·ãƒªâ•á’·"@,
                "applestein.gif"@,
                15,
            )
            &&& cue_is(s.audio, "enchantment.ogg"@, false)
            &&& s.advance matches Advance::Branch(next) && {
                &&& step_content_is(
                    *next,
                    "Orange Man"@,
                    "Oh Applestein, show me what you did with Bubb - Oh you're back already, what do you want? Get back to work"@,
                    "orangeman.gif"@,
                    15,
                )
                &&& cue_is(next.audio, "orange_talk.ogg"@, false)
                &&& next.advance is Close
            }
        },
        Dialogues::Antichrist => {
            &&& step_content_is(
                s,
                "Orange Man"@,
                "Please stop talking to me about the Antichrist"@,
                "orangeman.gif"@,
                15,
            )
            &&& cue_is(s.audio, "orange_talk.ogg"@, true)
            &&& s.advance is Close
        },
        Dialogues::Khole => {
            &&& step_content_is(
                s,
                "Orange Man"@,
                "AAAAAAAAAAAAAAAAAND im in a k-hole"@,
                "orangeman.gif"@,
                15,
            )
            &&& cue_is(s.audio, "orange_talk.ogg"@, true)
            &&& s.advance is Close
        },
        Dialogues::Acid => {
            &&& step_content_is(
                s,
                "Applestein"@,
                "á“µá”‘ãƒª â• âŠ£á’·â„¸ á”‘ â„¸á”‘Ì‡/ âˆ·á’·â„¸âšâˆ·ãƒª ğ™¹ãƒª â„¸â‘á’· á“­âšê–â“âšâˆ·â•á“µ á”‘á“µâ•â†¸ â• âšá“­á’·â†¸ â“ğ™¹âˆ· â†¸â•á“­á“­ğ™¹ê–âŠâ•ãƒªâŠ£ â„¸â‘á’· á“µâ‘â•ê–â†¸âˆ·á’·ãƒª âˆ´á’· á”‘Ê–âšá“­á’·â†¸?"@,
                "applestein.gif"@,
                25,
            )
            &&& cue_is(s.audio, "enchantment.ogg"@, true)
            &&& s.advance is Close
        },
        Dialogues::Women => {
            &&& step_content_is(
                s,
                "Orange Man"@,
                "Women i have respect for woman, maybe the most respect anyone has for them. Friends of mine are women believe it or not i have lots of friends old ones young ones it doesnt matter its all the same to me"@,
                "orangeman.gif"@,
                30,
            )
            &&& cue_is(s.audio, "orange_talk.ogg"@, true)
            &&& s.advance is Close
        },
    }
}

/// A typewriter freshly attached to a step: configured with the step's
/// reveal rate, nothing captured, nothing revealed.
pub open spec fn fresh_for(t: DialogueTypewriter, s: DialogueStep) -> bool {
    &&& t.chars_per_sec == s.chars_per_sec
    &&& t.full_text is None
    &&& t.revealed_milli == 0
}

/// Resolves a dialogue identifier to the first step of its script.
pub fn step_for(id: Dialogues) -> (s: DialogueStep)
    ensures
        step_ok(id, s),
{
    match id {
        Dialogues::RelaxGuy => DialogueStep {
            speaker: "Orange Man",
            body: "Relax Guy",
            portrait: "orangeman.gif",
            audio: Some(AudioCue { path: "orange_talk.ogg", looping: true }),
            chars_per_sec: 15,
            advance: Advance::Close,
        },
        Dialogues::Romantic => DialogueStep {
            speaker: "Applestein",
            body: "ê–á’·á’²á’²á’· âŠ£ğ™¹á’·Ê–Ê–á’·ê–á“­ â„¸â‘á”‘â„¸ âˆ´á’·á’·ãƒªâ•á’·",
            portrait: "applestein.gif",
            audio: Some(AudioCue { path: "enchantment.ogg", looping: false }),
            chars_per_sec: 15,
            advance: Advance::Branch(
                Box::new(
                    DialogueStep {
                        speaker: "Orange Man",
                        body: "Oh Applestein, show me what you did with Bubb - Oh you're back already, what do you want? Get back to work",
                        portrait: "orangeman.gif",
                        audio: Some(AudioCue { path: "orange_talk.ogg", looping: false }),
                        chars_per_sec: 15,
                        advance: Advance::Close,
                    },
                ),
            ),
        },
        Dialogues::Antichrist => DialogueStep {
            speaker: "Orange Man",
            body: "Please stop talking to me about the Antichrist",
            portrait: "orangeman.gif",
            audio: Some(AudioCue { path: "orange_talk.ogg", looping: true }),
            chars_per_sec: 15,
            advance: Advance::Close,
        },
        Dialogues::Khole => DialogueStep {
            speaker: "Orange Man",
            body: "AAAAAAAAAAAAAAAAAND im in a k-hole",
            portrait: "orangeman.gif",
            audio: Some(AudioCue { path: "orange_talk.ogg", looping: true }),
            chars_per_sec: 15,
            advance: Advance::Close,
        },
        Dialogues::Acid => DialogueStep {
            speaker: "Applestein",
            body: "á“µá”‘ãƒª â• âŠ£á’·â„¸ á”‘ â„¸á”‘Ì‡/ âˆ·á’·â„¸âšâˆ·ãƒª ğ™¹ãƒª â„¸â‘á’· á“­âšê–â“âšâˆ·â•á“µ á”‘á“µâ•â†¸ â• âšá“­á’·â†¸ â“ğ™¹âˆ· â†¸â•á“­á“­ğ™¹ê–âŠâ•ãƒªâŠ£ â„¸â‘á’· á“µâ‘â•ê–â†¸âˆ·á’·ãƒª âˆ´á’· á”‘Ê–âšá“­á’·â†¸?",
            portrait: "applestein.gif",
            audio: Some(AudioCue { path: "enchantment.ogg", looping: true }),
            chars_per_sec: 25,
            advance: Advance::Close,
        },
        Dialogues::Women => DialogueStep {
            speaker: "Orange Man",
            body: "Women i have respect for woman, maybe the most respect anyone has for them. Friends of mine are women believe it or not i have lots of friends old ones young ones it doesnt matter its all the same to me",
            portrait: "orangeman.gif",
            audio: Some(AudioCue { path: "orange_talk.ogg", looping: true }),
            chars_per_sec: 30,
            advance: Advance::Close,
        },
    }
}

/// The scripted opening monologue, shown once at level start.
pub open spec fn intro_step_ok(s: DialogueStep) -> bool {
    &&& step_content_is(
        s,
        "Orange Man"@,
        "I lost some files i mean no the files are strategically placed in the orfice. I am a money man i dont have time sorting through bureaucracy, the money today is in making stuff like fruit bowlia, like making it a really good place again. Anyways return the files to me and no peeking"@,
        "orangeman.gif"@,
        30,
    )
    &&& cue_is(s.audio, "orange_talk.ogg"@, true)
    &&& s.advance is Close
}

/// Opens the introductory dialogue: a session on its step, a fresh
/// typewriter, and player control suspended while it is on display.
pub fn intro() -> (r: (DialogueSession, PlayerControl))
    ensures
        intro_step_ok(r.0.step),
        fresh_for(r.0.typewriter, r.0.step),
        r.1 is DisablePlayer,
{
    let step = DialogueStep {
        speaker: "Orange Man",
        body: "I lost some files i mean no the files are strategically placed in the orfice. I am a money man i dont have time sorting through bureaucracy, the money today is in making stuff like fruit bowlia, like making it a really good place again. Anyways return the files to me and no peeking",
        portrait: "orangeman.gif",
        audio: Some(AudioCue { path: "orange_talk.ogg", looping: true }),
        chars_per_sec: 30,
        advance: Advance::Close,
    };
    let typewriter = DialogueTypewriter::new(step.chars_per_sec);
    (DialogueSession { step, typewriter }, PlayerControl::DisablePlayer)
}

/// The command that opens the dialogue a collected item refers to.
pub struct StartDialogue(pub Dialogues);

impl StartDialogue {
    /// Resolves the identifier and opens its first step: a session with a
    /// fresh typewriter, and player control suspended while the dialogue is
    /// on display.
    pub fn apply(self) -> (r: (DialogueSession, PlayerControl))
        ensures
            step_ok(self.0, r.0.step),
            fresh_for(r.0.typewriter, r.0.step),
            r.1 is DisablePlayer,
    {
        let step = step_for(self.0);
        let typewriter = DialogueTypewriter::new(step.chars_per_sec);
        (DialogueSession { step, typewriter }, PlayerControl::DisablePlayer)
    }
}

/// What a dismiss action resolved to.
pub enum DismissResult {
    /// The step closed: the display despawns and the carried directive
    /// restores player control.
    Closed(PlayerControl),
    /// The step branched: the display's content is replaced in place by the
    /// new session's step, with a fresh typewriter; control stays suspended.
    Branched(DialogueSession),
}

impl DialogueSession {
    /// Handles a dismiss action on this session. A click-to-close step ends
    /// the dialogue and restores player control; a click-to-branch step
    /// yields a new session on the next step whose typewriter starts over —
    /// reveal progress never carries across a branch.
    pub fn dismiss(self) -> (r: DismissResult)
        ensures
            self.step.advance is Close ==> (r matches DismissResult::Closed(c)
                && c is EnablePlayer),
            self.step.advance matches Advance::Branch(next) ==> (r
                matches DismissResult::Branched(s2) && s2.step == *next && fresh_for(
                s2.typewriter,
                *next,
            )),
    {
        match self.step.advance {
            Advance::Close => DismissResult::Closed(PlayerControl::EnablePlayer),
            Advance::Branch(next) => {
                let step = *next;
                let typewriter = DialogueTypewriter::new(step.chars_per_sec);
                DismissResult::Branched(DialogueSession { step, typewriter })
            },
        }
    }
}

/// A referenced asset the loader could not resolve; the step still opened,
/// with placeholder content, and this record is handed back for logging.
pub struct MissingAsset {
    pub path: &'static str,
}

/// A step's displayable asset references after resolution.
pub struct DisplayAssets {
    pub portrait: &'static str,
    pub audio: Option<AudioCue>,
}

/// Substitutes placeholder content for asset references the loader could not
/// resolve. Unresolved references are non-fatal: the portrait falls back to
/// a placeholder image, unresolvable audio is simply not played, and one
/// warning per missing asset is returned for logging.
pub fn resolve_assets(step: &DialogueStep, portrait_ok: bool, audio_ok: bool) -> (r: (
    DisplayAssets,
    Vec<MissingAsset>,
))
    ensures
        portrait_ok ==> r.0.portrait@ == step.portrait@,
        !portrait_ok ==> r.0.portrait@ == "placeholder.gif"@,
        audio_ok ==> r.0.audio == step.audio,
        !audio_ok ==> r.0.audio is None,
        r.1@ =~= (if portrait_ok {
            Seq::<MissingAsset>::empty()
        } else {
            seq![MissingAsset { path: step.portrait }]
        }) + (match step.audio {
            Some(cue) => if audio_ok {
                Seq::<MissingAsset>::empty()
            } else {
                seq![MissingAsset { path: cue.path }]
            },
            None => Seq::<MissingAsset>::empty(),
        }),
{
    let mut warnings: Vec<MissingAsset> = Vec::new();
    let portrait: &'static str = if portrait_ok {
        step.portrait
    } else {
        warnings.push(MissingAsset { path: step.portrait });
        "placeholder.gif"
    };
    let audio: Option<AudioCue> = if audio_ok {
        step.audio
    } else {
        match step.audio {
            Some(cue) => {
                warnings.push(MissingAsset { path: cue.path });
                None
            },
            None => None,
        }
    };
    (DisplayAssets { portrait, audio }, warnings)
}

} // verus!
