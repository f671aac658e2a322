use stoned::dialogue::intro;
use stoned::dialogue::resolve_assets;
use stoned::dialogue::step_for;
use stoned::dialogue::Advance;
use stoned::dialogue::Dialogues;
use stoned::dialogue::DismissResult;
use stoned::dialogue::PlayerControl;
use stoned::dialogue::StartDialogue;
use stoned::progress::Notice;
use stoned::progress::Progress;
use stoned::progress::File;

#[test]
fn every_script_names_its_speaker_and_rate() {
    let relax = step_for(Dialogues::RelaxGuy);
    assert_eq!(relax.speaker, "Orange Man");
    assert_eq!(relax.body, "Relax Guy");
    assert_eq!(relax.portrait, "orangeman.gif");
    assert_eq!(relax.chars_per_sec, 15);
    let cue = relax.audio.expect("the relax script talks");
    assert_eq!(cue.path, "orange_talk.ogg");
    assert!(cue.looping);
    assert!(matches!(relax.advance, Advance::Close));

    let antichrist = step_for(Dialogues::Antichrist);
    assert_eq!(antichrist.body, "Please stop talking to me about the Antichrist");
    assert_eq!(antichrist.chars_per_sec, 15);

    let khole = step_for(Dialogues::Khole);
    assert_eq!(khole.body, "AAAAAAAAAAAAAAAAAND im in a k-hole");

    let acid = step_for(Dialogues::Acid);
    assert_eq!(acid.speaker, "Applestein");
    assert_eq!(acid.portrait, "applestein.gif");
    assert_eq!(acid.chars_per_sec, 25);
    let acid_cue = acid.audio.expect("the acid script chants");
    assert_eq!(acid_cue.path, "enchantment.ogg");
    assert!(acid_cue.looping);

    let women = step_for(Dialogues::Women);
    assert_eq!(women.chars_per_sec, 30);
    assert!(women.body.starts_with("Women i have respect for woman"));
}

#[test]
fn opening_a_dialogue_suspends_control_and_attaches_a_fresh_typewriter() {
    let (session, control) = StartDialogue(Dialogues::Women).apply();
    assert!(matches!(control, PlayerControl::DisablePlayer));
    assert_eq!(session.typewriter.chars_per_sec, session.step.chars_per_sec);
    assert!(session.typewriter.full_text.is_none());
    assert_eq!(session.typewriter.revealed_milli, 0);
}

#[test]
fn the_intro_monologue_opens_at_level_start() {
    let (session, control) = intro();
    assert!(matches!(control, PlayerControl::DisablePlayer));
    assert_eq!(session.step.speaker, "Orange Man");
    assert!(session.step.body.starts_with("I lost some files"));
    assert_eq!(session.step.chars_per_sec, 30);
    let cue = session.step.audio.expect("the intro talks");
    assert!(cue.looping);
}

#[test]
fn dismissing_a_closing_step_restores_control() {
    let (session, _) = StartDialogue(Dialogues::Khole).apply();
    match session.dismiss() {
        DismissResult::Closed(control) => {
            assert!(matches!(control, PlayerControl::EnablePlayer))
        }
        DismissResult::Branched(_) => panic!("a click-to-close step must not branch"),
    }
}

#[test]
fn branching_resets_the_typewriter_and_discards_the_old_text() {
    let (mut session, _) = StartDialogue(Dialogues::Romantic).apply();
    let first_body = session.step.body;
    // reveal a little of the first step before dismissing it
    let shown = session.typewriter.tick(first_body, 2_000);
    assert!(!shown.is_empty());
    assert!(session.typewriter.revealed_milli > 0);
    match session.dismiss() {
        DismissResult::Branched(next) => {
            assert_eq!(next.step.speaker, "Orange Man");
            assert!(next.step.body.starts_with("Oh Applestein"));
            assert_ne!(next.step.body, first_body);
            // the new typewriter starts over: nothing carried across the branch
            assert_eq!(next.typewriter.revealed_milli, 0);
            assert!(next.typewriter.full_text.is_none());
            assert!(matches!(next.step.advance, Advance::Close));
            let cue = next.step.audio.expect("the reply talks once");
            assert!(!cue.looping);
        }
        DismissResult::Closed(_) => panic!("the romance script has a second step"),
    }
}

#[test]
fn missing_assets_fall_back_to_placeholders_with_warnings() {
    let step = step_for(Dialogues::RelaxGuy);
    let (display, warnings) = resolve_assets(&step, true, true);
    assert_eq!(display.portrait, "orangeman.gif");
    assert!(display.audio.is_some());
    assert!(warnings.is_empty());

    let (display, warnings) = resolve_assets(&step, false, true);
    assert_eq!(display.portrait, "placeholder.gif");
    assert_eq!(warnings.len(), 1);
    assert_eq!(warnings[0].path, "orangeman.gif");

    let (display, warnings) = resolve_assets(&step, true, false);
    assert!(display.audio.is_none());
    assert_eq!(warnings.len(), 1);
    assert_eq!(warnings[0].path, "orange_talk.ogg");

    let (_, warnings) = resolve_assets(&step, false, false);
    assert_eq!(warnings.len(), 2);
    assert_eq!(warnings[0].path, "orangeman.gif");
    assert_eq!(warnings[1].path, "orange_talk.ogg");
}

#[test]
fn a_pickup_notice_opens_the_dialogue_it_references() {
    let mut p = Progress::new(2, 300_000);
    let item = File {
        file: String::from("memo.blob"),
        sound: String::from("pickup.ogg"),
        dialogue: Dialogues::Acid,
    };
    let notices = p.register_collection(&item);
    assert_eq!(notices.len(), 1);
    match &notices[0] {
        Notice::FileCollected { dialogue, .. } => {
            let (session, control) = StartDialogue(*dialogue).apply();
            assert!(matches!(control, PlayerControl::DisablePlayer));
            assert_eq!(session.step.chars_per_sec, 25);
            assert_eq!(session.step.speaker, "Applestein");
        }
        _ => panic!("the pickup notice must come first"),
    }
}
