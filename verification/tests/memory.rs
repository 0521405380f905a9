use evermemos_rs::memory::{after_boundary, after_save, MemorizeAction};
use evermemos_rs::memory::{
    boundary_outcome, boundary_prompt, episode_prompt, existing_summary, extract_participants,
    extraction_plan, extraction_user_name, fill_template, format_conversation, format_messages,
    group_episode_prompt, group_profile_prompt, group_subject, life_summary_phase,
    life_summary_after, life_summary_prompt, life_summary_prompts, merge_profile_data, non_empty,
    non_empty_list, profile_part_prompt, replace_all,
    scene_for, BoundaryStatus, LifeSummaryPhase, MemorizeResult, MessageView, ProfilePart,
    SceneType,
};
use evermemos_rs::prompts::{
    BOUNDARY_DETECTION_USER, EPISODE_GENERATION_USER, GROUP_PROFILE_USER,
    PROFILE_LIFE_INITIAL_SYSTEM, PROFILE_LIFE_UPDATE_SYSTEM, PROFILE_PART1_USER,
};

fn msg(sender: Option<&str>, content: Option<&str>) -> MessageView {
    MessageView { sender: sender.map(String::from), content: content.map(String::from) }
}

#[test]
fn messages_render_as_lines() {
    let ms = vec![msg(Some("alice"), Some("hi")), msg(None, Some("yo")), msg(Some("bob"), None)];
    assert_eq!(format_messages(&ms), "alice: hi\nunknown: yo\nbob: ");
    assert_eq!(format_conversation(&vec![]), "");
}

#[test]
fn participants_are_distinct_in_order() {
    let ms = vec![
        msg(Some("bob"), Some("1")),
        msg(None, Some("2")),
        msg(Some("alice"), Some("3")),
        msg(Some("bob"), Some("4")),
    ];
    assert_eq!(extract_participants(&ms), vec!["bob".to_string(), "alice".to_string()]);
}

#[test]
fn boundary_cuts_a_cell() {
    let h = vec![(msg(Some("a"), Some("x")), 10u32)];
    let n = vec![(msg(Some("b"), Some("y")), 11u32), (msg(Some("a"), Some("z")), 12u32)];
    assert!(matches!(
        boundary_outcome(false, h.clone(), n.clone(), None, None),
        BoundaryStatus::Accumulating
    ));
    match boundary_outcome(true, h, n, Some("u".into()), Some("g".into())) {
        BoundaryStatus::Extracted(c) => {
            assert_eq!(c.messages.len(), 3);
            assert_eq!(c.messages[2].0.content.as_deref(), Some("z"));
            assert_eq!(c.messages.iter().map(|m| m.1).collect::<Vec<_>>(), vec![10, 11, 12]);
            assert_eq!(c.participants, vec!["a".to_string(), "b".to_string()]);
            assert_eq!(c.user_id.as_deref(), Some("u"));
            assert_eq!(c.group_id.as_deref(), Some("g"));
        }
        BoundaryStatus::Accumulating => panic!("expected a cell"),
    }
}

#[test]
fn memorize_results() {
    let a = MemorizeResult::accumulating();
    assert_eq!((a.status.as_str(), a.message.as_str(), a.saved_count), ("accumulating", "Message buffered, boundary not yet reached", 0));
    let e = MemorizeResult::extracted();
    assert_eq!((e.status.as_str(), e.message.as_str(), e.saved_count), ("extracted", "MemCell saved, memory extraction started", 1));
}

#[test]
fn scene_and_user_name() {
    assert_eq!(scene_for(&Some("g".into())), SceneType::Group);
    assert_eq!(scene_for(&None), SceneType::Assistant);
    assert_eq!(extraction_user_name(Some("Ann"), Some("u1")), "Ann");
    assert_eq!(extraction_user_name(None, Some("u1")), "u1");
    assert_eq!(extraction_user_name(None, None), "unknown");
}

#[test]
fn plans_follow_the_scene() {
    let p = extraction_plan(Some("u"), None, None, SceneType::Assistant);
    assert!(p.personal_episode && p.foresight && p.event_log && p.profile && !p.group_episode);
    let g = extraction_plan(Some("u"), Some("g"), Some("Team"), SceneType::Group);
    assert!(g.personal_episode && g.group_episode && g.profile && !g.foresight && !g.event_log);
    let n = extraction_plan(None, Some("g"), None, SceneType::Group);
    assert!(!n.personal_episode && !n.group_episode && !n.foresight && !n.event_log && !n.profile);
}

#[test]
fn replace_matches_std() {
    for (s, p, w) in [
        ("aaa", "aa", "b"),
        ("{x} and {x}", "{x}", "y"),
        ("no match", "{z}", "q"),
        ("ab", "abc", "x"),
        ("xxaxx", "x", "[x]"),
        ("", "a", "b"),
        ("abc", "", "X"),
        ("", "", "X"),
        ("a{x}", "", ""),
    ] {
        assert_eq!(replace_all(s, p, w), s.replace(p, w));
    }
}

#[test]
fn templates_fill_in_order() {
    let slots = vec![("{a}".to_string(), "{b}".to_string()), ("{b}".to_string(), "B".to_string())];
    assert_eq!(fill_template("{a}-{b}", &slots), "B-B");
    assert_eq!(fill_template("plain", &vec![]), "plain");
}

#[test]
fn prompts_are_filled() {
    assert_eq!(
        boundary_prompt("H", "N"),
        BOUNDARY_DETECTION_USER.replace("{history}", "H").replace("{new_messages}", "N")
    );
    let e = episode_prompt("Ann", "conv");
    assert!(e.contains("User: Ann") && e.contains("conv") && !e.contains("{user_name}"));
    assert_eq!(e, EPISODE_GENERATION_USER.replace("{user_name}", "Ann").replace("{conversation}", "conv"));
    let g = group_episode_prompt("Team", &vec!["a".into(), "b".into()], "c");
    assert!(g.contains("Participants: a, b"));
    let p = profile_part_prompt(ProfilePart::Personality, "Ann", "{}", "c");
    assert_eq!(p, PROFILE_PART1_USER.replace("{user_name}", "Ann").replace("{conversation}", "c"));
    let gp = group_profile_prompt("g1", "Team", None, "c");
    assert_eq!(
        gp,
        GROUP_PROFILE_USER
            .replace("{group_id}", "g1")
            .replace("{group_name}", "Team")
            .replace("{existing_profile}", "{}")
            .replace("{conversation}", "c")
    );
}

#[test]
fn life_summary_phases() {
    assert_eq!(life_summary_phase(false), LifeSummaryPhase::Initial);
    assert_eq!(life_summary_phase(true), LifeSummaryPhase::Update);
    assert_eq!(life_summary_prompts(LifeSummaryPhase::Initial).0, PROFILE_LIFE_INITIAL_SYSTEM);
    assert_eq!(life_summary_prompts(LifeSummaryPhase::Update).0, PROFILE_LIFE_UPDATE_SYSTEM);
    let u = life_summary_prompt(LifeSummaryPhase::Update, "Ann", "old", "c");
    assert!(u.contains("Existing life summary: old"));
    assert_eq!(existing_summary(None), "No existing summary.");
    assert_eq!(existing_summary(Some("s")), "s");
}

#[test]
fn group_profile_fields() {
    assert_eq!(group_subject("".into()), None);
    assert_eq!(group_subject("not_found".into()), None);
    assert_eq!(group_subject("Hiking".into()), Some("Hiking".to_string()));
    assert_eq!(non_empty("".into()), None);
    assert_eq!(non_empty("s".into()), Some("s".to_string()));
}

#[test]
fn profile_parts_override_stored_fields() {
    let kv = |v: &[(&str, u32)]| -> Vec<(String, u32)> { v.iter().map(|(k, x)| (k.to_string(), *x)).collect() };
    let t = merge_profile_data(kv(&[("a", 1), ("b", 1), ("c", 1)]), kv(&[("b", 2)]), kv(&[("c", 3), ("d", 3)]));
    assert_eq!(t.len(), 4);
    assert_eq!(t.get("a"), Some(&1));
    assert_eq!(t.get("b"), Some(&2));
    assert_eq!(t.get("c"), Some(&3));
    assert_eq!(t.get("d"), Some(&3));
}

#[test]
fn life_summary_falls_back() {
    assert_eq!(life_summary_after(Some("new".into()), "old"), "new");
    assert_eq!(life_summary_after(None, "old"), "old");
    assert_eq!(non_empty_list::<u8>(vec![]), None);
    assert_eq!(non_empty_list(vec![1u8]), Some(vec![1u8]));
}

#[test]
fn memorize_steps() {
    let a: MemorizeAction<u8> = after_boundary(BoundaryStatus::Accumulating);
    match a {
        MemorizeAction::Reply(r) => assert_eq!(r.status, "accumulating"),
        MemorizeAction::SaveCell(_) => panic!("expected a reply"),
    }
    let cut = boundary_outcome(true, vec![(msg(Some("a"), Some("x")), 1u8)], vec![], None, None);
    assert!(matches!(after_boundary(cut), MemorizeAction::SaveCell(c) if c.messages.len() == 1));
    assert!(after_save(false, Some("u".into()), None, None, None).is_none());
    let (res, job) = after_save(true, Some("u".into()), None, Some("g".into()), Some("Team".into())).unwrap();
    assert_eq!((res.status.as_str(), res.saved_count), ("extracted", 1));
    assert_eq!(job.scene, SceneType::Group);
    assert_eq!(job.user_name, "u");
    assert!(job.plan.group_episode && !job.plan.foresight && job.plan.profile);
    let (_, solo) = after_save(true, None, Some("Ann".into()), None, None).unwrap();
    assert_eq!(solo.user_name, "Ann");
    assert_eq!(solo.scene, SceneType::Assistant);
    assert!(!solo.plan.personal_episode);
}

#[test]
fn empty_placeholder_fills_like_std() {
    assert_eq!(fill_template("ab", &vec![("".to_string(), "-".to_string())]), "ab".replace("", "-"));
}
