//! The decisions of the memorisation pipeline: how a conversation is shown
//! to the model, when a memory cell is cut, which extractors run on it, and
//! how prompt templates are filled.
use vstd::prelude::*;
use crate::prompts::{
    BOUNDARY_DETECTION_USER, EPISODE_GENERATION_USER, EVENT_LOG_USER, FORESIGHT_GENERATION_USER,
    GROUP_EPISODE_GENERATION_USER, GROUP_PROFILE_USER, PROFILE_LIFE_INITIAL_SYSTEM,
    PROFILE_LIFE_INITIAL_USER, PROFILE_LIFE_UPDATE_SYSTEM, PROFILE_LIFE_UPDATE_USER,
    PROFILE_PART1_SYSTEM, PROFILE_PART1_USER, PROFILE_PART2_SYSTEM, PROFILE_PART2_USER,
};
use crate::retrieval::{dedup_positions, kept_positions, law_kept_positions, law_dedup_covers_every_id, id_is_kept};
use crate::table::{inserted_all, KeyTable};
use crate::text::{chars_of, has_prefix_at, join, join_seq, push_char, push_str, str_eq, views};

verus! {

/// Scene type: decides which extractors run.
#[derive(Debug, Clone, Copy, PartialEq, Eq, Structural)]
pub enum SceneType {
    /// One-on-one assistant chat: every extractor runs.
    Assistant,
    /// Group chat: foresight and event logs are skipped.
    Group,
}

/// The scene of a request: a group chat exactly when it names a group.
pub fn scene_for(group_id: &Option<String>) -> (r: SceneType)
    ensures
        r == (if group_id.is_some() {
            SceneType::Group
        } else {
            SceneType::Assistant
        }),
{
    match group_id {
        Some(_) => SceneType::Group,
        None => SceneType::Assistant,
    }
}

/// The name the extractors call the user by: the display name, else the
/// id, else `unknown`.
pub fn extraction_user_name(user_name: Option<&str>, user_id: Option<&str>) -> (r: String)
    ensures
        r@ == (match user_name {
            Some(n) => n@,
            None => match user_id {
                Some(u) => u@,
                None => "unknown"@,
            },
        }),
{
    match user_name {
        Some(n) => n.to_owned(),
        None => match user_id {
            Some(u) => u.to_owned(),
            None => "unknown".to_owned(),
        },
    }
}

/// A message as the extractors read it: its `sender` and `content`
/// fields, each present only where it is a string.
#[derive(Debug, Clone)]
pub struct MessageView {
    pub sender: Option<String>,
    pub content: Option<String>,
}

pub open spec fn field_or(v: Option<String>, d: Seq<char>) -> Seq<char> {
    match v {
        Some(s) => s@,
        None => d,
    }
}

/// `sender: content`, with `unknown` and the empty text for missing fields.
pub open spec fn message_line(m: MessageView) -> Seq<char> {
    field_or(m.sender, "unknown"@) + ": "@ + field_or(m.content, Seq::empty())
}

/// The conversation as the model reads it: one line per message.
pub open spec fn conversation_text(ms: Seq<MessageView>) -> Seq<char> {
    join_seq(Seq::new(ms.len(), |i: int| message_line(ms[i])), "\n"@)
}

fn field_text<'a>(v: &'a Option<String>, d: &'a str) -> (r: &'a str)
    ensures
        r@ == field_or(*v, d@),
{
    match v {
        Some(s) => s.as_str(),
        None => d,
    }
}

/// Renders messages as `sender: content` lines.
pub fn format_messages(messages: &Vec<MessageView>) -> (r: String)
    ensures
        r@ == conversation_text(messages@),
{
    let mut lines: Vec<String> = Vec::new();
    let mut i: usize = 0;
    while i < messages.len()
        invariant
            i <= messages@.len(),
            lines@.len() == i,
            forall|k: int| 0 <= k < i ==> #[trigger] lines@[k]@ == message_line(messages@[k]),
        decreases messages@.len() - i,
    {
        let m = &messages[i];
        let mut line = field_text(&m.sender, "unknown").to_owned();
        push_str(&mut line, ": ");
        push_str(&mut line, field_text(&m.content, ""));
        proof {
            reveal_strlit("");
            assert(field_or(m.content, ""@) == field_or(m.content, Seq::empty()));
        }
        lines.push(line);
        i = i + 1;
    }
    let r = join(&lines, "\n");
    assert(views(lines@) =~= Seq::new(messages@.len(), |k: int| message_line(messages@[k])));
    r
}

/// Formats a conversation into readable text (the same as `format_messages`).
pub fn format_conversation(messages: &Vec<MessageView>) -> (r: String)
    ensures
        r@ == conversation_text(messages@),
{
    format_messages(messages)
}

/// The senders of the messages that have one, in order.
pub open spec fn present_senders(ms: Seq<MessageView>) -> Seq<Seq<char>>
    decreases ms.len(),
{
    if ms.len() == 0 {
        Seq::empty()
    } else {
        present_senders(ms.drop_last()) + match ms.last().sender {
            Some(s) => seq![s@],
            None => Seq::empty(),
        }
    }
}

/// Each distinct value once, in the order of its first occurrence.
pub open spec fn first_occurrences(ids: Seq<Seq<char>>) -> Seq<Seq<char>> {
    Seq::new(kept_positions(ids).len(), |a: int| ids[kept_positions(ids)[a] as int])
}

/// Each id appears once among the first occurrences, every id of the list
/// appears there, and nothing else does.
pub proof fn law_first_occurrences_once_each(ids: Seq<Seq<char>>)
    requires
        ids.len() <= usize::MAX,
    ensures
        first_occurrences(ids).no_duplicates(),
        forall|k: int| 0 <= k < ids.len() ==> first_occurrences(ids).contains(#[trigger] ids[k]),
        forall|a: int|
            0 <= a < first_occurrences(ids).len() ==> ids.contains(#[trigger] first_occurrences(ids)[a]),
{
    let f = first_occurrences(ids);
    let p = kept_positions(ids);
    law_kept_positions(ids);
    law_dedup_covers_every_id(ids);
    assert forall|a: int, b: int| 0 <= a < f.len() && 0 <= b < f.len() && a != b implies f[a]
        != f[b] by {
        assert(f[a] == ids[p[a] as int] && f[b] == ids[p[b] as int]);
    }
    assert forall|k: int| 0 <= k < ids.len() implies f.contains(#[trigger] ids[k]) by {
        assert(id_is_kept(ids, p, ids[k]));
        let a = choose|a: int| 0 <= a < p.len() && ids[p[a] as int] == ids[k];
        assert(f[a] == ids[k]);
    }
    assert forall|a: int| 0 <= a < f.len() implies ids.contains(#[trigger] f[a]) by {
        assert(f[a] == ids[p[a] as int]);
    }
}

/// The participants of a conversation: each sender once, in order of
/// first appearance.
pub fn extract_participants(messages: &Vec<MessageView>) -> (r: Vec<String>)
    ensures
        views(r@) == first_occurrences(present_senders(messages@)),
{
    let mut senders: Vec<String> = Vec::new();
    let mut i: usize = 0;
    while i < messages.len()
        invariant
            i <= messages@.len(),
            views(senders@) == present_senders(messages@.take(i as int)),
        decreases messages@.len() - i,
    {
        proof {
            assert(messages@.take(i + 1).drop_last() =~= messages@.take(i as int));
        }
        match &messages[i].sender {
            Some(s) => {
                senders.push(s.clone());
                assert(views(senders@) =~= present_senders(messages@.take(i + 1)));
            },
            None => {
                assert(views(senders@) =~= present_senders(messages@.take(i + 1)));
            },
        }
        i = i + 1;
    }
    assert(messages@.take(messages@.len() as int) =~= messages@);
    distinct_in_order(&senders)
}

/// The views of messages kept whole beside their views.
pub open spec fn message_views<M>(ms: Seq<(MessageView, M)>) -> Seq<MessageView> {
    ms.map_values(|p: (MessageView, M)| p.0)
}

/// The participants of whole messages, read through their views.
pub fn participants_of<M>(messages: &Vec<(MessageView, M)>) -> (r: Vec<String>)
    ensures
        views(r@) == first_occurrences(present_senders(message_views(messages@))),
{
    let ghost mv = message_views(messages@);
    let mut senders: Vec<String> = Vec::new();
    let mut i: usize = 0;
    while i < messages.len()
        invariant
            i <= messages@.len(),
            mv == message_views(messages@),
            views(senders@) == present_senders(mv.take(i as int)),
        decreases messages@.len() - i,
    {
        proof {
            assert(mv.take(i + 1).drop_last() =~= mv.take(i as int));
            assert(mv.take(i + 1).last() == messages@[i as int].0);
        }
        match &messages[i].0.sender {
            Some(s) => {
                senders.push(s.clone());
                assert(views(senders@) =~= present_senders(mv.take(i + 1)));
            },
            None => {
                assert(views(senders@) =~= present_senders(mv.take(i + 1)));
            },
        }
        i = i + 1;
    }
    assert(mv.take(messages@.len() as int) =~= mv);
    distinct_in_order(&senders)
}

fn distinct_in_order(senders: &Vec<String>) -> (r: Vec<String>)
    ensures
        views(r@) == first_occurrences(views(senders@)),
{
    let ghost ids = views(senders@);
    let n = senders.len();
    assert(ids.len() == n);
    let pos = dedup_positions(senders);
    proof {
        law_kept_positions(ids);
    }
    let mut r: Vec<String> = Vec::new();
    let mut a: usize = 0;
    while a < pos.len()
        invariant
            a <= pos@.len(),
            ids == views(senders@),
            pos@ == kept_positions(ids),
            forall|b: int| 0 <= b < pos@.len() ==> #[trigger] pos@[b] < ids.len(),
            r@.len() == a,
            forall|b: int| 0 <= b < a ==> #[trigger] r@[b]@ == ids[pos@[b] as int],
        decreases pos@.len() - a,
    {
        r.push(senders[pos[a]].clone());
        a = a + 1;
    }
    assert(views(r@) =~= first_occurrences(ids));
    r
}

/// A memory cell cut at a topic boundary, before it is stored: who it
/// belongs to, the whole messages it spans (each beside its view) and its
/// participants.
pub struct MemCellDraft<M> {
    pub user_id: Option<String>,
    pub group_id: Option<String>,
    pub messages: Vec<(MessageView, M)>,
    pub participants: Vec<String>,
}

/// Result of boundary detection.
pub enum BoundaryStatus<M> {
    /// The conversation crossed a boundary: the cell is complete.
    Extracted(MemCellDraft<M>),
    /// Still accumulating: not enough for a complete cell yet.
    Accumulating,
}

/// What follows the model's verdict on a boundary: nothing while the
/// conversation accumulates; else a cell over the history followed by the
/// new messages, whose participants are their distinct senders.
pub fn boundary_outcome<M>(
    is_boundary: bool,
    history: Vec<(MessageView, M)>,
    new_messages: Vec<(MessageView, M)>,
    user_id: Option<String>,
    group_id: Option<String>,
) -> (r: BoundaryStatus<M>)
    ensures
        !is_boundary ==> r is Accumulating,
        is_boundary ==> (match r {
            BoundaryStatus::Extracted(c) => {
                &&& c.user_id == user_id
                &&& c.group_id == group_id
                &&& c.messages@ == history@ + new_messages@
                &&& views(c.participants@) == first_occurrences(
                    present_senders(message_views(history@ + new_messages@)),
                )
            },
            BoundaryStatus::Accumulating => false,
        }),
{
    if !is_boundary {
        return BoundaryStatus::Accumulating;
    }
    let mut all = history;
    let mut rest = new_messages;
    all.append(&mut rest);
    let participants = participants_of(&all);
    BoundaryStatus::Extracted(MemCellDraft { user_id, group_id, messages: all, participants })
}

/// Result of the memorize operation.
pub struct MemorizeResult {
    pub status: String,
    pub message: String,
    /// How many new memory records were created.
    pub saved_count: usize,
}

impl MemorizeResult {
    /// The answer while no boundary has been reached.
    pub fn accumulating() -> (r: Self)
        ensures
            r.status@ == "accumulating"@,
            r.message@ == "Message buffered, boundary not yet reached"@,
            r.saved_count == 0,
    {
        MemorizeResult {
            status: "accumulating".to_owned(),
            message: "Message buffered, boundary not yet reached".to_owned(),
            saved_count: 0,
        }
    }

    /// The answer once a cell was saved and extraction started.
    pub fn extracted() -> (r: Self)
        ensures
            r.status@ == "extracted"@,
            r.message@ == "MemCell saved, memory extraction started"@,
            r.saved_count == 1,
    {
        MemorizeResult {
            status: "extracted".to_owned(),
            message: "MemCell saved, memory extraction started".to_owned(),
            saved_count: 1,
        }
    }
}

/// Which extractors run on a saved cell.
#[derive(Debug, Clone, Copy, PartialEq, Eq, Structural)]
pub struct ExtractionPlan {
    /// A first-person episode for the user.
    pub personal_episode: bool,
    /// A third-person episode for the group.
    pub group_episode: bool,
    pub foresight: bool,
    pub event_log: bool,
    /// The user's profile, merged with the stored one.
    pub profile: bool,
}

/// The extractors for a cell: the user's episode and profile when there is
/// a user; the group episode when the group has an id and a name; foresight
/// and event logs only for a user in an assistant chat.
pub fn extraction_plan(
    user_id: Option<&str>,
    group_id: Option<&str>,
    group_name: Option<&str>,
    scene: SceneType,
) -> (r: ExtractionPlan)
    ensures
        r.personal_episode == user_id.is_some(),
        r.group_episode == (group_id.is_some() && group_name.is_some()),
        r.foresight == (user_id.is_some() && scene == SceneType::Assistant),
        r.event_log == (user_id.is_some() && scene == SceneType::Assistant),
        r.profile == user_id.is_some(),
{
    let has_user = user_id.is_some();
    let assistant = match scene {
        SceneType::Assistant => true,
        SceneType::Group => false,
    };
    ExtractionPlan {
        personal_episode: has_user,
        group_episode: group_id.is_some() && group_name.is_some(),
        foresight: has_user && assistant,
        event_log: has_user && assistant,
        profile: has_user,
    }
}

/// What the memorize service does once the boundary verdict is known.
pub enum MemorizeAction<M> {
    /// Answer at once: the conversation is still accumulating.
    Reply(MemorizeResult),
    /// Store the cell, then continue with `after_save`.
    SaveCell(MemCellDraft<M>),
}

/// The step after boundary detection: an accumulating conversation is
/// answered at once; a cut cell is stored first.
pub fn after_boundary<M>(status: BoundaryStatus<M>) -> (r: MemorizeAction<M>)
    ensures
        match status {
            BoundaryStatus::Accumulating => r matches MemorizeAction::Reply(res) && res.status@
                == "accumulating"@ && res.message@ == "Message buffered, boundary not yet reached"@
                && res.saved_count == 0,
            BoundaryStatus::Extracted(c) => r == MemorizeAction::SaveCell(c),
        },
{
    match status {
        BoundaryStatus::Accumulating => MemorizeAction::Reply(MemorizeResult::accumulating()),
        BoundaryStatus::Extracted(c) => MemorizeAction::SaveCell(c),
    }
}

/// The extraction started in the background once a cell is stored.
pub struct ExtractionJob {
    pub scene: SceneType,
    pub user_id: Option<String>,
    /// The name the extractors call the user by.
    pub user_name: String,
    pub group_id: Option<String>,
    pub group_name: Option<String>,
    pub plan: ExtractionPlan,
}

/// The step after storing the cell: nothing when the store failed (the
/// failure is the answer); otherwise the `extracted` answer and the
/// extraction to start, whose scene follows the group, whose user name is
/// the display name, else the id, else `unknown`, and whose extractors
/// follow `extraction_plan`.
pub fn after_save(
    saved: bool,
    user_id: Option<String>,
    user_name: Option<String>,
    group_id: Option<String>,
    group_name: Option<String>,
) -> (r: Option<(MemorizeResult, ExtractionJob)>)
    ensures
        !saved ==> r is None,
        saved ==> (r matches Some((res, job)) && {
            &&& res.status@ == "extracted"@
            &&& res.message@ == "MemCell saved, memory extraction started"@
            &&& res.saved_count == 1
            &&& job.scene == (if group_id.is_some() {
                SceneType::Group
            } else {
                SceneType::Assistant
            })
            &&& job.user_name@ == (match user_name {
                Some(n) => n@,
                None => match user_id {
                    Some(u) => u@,
                    None => "unknown"@,
                },
            })
            &&& job.user_id == user_id
            &&& job.group_id == group_id
            &&& job.group_name == group_name
            &&& job.plan.personal_episode == user_id.is_some()
            &&& job.plan.group_episode == (group_id.is_some() && group_name.is_some())
            &&& job.plan.foresight == (user_id.is_some() && job.scene == SceneType::Assistant)
            &&& job.plan.event_log == (user_id.is_some() && job.scene == SceneType::Assistant)
            &&& job.plan.profile == user_id.is_some()
        }),
{
    if !saved {
        return None;
    }
    let scene = scene_for(&group_id);
    let name = match &user_name {
        Some(n) => extraction_user_name(Some(n.as_str()), None),
        None => match &user_id {
            Some(u) => extraction_user_name(None, Some(u.as_str())),
            None => extraction_user_name(None, None),
        },
    };
    let plan = extraction_plan(
        match &user_id {
            Some(u) => Some(u.as_str()),
            None => None,
        },
        match &group_id {
            Some(g) => Some(g.as_str()),
            None => None,
        },
        match &group_name {
            Some(g) => Some(g.as_str()),
            None => None,
        },
        scene,
    );
    Some((
        MemorizeResult::extracted(),
        ExtractionJob { scene, user_id, user_name: name, group_id, group_name, plan },
    ))
}

/// `w` before every character of `s` and once more at its end: what
/// `str::replace` does with an empty pattern.
pub open spec fn interleave(s: Seq<char>, w: Seq<char>) -> Seq<char>
    decreases s.len(),
{
    if s.len() == 0 {
        w
    } else {
        w + seq![s[0]] + interleave(s.skip(1), w)
    }
}

/// `s` with every non-overlapping occurrence of `p`, scanned left to
/// right, replaced by `w` (`str::replace`); an empty `p` matches before
/// every character and at the end.
pub open spec fn replace_spec(s: Seq<char>, p: Seq<char>, w: Seq<char>) -> Seq<char>
    decreases s.len(),
{
    if p.len() == 0 {
        interleave(s, w)
    } else if s.len() < p.len() {
        s
    } else if s.take(p.len() as int) == p {
        w + replace_spec(s.skip(p.len() as int), p, w)
    } else {
        seq![s[0]] + replace_spec(s.skip(1), p, w)
    }
}

proof fn lemma_replace_short(s: Seq<char>, p: Seq<char>, w: Seq<char>)
    requires
        0 < s.len(),
        s.len() < p.len(),
    ensures
        replace_spec(s, p, w) == seq![s[0]] + replace_spec(s.skip(1), p, w),
{
    assert(s =~= seq![s[0]] + s.skip(1));
}

/// Replaces every occurrence of `p` in `s` by `w`.
pub fn replace_all(s: &str, p: &str, w: &str) -> (r: String)
    ensures
        r@ == replace_spec(s@, p@, w@),
{
    let v = chars_of(s);
    let pv = chars_of(p);
    if pv.len() == 0 {
        return interleave_chars(&v, w);
    }
    let mut out = String::new();
    let mut i: usize = 0;
    assert(v@.skip(0) =~= v@);
    assert(out@ + v@.skip(0) =~= v@.skip(0));
    while i < v.len()
        invariant
            i <= v@.len(),
            v@ == s@,
            pv@ == p@,
            p@.len() > 0,
            out@ + replace_spec(v@.skip(i as int), p@, w@) == replace_spec(v@, p@, w@),
        decreases v@.len() - i,
    {
        let ghost rest = v@.skip(i as int);
        if has_prefix_at(&v, i, &pv) {
            proof {
                assert(rest.skip(p@.len() as int) =~= v@.skip(i + p@.len()));
                assert(out@ + w@ + replace_spec(rest.skip(p@.len() as int), p@, w@) =~= out@
                    + replace_spec(rest, p@, w@));
            }
            push_str(&mut out, w);
            i = i + pv.len();
        } else {
            proof {
                assert(rest.skip(1) =~= v@.skip(i + 1));
                assert(rest[0] == v@[i as int]);
                if rest.len() < p@.len() {
                    lemma_replace_short(rest, p@, w@);
                }
                assert(out@.push(v@[i as int]) + replace_spec(rest.skip(1), p@, w@) =~= out@
                    + replace_spec(rest, p@, w@));
            }
            push_char(&mut out, v[i]);
            i = i + 1;
        }
    }
    proof {
        assert(v@.skip(i as int) =~= Seq::<char>::empty());
        assert(out@ + Seq::<char>::empty() =~= out@);
    }
    out
}

fn interleave_chars(v: &Vec<char>, w: &str) -> (r: String)
    ensures
        r@ == interleave(v@, w@),
{
    let mut out = String::new();
    let mut i: usize = 0;
    assert(v@.skip(0) =~= v@);
    assert(out@ + interleave(v@.skip(0), w@) =~= interleave(v@, w@));
    while i < v.len()
        invariant
            i <= v@.len(),
            out@ + interleave(v@.skip(i as int), w@) == interleave(v@, w@),
        decreases v@.len() - i,
    {
        let ghost rest = v@.skip(i as int);
        let ghost before = out@;
        proof {
            assert(rest.skip(1) =~= v@.skip(i + 1));
            assert(rest[0] == v@[i as int]);
            assert(before + w@ + seq![v@[i as int]] + interleave(rest.skip(1), w@) =~= before
                + interleave(rest, w@));
        }
        push_str(&mut out, w);
        push_char(&mut out, v[i]);
        assert(out@ =~= before + w@ + seq![v@[i as int]]);
        i = i + 1;
    }
    proof {
        assert(v@.skip(i as int) =~= Seq::<char>::empty());
    }
    push_str(&mut out, w);
    out
}

/// Without an occurrence of the placeholder, replacing it changes nothing.
pub proof fn law_replace_without_occurrence(s: Seq<char>, p: Seq<char>, w: Seq<char>)
    requires
        p.len() > 0,
        forall|i: int| 0 <= i && i + p.len() <= s.len() ==> #[trigger] s.subrange(i, i + p.len()) != p,
    ensures
        replace_spec(s, p, w) == s,
    decreases s.len(),
{
    if s.len() >= p.len() {
        assert(s.take(p.len() as int) =~= s.subrange(0, p.len() as int));
        let z: int = 0;
        assert(s.subrange(z, z + p.len()) != p);
        assert(s.take(p.len() as int) != p);
        let t = s.skip(1);
        assert forall|i: int| 0 <= i && i + p.len() <= t.len() implies #[trigger] t.subrange(
            i,
            i + p.len(),
        ) != p by {
            assert(t.subrange(i, i + p.len()) =~= s.subrange(i + 1, i + 1 + p.len()));
        }
        law_replace_without_occurrence(t, p, w);
        assert(s =~= seq![s[0]] + t);
    }
}

proof fn lemma_interleave_nothing(s: Seq<char>)
    ensures
        interleave(s, Seq::empty()) == s,
    decreases s.len(),
{
    if s.len() > 0 {
        lemma_interleave_nothing(s.skip(1));
        assert(s =~= Seq::<char>::empty() + seq![s[0]] + s.skip(1));
    }
}

/// Replacing a placeholder by itself changes nothing.
pub proof fn law_replace_by_itself(s: Seq<char>, p: Seq<char>)
    ensures
        replace_spec(s, p, p) == s,
    decreases s.len(),
{
    if p.len() == 0 {
        lemma_interleave_nothing(s);
        assert(p =~= Seq::<char>::empty());
    } else if s.len() >= p.len() {
        if s.take(p.len() as int) == p {
            law_replace_by_itself(s.skip(p.len() as int), p);
            assert(s =~= p + s.skip(p.len() as int));
        } else {
            law_replace_by_itself(s.skip(1), p);
            assert(s =~= seq![s[0]] + s.skip(1));
        }
    }
}

/// The template after each `(placeholder, value)` slot was replaced in
/// turn, first slot first.
pub open spec fn fill_spec(t: Seq<char>, slots: Seq<(Seq<char>, Seq<char>)>) -> Seq<char>
    decreases slots.len(),
{
    if slots.len() == 0 {
        t
    } else {
        replace_spec(fill_spec(t, slots.drop_last()), slots.last().0, slots.last().1)
    }
}

pub open spec fn slot_views(v: Seq<(String, String)>) -> Seq<(Seq<char>, Seq<char>)> {
    Seq::new(v.len(), |i: int| (v[i].0@, v[i].1@))
}

/// Fills a prompt template: replaces each placeholder by its value, in
/// the order of the slots.
pub fn fill_template(template: &str, slots: &Vec<(String, String)>) -> (r: String)
    ensures
        r@ == fill_spec(template@, slot_views(slots@)),
{
    let mut out = template.to_owned();
    let mut i: usize = 0;
    while i < slots.len()
        invariant
            i <= slots@.len(),
            out@ == fill_spec(template@, slot_views(slots@).take(i as int)),
        decreases slots@.len() - i,
    {
        proof {
            assert(slot_views(slots@).take(i + 1).drop_last() =~= slot_views(slots@).take(
                i as int,
            ));
        }
        let next = replace_all(out.as_str(), slots[i].0.as_str(), slots[i].1.as_str());
        out = next;
        i = i + 1;
    }
    assert(slot_views(slots@).take(slots@.len() as int) =~= slot_views(slots@));
    out
}

fn fill2(template: &str, k1: &str, v1: &str, k2: &str, v2: &str) -> (r: String)
    ensures
        r@ == fill_spec(template@, seq![(k1@, v1@), (k2@, v2@)]),
{
    let mut slots: Vec<(String, String)> = Vec::new();
    slots.push((k1.to_owned(), v1.to_owned()));
    slots.push((k2.to_owned(), v2.to_owned()));
    let r = fill_template(template, &slots);
    assert(slot_views(slots@) =~= seq![(k1@, v1@), (k2@, v2@)]);
    r
}

fn fill3(template: &str, k1: &str, v1: &str, k2: &str, v2: &str, k3: &str, v3: &str) -> (r:
    String)
    ensures
        r@ == fill_spec(template@, seq![(k1@, v1@), (k2@, v2@), (k3@, v3@)]),
{
    let mut slots: Vec<(String, String)> = Vec::new();
    slots.push((k1.to_owned(), v1.to_owned()));
    slots.push((k2.to_owned(), v2.to_owned()));
    slots.push((k3.to_owned(), v3.to_owned()));
    let r = fill_template(template, &slots);
    assert(slot_views(slots@) =~= seq![(k1@, v1@), (k2@, v2@), (k3@, v3@)]);
    r
}

/// The boundary question: the history so far and the new messages.
pub fn boundary_prompt(history_text: &str, new_text: &str) -> (r: String)
    ensures
        r@ == fill_spec(
            BOUNDARY_DETECTION_USER@,
            seq![("{history}"@, history_text@), ("{new_messages}"@, new_text@)],
        ),
{
    fill2(BOUNDARY_DETECTION_USER, "{history}", history_text, "{new_messages}", new_text)
}

/// The request for the user's own episode of a conversation.
pub fn episode_prompt(user_name: &str, conversation: &str) -> (r: String)
    ensures
        r@ == fill_spec(
            EPISODE_GENERATION_USER@,
            seq![("{user_name}"@, user_name@), ("{conversation}"@, conversation@)],
        ),
{
    fill2(EPISODE_GENERATION_USER, "{user_name}", user_name, "{conversation}", conversation)
}

/// The request for a group's episode; participants are listed with `, `.
pub fn group_episode_prompt(group_name: &str, participants: &Vec<String>, conversation: &str) -> (r:
    String)
    ensures
        r@ == fill_spec(
            GROUP_EPISODE_GENERATION_USER@,
            seq![
                ("{group_name}"@, group_name@),
                ("{participants}"@, join_seq(views(participants@), ", "@)),
                ("{conversation}"@, conversation@),
            ],
        ),
{
    let listed = join(participants, ", ");
    fill3(
        GROUP_EPISODE_GENERATION_USER,
        "{group_name}",
        group_name,
        "{participants}",
        listed.as_str(),
        "{conversation}",
        conversation,
    )
}

/// The request for foresight: the current time, the user and the conversation.
pub fn foresight_prompt(current_time: &str, user_name: &str, conversation: &str) -> (r: String)
    ensures
        r@ == fill_spec(
            FORESIGHT_GENERATION_USER@,
            seq![
                ("{current_time}"@, current_time@),
                ("{user_name}"@, user_name@),
                ("{conversation}"@, conversation@),
            ],
        ),
{
    fill3(
        FORESIGHT_GENERATION_USER,
        "{current_time}",
        current_time,
        "{user_name}",
        user_name,
        "{conversation}",
        conversation,
    )
}

/// The request for the atomic facts of a conversation.
pub fn event_log_prompt(user_name: &str, conversation: &str) -> (r: String)
    ensures
        r@ == fill_spec(
            EVENT_LOG_USER@,
            seq![("{user_name}"@, user_name@), ("{conversation}"@, conversation@)],
        ),
{
    fill2(EVENT_LOG_USER, "{user_name}", user_name, "{conversation}", conversation)
}

/// The two halves of a profile, asked for separately.
#[derive(Debug, Clone, Copy, PartialEq, Eq, Structural)]
pub enum ProfilePart {
    /// Personality, interests, style, values, preferences.
    Personality,
    /// Occupation, location, education, skills, family, goals.
    Facts,
}

/// The system and user prompts of a profile part.
pub fn profile_part_prompts(part: ProfilePart) -> (r: (&'static str, &'static str))
    ensures
        r == (match part {
            ProfilePart::Personality => (PROFILE_PART1_SYSTEM, PROFILE_PART1_USER),
            ProfilePart::Facts => (PROFILE_PART2_SYSTEM, PROFILE_PART2_USER),
        }),
{
    match part {
        ProfilePart::Personality => (PROFILE_PART1_SYSTEM, PROFILE_PART1_USER),
        ProfilePart::Facts => (PROFILE_PART2_SYSTEM, PROFILE_PART2_USER),
    }
}

/// The request for a profile part: the user, the stored profile data as
/// JSON text, and the conversation.
pub fn profile_part_prompt(part: ProfilePart, user_name: &str, existing_data: &str, conversation: &str)
    -> (r: String)
    ensures
        r@ == fill_spec(
            match part {
                ProfilePart::Personality => PROFILE_PART1_USER@,
                ProfilePart::Facts => PROFILE_PART2_USER@,
            },
            seq![
                ("{user_name}"@, user_name@),
                ("{existing_data}"@, existing_data@),
                ("{conversation}"@, conversation@),
            ],
        ),
{
    let (_, template) = profile_part_prompts(part);
    fill3(
        template,
        "{user_name}",
        user_name,
        "{existing_data}",
        existing_data,
        "{conversation}",
        conversation,
    )
}

/// Whether a life summary is written for the first time or updated.
#[derive(Debug, Clone, Copy, PartialEq, Eq, Structural)]
pub enum LifeSummaryPhase {
    /// No profile was stored for the user.
    Initial,
    Update,
}

/// The phase: initial exactly when no profile was stored.
pub fn life_summary_phase(has_stored_profile: bool) -> (r: LifeSummaryPhase)
    ensures
        r == (if has_stored_profile {
            LifeSummaryPhase::Update
        } else {
            LifeSummaryPhase::Initial
        }),
{
    if has_stored_profile {
        LifeSummaryPhase::Update
    } else {
        LifeSummaryPhase::Initial
    }
}

/// The system and user prompts of a life-summary phase.
pub fn life_summary_prompts(phase: LifeSummaryPhase) -> (r: (&'static str, &'static str))
    ensures
        r == (match phase {
            LifeSummaryPhase::Initial => (PROFILE_LIFE_INITIAL_SYSTEM, PROFILE_LIFE_INITIAL_USER),
            LifeSummaryPhase::Update => (PROFILE_LIFE_UPDATE_SYSTEM, PROFILE_LIFE_UPDATE_USER),
        }),
{
    match phase {
        LifeSummaryPhase::Initial => (PROFILE_LIFE_INITIAL_SYSTEM, PROFILE_LIFE_INITIAL_USER),
        LifeSummaryPhase::Update => (PROFILE_LIFE_UPDATE_SYSTEM, PROFILE_LIFE_UPDATE_USER),
    }
}

/// The life-summary request: the user, the summary so far and the conversation.
pub fn life_summary_prompt(
    phase: LifeSummaryPhase,
    user_name: &str,
    summary: &str,
    conversation: &str,
) -> (r: String)
    ensures
        r@ == fill_spec(
            match phase {
                LifeSummaryPhase::Initial => PROFILE_LIFE_INITIAL_USER@,
                LifeSummaryPhase::Update => PROFILE_LIFE_UPDATE_USER@,
            },
            seq![
                ("{user_name}"@, user_name@),
                ("{existing_summary}"@, summary@),
                ("{conversation}"@, conversation@),
            ],
        ),
{
    let (_, template) = life_summary_prompts(phase);
    fill3(
        template,
        "{user_name}",
        user_name,
        "{existing_summary}",
        summary,
        "{conversation}",
        conversation,
    )
}

/// The group-profile request: the group, its stored profile as JSON text
/// (`{}` when none) and the conversation.
pub fn group_profile_prompt(
    group_id: &str,
    group_name: &str,
    existing_profile: Option<&str>,
    conversation: &str,
) -> (r: String)
    ensures
        r@ == fill_spec(
            GROUP_PROFILE_USER@,
            seq![
                ("{group_id}"@, group_id@),
                ("{group_name}"@, group_name@),
                ("{existing_profile}"@, match existing_profile {
                    Some(e) => e@,
                    None => "{}"@,
                }),
                ("{conversation}"@, conversation@),
            ],
        ),
{
    let existing = match existing_profile {
        Some(e) => e,
        None => "{}",
    };
    let mut slots: Vec<(String, String)> = Vec::new();
    slots.push(("{group_id}".to_owned(), group_id.to_owned()));
    slots.push(("{group_name}".to_owned(), group_name.to_owned()));
    slots.push(("{existing_profile}".to_owned(), existing.to_owned()));
    slots.push(("{conversation}".to_owned(), conversation.to_owned()));
    let r = fill_template(GROUP_PROFILE_USER, &slots);
    let ghost want = seq![
        ("{group_id}"@, group_id@),
        ("{group_name}"@, group_name@),
        ("{existing_profile}"@, match existing_profile {
            Some(e) => e@,
            None => "{}"@,
        }),
        ("{conversation}"@, conversation@),
    ];
    assert(slot_views(slots@)[2] == want[2]);
    assert(slot_views(slots@) =~= want);
    r
}

/// The stored profile data with the newly extracted parts laid over it:
/// first the personality part, then the factual part; a field a later
/// part gives replaces the earlier value.
pub fn merge_profile_data<V>(
    existing: Vec<(String, V)>,
    personality: Vec<(String, V)>,
    facts: Vec<(String, V)>,
) -> (r: KeyTable<V>)
    ensures
        r@ == inserted_all(
            inserted_all(inserted_all(Map::empty(), existing@), personality@),
            facts@,
        ),
{
    let mut t = KeyTable::from_pairs(existing);
    t.insert_all(personality);
    t.insert_all(facts);
    t
}

/// The life summary kept: the new one, or the previous one when the
/// model gave none.
pub fn life_summary_after(updated: Option<String>, previous: &str) -> (r: String)
    ensures
        r@ == (match updated {
            Some(s) => s@,
            None => previous@,
        }),
{
    match updated {
        Some(s) => s,
        None => previous.to_owned(),
    }
}

/// A list that is absent when empty.
pub fn non_empty_list<T>(v: Vec<T>) -> (r: Option<Vec<T>>)
    ensures
        r == (if v@.len() == 0 {
            None
        } else {
            Some(v)
        }),
{
    if v.len() == 0 {
        None
    } else {
        Some(v)
    }
}

/// The stored life summary shown to the model, or a note that there is none.
pub fn existing_summary(life_summary: Option<&str>) -> (r: &str)
    ensures
        r@ == (match life_summary {
            Some(s) => s@,
            None => "No existing summary."@,
        }),
{
    match life_summary {
        Some(s) => s,
        None => "No existing summary.",
    }
}

/// A group profile's subject: none when the model found none.
pub fn group_subject(subject: String) -> (r: Option<String>)
    ensures
        r == (if subject@.len() == 0 || subject@ == "not_found"@ {
            None
        } else {
            Some(subject)
        }),
{
    if subject.as_str().is_empty() || str_eq(subject.as_str(), "not_found") {
        None
    } else {
        Some(subject)
    }
}

/// A text field that is absent when empty.
pub fn non_empty(s: String) -> (r: Option<String>)
    ensures
        r == (if s@.len() == 0 {
            None
        } else {
            Some(s)
        }),
{
    if s.as_str().is_empty() {
        None
    } else {
        Some(s)
    }
}

} // verus!
