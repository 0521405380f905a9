//! Query tokenisation for keyword search, and the selectors that choose a
//! retrieval strategy and the memory tables it reads.
use vstd::prelude::*;
use vstd::hash_set::StringHashSet;
use crate::text::{all_ws, chars_of, trim, trim_seq, string_from_range, dec_seq, u64_to_string, push_str, is_blank, is_whitespace, is_ws, join, join_seq, lowercase, push_char, str_eq, to_lowercase, views, ascii_only, ascii_lower_seq};

verus! {

/// Words that keyword search ignores.
pub open spec fn is_stopword(w: Seq<char>) -> bool {
    ||| w == "a"@ ||| w == "an"@ ||| w == "the"@ ||| w == "is"@ ||| w == "are"@
    ||| w == "was"@ ||| w == "were"@ ||| w == "be"@ ||| w == "been"@ ||| w == "being"@
    ||| w == "have"@ ||| w == "has"@ ||| w == "had"@ ||| w == "do"@ ||| w == "does"@
    ||| w == "did"@ ||| w == "will"@ ||| w == "would"@ ||| w == "could"@
    ||| w == "should"@ ||| w == "may"@ ||| w == "might"@ ||| w == "must"@ ||| w == "can"@
    ||| w == "to"@ ||| w == "of"@ ||| w == "in"@ ||| w == "on"@ ||| w == "at"@
    ||| w == "for"@ ||| w == "with"@ ||| w == "by"@ ||| w == "from"@ ||| w == "as"@
    ||| w == "into"@ ||| w == "through"@ ||| w == "and"@ ||| w == "or"@ ||| w == "but"@
    ||| w == "if"@ ||| w == "that"@ ||| w == "this"@ ||| w == "these"@ ||| w == "those"@
    ||| w == "i"@ ||| w == "you"@ ||| w == "he"@ ||| w == "she"@ ||| w == "we"@
    ||| w == "they"@ ||| w == "it"@ ||| w == "my"@ ||| w == "your"@ ||| w == "his"@
    ||| w == "her"@ ||| w == "our"@ ||| w == "their"@ ||| w == "its"@
}

/// Tests [`is_stopword`].
pub fn is_stop_word(w: &str) -> (r: bool)
    ensures
        r == is_stopword(w@),
{
    str_eq(w, "a") || str_eq(w, "an") || str_eq(w, "the") || str_eq(w, "is") || str_eq(w, "are")
        || str_eq(w, "was") || str_eq(w, "were") || str_eq(w, "be") || str_eq(w, "been")
        || str_eq(w, "being") || str_eq(w, "have") || str_eq(w, "has") || str_eq(w, "had")
        || str_eq(w, "do") || str_eq(w, "does") || str_eq(w, "did") || str_eq(w, "will")
        || str_eq(w, "would") || str_eq(w, "could") || str_eq(w, "should") || str_eq(w, "may")
        || str_eq(w, "might") || str_eq(w, "must") || str_eq(w, "can") || str_eq(w, "to")
        || str_eq(w, "of") || str_eq(w, "in") || str_eq(w, "on") || str_eq(w, "at")
        || str_eq(w, "for") || str_eq(w, "with") || str_eq(w, "by") || str_eq(w, "from")
        || str_eq(w, "as") || str_eq(w, "into") || str_eq(w, "through") || str_eq(w, "and")
        || str_eq(w, "or") || str_eq(w, "but") || str_eq(w, "if") || str_eq(w, "that")
        || str_eq(w, "this") || str_eq(w, "these") || str_eq(w, "those") || str_eq(w, "i")
        || str_eq(w, "you") || str_eq(w, "he") || str_eq(w, "she") || str_eq(w, "we")
        || str_eq(w, "they") || str_eq(w, "it") || str_eq(w, "my") || str_eq(w, "your")
        || str_eq(w, "his") || str_eq(w, "her") || str_eq(w, "our") || str_eq(w, "their")
        || str_eq(w, "its")
}

/// The maximal runs of non-whitespace characters, left to right
/// (`str::split_whitespace`).
pub open spec fn ws_words(s: Seq<char>) -> Seq<Seq<char>>
    decreases s.len(),
{
    if s.len() == 0 {
        Seq::empty()
    } else {
        let w = ws_words(s.drop_last());
        let c = s.last();
        if is_ws(c) {
            w
        } else if s.len() > 1 && !is_ws(s[s.len() - 2]) {
            w.drop_last().push(w.last().push(c))
        } else {
            w.push(seq![c])
        }
    }
}

/// `str::split_whitespace`, collected.
pub fn split_whitespace(s: &str) -> (r: Vec<String>)
    ensures
        views(r@) == ws_words(s@),
{
    let v = chars_of(s);
    let mut words: Vec<String> = Vec::new();
    let mut cur = String::new();
    let mut i: usize = 0;
    while i < v.len()
        invariant
            i <= v.len(),
            v@ == s@,
            cur@.len() > 0 <==> (i > 0 && !is_ws(v@[i - 1])),
            cur@.len() == 0 ==> views(words@) == ws_words(v@.take(i as int)),
            cur@.len() > 0 ==> views(words@).push(cur@) == ws_words(v@.take(i as int)),
        decreases v.len() - i,
    {
        let c = v[i];
        let ghost pre = v@.take(i as int);
        assert(v@.take(i + 1).drop_last() =~= pre);
        assert(v@.take(i + 1).last() == c);
        if is_whitespace(c) {
            if cur.as_str().unicode_len() > 0 {
                let w = cur;
                words.push(w);
                cur = String::new();
                assert(views(words@) =~= views(words@.drop_last()).push(w@));
            }
        } else {
            if i > 0 {
                assert(v@.take(i + 1)[i - 1] == v@[i - 1]);
            }
            let ghost was = cur@;
            push_char(&mut cur, c);
            proof {
                if was.len() > 0 {
                    let w = ws_words(pre);
                    assert(w == views(words@).push(was));
                    assert(w.drop_last() =~= views(words@));
                    assert(views(words@).push(cur@) =~= w.drop_last().push(w.last().push(c)));
                } else {
                    assert(cur@ =~= seq![c]);
                }
            }
        }
        i = i + 1;
    }
    if cur.as_str().unicode_len() > 0 {
        let w = cur;
        words.push(w);
        assert(views(words@) =~= views(words@.drop_last()).push(w@));
    }
    assert(v@.take(v.len() as int) =~= v@);
    words
}

/// Lower-cased words with stop words removed.
pub open spec fn content_words(ws: Seq<Seq<char>>) -> Seq<Seq<char>>
    decreases ws.len(),
{
    if ws.len() == 0 {
        Seq::empty()
    } else {
        let r = content_words(ws.drop_last());
        let w = lowercase(ws.last());
        if is_stopword(w) {
            r
        } else {
            r.push(w)
        }
    }
}

/// Tokens that are not blank.
pub open spec fn non_blank(ts: Seq<Seq<char>>) -> Seq<Seq<char>>
    decreases ts.len(),
{
    if ts.len() == 0 {
        Seq::empty()
    } else if all_ws(ts.last()) {
        non_blank(ts.drop_last())
    } else {
        non_blank(ts.drop_last()).push(ts.last())
    }
}

/// A character at or above the CJK radicals block.
pub open spec fn is_cjk(c: char) -> bool {
    (c as u32) > 0x2E80
}

pub open spec fn has_cjk(s: Seq<char>) -> bool {
    exists|i: int| 0 <= i < s.len() && is_cjk(#[trigger] s[i])
}

/// The words the `jieba` segmenter cuts a text into (exact mode, no HMM).
pub uninterp spec fn jieba_words(s: Seq<char>) -> Seq<Seq<char>>;

/// `Jieba::cut(text, false)` with the default dictionary, each token's word;
/// trusted to give the named segmentation of the text (`jieba_words`).
#[verifier::external_body]
fn jieba_cut(text: &str) -> (r: Vec<String>)
    ensures
        views(r@) == jieba_words(text@),
{
    let jieba = jieba_rs::Jieba::new();
    jieba.cut(text, false).into_iter().map(|t| t.word.to_string()).collect()
}

/// What keyword search looks for in a query: for text with CJK characters,
/// the non-blank `jieba` words; otherwise the whitespace-separated words,
/// lower-cased, without stop words. Tokens are joined by single spaces.
pub open spec fn tokenise_spec(q: Seq<char>) -> Seq<char> {
    if has_cjk(q) {
        join_seq(non_blank(jieba_words(q)), " "@)
    } else {
        join_seq(content_words(ws_words(q)), " "@)
    }
}

/// `content_words` for ASCII text, where lower-casing is the ASCII mapping.
pub open spec fn ascii_content_words(ws: Seq<Seq<char>>) -> Seq<Seq<char>>
    decreases ws.len(),
{
    if ws.len() == 0 {
        Seq::empty()
    } else {
        let r = ascii_content_words(ws.drop_last());
        let w = ascii_lower_seq(ws.last());
        if is_stopword(w) {
            r
        } else {
            r.push(w)
        }
    }
}

proof fn lemma_words_nonempty(s: Seq<char>)
    requires
        s.len() > 0,
        !is_ws(s.last()),
    ensures
        ws_words(s).len() > 0,
{
}

proof fn lemma_words_ascii(s: Seq<char>)
    requires
        ascii_only(s),
    ensures
        forall|k: int| 0 <= k < ws_words(s).len() ==> ascii_only(#[trigger] ws_words(s)[k]),
    decreases s.len(),
{
    if s.len() > 0 {
        let d = s.drop_last();
        assert forall|i: int| 0 <= i < d.len() implies (#[trigger] d[i] as u32) < 128 by {
            assert(d[i] == s[i]);
        }
        lemma_words_ascii(d);
        let c = s.last();
        assert((s[s.len() - 1] as u32) < 128);
        if !is_ws(c) && s.len() > 1 && !is_ws(s[s.len() - 2]) {
            assert(d.last() == s[s.len() - 2]);
            lemma_words_nonempty(d);
        }
        let w = ws_words(d);
        assert forall|k: int| 0 <= k < ws_words(s).len() implies ascii_only(
            #[trigger] ws_words(s)[k],
        ) by {
            if !is_ws(c) && s.len() > 1 && !is_ws(s[s.len() - 2]) {
                if k == w.len() - 1 {
                    let x = w.last().push(c);
                    assert(ws_words(s)[k] == x);
                    assert(ascii_only(w[w.len() - 1]));
                    assert forall|i: int| 0 <= i < x.len() implies (#[trigger] x[i] as u32) < 128 by {
                        if i < x.len() - 1 {
                            assert(x[i] == w.last()[i]);
                        }
                    }
                } else {
                    assert(ws_words(s)[k] == w[k]);
                }
            } else if !is_ws(c) {
                if k == w.len() {
                    assert(ws_words(s)[k] == seq![c]);
                } else {
                    assert(ws_words(s)[k] == w[k]);
                }
            }
        }
    }
}

fn has_chinese(v: &Vec<char>) -> (r: bool)
    ensures
        r == has_cjk(v@),
{
    let mut i: usize = 0;
    while i < v.len()
        invariant
            i <= v.len(),
            forall|k: int| 0 <= k < i ==> !is_cjk(#[trigger] v@[k]),
        decreases v.len() - i,
    {
        if (v[i] as u32) > 0x2E80 {
            return true;
        }
        i = i + 1;
    }
    false
}

/// Tokenises a query for keyword (BM25) search.
pub fn tokenise(query: &str) -> (r: String)
    ensures
        r@ == tokenise_spec(query@),
        ascii_only(query@) ==> r@ == join_seq(ascii_content_words(ws_words(query@)), " "@),
        (exists|i: int| 0 <= i < query@.len() && (#[trigger] query@[i] as u32) > 0x2E80) ==> r@
            == join_seq(non_blank(jieba_words(query@)), " "@),
{
    proof {
        law_cjk_anywhere_selects_segmentation(query@);
    }
    let v = chars_of(query);
    if has_chinese(&v) {
        let cut = jieba_cut(query);
        let mut kept: Vec<String> = Vec::new();
        let mut i: usize = 0;
        while i < cut.len()
            invariant
                i <= cut@.len(),
                views(kept@) == non_blank(views(cut@).take(i as int)),
            decreases cut@.len() - i,
        {
            let ghost pre = views(cut@).take(i as int);
            assert(views(cut@).take(i + 1).drop_last() =~= pre);
            assert(views(cut@).take(i + 1).last() == cut@[i as int]@);
            if !is_blank(cut[i].as_str()) {
                kept.push(cut[i].clone());
                assert(views(kept@) =~= views(kept@.drop_last()).push(cut@[i as int]@));
            }
            i = i + 1;
        }
        assert(views(cut@).take(cut@.len() as int) =~= views(cut@));
        join(&kept, " ")
    } else {
        let words = split_whitespace(query);
        proof {
            if ascii_only(query@) {
                lemma_words_ascii(query@);
            }
        }
        let mut kept: Vec<String> = Vec::new();
        let mut i: usize = 0;
        while i < words.len()
            invariant
                i <= words@.len(),
                views(words@) == ws_words(query@),
                ascii_only(query@) ==> forall|k: int|
                    0 <= k < ws_words(query@).len() ==> ascii_only(#[trigger] ws_words(query@)[k]),
                views(kept@) == content_words(views(words@).take(i as int)),
                ascii_only(query@) ==> views(kept@) == ascii_content_words(
                    views(words@).take(i as int),
                ),
            decreases words@.len() - i,
        {
            let ghost pre = views(words@).take(i as int);
            assert(views(words@).take(i + 1).drop_last() =~= pre);
            assert(views(words@).take(i + 1).last() == words@[i as int]@);
            assert(ascii_only(query@) ==> ascii_only(ws_words(query@)[i as int]));
            let low = to_lowercase(words[i].as_str());
            if !is_stop_word(low.as_str()) {
                let ghost lw = low@;
                kept.push(low);
                assert(views(kept@) =~= views(kept@.drop_last()).push(lw));
            }
            i = i + 1;
        }
        assert(views(words@).take(words@.len() as int) =~= views(words@));
        join(&kept, " ")
    }
}

/// A query with a character above U+2E80 anywhere in it is cut by the
/// segmenter, and its tokens are the non-blank words joined by single
/// spaces; a query with none is split on whitespace, lower-cased and freed
/// of stop words.
pub proof fn law_cjk_anywhere_selects_segmentation(q: Seq<char>)
    ensures
        (exists|i: int| 0 <= i < q.len() && (#[trigger] q[i] as u32) > 0x2E80) ==> tokenise_spec(q)
            == join_seq(non_blank(jieba_words(q)), " "@),
        (forall|i: int| 0 <= i < q.len() ==> (#[trigger] q[i] as u32) <= 0x2E80) ==> tokenise_spec(q)
            == join_seq(content_words(ws_words(q)), " "@),
{
    if exists|i: int| 0 <= i < q.len() && (#[trigger] q[i] as u32) > 0x2E80 {
        let i = choose|i: int| 0 <= i < q.len() && (#[trigger] q[i] as u32) > 0x2E80;
        assert(is_cjk(q[i]));
    }
}

/// The words segmentation keeps are exactly the non-blank ones, in order:
/// none is blank, and every non-blank word of the input is kept.
pub proof fn law_non_blank_keeps_the_words(ts: Seq<Seq<char>>)
    ensures
        forall|i: int| 0 <= i < non_blank(ts).len() ==> !all_ws(#[trigger] non_blank(ts)[i]),
        forall|i: int| 0 <= i < non_blank(ts).len() ==> ts.contains(#[trigger] non_blank(ts)[i]),
        forall|i: int| 0 <= i < ts.len() && !all_ws(#[trigger] ts[i]) ==> non_blank(ts).contains(ts[i]),
    decreases ts.len(),
{
    if ts.len() > 0 {
        let d = ts.drop_last();
        law_non_blank_keeps_the_words(d);
        let p = non_blank(d);
        assert forall|i: int| 0 <= i < non_blank(ts).len() implies ts.contains(
            #[trigger] non_blank(ts)[i],
        ) by {
            if i < p.len() {
                assert(non_blank(ts)[i] == p[i]);
                let k = choose|k: int| 0 <= k < d.len() && d[k] == p[i];
                assert(ts[k] == d[k]);
            } else {
                assert(non_blank(ts)[i] == ts.last());
                assert(ts[ts.len() - 1] == ts.last());
            }
        }
        assert forall|i: int| 0 <= i < non_blank(ts).len() implies !all_ws(
            #[trigger] non_blank(ts)[i],
        ) by {
            if i < p.len() {
                assert(non_blank(ts)[i] == p[i]);
            }
        }
        assert forall|i: int| 0 <= i < ts.len() && !all_ws(#[trigger] ts[i]) implies non_blank(
            ts,
        ).contains(ts[i]) by {
            if i < ts.len() - 1 {
                assert(ts[i] == d[i]);
                assert(p.contains(d[i]));
                let k = choose|k: int| 0 <= k < p.len() && p[k] == d[i];
                assert(non_blank(ts)[k] == p[k]);
            } else {
                assert(non_blank(ts) == p.push(ts.last()));
                assert(non_blank(ts)[p.len() as int] == ts[i]);
            }
        }
    }
}

/// Tokenising an empty query gives an empty string.
pub proof fn law_tokenise_empty()
    ensures
        tokenise_spec(Seq::empty()) == Seq::<char>::empty(),
{
    assert(!has_cjk(Seq::<char>::empty()));
}

/// No token that tokenisation keeps from a query without CJK characters is
/// a stop word, and each kept token is the lower-case form of a word of the
/// query.
pub proof fn law_tokens_are_lowercased_content_words(ws: Seq<Seq<char>>)
    ensures
        forall|i: int|
            0 <= i < content_words(ws).len() ==> !is_stopword(#[trigger] content_words(ws)[i]),
        forall|i: int|
            0 <= i < content_words(ws).len() ==> exists|j: int|
                0 <= j < ws.len() && #[trigger] content_words(ws)[i] == lowercase(ws[j]),
    decreases ws.len(),
{
    if ws.len() > 0 {
        let p = ws.drop_last();
        law_tokens_are_lowercased_content_words(p);
        let r = content_words(p);
        assert forall|i: int| 0 <= i < content_words(ws).len() implies exists|j: int|
            0 <= j < ws.len() && #[trigger] content_words(ws)[i] == lowercase(ws[j]) by {
            if i < r.len() {
                assert(content_words(ws)[i] == r[i]);
                let j = choose|j: int| 0 <= j < p.len() && r[i] == lowercase(p[j]);
                assert(ws[j] == p[j]);
            } else {
                assert(content_words(ws)[i] == lowercase(ws[ws.len() - 1]));
            }
        }
        assert forall|i: int| 0 <= i < content_words(ws).len() implies !is_stopword(
            #[trigger] content_words(ws)[i],
        ) by {
            if i < r.len() {
                assert(content_words(ws)[i] == r[i]);
            }
        }
    }
}

/// Retrieval strategy.
#[derive(Debug, Clone, Copy, PartialEq, Eq, Structural)]
pub enum RetrieveMethod {
    Keyword,
    Vector,
    Hybrid,
    Rrf,
    Agentic,
}

/// Which memory tables a search reads.
#[derive(Debug, Clone, Copy, PartialEq, Eq, Structural)]
pub enum MemoryType {
    EpisodicMemory,
    ForesightRecord,
    EventLogRecord,
    Profile,
    /// The highest-priority structured user profile (same table as `Profile`).
    CoreMemory,
    All,
}

/// The method a `retrieve_method` query parameter names; absent means
/// `VECTOR`, and anything unknown falls back to vector search too.
pub open spec fn method_named(m: Option<Seq<char>>) -> RetrieveMethod {
    match m {
        None => RetrieveMethod::Vector,
        Some(s) => if s == "KEYWORD"@ {
            RetrieveMethod::Keyword
        } else if s == "HYBRID"@ {
            RetrieveMethod::Hybrid
        } else if s == "RRF"@ {
            RetrieveMethod::Rrf
        } else if s == "AGENTIC"@ {
            RetrieveMethod::Agentic
        } else {
            RetrieveMethod::Vector
        },
    }
}

/// Each documented method name selects its method; no name, or any other
/// name (`VECTOR` among them), selects vector search.
pub proof fn law_method_names(m: Option<Seq<char>>)
    ensures
        m == Some("KEYWORD"@) ==> method_named(m) == RetrieveMethod::Keyword,
        m == Some("HYBRID"@) ==> method_named(m) == RetrieveMethod::Hybrid,
        m == Some("RRF"@) ==> method_named(m) == RetrieveMethod::Rrf,
        m == Some("AGENTIC"@) ==> method_named(m) == RetrieveMethod::Agentic,
        !(m == Some("KEYWORD"@) || m == Some("HYBRID"@) || m == Some("RRF"@) || m == Some(
            "AGENTIC"@,
        )) ==> method_named(m) == RetrieveMethod::Vector,
{
    reveal_strlit("KEYWORD");
    reveal_strlit("HYBRID");
    reveal_strlit("RRF");
    reveal_strlit("AGENTIC");
    assert("KEYWORD"@[0] != "AGENTIC"@[0]);
    assert("RRF"@.len() == 3 && "HYBRID"@.len() == 6 && "KEYWORD"@.len() == 7);
}

pub open spec fn opt_view(o: Option<&str>) -> Option<Seq<char>> {
    match o {
        Some(s) => Some(s@),
        None => None,
    }
}

/// Parses the `retrieve_method` query parameter.
pub fn parse_retrieve_method(m: Option<&str>) -> (r: RetrieveMethod)
    ensures
        r == method_named(opt_view(m)),
{
    match m {
        None => RetrieveMethod::Vector,
        Some(s) => if str_eq(s, "KEYWORD") {
            RetrieveMethod::Keyword
        } else if str_eq(s, "HYBRID") {
            RetrieveMethod::Hybrid
        } else if str_eq(s, "RRF") {
            RetrieveMethod::Rrf
        } else if str_eq(s, "AGENTIC") {
            RetrieveMethod::Agentic
        } else {
            RetrieveMethod::Vector
        },
    }
}

/// The memory type a (trimmed) list entry names; unknown names mean
/// episodic memory.
pub open spec fn memory_type_named(t: Seq<char>) -> MemoryType {
    if t == "foresight_record"@ || t == "FORESIGHT"@ {
        MemoryType::ForesightRecord
    } else if t == "event_log_record"@ || t == "EVENT_LOG"@ {
        MemoryType::EventLogRecord
    } else if t == "profile"@ || t == "PROFILE"@ {
        MemoryType::Profile
    } else if t == "core_memory"@ || t == "CORE_MEMORY"@ || t == "CORE"@ {
        MemoryType::CoreMemory
    } else {
        MemoryType::EpisodicMemory
    }
}

/// Each documented memory-type name selects its type, and every other name
/// falls back to episodic memory.
pub proof fn law_memory_type_names(t: Seq<char>)
    ensures
        t == "foresight_record"@ || t == "FORESIGHT"@ ==> memory_type_named(t)
            == MemoryType::ForesightRecord,
        t == "event_log_record"@ || t == "EVENT_LOG"@ ==> memory_type_named(t)
            == MemoryType::EventLogRecord,
        t == "profile"@ || t == "PROFILE"@ ==> memory_type_named(t) == MemoryType::Profile,
        t == "core_memory"@ || t == "CORE_MEMORY"@ || t == "CORE"@ ==> memory_type_named(t)
            == MemoryType::CoreMemory,
        !(t == "foresight_record"@ || t == "FORESIGHT"@ || t == "event_log_record"@ || t
            == "EVENT_LOG"@ || t == "profile"@ || t == "PROFILE"@ || t == "core_memory"@ || t
            == "CORE_MEMORY"@ || t == "CORE"@) ==> memory_type_named(t) == MemoryType::EpisodicMemory,
{
    reveal_strlit("foresight_record");
    reveal_strlit("FORESIGHT");
    reveal_strlit("event_log_record");
    reveal_strlit("EVENT_LOG");
    reveal_strlit("profile");
    reveal_strlit("PROFILE");
    reveal_strlit("core_memory");
    reveal_strlit("CORE_MEMORY");
    reveal_strlit("CORE");
    assert("foresight_record"@[0] != "event_log_record"@[0]);
    assert("FORESIGHT"@[0] != "EVENT_LOG"@[0]);
    assert("profile"@[0] != "PROFILE"@[0]);
    assert("core_memory"@[0] != "CORE_MEMORY"@[0]);
}

fn memory_type_of(t: &str) -> (r: MemoryType)
    ensures
        r == memory_type_named(t@),
{
    if str_eq(t, "foresight_record") || str_eq(t, "FORESIGHT") {
        MemoryType::ForesightRecord
    } else if str_eq(t, "event_log_record") || str_eq(t, "EVENT_LOG") {
        MemoryType::EventLogRecord
    } else if str_eq(t, "profile") || str_eq(t, "PROFILE") {
        MemoryType::Profile
    } else if str_eq(t, "core_memory") || str_eq(t, "CORE_MEMORY") || str_eq(t, "CORE") {
        MemoryType::CoreMemory
    } else {
        MemoryType::EpisodicMemory
    }
}

/// The pieces of `s` between occurrences of `c` (`str::split(c)`): always
/// at least one piece, empty pieces included.
pub open spec fn split_char_seq(s: Seq<char>, c: char) -> Seq<Seq<char>>
    decreases s.len(),
{
    if s.len() == 0 {
        seq![Seq::empty()]
    } else {
        let w = split_char_seq(s.drop_last(), c);
        if s.last() == c {
            w.push(Seq::empty())
        } else {
            w.drop_last().push(w.last().push(s.last()))
        }
    }
}

proof fn lemma_split_nonempty(s: Seq<char>, c: char)
    ensures
        split_char_seq(s, c).len() > 0,
    decreases s.len(),
{
    if s.len() > 0 {
        lemma_split_nonempty(s.drop_last(), c);
    }
}

/// `s.split(c)`, collected.
pub fn split_char(s: &str, c: char) -> (r: Vec<String>)
    ensures
        views(r@) == split_char_seq(s@, c),
{
    let v = chars_of(s);
    let mut pieces: Vec<String> = Vec::new();
    let mut start: usize = 0;
    let mut i: usize = 0;
    assert(v@.take(0) =~= Seq::<char>::empty());
    assert(views(pieces@) =~= Seq::<Seq<char>>::empty());
    assert(v@.subrange(0, 0) =~= Seq::<char>::empty());
    assert(views(pieces@).push(v@.subrange(0, 0)) =~= split_char_seq(v@.take(0), c));
    while i < v.len()
        invariant
            start <= i <= v.len(),
            v@ == s@,
            views(pieces@).push(v@.subrange(start as int, i as int)) == split_char_seq(
                v@.take(i as int),
                c,
            ),
        decreases v.len() - i,
    {
        let ghost pre = v@.take(i as int);
        assert(v@.take(i + 1).drop_last() =~= pre);
        assert(v@.take(i + 1).last() == v@[i as int]);
        proof {
            lemma_split_nonempty(pre, c);
        }
        if v[i] == c {
            let piece = string_from_range(&v, start, i);
            pieces.push(piece);
            assert(views(pieces@) =~= views(pieces@.drop_last()).push(piece@));
            start = i + 1;
            assert(v@.subrange(start as int, i + 1) =~= Seq::<char>::empty());
        } else {
            let ghost w = split_char_seq(pre, c);
            assert(w.drop_last() =~= views(pieces@));
            assert(v@.subrange(start as int, i + 1) =~= v@.subrange(start as int, i as int).push(
                v@[i as int],
            ));
            assert(views(pieces@).push(v@.subrange(start as int, i + 1)) =~= w.drop_last().push(
                w.last().push(v@[i as int]),
            ));
        }
        i = i + 1;
    }
    let last = string_from_range(&v, start, v.len());
    pieces.push(last);
    assert(views(pieces@) =~= views(pieces@.drop_last()).push(last@));
    assert(v@.take(v.len() as int) =~= v@);
    pieces
}

/// Memory types listed, comma-separated, in a `memory_types` parameter;
/// absent means all types.
pub open spec fn memory_types_named(list: Option<Seq<char>>) -> Seq<MemoryType> {
    match list {
        None => seq![MemoryType::All],
        Some(s) => split_char_seq(s, ',').map_values(|t: Seq<char>| memory_type_named(trim_seq(t))),
    }
}

/// Parses the `memory_types` query parameter.
pub fn parse_memory_types(list: Option<&str>) -> (r: Vec<MemoryType>)
    ensures
        r@ == memory_types_named(opt_view(list)),
{
    match list {
        None => {
            let r = vec![MemoryType::All];
            assert(r@ =~= seq![MemoryType::All]);
            r
        },
        Some(s) => {
            let pieces = split_char(s, ',');
            let mut r: Vec<MemoryType> = Vec::new();
            let mut i: usize = 0;
            while i < pieces.len()
                invariant
                    i <= pieces@.len(),
                    r@.len() == i,
                    forall|k: int|
                        0 <= k < i ==> #[trigger] r@[k] == memory_type_named(
                            trim_seq(pieces@[k]@),
                        ),
                decreases pieces@.len() - i,
            {
                let t = trim(pieces[i].as_str());
                r.push(memory_type_of(t.as_str()));
                i = i + 1;
            }
            assert(r@ =~= split_char_seq(s@, ',').map_values(
                |t: Seq<char>| memory_type_named(trim_seq(t)),
            ));
            r
        },
    }
}

/// Positions of the items that de-duplication by id keeps: scanning left
/// to right, a position is kept when no kept position before it has its id.
pub open spec fn kept_positions(ids: Seq<Seq<char>>) -> Seq<usize>
    decreases ids.len(),
{
    if ids.len() == 0 {
        Seq::empty()
    } else {
        let p = kept_positions(ids.drop_last());
        if exists|a: int| 0 <= a < p.len() && ids[#[trigger] p[a] as int] == ids.last() {
            p
        } else {
            p.push((ids.len() - 1) as usize)
        }
    }
}

proof fn lemma_kept_step(ids: Seq<Seq<char>>)
    requires
        ids.len() > 0,
    ensures
        ({
            let p = kept_positions(ids.drop_last());
            let found = exists|a: int| 0 <= a < p.len() && ids[#[trigger] p[a] as int] == ids.last();
            &&& found ==> kept_positions(ids) == p
            &&& !found ==> kept_positions(ids) == p.push((ids.len() - 1) as usize)
        }),
{
}

proof fn lemma_kept_order(ids: Seq<Seq<char>>)
    requires
        ids.len() <= usize::MAX,
    ensures
        forall|a: int|
            0 <= a < kept_positions(ids).len() ==> #[trigger] kept_positions(ids)[a] < ids.len(),
        forall|a: int, b: int|
            0 <= a < b < kept_positions(ids).len() ==> #[trigger] kept_positions(ids)[a]
                < #[trigger] kept_positions(ids)[b],
    decreases ids.len(),
{
    if ids.len() > 0 {
        let d = ids.drop_last();
        lemma_kept_order(d);
        lemma_kept_step(ids);
        let p = kept_positions(d);
        let q = kept_positions(ids);
        let found = exists|a: int| 0 <= a < p.len() && ids[#[trigger] p[a] as int] == ids.last();
        if !found {
            let n = (ids.len() - 1) as usize;
            assert(q == p.push(n));
            assert forall|a: int, b: int| 0 <= a < b < q.len() implies #[trigger] q[a]
                < #[trigger] q[b] by {
                assert(q[a] == p[a]);
                if b < p.len() {
                    assert(q[b] == p[b]);
                } else {
                    assert(q[b] == n);
                    assert(p[a] < d.len());
                }
            }
            assert forall|a: int| 0 <= a < q.len() implies #[trigger] q[a] < ids.len() by {
                if a < p.len() {
                    assert(q[a] == p[a]);
                }
            }
        }
    }
}

proof fn lemma_kept_distinct(ids: Seq<Seq<char>>)
    requires
        ids.len() <= usize::MAX,
    ensures
        forall|a: int, b: int|
            0 <= a < kept_positions(ids).len() && 0 <= b < kept_positions(ids).len() && a != b
                ==> ids[#[trigger] kept_positions(ids)[a] as int] != ids[
                #[trigger] kept_positions(ids)[b] as int
            ],
    decreases ids.len(),
{
    if ids.len() > 0 {
        let d = ids.drop_last();
        lemma_kept_distinct(d);
        lemma_kept_order(d);
        lemma_kept_step(ids);
        let p = kept_positions(d);
        let q = kept_positions(ids);
        assert forall|a: int| 0 <= a < p.len() implies ids[#[trigger] p[a] as int] == d[
            p[a] as int
        ] by {}
        let found = exists|a: int| 0 <= a < p.len() && ids[#[trigger] p[a] as int] == ids.last();
        if found {
            assert(q == p);
        } else {
            let n = (ids.len() - 1) as usize;
            assert(q == p.push(n));
            assert forall|a: int, b: int|
                0 <= a < q.len() && 0 <= b < q.len() && a != b implies ids[#[trigger] q[a] as int]
                != ids[#[trigger] q[b] as int] by {
                if a < p.len() && b < p.len() {
                    assert(q[a] == p[a] && q[b] == p[b]);
                } else if a < p.len() {
                    assert(q[a] == p[a]);
                    assert(q[b] == n);
                } else {
                    assert(q[b] == p[b]);
                    assert(q[a] == n);
                }
            }
        }
    }
}

/// Some kept position carries the id `x`.
pub open spec fn id_is_kept(ids: Seq<Seq<char>>, pos: Seq<usize>, x: Seq<char>) -> bool {
    exists|a: int| 0 <= a < pos.len() && ids[pos[a] as int] == x
}

/// Every id of the list survives de-duplication: some kept position has it.
#[verifier::spinoff_prover]
pub proof fn law_dedup_covers_every_id(ids: Seq<Seq<char>>)
    requires
        ids.len() <= usize::MAX,
    ensures
        forall|k: int|
            #![trigger id_is_kept(ids, kept_positions(ids), ids[k])]
            0 <= k < ids.len() ==> id_is_kept(ids, kept_positions(ids), ids[k]),
    decreases ids.len(),
{
    if ids.len() > 0 {
        let d = ids.drop_last();
        law_dedup_covers_every_id(d);
        lemma_kept_order(d);
        lemma_kept_step(ids);
        let p = kept_positions(d);
        let q = kept_positions(ids);
        let found = exists|a: int| 0 <= a < p.len() && ids[#[trigger] p[a] as int] == ids.last();
        assert forall|k: int| 0 <= k < ids.len() implies #[trigger] id_is_kept(ids, q, ids[k]) by {
            if k < ids.len() - 1 {
                assert(d[k] == ids[k]);
                assert(id_is_kept(d, p, d[k]));
                let a = choose|a: int| 0 <= a < p.len() && d[p[a] as int] == d[k];
                assert(d[p[a] as int] == ids[p[a] as int]);
                if found {
                    assert(q == p);
                } else {
                    assert(q == p.push((ids.len() - 1) as usize));
                    assert(q[a] == p[a]);
                }
                assert(ids[q[a] as int] == ids[k]);
            } else if found {
                assert(q == p);
                let a = choose|a: int| 0 <= a < p.len() && ids[#[trigger] p[a] as int] == ids.last();
                assert(ids[q[a] as int] == ids[k]);
            } else {
                let n = (ids.len() - 1) as usize;
                assert(q == p.push(n));
                assert(q[p.len() as int] == n);
                assert(ids[q[p.len() as int] as int] == ids[k]);
            }
        }
    }
}

/// Kept positions lie inside the list, increase, and carry distinct ids:
/// de-duplication keeps at most one item per id, in input order.
pub proof fn law_kept_positions(ids: Seq<Seq<char>>)
    requires
        ids.len() <= usize::MAX,
    ensures
        forall|a: int|
            0 <= a < kept_positions(ids).len() ==> #[trigger] kept_positions(ids)[a] < ids.len(),
        forall|a: int, b: int|
            0 <= a < b < kept_positions(ids).len() ==> #[trigger] kept_positions(ids)[a]
                < #[trigger] kept_positions(ids)[b],
        forall|a: int, b: int|
            0 <= a < kept_positions(ids).len() && 0 <= b < kept_positions(ids).len() && a != b
                ==> ids[#[trigger] kept_positions(ids)[a] as int] != ids[
                #[trigger] kept_positions(ids)[b] as int
            ],
{
    lemma_kept_order(ids);
    lemma_kept_distinct(ids);
}

/// Positions of the items that survive de-duplication by id, in order
/// (`merge_dedup`, `deduplicate`): the ids seen so far are kept in a hash set.
pub fn dedup_positions(ids: &Vec<String>) -> (r: Vec<usize>)
    ensures
        r@ == kept_positions(views(ids@)),
        forall|a: int| 0 <= a < r@.len() ==> #[trigger] r@[a] < ids@.len(),
        forall|a: int, b: int| 0 <= a < b < r@.len() ==> #[trigger] r@[a] < #[trigger] r@[b],
        forall|a: int, b: int|
            0 <= a < r@.len() && 0 <= b < r@.len() && a != b ==> ids@[#[trigger] r@[a] as int]@
                != ids@[#[trigger] r@[b] as int]@,
{
    let ghost iv = views(ids@);
    let mut seen = StringHashSet::new();
    let mut pos: Vec<usize> = Vec::new();
    let mut i: usize = 0;
    while i < ids.len()
        invariant
            i <= ids@.len(),
            iv == views(ids@),
            pos@ == kept_positions(iv.take(i as int)),
            forall|b: int| 0 <= b < pos@.len() ==> #[trigger] pos@[b] < i,
            forall|x: Seq<char>|
                #[trigger] seen@.contains(x) <==> exists|a: int|
                    0 <= a < pos@.len() && iv[#[trigger] pos@[a] as int] == x,
        decreases ids@.len() - i,
    {
        proof {
            lemma_kept_order(iv.take(i as int));
            let t = iv.take(i + 1);
            assert(t.drop_last() =~= iv.take(i as int));
            assert forall|b: int| 0 <= b < pos@.len() implies t[#[trigger] pos@[b] as int] == iv[
                pos@[b] as int
            ] by {}
            assert(t.last() == iv[i as int]);
        }
        let ghost before = pos@;
        let id = ids[i].clone();
        if seen.insert(id) {
            pos.push(i);
            proof {
                assert forall|x: Seq<char>| #[trigger] seen@.contains(x) <==> exists|a: int|
                    0 <= a < pos@.len() && iv[#[trigger] pos@[a] as int] == x by {
                    if x == iv[i as int] {
                        assert(pos@[before.len() as int] == i);
                    }
                    if exists|a: int| 0 <= a < pos@.len() && iv[#[trigger] pos@[a] as int] == x {
                        let a = choose|a: int| 0 <= a < pos@.len() && iv[#[trigger] pos@[a] as int] == x;
                        if a < before.len() {
                            assert(pos@[a] == before[a]);
                        }
                    }
                    if exists|a: int| 0 <= a < before.len() && iv[#[trigger] before[a] as int] == x {
                        let a = choose|a: int| 0 <= a < before.len() && iv[#[trigger] before[a] as int] == x;
                        assert(pos@[a] == before[a]);
                    }
                }
            }
        }
        i = i + 1;
    }
    assert(iv.take(ids@.len() as int) =~= iv);
    proof {
        law_kept_positions(iv);
    }
    pos
}

/// `"1. c0\n2. c1\n..."`: the numbered list of memories shown to the model
/// when it judges whether they answer a query.
pub open spec fn numbered_lines_spec(contents: Seq<Seq<char>>) -> Seq<char> {
    join_seq(
        Seq::new(contents.len(), |i: int| dec_seq((i + 1) as nat) + ". "@ + contents[i]),
        "\n"@,
    )
}

/// Renders memories as a numbered list, one per line.
pub fn numbered_lines(contents: &Vec<String>) -> (r: String)
    requires
        contents@.len() < u64::MAX,
    ensures
        r@ == numbered_lines_spec(views(contents@)),
{
    let mut lines: Vec<String> = Vec::new();
    let mut i: usize = 0;
    while i < contents.len()
        invariant
            i <= contents@.len() < u64::MAX,
            lines@.len() == i,
            forall|k: int|
                0 <= k < i ==> #[trigger] lines@[k]@ == dec_seq((k + 1) as nat) + ". "@
                    + contents@[k]@,
        decreases contents@.len() - i,
    {
        let mut line = u64_to_string((i + 1) as u64);
        push_str(&mut line, ". ");
        push_str(&mut line, contents[i].as_str());
        lines.push(line);
        i = i + 1;
    }
    let r = join(&lines, "\n");
    assert(views(lines@) =~= Seq::new(
        views(contents@).len(),
        |i: int| dec_seq((i + 1) as nat) + ". "@ + views(contents@)[i],
    ));
    r
}

} // verus!
