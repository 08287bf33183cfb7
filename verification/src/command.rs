//! The command palette's matching, filtering and keyboard navigation.

use vstd::prelude::*;

verus! {

/// `str::to_lowercase` of a string.
pub uninterp spec fn spec_lowercase(s: Seq<char>) -> Seq<char>;

/// `str::to_lowercase` (Unicode lowercase mapping); its result is the name
/// [`spec_lowercase`] of the argument.
#[verifier::external_body]
fn lowercase(s: &str) -> (r: String)
    ensures
        r@ == spec_lowercase(s@),
{
    s.to_lowercase()
}

/// `p` is a prefix of `s`.
pub open spec fn is_prefix(p: Seq<char>, s: Seq<char>) -> bool {
    p.len() <= s.len() && s.take(p.len() as int) == p
}

/// `p` occurs in `s` at index `i`.
pub open spec fn occurs_at(p: Seq<char>, s: Seq<char>, i: int) -> bool {
    0 <= i && i + p.len() <= s.len() && s.subrange(i, i + p.len()) == p
}

/// `p` occurs somewhere in `s` (`str::contains`).
pub open spec fn is_infix(p: Seq<char>, s: Seq<char>) -> bool {
    exists|i: int| occurs_at(p, s, i)
}

fn occurs_at_exec(p: &str, s: &str, i: usize) -> (b: bool)
    requires
        i + p@.len() <= s@.len(),
        s@.len() <= usize::MAX,
    ensures
        b == occurs_at(p@, s@, i as int),
{
    let n = p.unicode_len();
    let mut j: usize = 0;
    while j < n
        invariant
            n == p@.len(),
            i + n <= s@.len(),
            s@.len() <= usize::MAX,
            j <= n,
            forall|k: int| 0 <= k < j ==> s@[i + k] == p@[k],
        decreases n - j,
    {
        if s.get_char(i + j) != p.get_char(j) {
            proof {
                assert(s@.subrange(i as int, i + n)[j as int] != p@[j as int]);
            }
            return false;
        }
        j = j + 1;
    }
    proof {
        assert(s@.subrange(i as int, i + n) =~= p@);
    }
    true
}

/// Whether `s` starts with `p`.
pub fn starts_with(s: &str, p: &str) -> (b: bool)
    ensures
        b == is_prefix(p@, s@),
{
    let n = s.unicode_len();
    if p.unicode_len() > n {
        return false;
    }
    let b = occurs_at_exec(p, s, 0);
    proof {
        assert(s@.subrange(0, p@.len() as int) =~= s@.take(p@.len() as int));
    }
    b
}

/// Whether `p` occurs in `s`.
pub fn contains(s: &str, p: &str) -> (b: bool)
    ensures
        b == is_infix(p@, s@),
{
    let n = s.unicode_len();
    let m = p.unicode_len();
    if m > n {
        proof {
            assert forall|i: int| !occurs_at(p@, s@, i) by {}
        }
        return false;
    }
    if m == 0 {
        proof {
            assert(s@.subrange(0, 0) =~= p@);
            assert(occurs_at(p@, s@, 0));
        }
        return true;
    }
    let mut i: usize = 0;
    while i <= n - m
        invariant
            n == s@.len(),
            m == p@.len(),
            0 < m <= n,
            i <= n - m + 1,
            forall|k: int| 0 <= k < i ==> !occurs_at(p@, s@, k),
        decreases n - m + 1 - i,
    {
        if occurs_at_exec(p, s, i) {
            return true;
        }
        i = i + 1;
    }
    proof {
        assert forall|k: int| !occurs_at(p@, s@, k) by {
            if 0 <= k < i {
            }
        }
    }
    false
}

/// How well an item matches the search, from best to worst: the scores the
/// palette ranks by are 1.0, 0.9, 0.8, 0.7 and 0.
#[derive(Clone, Copy, Debug, PartialEq, Eq, Structural)]
pub enum MatchRank {
    /// The search is empty, or equals the value (1.0).
    Full,
    /// The value starts with the search (0.9).
    Prefix,
    /// The value contains the search, and so does one of its keywords (0.8).
    Keyword,
    /// The value contains the search (0.7).
    Substring,
    /// The value does not contain the search (0).
    Miss,
}

/// Some keyword contains `q`.
pub open spec fn keyword_hit(q: Seq<char>, keywords: Seq<Seq<char>>) -> bool {
    exists|k: int| 0 <= k < keywords.len() && is_infix(q, keywords[k])
}

/// Each string lowercased.
pub open spec fn lowered_all(s: Seq<Seq<char>>) -> Seq<Seq<char>> {
    s.map_values(|k: Seq<char>| spec_lowercase(k))
}

/// The rank of a non-empty search `q` against `value` and `keywords`, all
/// three already lowercased.
pub open spec fn rank_lowered_spec(value: Seq<char>, q: Seq<char>, keywords: Seq<Seq<char>>) -> MatchRank {
    if !is_infix(q, value) {
        MatchRank::Miss
    } else if value == q {
        MatchRank::Full
    } else if is_prefix(q, value) {
        MatchRank::Prefix
    } else if keyword_hit(q, keywords) {
        MatchRank::Keyword
    } else {
        MatchRank::Substring
    }
}

/// The rank of an item with `value` and `keywords` against `search`
/// (matching is case-insensitive).
pub open spec fn rank_spec(value: Seq<char>, search: Seq<char>, keywords: Seq<Seq<char>>) -> MatchRank {
    if search.len() == 0 {
        MatchRank::Full
    } else {
        rank_lowered_spec(spec_lowercase(value), spec_lowercase(search), lowered_all(keywords))
    }
}

/// The views of a list of strings.
pub open spec fn string_views(s: Seq<String>) -> Seq<Seq<char>> {
    s.map_values(|k: String| k@)
}

/// The rank of a non-empty search against an item, everything already
/// lowercased.
pub fn rank_lowered(value: &str, q: &str, keywords: &[String]) -> (r: MatchRank)
    ensures
        r == rank_lowered_spec(value@, q@, string_views(keywords@)),
{
    if !contains(value, q) {
        return MatchRank::Miss;
    }
    if value.unicode_len() == q.unicode_len() && starts_with(value, q) {
        proof {
            assert(value@ =~= q@);
        }
        return MatchRank::Full;
    }
    if starts_with(value, q) {
        proof {
            if value@ == q@ {
                assert(value@.len() == q@.len());
            }
        }
        return MatchRank::Prefix;
    }
    let mut i: usize = 0;
    while i < keywords.len()
        invariant
            i <= keywords@.len(),
            is_infix(q@, value@),
            value@ != q@,
            !is_prefix(q@, value@),
            forall|k: int| 0 <= k < i ==> !is_infix(q@, #[trigger] string_views(keywords@)[k]),
        decreases keywords.len() - i,
    {
        proof {
            assert(string_views(keywords@)[i as int] == keywords@[i as int]@);
        }
        if contains(keywords[i].as_str(), q) {
            proof {
                assert(keyword_hit(q@, string_views(keywords@)));
            }
            return MatchRank::Keyword;
        }
        i = i + 1;
    }
    MatchRank::Substring
}

/// The rank of an item with `value` and `keywords` against `search`.
pub fn rank(value: &str, search: &str, keywords: &[String]) -> (r: MatchRank)
    ensures
        r == rank_spec(value@, search@, string_views(keywords@)),
{
    if search.is_empty() {
        return MatchRank::Full;
    }
    let v = lowercase(value);
    let q = lowercase(search);
    let mut lowered: Vec<String> = Vec::new();
    let mut i: usize = 0;
    while i < keywords.len()
        invariant
            i <= keywords@.len(),
            lowered@.len() == i,
            forall|k: int| 0 <= k < i ==> (#[trigger] lowered@[k])@ == spec_lowercase(keywords@[k]@),
        decreases keywords.len() - i,
    {
        let kw = lowercase(keywords[i].as_str());
        lowered.push(kw);
        i = i + 1;
    }
    proof {
        assert(string_views(lowered@) =~= lowered_all(string_views(keywords@)));
    }
    rank_lowered(v.as_str(), q.as_str(), lowered.as_slice())
}

/// One registered item: its value and extra keywords.
#[derive(Clone, Debug)]
pub struct CommandEntry {
    pub value: String,
    pub keywords: Vec<String>,
}

/// The ranks of all entries against `search`.
pub fn rank_all(search: &str, entries: &[CommandEntry]) -> (ranks: Vec<MatchRank>)
    ensures
        ranks@.len() == entries@.len(),
        forall|i: int| 0 <= i < entries@.len() ==>
            ranks@[i] == rank_spec(entries@[i].value@, search@, string_views(entries@[i].keywords@)),
{
    let mut ranks: Vec<MatchRank> = Vec::new();
    let mut i: usize = 0;
    while i < entries.len()
        invariant
            i <= entries@.len(),
            ranks@.len() == i,
            forall|k: int| 0 <= k < i ==>
                ranks@[k] == rank_spec(entries@[k].value@, search@, string_views(entries@[k].keywords@)),
        decreases entries.len() - i,
    {
        let r = rank(entries[i].value.as_str(), search, entries[i].keywords.as_slice());
        ranks.push(r);
        i = i + 1;
    }
    ranks
}

/// Number of ranks that are not a miss.
pub open spec fn hits(ranks: Seq<MatchRank>) -> nat
    decreases ranks.len(),
{
    if ranks.len() == 0 {
        0
    } else {
        hits(ranks.drop_last()) + if ranks.last() != MatchRank::Miss { 1nat } else { 0nat }
    }
}

/// How many items the list shows: all of them when not filtering or the
/// search is empty, otherwise those that match.
pub fn filtered_count(should_filter: bool, search_empty: bool, ranks: &[MatchRank]) -> (n: usize)
    ensures
        n == (if !should_filter || search_empty { ranks@.len() } else { hits(ranks@) }),
{
    if !should_filter || search_empty {
        return ranks.len();
    }
    let mut n: usize = 0;
    let mut i: usize = 0;
    proof {
        assert(ranks@.take(0) =~= Seq::<MatchRank>::empty());
    }
    while i < ranks.len()
        invariant
            i <= ranks@.len(),
            n == hits(ranks@.take(i as int)),
            n <= i,
        decreases ranks.len() - i,
    {
        proof {
            assert(ranks@.take(i + 1).drop_last() =~= ranks@.take(i as int));
        }
        if ranks[i] != MatchRank::Miss {
            n = n + 1;
        }
        i = i + 1;
    }
    proof {
        assert(ranks@.take(ranks@.len() as int) =~= ranks@);
    }
    n
}

/// A group is visible while one of its member items (indices into `ranks`)
/// matches.
pub fn group_visible(ranks: &[MatchRank], members: &[usize]) -> (b: bool)
    ensures
        b == exists|k: int| 0 <= k < members@.len() && members@[k] < ranks@.len()
            && ranks@[members@[k] as int] != MatchRank::Miss,
{
    let mut k: usize = 0;
    while k < members.len()
        invariant
            k <= members@.len(),
            forall|a: int| 0 <= a < k ==> !(members@[a] < ranks@.len() && ranks@[members@[a] as int] != MatchRank::Miss),
        decreases members.len() - k,
    {
        let m = members[k];
        if m < ranks.len() && ranks[m] != MatchRank::Miss {
            return true;
        }
        k = k + 1;
    }
    false
}

/// Whether an item is rendered.
pub fn item_rendered(force_mount: bool, should_filter: bool, search_empty: bool, rank: MatchRank) -> (b: bool)
    ensures
        b == (force_mount || !should_filter || search_empty || rank != MatchRank::Miss),
{
    force_mount || !should_filter || search_empty || rank != MatchRank::Miss
}

/// Whether a group is rendered.
pub fn group_rendered(force_mount: bool, should_filter: bool, search_empty: bool, visible: bool) -> (b: bool)
    ensures
        b == (force_mount || !should_filter || search_empty || visible),
{
    force_mount || !should_filter || search_empty || visible
}

/// Whether a separator is rendered: always when asked to, otherwise only
/// while the search is empty.
pub fn separator_rendered(always_render: bool, search_empty: bool) -> (b: bool)
    ensures
        b == (always_render || search_empty),
{
    always_render || search_empty
}

/// Where the highlight moves by `change` items from `current` (the first
/// item when nothing is highlighted): wrapping around with `looping`, stopping
/// at the ends otherwise.
pub open spec fn next_index_spec(current: Option<usize>, len: int, change: int, looping: bool) -> int {
    match current {
        None => 0,
        Some(idx) => {
            let n = idx + change;
            if looping {
                if n < 0 { len - 1 } else if n >= len { 0 } else { n }
            } else {
                if n < 0 { 0 } else if n > len - 1 { len - 1 } else { n }
            }
        },
    }
}

/// Where the highlight moves by `change` items.
pub fn next_index(current: Option<usize>, len: usize, change: i32, looping: bool) -> (r: usize)
    requires
        0 < len <= i32::MAX,
        current matches Some(i) ==> i < len,
    ensures
        r == next_index_spec(current, len as int, change as int, looping),
        r < len,
{
    match current {
        None => 0,
        Some(idx) => {
            let n: i64 = idx as i64 + change as i64;
            if looping {
                if n < 0 {
                    len - 1
                } else if n >= len as i64 {
                    0
                } else {
                    n as usize
                }
            } else {
                if n < 0 {
                    0
                } else if n > len as i64 - 1 {
                    len - 1
                } else {
                    n as usize
                }
            }
        },
    }
}

/// What a key press asks of the palette.
#[derive(Clone, Copy, Debug, PartialEq, Eq, Structural)]
pub enum CommandKey {
    Next,
    Previous,
    NextGroup,
    PreviousGroup,
    First,
    Last,
    Select,
}

/// The palette's keyboard map: arrows (with ⌘ to the ends, ⌥ by group),
/// Home / End, Enter, and Ctrl+N/J, Ctrl+P/K when vim bindings are on.
pub open spec fn key_action_spec(key: Seq<char>, ctrl: bool, meta: bool, alt: bool, vim: bool) -> Option<CommandKey> {
    if (key == "n"@ || key == "j"@) && vim && ctrl {
        Some(CommandKey::Next)
    } else if key == "ArrowDown"@ {
        Some(if meta { CommandKey::Last } else if alt { CommandKey::NextGroup } else { CommandKey::Next })
    } else if (key == "p"@ || key == "k"@) && vim && ctrl {
        Some(CommandKey::Previous)
    } else if key == "ArrowUp"@ {
        Some(if meta { CommandKey::First } else if alt { CommandKey::PreviousGroup } else { CommandKey::Previous })
    } else if key == "Home"@ {
        Some(CommandKey::First)
    } else if key == "End"@ {
        Some(CommandKey::Last)
    } else if key == "Enter"@ {
        Some(CommandKey::Select)
    } else {
        None
    }
}

/// Whether two strings are equal.
pub fn str_eq(a: &str, b: &str) -> (r: bool)
    ensures
        r == (a@ == b@),
{
    if a.unicode_len() != b.unicode_len() {
        return false;
    }
    let r = starts_with(a, b);
    proof {
        assert(a@.take(a@.len() as int) =~= a@);
        if r {
            assert(a@ =~= b@);
        }
    }
    r
}

/// The action a key asks for; `None` leaves the event alone.
pub fn key_action(key: &str, ctrl: bool, meta: bool, alt: bool, vim: bool) -> (r: Option<CommandKey>)
    ensures
        r == key_action_spec(key@, ctrl, meta, alt, vim),
{
    if (str_eq(key, "n") || str_eq(key, "j")) && vim && ctrl {
        Some(CommandKey::Next)
    } else if str_eq(key, "ArrowDown") {
        Some(if meta { CommandKey::Last } else if alt { CommandKey::NextGroup } else { CommandKey::Next })
    } else if (str_eq(key, "p") || str_eq(key, "k")) && vim && ctrl {
        Some(CommandKey::Previous)
    } else if str_eq(key, "ArrowUp") {
        Some(if meta { CommandKey::First } else if alt { CommandKey::PreviousGroup } else { CommandKey::Previous })
    } else if str_eq(key, "Home") {
        Some(CommandKey::First)
    } else if str_eq(key, "End") {
        Some(CommandKey::Last)
    } else if str_eq(key, "Enter") {
        Some(CommandKey::Select)
    } else {
        None
    }
}

/// A lowercase hexadecimal digit.
pub open spec fn is_lower_hex(c: char) -> bool {
    ('0' <= c && c <= '9') || ('a' <= c && c <= 'f')
}

/// The hyphenated text of a version-4 UUID: 36 characters, hyphens at 8,
/// 13, 18 and 23, lowercase hex digits elsewhere, the version digit `4` at
/// 14 and the variant digit (`8`, `9`, `a` or `b`) at 19.
pub open spec fn is_uuid_v4_text(s: Seq<char>) -> bool {
    &&& s.len() == 36
    &&& s[8] == '-' && s[13] == '-' && s[18] == '-' && s[23] == '-'
    &&& forall|i: int| 0 <= i < 36 && i != 8 && i != 13 && i != 18 && i != 23 ==> is_lower_hex(#[trigger] s[i])
    &&& s[14] == '4'
    &&& (s[19] == '8' || s[19] == '9' || s[19] == 'a' || s[19] == 'b')
}

/// A random version-4 UUID in its hyphenated text form (`Uuid::new_v4`,
/// then `to_string`): `new_v4` fixes the version and variant bits and
/// `Display` writes lowercase hex with hyphens. Which UUID comes out is
/// chance.
#[verifier::external_body]
fn random_id() -> (s: String)
    ensures
        is_uuid_v4_text(s@),
{
    uuid::Uuid::new_v4().to_string()
}

/// A fresh id for an element of the palette (its list, label, input or an
/// item): a random version-4 UUID.
pub fn fresh_id() -> (s: String)
    ensures
        is_uuid_v4_text(s@),
{
    random_id()
}

/// A group's id: its value, else its heading, else a fresh random UUID.
pub fn group_id(value: &str, heading: &str) -> (r: String)
    ensures
        value@.len() > 0 ==> r@ == value@,
        value@.len() == 0 && heading@.len() > 0 ==> r@ == heading@,
        value@.len() == 0 && heading@.len() == 0 ==> is_uuid_v4_text(r@),
{
    if !value.is_empty() {
        String::from_str(value)
    } else if !heading.is_empty() {
        String::from_str(heading)
    } else {
        random_id()
    }
}

/// Every character of `s` is whitespace.
pub open spec fn all_white_space(s: Seq<char>) -> bool {
    forall|i: int| 0 <= i < s.len() ==> crate::stepper::is_white_space(#[trigger] s[i])
}

/// The value an item registers under: the one it was given, else the text
/// it renders, trimmed; `None` while both are empty, and the item stays
/// unregistered.
pub fn item_value(given: &str, text: &str) -> (r: Option<String>)
    ensures
        given@.len() > 0 ==> (r matches Some(s) && s@ == given@),
        given@.len() == 0 ==> (r is None <==> all_white_space(text@)),
        given@.len() == 0 ==> (r matches Some(s) ==> crate::stepper::is_trim_of(s@, text@)),
{
    if !given.is_empty() {
        return Some(String::from_str(given));
    }
    let t = crate::stepper::trim(text);
    proof {
        let (a, b) = choose|a: int, b: int| {
            &&& 0 <= a <= b <= text@.len()
            &&& t@ == text@.subrange(a, b)
            &&& forall|i: int| 0 <= i < a ==> crate::stepper::is_white_space(#[trigger] text@[i])
            &&& forall|i: int| b <= i < text@.len() ==> crate::stepper::is_white_space(#[trigger] text@[i])
            &&& (a < b ==> !crate::stepper::is_white_space(text@[a]) && !crate::stepper::is_white_space(text@[b - 1]))
        };
        if t@.len() == 0 {
            assert forall|i: int| 0 <= i < text@.len() implies crate::stepper::is_white_space(#[trigger] text@[i]) by {
                if i >= a {
                    assert(i >= b);
                }
            }
        } else {
            assert(!crate::stepper::is_white_space(text@[a]));
        }
    }
    if t.is_empty() {
        None
    } else {
        Some(String::from_str(t))
    }
}

/// The list's accessible label: `Suggestions` unless given.
pub fn list_label(label: &str) -> (s: String)
    ensures
        s@ == (if label@.len() == 0 { "Suggestions"@ } else { label@ }),
{
    if label.is_empty() { String::from_str("Suggestions") } else { String::from_str(label) }
}

/// An empty search matches every item, fully.
pub proof fn law_empty_search_matches_all(value: Seq<char>, keywords: Seq<Seq<char>>)
    ensures
        rank_spec(value, Seq::empty(), keywords) == MatchRank::Full,
{
}

/// An item whose value does not contain the search is never shown by a
/// filtering palette, whatever its keywords say.
pub proof fn law_keywords_never_rescue_a_miss(value: Seq<char>, search: Seq<char>, keywords: Seq<Seq<char>>)
    requires
        search.len() > 0,
        !is_infix(spec_lowercase(search), spec_lowercase(value)),
    ensures
        rank_spec(value, search, keywords) == MatchRank::Miss,
{
}

/// The highlight never leaves the list; with looping, stepping past either
/// end wraps to the other.
pub proof fn law_navigation_stays_in_list(current: Option<usize>, len: int, change: int, looping: bool)
    requires
        0 < len <= usize::MAX,
        current matches Some(i) ==> i < len,
    ensures
        0 <= next_index_spec(current, len, change, looping) < len,
        looping && current == Some((len - 1) as usize) && change == 1 ==> next_index_spec(current, len, change, looping) == 0,
        looping && current == Some(0usize) && change == -1 ==> next_index_spec(current, len, change, looping) == len - 1,
        !looping && current == Some((len - 1) as usize) && change == 1 ==> next_index_spec(current, len, change, looping) == len - 1,
{
}


/// The base classes of a palette item.
pub const ITEM_BASE: &'static str = "data-[selected=true]:bg-accent data-[selected=true]:text-accent-foreground [&_svg:not([class*='text-'])]:text-muted-foreground relative flex cursor-default items-center gap-2 rounded-sm px-2 py-1.5 text-sm outline-hidden select-none data-[disabled=true]:pointer-events-none data-[disabled=true]:opacity-50 [&_svg]:pointer-events-none [&_svg]:shrink-0 [&_svg:not([class*='size-'])]:size-4";

/// The base classes of a palette group.
pub const GROUP_BASE: &'static str = "text-foreground [&_[cmdk-group-heading]]:text-muted-foreground overflow-hidden p-1 [&_[cmdk-group-heading]]:px-2 [&_[cmdk-group-heading]]:py-1.5 [&_[cmdk-group-heading]]:text-xs [&_[cmdk-group-heading]]:font-medium";


/// Among items that contain the search but neither equal nor start with
/// it, the keywords decide: any keyword, at any place in the list, that
/// contains the search lifts the item to a keyword match, and with no such
/// keyword it stays a plain substring match. A value equal to the search is
/// a full match and one that starts with it a prefix match, whatever the
/// keywords say; a value that does not contain it is a miss.
pub proof fn law_keywords_decide_substring_matches(value: Seq<char>, q: Seq<char>, keywords: Seq<Seq<char>>, k: int)
    ensures
        (is_infix(q, value) && value != q && !is_prefix(q, value) && 0 <= k < keywords.len()
            && is_infix(q, keywords[k])) ==> rank_lowered_spec(value, q, keywords) == MatchRank::Keyword,
        (is_infix(q, value) && value != q && !is_prefix(q, value)
            && (forall|j: int| 0 <= j < keywords.len() ==> !is_infix(q, #[trigger] keywords[j])))
            ==> rank_lowered_spec(value, q, keywords) == MatchRank::Substring,
        value == q ==> rank_lowered_spec(value, q, keywords) == MatchRank::Full,
        (is_prefix(q, value) && value != q) ==> rank_lowered_spec(value, q, keywords) == MatchRank::Prefix,
        !is_infix(q, value) ==> rank_lowered_spec(value, q, keywords) == MatchRank::Miss,
{
    if value == q {
        assert(value.subrange(0, q.len() as int) =~= q);
        assert(occurs_at(q, value, 0));
    }
    if is_prefix(q, value) {
        assert(value.subrange(0, q.len() as int) =~= value.take(q.len() as int));
        assert(occurs_at(q, value, 0));
    }
}

/// A step that stays inside the list moves the highlight by exactly that
/// many items, looping or not. Without looping a step past either end stops
/// at that end; with looping it wraps to the other end. With nothing
/// highlighted the first item is.
pub proof fn law_step_moves_by_its_size(idx: usize, len: int, change: int, looping: bool)
    requires
        0 <= idx < len,
    ensures
        0 <= idx + change <= len - 1 ==> next_index_spec(Some(idx), len, change, looping) == idx + change,
        (!looping && idx + change < 0) ==> next_index_spec(Some(idx), len, change, looping) == 0,
        (!looping && idx + change > len - 1) ==> next_index_spec(Some(idx), len, change, looping) == len - 1,
        (looping && idx + change < 0) ==> next_index_spec(Some(idx), len, change, looping) == len - 1,
        (looping && idx + change > len - 1) ==> next_index_spec(Some(idx), len, change, looping) == 0,
        next_index_spec(None, len, change, looping) == 0,
{
}

} // verus!
