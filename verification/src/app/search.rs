//! Day buckets, fuzzy title search, ranking, and the status board.
use vstd::prelude::*;
use vstd::utf8::encode_utf8;
use crate::date::{date_before, min_date, Date};
use crate::model::{Status, Timestamp, Todo, TodoView, now_utc, todo_views};
use crate::text::{
    bytes_less, bytes_precede, char_is_alphanumeric, find_bytes, first_occurrence,
    is_alphanumeric, lemma_bytes_less_irreflexive,
    lemma_bytes_less_total, lemma_bytes_less_transitive, lowercase, string_of, to_chars,
    to_lowercase, trim, trimmed,
};

verus! {

/// Every character of `q` is alphanumeric.
pub open spec fn all_alphanumeric(q: Seq<char>) -> bool {
    forall|m: int| 0 <= m < q.len() ==> is_alphanumeric(#[trigger] q[m])
}

/// A token of `t` (a maximal run of alphanumerics) may start at `k`.
pub open spec fn token_start(t: Seq<char>, k: int) -> bool {
    0 <= k <= t.len() && (k == 0 || !is_alphanumeric(t[k - 1]))
}

/// `q` occurs in `t` at character `k`.
pub open spec fn chars_at(t: Seq<char>, q: Seq<char>, k: int) -> bool {
    0 <= k && k + q.len() <= t.len() && t.subrange(k, k + q.len()) == q
}

/// Some token of `t` starts with `q`.
pub open spec fn token_prefix_match(t: Seq<char>, q: Seq<char>) -> bool {
    all_alphanumeric(q) && exists|k: int| token_start(t, k) && chars_at(t, q, k)
}

/// How many characters of `q` a left-to-right scan of `t` matches, taking
/// each character of `t` that equals the next unmatched one of `q`.
pub open spec fn greedy_matched(t: Seq<char>, q: Seq<char>) -> nat
    decreases t.len(),
{
    if t.len() == 0 {
        0
    } else {
        let j = greedy_matched(t.drop_last(), q);
        if j < q.len() && t.last() == q[j as int] {
            j + 1
        } else {
            j
        }
    }
}

/// `200 - i`, or zero when `i` exceeds 200.
pub open spec fn position_score(i: int) -> nat {
    if i < 200 {
        (200 - i) as nat
    } else {
        0
    }
}

/// The score of a title against a (trimmed, lowercased) query: 1 for the
/// empty query, 500 for the whole title, 300 when a word of the title begins
/// with the query, `200 - i` when the query occurs at byte `i`, 100 when the
/// query can be picked out of the title in order, and no score otherwise.
/// The title is compared in lowercase.
pub open spec fn title_score(title: Seq<char>, query: Seq<char>) -> Option<nat> {
    let t = lowercase(title);
    if query.len() == 0 {
        Some(1)
    } else if t == query {
        Some(500)
    } else if token_prefix_match(t, query) {
        Some(300)
    } else {
        match first_occurrence(encode_utf8(t), encode_utf8(query)) {
            Some(i) => Some(position_score(i)),
            None => if greedy_matched(t, query) == query.len() {
                Some(100)
            } else {
                None
            },
        }
    }
}

/// Whether `q` occurs in `t` at `k`.
fn chars_match_at(t: &[char], q: &[char], k: usize) -> (r: bool)
    requires
        k + q@.len() <= t@.len(),
    ensures
        r == chars_at(t@, q@, k as int),
{
    let t_len = t.len();
    let mut m: usize = 0;
    while m < q.len()
        invariant
            t_len == t@.len(),
            m <= q@.len(),
            k + q@.len() <= t@.len(),
            forall|n: int| 0 <= n < m ==> t@[k + n] == q@[n],
        decreases q@.len() - m,
    {
        assert(k + m < t_len);
        if t[k + m] != q[m] {
            assert(t@.subrange(k as int, k + q@.len())[m as int] != q@[m as int]);
            return false;
        }
        m = m + 1;
    }
    assert(t@.subrange(k as int, k + q@.len()) =~= q@);
    true
}

/// Whether some token of `t` starts with `q`.
fn token_prefix(t: &[char], q: &[char]) -> (r: bool)
    ensures
        r == token_prefix_match(t@, q@),
{
    let mut m: usize = 0;
    while m < q.len()
        invariant
            m <= q@.len(),
            forall|n: int| 0 <= n < m ==> is_alphanumeric(#[trigger] q@[n]),
        decreases q@.len() - m,
    {
        if !char_is_alphanumeric(q[m]) {
            return false;
        }
        m = m + 1;
    }
    if q.len() > t.len() {
        return false;
    }
    let last = t.len() - q.len();
    let mut k: usize = 0;
    loop
        invariant_except_break
            last + q@.len() == t@.len(),
            all_alphanumeric(q@),
            k <= last,
            forall|e: int| 0 <= e < k ==> !(token_start(t@, e) && chars_at(t@, q@, e)),
        ensures
            forall|e: int| 0 <= e <= last ==> !(token_start(t@, e) && chars_at(t@, q@, e)),
        decreases last - k,
    {
        let starts = k == 0 || !char_is_alphanumeric(t[k - 1]);
        if starts && chars_match_at(t, q, k) {
            assert(token_start(t@, k as int) && chars_at(t@, q@, k as int));
            return true;
        }
        if k == last {
            break;
        }
        k = k + 1;
    }
    assert forall|e: int| !(token_start(t@, e) && chars_at(t@, q@, e)) by {
        if 0 <= e <= last {
        }
    }
    false
}

/// How many characters of `q` the in-order scan of `t` matches.
fn greedy_match(t: &[char], q: &[char]) -> (r: usize)
    ensures
        r == greedy_matched(t@, q@),
        r <= q@.len(),
{
    let mut j: usize = 0;
    let mut i: usize = 0;
    while i < t.len()
        invariant
            i <= t@.len(),
            j <= q@.len(),
            j == greedy_matched(t@.take(i as int), q@),
        decreases t@.len() - i,
    {
        assert(t@.take(i + 1).drop_last() =~= t@.take(i as int));
        if j < q.len() && t[i] == q[j] {
            j = j + 1;
        }
        i = i + 1;
    }
    assert(t@.take(t@.len() as int) =~= t@);
    j
}

/// The score of `title` against `query`, which the caller has trimmed and
/// lowercased.
fn fuzzy_title_score(title: &str, query: &str) -> (r: Option<usize>)
    ensures
        r matches Some(n) ==> title_score(title@, query@) == Some(n as nat),
        r is None ==> title_score(title@, query@) is None,
{
    let q = to_chars(query);
    if q.len() == 0 {
        return Some(1);
    }
    let lower = to_lowercase(title);
    let t = to_chars(lower.as_str());
    if t.len() == q.len() {
        let mut same = true;
        let mut m: usize = 0;
        while m < q.len()
            invariant
                t@.len() == q@.len(),
                m <= q@.len(),
                same <==> forall|n: int| 0 <= n < m ==> t@[n] == q@[n],
            decreases q@.len() - m,
        {
            if t[m] != q[m] {
                same = false;
            }
            m = m + 1;
        }
        if same {
            assert(t@ =~= q@);
            return Some(500);
        }
    }
    assert(t@ != q@);
    if token_prefix(t.as_slice(), q.as_slice()) {
        return Some(300);
    }
    match find_bytes(lower.as_str().as_bytes(), query.as_bytes()) {
        Some(index) => {
            let score = if index < 200 {
                200 - index
            } else {
                0
            };
            Some(score)
        },
        None => {
            let matched = greedy_match(t.as_slice(), q.as_slice());
            if matched == q.len() {
                Some(100)
            } else {
                None
            }
        },
    }
}

/// What a search compares: the query trimmed and lowercased.
pub open spec fn normalized_query(query: Seq<char>) -> Seq<char> {
    lowercase(trim(query))
}

/// The order key of a scored task: higher score first, then shorter title
/// (in UTF-8 bytes), then smaller title in byte order.
pub struct RankKey {
    pub score: int,
    pub len: int,
    pub title: Seq<u8>,
}

pub open spec fn rank_key(t: TodoView, score: nat) -> RankKey {
    RankKey { score: score as int, len: encode_utf8(t.title).len() as int, title: encode_utf8(t.title) }
}

pub open spec fn key_less(a: RankKey, b: RankKey) -> bool {
    ||| a.score > b.score
    ||| a.score == b.score && a.len < b.len
    ||| a.score == b.score && a.len == b.len && bytes_less(a.title, b.title)
}

/// Entry `i` is listed before entry `j`: by key, and by position on equal keys.
pub open spec fn ranks_ahead(keys: Seq<RankKey>, i: int, j: int) -> bool {
    key_less(keys[i], keys[j]) || (keys[i] == keys[j] && i < j)
}

/// `order` lists every entry once, each ahead of those after it.
pub open spec fn is_rank_order(keys: Seq<RankKey>, order: Seq<usize>) -> bool {
    &&& order.len() == keys.len()
    &&& forall|k: int| 0 <= k < order.len() ==> #[trigger] order[k] < keys.len()
    &&& forall|a: int, b: int|
        0 <= a < b < order.len() ==> ranks_ahead(keys, #[trigger] order[a] as int, #[trigger] order[b] as int)
}

proof fn lemma_key_less_facts()
    ensures
        forall|a: RankKey| !#[trigger] key_less(a, a),
        forall|a: RankKey, b: RankKey, c: RankKey|
            #[trigger] key_less(a, b) && #[trigger] key_less(b, c) ==> key_less(a, c),
        forall|a: RankKey, b: RankKey|
            a != b && a.len == b.len ==> #[trigger] key_less(a, b) || #[trigger] key_less(b, a)
                || (a.score == b.score && a.len == b.len && a.title == b.title),
{
    assert forall|a: RankKey| !#[trigger] key_less(a, a) by {
        lemma_bytes_less_irreflexive(a.title);
    }
    assert forall|a: RankKey, b: RankKey, c: RankKey|
        #[trigger] key_less(a, b) && #[trigger] key_less(b, c) implies key_less(a, c) by {
        if a.score == b.score && b.score == c.score && a.len == b.len && b.len == c.len {
            lemma_bytes_less_transitive(a.title, b.title, c.title);
        }
    }
    assert forall|a: RankKey, b: RankKey|
        a != b && a.len == b.len implies #[trigger] key_less(a, b) || #[trigger] key_less(b, a)
            || (a.score == b.score && a.len == b.len && a.title == b.title) by {
        if a.score == b.score && a.title != b.title {
            lemma_bytes_less_total(a.title, b.title);
        }
    }
}

/// Either of two keys is less than the other, or they are equal.
proof fn lemma_key_trichotomy(a: RankKey, b: RankKey)
    ensures
        key_less(a, b) || key_less(b, a) || a == b,
{
    if a.score == b.score && a.len == b.len {
        if a.title != b.title {
            lemma_bytes_less_total(a.title, b.title);
        }
    }
}

/// The matching tasks among the first `n`: their positions and scores.
pub open spec fn matched_entries(todos: Seq<TodoView>, q: Seq<char>, n: int) -> Seq<(int, nat)>
    decreases n,
{
    if n <= 0 {
        seq![]
    } else {
        let prev = matched_entries(todos, q, n - 1);
        match title_score(todos[n - 1].title, q) {
            Some(score) => prev.push((n - 1, score)),
            None => prev,
        }
    }
}

pub open spec fn entry_keys(todos: Seq<TodoView>, entries: Seq<(int, nat)>) -> Seq<RankKey> {
    Seq::new(entries.len(), |k: int| rank_key(todos[entries[k].0], entries[k].1))
}

/// `result` lists the tasks of `todos` that match `q`, ranked.
pub open spec fn is_search_result(todos: Seq<TodoView>, q: Seq<char>, result: Seq<TodoView>) -> bool {
    let entries = matched_entries(todos, q, todos.len() as int);
    exists|order: Seq<usize>|
        #[trigger] is_rank_order(entry_keys(todos, entries), order) && result == Seq::new(
            order.len(),
            |k: int| todos[entries[order[k] as int].0],
        )
}

/// Whether entry `a` ranks strictly ahead of entry `b` by key.
fn entry_key_less(
    todos: &[Todo],
    entries: &Vec<(usize, usize)>,
    a: usize,
    b: usize,
    ghost_entries: Ghost<Seq<(int, nat)>>,
) -> (r: bool)
    requires
        a < entries@.len(),
        b < entries@.len(),
        ghost_entries@.len() == entries@.len(),
        forall|k: int|
            0 <= k < entries@.len() ==> (#[trigger] entries@[k]).0 < todos@.len() && ghost_entries@[k]
                == (entries@[k].0 as int, entries@[k].1 as nat),
    ensures
        r == key_less(
            entry_keys(todo_views(todos@), ghost_entries@)[a as int],
            entry_keys(todo_views(todos@), ghost_entries@)[b as int],
        ),
{
    let (ia, sa) = entries[a];
    let (ib, sb) = entries[b];
    if sa != sb {
        return sa > sb;
    }
    let ta = todos[ia].title.as_str().as_bytes();
    let tb = todos[ib].title.as_str().as_bytes();
    if ta.len() != tb.len() {
        return ta.len() < tb.len();
    }
    bytes_precede(ta, tb)
}

/// The entries in ranked order, as positions into `entries`.
fn rank_order(
    todos: &[Todo],
    entries: &Vec<(usize, usize)>,
    ghost_entries: Ghost<Seq<(int, nat)>>,
) -> (r: Vec<usize>)
    requires
        ghost_entries@.len() == entries@.len(),
        forall|k: int|
            0 <= k < entries@.len() ==> (#[trigger] entries@[k]).0 < todos@.len() && ghost_entries@[k]
                == (entries@[k].0 as int, entries@[k].1 as nat),
    ensures
        is_rank_order(entry_keys(todo_views(todos@), ghost_entries@), r@),
{
    let ghost keys = entry_keys(todo_views(todos@), ghost_entries@);
    proof {
        lemma_key_less_facts();
    }
    let mut order: Vec<usize> = Vec::new();
    let mut i: usize = 0;
    while i < entries.len()
        invariant
            i <= entries@.len(),
            keys == entry_keys(todo_views(todos@), ghost_entries@),
            keys.len() == entries@.len(),
            ghost_entries@.len() == entries@.len(),
            forall|k: int|
                0 <= k < entries@.len() ==> (#[trigger] entries@[k]).0 < todos@.len()
                    && ghost_entries@[k] == (entries@[k].0 as int, entries@[k].1 as nat),
            order@.len() == i,
            forall|k: int| 0 <= k < order@.len() ==> #[trigger] order@[k] < i,
            forall|a: int, b: int|
                0 <= a < b < order@.len() ==> ranks_ahead(
                    keys,
                    #[trigger] order@[a] as int,
                    #[trigger] order@[b] as int,
                ),
        decreases entries@.len() - i,
    {
        let mut p: usize = 0;
        while p < order.len() && !entry_key_less(todos, entries, i, order[p], ghost_entries)
            invariant
                i < entries@.len(),
                p <= order@.len(),
                order@.len() == i,
                forall|k: int| 0 <= k < order@.len() ==> #[trigger] order@[k] < i,
                keys == entry_keys(todo_views(todos@), ghost_entries@),
                ghost_entries@.len() == entries@.len(),
                forall|k: int|
                    0 <= k < entries@.len() ==> (#[trigger] entries@[k]).0 < todos@.len()
                        && ghost_entries@[k] == (entries@[k].0 as int, entries@[k].1 as nat),
                forall|q: int| 0 <= q < p ==> !key_less(keys[i as int], keys[#[trigger] order@[q] as int]),
            decreases order@.len() - p,
        {
            p = p + 1;
        }
        let ghost old_order = order@;
        proof {
            lemma_key_less_facts();
            assert forall|q: int| 0 <= q < p implies ranks_ahead(keys, #[trigger] old_order[q] as int, i as int) by {
                lemma_key_trichotomy(keys[i as int], keys[old_order[q] as int]);
            }
            assert forall|q: int| p <= q < old_order.len() implies key_less(keys[i as int], keys[#[trigger] old_order[q] as int]) by {
                if q > p {
                    assert(ranks_ahead(keys, old_order[p as int] as int, old_order[q] as int));
                }
            }
        }
        order.insert(p, i);
        proof {
            let n = order@;
            assert(n =~= old_order.insert(p as int, i));
            assert forall|k: int| 0 <= k < n.len() implies #[trigger] n[k] < i + 1 by {
                if k < p {
                    assert(n[k] == old_order[k]);
                } else if k > p {
                    assert(n[k] == old_order[k - 1]);
                }
            }
            assert forall|a: int, b: int| 0 <= a < b < n.len() implies ranks_ahead(keys, #[trigger] n[a] as int, #[trigger] n[b] as int) by {
                if b < p {
                    assert(n[a] == old_order[a] && n[b] == old_order[b]);
                } else if b == p {
                    assert(n[a] == old_order[a]);
                } else if a < p {
                    assert(n[a] == old_order[a] && n[b] == old_order[b - 1]);
                    assert(ranks_ahead(keys, old_order[a] as int, i as int));
                    assert(key_less(keys[i as int], keys[old_order[b - 1] as int]));
                    lemma_key_trichotomy(keys[old_order[a] as int], keys[i as int]);
                } else if a == p {
                    assert(n[b] == old_order[b - 1]);
                    assert(key_less(keys[i as int], keys[old_order[b - 1] as int]));
                } else {
                    assert(n[a] == old_order[a - 1] && n[b] == old_order[b - 1]);
                }
            }
        }
        i = i + 1;
    }
    order
}

/// The query as a search compares it: trimmed, then lowercased.
fn normalize_query(query: &str) -> (r: String)
    ensures
        r@ == normalized_query(query@),
{
    let chars = to_chars(query);
    let kept = trimmed(chars.as_slice());
    let text = string_of(kept.as_slice());
    to_lowercase(text.as_str())
}

/// The tasks whose titles match `query` (compared trimmed and in lowercase),
/// best match first: by score, then shorter title, then title order, and in
/// the order they were given in when all of these are equal.
pub fn search_todos(todos: &[Todo], query: &str) -> (r: Vec<Todo>)
    ensures
        is_search_result(todo_views(todos@), normalized_query(query@), todo_views(r@)),
{
    let q = normalize_query(query);
    let ghost views = todo_views(todos@);
    let ghost nq = q@;
    let mut entries: Vec<(usize, usize)> = Vec::new();
    let ghost mut g: Seq<(int, nat)> = seq![];
    let mut j: usize = 0;
    while j < todos.len()
        invariant
            j <= todos@.len(),
            views == todo_views(todos@),
            nq == q@,
            g == matched_entries(views, nq, j as int),
            g.len() == entries@.len(),
            forall|k: int|
                0 <= k < entries@.len() ==> (#[trigger] entries@[k]).0 < j && g[k] == (
                    entries@[k].0 as int,
                    entries@[k].1 as nat,
                ),
        decreases todos@.len() - j,
    {
        match fuzzy_title_score(todos[j].title.as_str(), q.as_str()) {
            Some(score) => {
                entries.push((j, score));
                proof {
                    g = g.push((j as int, score as nat));
                }
            },
            None => {},
        }
        j = j + 1;
    }
    let order = rank_order(todos, &entries, Ghost(g));
    let ghost keys = entry_keys(views, g);
    let mut out: Vec<Todo> = Vec::new();
    let mut k: usize = 0;
    while k < order.len()
        invariant
            k <= order@.len(),
            views == todo_views(todos@),
            is_rank_order(keys, order@),
            keys == entry_keys(views, g),
            g.len() == entries@.len(),
            forall|m: int|
                0 <= m < entries@.len() ==> (#[trigger] entries@[m]).0 < todos@.len() && g[m] == (
                    entries@[m].0 as int,
                    entries@[m].1 as nat,
                ),
            todo_views(out@) == Seq::new(k as nat, |m: int| views[g[order@[m] as int].0]),
        decreases order@.len() - k,
    {
        let entry = entries[order[k]];
        let copy = todos[entry.0].duplicate();
        let ghost before = todo_views(out@);
        let ghost copied = copy@;
        assert(copied == views[g[order@[k as int] as int].0]);
        out.push(copy);
        assert(todo_views(out@) =~= before.push(copied));
        assert(todo_views(out@) =~= Seq::new((k + 1) as nat, |m: int| views[g[order@[m] as int].0]));
        k = k + 1;
    }
    assert(views.len() == todos@.len());
    assert(g == matched_entries(views, normalized_query(query@), views.len() as int));
    assert(is_rank_order(entry_keys(views, g), order@));
    assert(todo_views(out@) == Seq::new(order@.len(), |m: int| views[g[order@[m] as int].0]));
    out
}

/// Whether a task is overdue with respect to `cutoff`: not done, and due
/// before that day.
pub open spec fn is_overdue_for(t: TodoView, cutoff: Date) -> bool {
    t.status != Status::Done && date_before(t.assigned_day@, cutoff@)
}

pub open spec fn overdue_of(s: Seq<TodoView>, cutoff: Date) -> Seq<TodoView> {
    s.filter(|t: TodoView| is_overdue_for(t, cutoff))
}

pub open spec fn due_on(s: Seq<TodoView>, day: Date) -> Seq<TodoView> {
    s.filter(|t: TodoView| t.assigned_day == day)
}

/// The tasks of one day view: what is overdue, and what is due that day.
#[derive(Clone, Debug)]
pub struct DayBuckets {
    pub overdue: Vec<Todo>,
    pub today: Vec<Todo>,
}

/// Tasks (copied) that are overdue with respect to `cutoff`, in order.
fn overdue_items(todos: &[Todo], cutoff: Date) -> (r: Vec<Todo>)
    ensures
        todo_views(r@) == overdue_of(todo_views(todos@), cutoff),
{
    let ghost views = todo_views(todos@);
    let mut out: Vec<Todo> = Vec::new();
    let mut i: usize = 0;
    while i < todos.len()
        invariant
            i <= todos@.len(),
            views == todo_views(todos@),
            todo_views(out@) == overdue_of(views.take(i as int), cutoff),
        decreases todos@.len() - i,
    {
        proof {
            reveal_with_fuel(Seq::filter, 1);
            assert(views.take(i + 1).drop_last() =~= views.take(i as int));
        }
        let ghost before = todo_views(out@);
        if todos[i].status != Status::Done && todos[i].assigned_day.is_before(&cutoff) {
            let copy = todos[i].duplicate();
            out.push(copy);
            assert(todo_views(out@) =~= before.push(views[i as int]));
        }
        i = i + 1;
    }
    assert(views.take(todos@.len() as int) =~= views);
    out
}

/// Tasks (copied) due on `day`, in order.
fn due_items(todos: &[Todo], day: Date) -> (r: Vec<Todo>)
    ensures
        todo_views(r@) == due_on(todo_views(todos@), day),
{
    let ghost views = todo_views(todos@);
    let mut out: Vec<Todo> = Vec::new();
    let mut i: usize = 0;
    while i < todos.len()
        invariant
            i <= todos@.len(),
            views == todo_views(todos@),
            todo_views(out@) == due_on(views.take(i as int), day),
        decreases todos@.len() - i,
    {
        proof {
            reveal_with_fuel(Seq::filter, 1);
            assert(views.take(i + 1).drop_last() =~= views.take(i as int));
        }
        let ghost before = todo_views(out@);
        if todos[i].assigned_day == day {
            let copy = todos[i].duplicate();
            out.push(copy);
            assert(todo_views(out@) =~= before.push(views[i as int]));
        }
        i = i + 1;
    }
    assert(views.take(todos@.len() as int) =~= views);
    out
}

impl DayBuckets {
    /// The day view of `day` as seen on that same day.
    pub fn for_day(day: Date, todos: &[Todo]) -> (r: DayBuckets)
        ensures
            todo_views(r.overdue@) == overdue_of(todo_views(todos@), day),
            todo_views(r.today@) == due_on(todo_views(todos@), day),
    {
        Self::for_day_as_of(day, day, todos)
    }

    /// The day view of `day` as seen on `as_of`: a task is overdue when it is
    /// not done and due before both days, so that viewing a later day does
    /// not make the tasks of the real today overdue.
    pub fn for_day_as_of(day: Date, as_of: Date, todos: &[Todo]) -> (r: DayBuckets)
        ensures
            todo_views(r.overdue@) == overdue_of(
                todo_views(todos@),
                if date_before(as_of@, day@) {
                    as_of
                } else {
                    day
                },
            ),
            todo_views(r.today@) == due_on(todo_views(todos@), day),
    {
        let cutoff = min_date(day, as_of);
        let overdue = overdue_items(todos, cutoff);
        let today = due_items(todos, day);
        DayBuckets { overdue, today }
    }

    /// Each bucket narrowed to the tasks matching `query`, ranked as
    /// `search_todos` ranks them.
    pub fn filter_by_query(&self, query: &str) -> (r: DayBuckets)
        ensures
            is_search_result(todo_views(self.overdue@), normalized_query(query@), todo_views(r.overdue@)),
            is_search_result(todo_views(self.today@), normalized_query(query@), todo_views(r.today@)),
    {
        let overdue = search_todos(self.overdue.as_slice(), query);
        let today = search_todos(self.today.as_slice(), query);
        DayBuckets { overdue, today }
    }
}

/// The board column of a status.
pub open spec fn lane_of(status: Status) -> int {
    match status {
        Status::Backlog => 0,
        Status::Doing => 1,
        Status::Blocked => 2,
        Status::Done => 3,
    }
}

/// The board column of a status: backlog, doing, blocked, done.
pub fn status_lane_index(status: Status) -> (r: usize)
    ensures
        r == lane_of(status),
{
    match status {
        Status::Backlog => 0,
        Status::Doing => 1,
        Status::Blocked => 2,
        Status::Done => 3,
    }
}

/// A done task completed more than a week before `now`.
pub open spec fn is_archived(t: TodoView, now: Timestamp) -> bool {
    &&& t.status == Status::Done
    &&& match t.completed_at {
        Some(c) => {
            let limit = now.secs - 604800;
            c.secs < limit || (c.secs == limit && c.nanos < now.nanos)
        },
        None => false,
    }
}

fn archived_at(t: &Todo, now: Timestamp) -> (r: bool)
    ensures
        r == is_archived(t@, now),
{
    if t.status != Status::Done {
        return false;
    }
    match t.completed_at {
        Some(c) => {
            let limit: i128 = now.secs as i128 - 604800;
            (c.secs as i128) < limit || ((c.secs as i128) == limit && c.nanos < now.nanos)
        },
        None => false,
    }
}

pub open spec fn lane_items_of(s: Seq<TodoView>, lane: int, now: Timestamp) -> Seq<TodoView> {
    s.filter(|t: TodoView| !is_archived(t, now) && lane_of(t.status) == lane)
}

pub open spec fn archived_of(s: Seq<TodoView>, now: Timestamp) -> Seq<TodoView> {
    s.filter(|t: TodoView| is_archived(t, now))
}

/// The board: the tasks that are not archived, by column, each column in
/// the given order.
pub open spec fn board_of(s: Seq<TodoView>, now: Timestamp) -> Seq<TodoView> {
    lane_items_of(s, 0, now) + lane_items_of(s, 1, now) + lane_items_of(s, 2, now) + lane_items_of(
        s,
        3,
        now,
    )
}

fn lane_items(found: &Vec<Todo>, lane: usize, now: Timestamp) -> (r: Vec<Todo>)
    ensures
        todo_views(r@) == lane_items_of(todo_views(found@), lane as int, now),
{
    let ghost views = todo_views(found@);
    let mut out: Vec<Todo> = Vec::new();
    let mut i: usize = 0;
    while i < found.len()
        invariant
            i <= found@.len(),
            views == todo_views(found@),
            todo_views(out@) == lane_items_of(views.take(i as int), lane as int, now),
        decreases found@.len() - i,
    {
        proof {
            reveal_with_fuel(Seq::filter, 1);
            assert(views.take(i + 1).drop_last() =~= views.take(i as int));
        }
        let ghost before = todo_views(out@);
        if !archived_at(&found[i], now) && status_lane_index(found[i].status) == lane {
            let copy = found[i].duplicate();
            out.push(copy);
            assert(todo_views(out@) =~= before.push(views[i as int]));
        }
        i = i + 1;
    }
    assert(views.take(found@.len() as int) =~= views);
    out
}

/// The ranked search results laid out as a board at instant `now`: the
/// tasks that are not archived, backlog first, then doing, blocked and done,
/// each column in ranked order.
pub fn board_todos_as_of(todos: &[Todo], query: &str, now: Timestamp) -> (r: Vec<Todo>)
    ensures
        exists|found: Seq<TodoView>|
            is_search_result(todo_views(todos@), normalized_query(query@), found) && todo_views(r@)
                == #[trigger] board_of(found, now),
{
    let found = search_todos(todos, query);
    let mut out = lane_items(&found, 0, now);
    let mut lane: usize = 1;
    while lane < 4
        invariant
            1 <= lane <= 4,
            todo_views(out@) == (if lane == 1 {
                lane_items_of(todo_views(found@), 0, now)
            } else if lane == 2 {
                lane_items_of(todo_views(found@), 0, now) + lane_items_of(todo_views(found@), 1, now)
            } else if lane == 3 {
                lane_items_of(todo_views(found@), 0, now) + lane_items_of(todo_views(found@), 1, now)
                    + lane_items_of(todo_views(found@), 2, now)
            } else {
                board_of(todo_views(found@), now)
            }),
        decreases 4 - lane,
    {
        let mut more = lane_items(&found, lane, now);
        let ghost before = todo_views(out@);
        let ghost added = todo_views(more@);
        out.append(&mut more);
        assert(todo_views(out@) =~= before + added);
        lane = lane + 1;
    }
    assert(board_of(todo_views(found@), now) == todo_views(out@));
    out
}

/// The board of the ranked search results, as of the current instant.
pub fn board_todos(todos: &[Todo], query: &str) -> (r: Vec<Todo>)
    ensures
        exists|now: Timestamp, found: Seq<TodoView>|
            is_search_result(todo_views(todos@), normalized_query(query@), found) && todo_views(r@)
                == #[trigger] board_of(found, now),
{
    let now = now_utc();
    board_todos_as_of(todos, query, now)
}

/// The ranked search results that are archived at instant `now`: done and
/// completed more than a week before.
pub fn archived_completed_todos_as_of(todos: &[Todo], query: &str, now: Timestamp) -> (r: Vec<Todo>)
    ensures
        exists|found: Seq<TodoView>|
            is_search_result(todo_views(todos@), normalized_query(query@), found) && todo_views(r@)
                == #[trigger] archived_of(found, now),
{
    let found = search_todos(todos, query);
    let ghost views = todo_views(found@);
    let mut out: Vec<Todo> = Vec::new();
    let mut i: usize = 0;
    while i < found.len()
        invariant
            i <= found@.len(),
            views == todo_views(found@),
            todo_views(out@) == archived_of(views.take(i as int), now),
        decreases found@.len() - i,
    {
        proof {
            reveal_with_fuel(Seq::filter, 1);
            assert(views.take(i + 1).drop_last() =~= views.take(i as int));
        }
        let ghost before = todo_views(out@);
        if archived_at(&found[i], now) {
            let copy = found[i].duplicate();
            out.push(copy);
            assert(todo_views(out@) =~= before.push(views[i as int]));
        }
        i = i + 1;
    }
    assert(views.take(found@.len() as int) =~= views);
    out
}

/// The archived ranked search results, as of the current instant.
pub fn archived_completed_todos(todos: &[Todo], query: &str) -> (r: Vec<Todo>)
    ensures
        exists|now: Timestamp, found: Seq<TodoView>|
            is_search_result(todo_views(todos@), normalized_query(query@), found) && todo_views(r@)
                == #[trigger] archived_of(found, now),
{
    let now = now_utc();
    archived_completed_todos_as_of(todos, query, now)
}


/// On the board at instant `now`: a found task that is done and was
/// completed more than a week before `now` never shows; a found task that is
/// not done always shows.
pub proof fn law_board_hides_week_old_done(found: Seq<TodoView>, now: Timestamp, t: TodoView)
    requires
        found.contains(t),
    ensures
        (t.status == Status::Done && t.completed_at is Some && t.completed_at->0.secs + 604800
            < now.secs) ==> !board_of(found, now).contains(t),
        t.status != Status::Done ==> board_of(found, now).contains(t),
{
    let l0 = lane_items_of(found, 0, now);
    let l1 = lane_items_of(found, 1, now);
    let l2 = lane_items_of(found, 2, now);
    let l3 = lane_items_of(found, 3, now);
    found.filter_lemma(|x: TodoView| !is_archived(x, now) && lane_of(x.status) == 0);
    found.filter_lemma(|x: TodoView| !is_archived(x, now) && lane_of(x.status) == 1);
    found.filter_lemma(|x: TodoView| !is_archived(x, now) && lane_of(x.status) == 2);
    found.filter_lemma(|x: TodoView| !is_archived(x, now) && lane_of(x.status) == 3);
    let b = board_of(found, now);
    assert(b == l0 + l1 + l2 + l3);
    if t.status == Status::Done && t.completed_at is Some && t.completed_at->0.secs + 604800
        < now.secs {
        assert(is_archived(t, now));
        if b.contains(t) {
            let i = choose|i: int| 0 <= i < b.len() && b[i] == t;
            if i < l0.len() {
                assert(b[i] == l0[i]);
            } else if i < l0.len() + l1.len() {
                assert(b[i] == l1[i - l0.len()]);
            } else if i < l0.len() + l1.len() + l2.len() {
                assert(b[i] == l2[i - l0.len() - l1.len()]);
            } else {
                assert(b[i] == l3[i - l0.len() - l1.len() - l2.len()]);
            }
        }
    }
    if t.status != Status::Done {
        assert(!is_archived(t, now));
        let k = choose|k: int| 0 <= k < found.len() && found[k] == t;
        assert(found[k] == t);
        if t.status == Status::Backlog {
            assert(l0.contains(t));
            let j = choose|j: int| 0 <= j < l0.len() && l0[j] == t;
            assert(b[j] == t);
        } else if t.status == Status::Doing {
            assert(l1.contains(t));
            let j = choose|j: int| 0 <= j < l1.len() && l1[j] == t;
            assert(b[l0.len() + j] == t);
        } else {
            assert(l2.contains(t));
            let j = choose|j: int| 0 <= j < l2.len() && l2[j] == t;
            assert(b[l0.len() + l1.len() + j] == t);
        }
    }
}

} // verus!
