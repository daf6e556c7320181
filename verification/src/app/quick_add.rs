//! Quick-add parsing: a title with `!priority`, `@day` and `@time` tokens.
use vstd::prelude::*;
use vstd::utf8::encode_utf8;
use crate::date::{
    checked_add_days, clock_time_parse, days_later, iso_date_parse, parse_clock_time,
    parse_iso_date, Date, DateView, Time, TimeView,
};
use crate::model::Priority;
use crate::screen::priority_text;
use crate::text::{
    ascii_lowercase, chars_equal, concat, contains_char, drop_first_char, join, join_chars, owned,
    split_whitespace, string_of, to_ascii_lowercase, to_chars, trim, trimmed, utf8_len_reaches,
    views_of, words,
};

verus! {

/// The priority that a token (already in ASCII lowercase) sets, if any.
pub open spec fn priority_word(n: Seq<char>) -> Option<Priority> {
    if n == "!h"@ || n == "!high"@ {
        Some(Priority::High)
    } else if n == "!m"@ || n == "!med"@ || n == "!medium"@ {
        Some(Priority::Medium)
    } else if n == "!l"@ || n == "!low"@ {
        Some(Priority::Low)
    } else {
        None
    }
}

/// The time an `@` token body names: `HH:MM`, or an hour without padding.
pub open spec fn time_word(body: Seq<char>) -> Option<TimeView> {
    match clock_time_parse(body, "%H:%M"@) {
        Some(t) => Some(t),
        None => clock_time_parse(body, "%-H:%M"@),
    }
}

/// The day an `@` token body names: `today`, `tomorrow` (any case), or an
/// ISO date.
pub open spec fn date_word(body: Seq<char>, base: Date) -> Option<DateView> {
    let n = ascii_lowercase(body);
    if n == "today"@ {
        Some(base@)
    } else if n == "tomorrow"@ {
        days_later(base@, 1)
    } else {
        iso_date_parse(body)
    }
}

/// An `@` token body that looks like a time: a colon, and three bytes or more.
pub open spec fn time_like(body: Seq<char>) -> bool {
    body.contains(':') && encode_utf8(body).len() >= 3
}

/// An `@` token body that looks like a date: a hyphen.
pub open spec fn date_like(body: Seq<char>) -> bool {
    body.contains('-')
}

/// What has been read of a quick-add text so far.
pub struct QuickState {
    pub priority: Priority,
    pub day: DateView,
    pub due: Option<TimeView>,
    pub words: Seq<Seq<char>>,
}

/// The effect of one token: a priority, a due time, a day, a title word, or
/// a rejection with its message.
pub open spec fn quick_step(st: QuickState, token: Seq<char>, base: Date) -> Result<
    QuickState,
    Seq<char>,
> {
    match priority_word(ascii_lowercase(token)) {
        Some(p) => Ok(QuickState { priority: p, ..st }),
        None => if token.len() > 0 && token[0] == '@' {
            let body = token.drop_first();
            if body.len() == 0 {
                Ok(QuickState { words: st.words.push(token), ..st })
            } else {
                match time_word(body) {
                    Some(t) => Ok(QuickState { due: Some(t), ..st }),
                    None => match date_word(body, base) {
                        Some(d) => Ok(QuickState { day: d, ..st }),
                        None => if time_like(body) {
                            Err("invalid time token: @"@ + token)
                        } else if date_like(body) {
                            Err("invalid date token: @"@ + token)
                        } else {
                            Ok(QuickState { words: st.words.push(token), ..st })
                        },
                    },
                }
            }
        } else {
            Ok(QuickState { words: st.words.push(token), ..st })
        },
    }
}

/// The tokens read in order from `init`, stopping at the first rejection.
pub open spec fn quick_fold(tokens: Seq<Seq<char>>, init: QuickState, base: Date) -> Result<
    QuickState,
    Seq<char>,
>
    decreases tokens.len(),
{
    if tokens.len() == 0 {
        Ok(init)
    } else {
        match quick_fold(tokens.drop_last(), init, base) {
            Ok(st) => quick_step(st, tokens.last(), base),
            Err(e) => Err(e),
        }
    }
}

/// The value of a parsed quick-add text.
pub struct QuickAddView {
    pub title: Seq<char>,
    pub priority: Priority,
    pub assigned_day: DateView,
    pub due_time: Option<TimeView>,
}

/// What a quick-add text gives: its words other than the tokens, joined by
/// single spaces, with the priority, day and due time that the tokens set
/// (the defaults otherwise; the last token of a kind wins); or the message of
/// the first rejected token, or of an empty title.
pub open spec fn quick_add_spec(input: Seq<char>, default_priority: Priority, default_day: Date) -> Result<
    QuickAddView,
    Seq<char>,
> {
    let init = QuickState {
        priority: default_priority,
        day: default_day@,
        due: None,
        words: seq![],
    };
    match quick_fold(words(input), init, default_day) {
        Err(e) => Err(e),
        Ok(st) => {
            let title = trim(join(st.words, " "@));
            if title.len() == 0 {
                Err("title cannot be empty"@)
            } else {
                Ok(
                    QuickAddView {
                        title,
                        priority: st.priority,
                        assigned_day: st.day,
                        due_time: st.due,
                    },
                )
            }
        },
    }
}

#[derive(Clone, Debug)]
pub struct QuickAddParsed {
    pub title: String,
    pub priority: Priority,
    pub assigned_day: Date,
    pub due_time: Option<Time>,
}

pub open spec fn time_view(t: Option<Time>) -> Option<TimeView> {
    match t {
        Some(x) => Some(x@),
        None => None,
    }
}

impl View for QuickAddParsed {
    type V = QuickAddView;

    open spec fn view(&self) -> QuickAddView {
        QuickAddView {
            title: self.title@,
            priority: self.priority,
            assigned_day: self.assigned_day@,
            due_time: time_view(self.due_time),
        }
    }
}

/// The priority a token in ASCII lowercase sets.
fn parse_priority_token(token: &[char]) -> (r: Option<Priority>)
    ensures
        r == priority_word(token@),
{
    if chars_equal(token, to_chars("!h").as_slice()) || chars_equal(token, to_chars("!high").as_slice()) {
        Some(Priority::High)
    } else if chars_equal(token, to_chars("!m").as_slice()) || chars_equal(token, to_chars("!med").as_slice())
        || chars_equal(token, to_chars("!medium").as_slice()) {
        Some(Priority::Medium)
    } else if chars_equal(token, to_chars("!l").as_slice()) || chars_equal(token, to_chars("!low").as_slice()) {
        Some(Priority::Low)
    } else {
        None
    }
}

/// The time a token body names.
fn parse_time_token(body: &str) -> (r: Option<Time>)
    ensures
        time_view(r) == time_word(body@),
{
    match parse_clock_time(body, "%H:%M") {
        Some(t) => Some(t),
        None => parse_clock_time(body, "%-H:%M"),
    }
}

/// The day a token body names, relative to `base_day`.
fn try_parse_date_token(body: &[char], base_day: Date) -> (r: Option<Date>)
    ensures
        r matches Some(d) ==> date_word(body@, base_day) == Some(d@),
        r is None ==> date_word(body@, base_day) is None,
{
    let normalized = to_ascii_lowercase(body);
    if chars_equal(normalized.as_slice(), to_chars("today").as_slice()) {
        Some(base_day)
    } else if chars_equal(normalized.as_slice(), to_chars("tomorrow").as_slice()) {
        checked_add_days(base_day, 1)
    } else {
        let text = string_of(body);
        parse_iso_date(text.as_str())
    }
}

/// Once a token is rejected, reading more tokens keeps the rejection.
proof fn lemma_fold_keeps_error(tokens: Seq<Seq<char>>, init: QuickState, base: Date, k: int)
    requires
        0 <= k <= tokens.len(),
        quick_fold(tokens.take(k), init, base) is Err,
    ensures
        quick_fold(tokens, init, base) == quick_fold(tokens.take(k), init, base),
    decreases tokens.len() - k,
{
    if k < tokens.len() {
        assert(tokens.take(k + 1).drop_last() =~= tokens.take(k));
        lemma_fold_keeps_error(tokens, init, base, k + 1);
    } else {
        assert(tokens.take(k) =~= tokens);
    }
}

/// A copy of a text.
fn copy_chars(s: &[char]) -> (r: Vec<char>)
    ensures
        r@ == s@,
{
    let mut r: Vec<char> = Vec::new();
    let mut i: usize = 0;
    while i < s.len()
        invariant
            i <= s@.len(),
            r@ == s@.take(i as int),
        decreases s@.len() - i,
    {
        r.push(s[i]);
        assert(s@.take(i + 1) =~= s@.take(i as int).push(s@[i as int]));
        i = i + 1;
    }
    assert(s@.take(s@.len() as int) =~= s@);
    r
}

pub open spec fn state_of(
    priority: Priority,
    day: Date,
    due: Option<Time>,
    title_tokens: Seq<Vec<char>>,
) -> QuickState {
    QuickState { priority, day: day@, due: time_view(due), words: views_of(title_tokens) }
}

/// Reads a quick-add text: words of the title, `!h`/`!high`, `!m`/`!med`/
/// `!medium`, `!l`/`!low` for the priority, `@today`, `@tomorrow` or
/// `@YYYY-MM-DD` for the day, `@HH:MM` for a due time. A lone `@` and other
/// `@` words stay in the title, except that one which looks like a time or a
/// date but is none is an error.
pub fn parse_quick_add(input: &str, default_priority: Priority, default_day: Date) -> (r: Result<
    QuickAddParsed,
    String,
>)
    ensures
        r matches Ok(p) ==> quick_add_spec(input@, default_priority, default_day) == Ok::<
            QuickAddView,
            Seq<char>,
        >(p@),
        r matches Err(e) ==> quick_add_spec(input@, default_priority, default_day) == Err::<
            QuickAddView,
            Seq<char>,
        >(e@),
{
    let chars = to_chars(input);
    let tokens = split_whitespace(chars.as_slice());
    let ghost toks = views_of(tokens@);
    let ghost init = QuickState {
        priority: default_priority,
        day: default_day@,
        due: None,
        words: seq![],
    };
    let mut priority = default_priority;
    let mut assigned_day = default_day;
    let mut due_time: Option<Time> = None;
    let mut title_tokens: Vec<Vec<char>> = Vec::new();
    let mut k: usize = 0;
    assert(views_of(title_tokens@) =~= Seq::<Seq<char>>::empty());
    while k < tokens.len()
        invariant
            k <= tokens@.len(),
            toks == views_of(tokens@),
            toks == words(chars@),
            chars@ == input@,
            init == (QuickState {
                priority: default_priority,
                day: default_day@,
                due: None,
                words: seq![],
            }),
            quick_fold(toks.take(k as int), init, default_day) == Ok::<QuickState, Seq<char>>(
                state_of(priority, assigned_day, due_time, title_tokens@),
            ),
        decreases tokens@.len() - k,
    {
        let token = &tokens[k];
        let ghost st = state_of(priority, assigned_day, due_time, title_tokens@);
        assert(toks.take(k + 1).drop_last() =~= toks.take(k as int));
        assert(toks.take(k + 1).last() == token@);
        let normalized = to_ascii_lowercase(token.as_slice());
        match parse_priority_token(normalized.as_slice()) {
            Some(p) => {
                priority = p;
                k = k + 1;
                continue ;
            },
            None => {},
        }
        if token.len() > 0 && token[0] == '@' {
            let body = drop_first_char(token.as_slice());
            if body.len() == 0 {
                let copy = copy_chars(token.as_slice());
                let ghost before = views_of(title_tokens@);
                title_tokens.push(copy);
                assert(views_of(title_tokens@) =~= before.push(token@));
                k = k + 1;
                continue ;
            }
            let body_text = string_of(body.as_slice());
            match parse_time_token(body_text.as_str()) {
                Some(t) => {
                    due_time = Some(t);
                    k = k + 1;
                    continue ;
                },
                None => {},
            }
            match try_parse_date_token(body.as_slice(), default_day) {
                Some(d) => {
                    assigned_day = d;
                    k = k + 1;
                    continue ;
                },
                None => {},
            }
            let token_text = string_of(token.as_slice());
            if contains_char(body.as_slice(), ':') && utf8_len_reaches(body.as_slice(), 3) {
                let message = concat(owned("invalid time token: @"), token_text.as_str());
                proof {
                    assert(quick_step(st, token@, default_day) == Err::<QuickState, Seq<char>>(message@));
                    assert(quick_fold(toks.take(k + 1), init, default_day) == Err::<QuickState, Seq<char>>(message@));
                    lemma_fold_keeps_error(toks, init, default_day, k + 1);
                }
                return Err(message);
            }
            if contains_char(body.as_slice(), '-') {
                let message = concat(owned("invalid date token: @"), token_text.as_str());
                proof {
                    assert(quick_step(st, token@, default_day) == Err::<QuickState, Seq<char>>(message@));
                    assert(quick_fold(toks.take(k + 1), init, default_day) == Err::<QuickState, Seq<char>>(message@));
                    lemma_fold_keeps_error(toks, init, default_day, k + 1);
                }
                return Err(message);
            }
        }
        let copy = copy_chars(token.as_slice());
        let ghost before = views_of(title_tokens@);
        title_tokens.push(copy);
        assert(views_of(title_tokens@) =~= before.push(token@));
        k = k + 1;
    }
    assert(toks.take(tokens@.len() as int) =~= toks);
    let joined = join_chars(&title_tokens, to_chars(" ").as_slice());
    let kept = trimmed(joined.as_slice());
    if kept.len() == 0 {
        return Err(owned("title cannot be empty"));
    }
    Ok(QuickAddParsed { title: string_of(kept.as_slice()), priority, assigned_day, due_time })
}


/// A priority token names the priority it sets: after the `!` it is the
/// start of that priority's name (as the task form shows it, in small
/// letters). So the three names give three different priorities, and a
/// token never sets a priority whose name it does not begin.
pub proof fn law_priority_word_names_priority(n: Seq<char>)
    ensures
        priority_word(n) matches Some(p) ==> {
            &&& n.len() >= 2
            &&& n[0] == '!'
            &&& n.drop_first().is_prefix_of(ascii_lowercase(priority_text(p)))
        },
{
    reveal_strlit("!h");
    reveal_strlit("!high");
    reveal_strlit("!m");
    reveal_strlit("!med");
    reveal_strlit("!medium");
    reveal_strlit("!l");
    reveal_strlit("!low");
    reveal_strlit("High");
    reveal_strlit("Medium");
    reveal_strlit("Low");
    if let Some(p) = priority_word(n) {
        let name = ascii_lowercase(priority_text(p));
        match p {
            Priority::High => {
                assert(name =~= seq!['h', 'i', 'g', 'h']);
            },
            Priority::Medium => {
                assert(name =~= seq!['m', 'e', 'd', 'i', 'u', 'm']);
            },
            Priority::Low => {
                assert(name =~= seq!['l', 'o', 'w']);
            },
        }
        assert(n.drop_first().is_prefix_of(name));
    }
}

/// Each priority is set by `!` followed by its full name, and by `!`
/// followed by the first letter of its name.
pub proof fn law_priority_names_set_priority(p: Priority)
    ensures
        ({
            let name = ascii_lowercase(priority_text(p));
            &&& priority_word(seq!['!'] + name) == Some(p)
            &&& priority_word(seq!['!', name[0]]) == Some(p)
        }),
{
    reveal_strlit("!h");
    reveal_strlit("!high");
    reveal_strlit("!m");
    reveal_strlit("!med");
    reveal_strlit("!medium");
    reveal_strlit("!l");
    reveal_strlit("!low");
    reveal_strlit("High");
    reveal_strlit("Medium");
    reveal_strlit("Low");
    let name = ascii_lowercase(priority_text(p));
    match p {
        Priority::High => {
            assert(name =~= seq!['h', 'i', 'g', 'h']);
            assert(seq!['!'] + name =~= "!high"@);
            assert(seq!['!', name[0]] =~= "!h"@);
            assert(priority_word("!high"@) == Some(Priority::High));
            assert(priority_word("!h"@) == Some(Priority::High));
        },
        Priority::Medium => {
            assert(name =~= seq!['m', 'e', 'd', 'i', 'u', 'm']);
            assert(seq!['!'] + name =~= "!medium"@);
            assert(seq!['!', name[0]] =~= "!m"@);
            assert(priority_word("!medium"@) == Some(Priority::Medium));
            assert(priority_word("!m"@) == Some(Priority::Medium));
        },
        Priority::Low => {
            assert(name =~= seq!['l', 'o', 'w']);
            assert(seq!['!'] + name =~= "!low"@);
            assert(seq!['!', name[0]] =~= "!l"@);
            assert("!low"@[1] != "!med"@[1]);
            assert("!l"@[1] != "!h"@[1] && "!l"@[1] != "!m"@[1]);
            assert(priority_word("!low"@) == Some(Priority::Low));
            assert(priority_word("!l"@) == Some(Priority::Low));
        },
    }
}

} // verus!
