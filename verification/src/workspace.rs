//! The workspace around the editor: tab titles and ids, the query history
//! preview, the database list and the sidebar toggle.

use vstd::prelude::*;
use crate::i18n::{tr, translated};
use crate::text::{
    chars_of, decimal, first_non_ws, is_digit, is_whitespace, is_ws, join_spec, parse_unsigned,
    parse_unsigned_spec, string_from_chars, trim_chars, trim_spec, truncate_for_display,
    truncated_spec, unsigned_digits, views,
};

verus! {

/// The first position at or after `i` that holds white space; the length
/// when there is none.
pub open spec fn first_ws(s: Seq<char>, i: int) -> int
    decreases s.len() - i,
{
    if i >= s.len() {
        s.len() as int
    } else if is_ws(s[i]) {
        i
    } else {
        first_ws(s, i + 1)
    }
}

proof fn lemma_first_ws_bounds(s: Seq<char>, i: int)
    requires
        0 <= i <= s.len(),
    ensures
        i <= first_ws(s, i) <= s.len(),
    decreases s.len() - i,
{
    if i < s.len() && !is_ws(s[i]) {
        lemma_first_ws_bounds(s, i + 1);
    }
}

proof fn lemma_first_non_ws_range(s: Seq<char>, i: int)
    requires
        0 <= i <= s.len(),
    ensures
        i <= first_non_ws(s, i) <= s.len(),
        first_non_ws(s, i) < s.len() ==> !is_ws(s[first_non_ws(s, i)]),
    decreases s.len() - i,
{
    if i < s.len() && is_ws(s[i]) {
        lemma_first_non_ws_range(s, i + 1);
    }
}

/// The words of `s` from position `i` on: the maximal runs of characters
/// that are not white space (`str::split_whitespace`).
pub open spec fn words_from(s: Seq<char>, i: int) -> Seq<Seq<char>>
    decreases s.len() - i,
{
    if i < 0 || i >= s.len() {
        Seq::empty()
    } else {
        let a = first_non_ws(s, i);
        if a >= s.len() {
            Seq::empty()
        } else {
            let b = first_ws(s, a);
            if b <= i || b > s.len() {
                Seq::empty()
            } else {
                seq![s.subrange(a, b)] + words_from(s, b)
            }
        }
    }
}

/// The title of a query tab: the first four words of the SQL joined by
/// spaces, cut to 28 characters; `None` when the SQL has no words.
pub open spec fn query_title_words(sql: Seq<char>) -> Seq<Seq<char>> {
    first_n(words_from(sql, 0), 4)
}

/// The first `n` items of `s`, or all of them when there are fewer.
pub open spec fn first_n<A>(s: Seq<A>, n: nat) -> Seq<A> {
    if s.len() <= n {
        s
    } else {
        s.take(n as int)
    }
}

/// The first (up to) four words of the text.
pub fn leading_words(sql: &Vec<char>) -> (r: Vec<String>)
    ensures
        views(r@) == query_title_words(sql@),
{
    let mut words: Vec<String> = Vec::new();
    let mut i: usize = 0;
    while i < sql.len() && words.len() < 4
        invariant
            i <= sql.len(),
            words@.len() <= 4,
            views(words@) + words_from(sql@, i as int) == words_from(sql@, 0),
        decreases sql.len() - i,
    {
        let mut a = i;
        while a < sql.len() && is_whitespace(sql[a])
            invariant
                i <= a <= sql.len(),
                first_non_ws(sql@, i as int) == first_non_ws(sql@, a as int),
            decreases sql.len() - a,
        {
            a = a + 1;
        }
        proof {
            lemma_first_non_ws_range(sql@, a as int);
        }
        if a >= sql.len() {
            assert(words_from(sql@, i as int) =~= Seq::<Seq<char>>::empty());
            assert(words_from(sql@, a as int) =~= Seq::<Seq<char>>::empty());
            i = a;
        } else {
            let mut b = a;
            while b < sql.len() && !is_whitespace(sql[b])
                invariant
                    a <= b <= sql.len(),
                    first_ws(sql@, a as int) == first_ws(sql@, b as int),
                decreases sql.len() - b,
            {
                b = b + 1;
            }
            proof {
                lemma_first_ws_bounds(sql@, b as int);
            }
            assert(b > a);
            let mut word: Vec<char> = Vec::new();
            let mut k = a;
            while k < b
                invariant
                    a <= k <= b <= sql.len(),
                    word@ == sql@.subrange(a as int, k as int),
                decreases b - k,
            {
                word.push(sql[k]);
                k = k + 1;
            }
            let ghost before = views(words@);
            words.push(string_from_chars(&word));
            assert(views(words@) =~= before.push(sql@.subrange(a as int, b as int)));
            assert(words_from(sql@, i as int) == seq![sql@.subrange(a as int, b as int)]
                + words_from(sql@, b as int));
            assert(views(words@) + words_from(sql@, b as int) =~= before + words_from(
                sql@,
                i as int,
            ));
            i = b;
        }
    }
    proof {
        assert(views(words@).len() == words@.len());
        if words@.len() < 4 {
            assert(i >= sql.len());
            assert(words_from(sql@, i as int) =~= Seq::<Seq<char>>::empty());
            assert(views(words@) =~= words_from(sql@, 0));
        } else {
            assert(words_from(sql@, 0).take(4) =~= views(words@));
        }
    }
    words
}

/// The title of a query tab, when its SQL has words: the first four words
/// joined by spaces and cut to 28 characters.
pub fn query_tab_title_text(sql: &str) -> (r: Option<String>)
    ensures
        match r {
            Some(t) => query_title_words(sql@).len() > 0 && t@ == truncated_spec(
                join_spec(query_title_words(sql@), " "@),
                28,
            ),
            None => query_title_words(sql@).len() == 0,
        },
{
    let words = leading_words(&chars_of(sql));
    if words.len() == 0 {
        return None;
    }
    let joined = crate::text::join(&words, " ");
    Some(truncate_for_tab_title(joined.as_str()))
}

/// The title of a query tab: its first words, or a translated default for a
/// tab without SQL.
pub fn query_tab_title(sql: &str) -> (r: String)
    ensures
        query_title_words(sql@).len() > 0 ==> r@ == truncated_spec(
            join_spec(query_title_words(sql@), " "@),
            28,
        ),
        query_title_words(sql@).len() == 0 ==> translated("Query"@, r@),
{
    match query_tab_title_text(sql) {
        Some(title) => title,
        None => tr("Query"),
    }
}

/// Cuts a tab title to 28 characters and marks the cut with `...`.
pub fn truncate_for_tab_title(value: &str) -> (r: String)
    ensures
        r@ == truncated_spec(value@, 28),
{
    truncate_for_display(value, 28)
}

/// The first position at or after `i` holding a line break; the length when
/// there is none.
pub open spec fn first_newline(s: Seq<char>, i: int) -> int
    decreases s.len() - i,
{
    if i >= s.len() {
        s.len() as int
    } else if s[i] == '\n' {
        i
    } else {
        first_newline(s, i + 1)
    }
}

/// The lines of `s` from position `i` on, each without surrounding white
/// space, blank ones left out.
pub open spec fn filled_lines_from(s: Seq<char>, i: int) -> Seq<Seq<char>>
    decreases s.len() - i,
{
    if i < 0 || i >= s.len() {
        Seq::empty()
    } else {
        let e = first_newline(s, i);
        if e < i || e > s.len() {
            Seq::empty()
        } else {
            let line = trim_spec(s.subrange(i, e));
            let here = if line.len() > 0 {
                seq![line]
            } else {
                Seq::empty()
            };
            if e >= s.len() {
                here
            } else {
                here + filled_lines_from(s, e + 1)
            }
        }
    }
}

proof fn lemma_first_newline_bounds(s: Seq<char>, i: int)
    requires
        0 <= i <= s.len(),
    ensures
        i <= first_newline(s, i) <= s.len(),
    decreases s.len() - i,
{
    if i < s.len() && s[i] != '\n' {
        lemma_first_newline_bounds(s, i + 1);
    }
}

/// The preview of a history entry: its first two non-blank lines, trimmed,
/// joined by a line break and cut to 120 characters.
pub open spec fn history_preview_spec(sql: Seq<char>) -> Seq<char> {
    truncated_spec(join_spec(first_n(filled_lines_from(sql, 0), 2), "\n"@), 120)
}

/// The preview of a history entry.
pub fn history_list_preview(sql: &str) -> (r: String)
    ensures
        r@ == history_preview_spec(sql@),
{
    let s = chars_of(sql);
    let mut lines: Vec<String> = Vec::new();
    let mut i: usize = 0;
    while i < s.len() && lines.len() < 2
        invariant
            i <= s.len(),
            s@ == sql@,
            lines@.len() <= 2,
            views(lines@) + filled_lines_from(s@, i as int) == filled_lines_from(s@, 0),
        decreases s.len() - i,
    {
        let mut e = i;
        while e < s.len() && s[e] != '\n'
            invariant
                i <= e <= s.len(),
                first_newline(s@, i as int) == first_newline(s@, e as int),
            decreases s.len() - e,
        {
            e = e + 1;
        }
        proof {
            lemma_first_newline_bounds(s@, e as int);
        }
        let mut raw: Vec<char> = Vec::new();
        let mut k = i;
        while k < e
            invariant
                i <= k <= e <= s.len(),
                raw@ == s@.subrange(i as int, k as int),
            decreases e - k,
        {
            raw.push(s[k]);
            k = k + 1;
        }
        let line = trim_chars(&raw);
        let ghost before = views(lines@);
        let ghost rest = filled_lines_from(s@, i as int);
        let ghost here = if line@.len() > 0 {
            seq![line@]
        } else {
            Seq::<Seq<char>>::empty()
        };
        let next = if e < s.len() {
            e + 1
        } else {
            e
        };
        assert(filled_lines_from(s@, next as int) =~= if e < s.len() {
            filled_lines_from(s@, e + 1)
        } else {
            Seq::<Seq<char>>::empty()
        });
        assert(rest =~= here + filled_lines_from(s@, next as int));
        if line.len() > 0 {
            lines.push(string_from_chars(&line));
            assert(views(lines@) =~= before.push(line@));
        }
        assert(views(lines@) =~= before + here);
        assert(views(lines@) + filled_lines_from(s@, next as int) =~= before + rest);
        i = next;
    }
    proof {
        assert(views(lines@).len() == lines@.len());
        if lines@.len() < 2 {
            assert(filled_lines_from(s@, i as int) =~= Seq::<Seq<char>>::empty());
            assert(views(lines@) =~= filled_lines_from(s@, 0));
        } else {
            assert(filled_lines_from(s@, 0).take(2) =~= views(lines@));
        }
    }
    let joined = crate::text::join(&lines, "\n");
    truncate_for_display(joined.as_str(), 120)
}

/// `s` without `prefix` in front, when it starts with it.
pub fn strip_prefix(s: &str, prefix: &str) -> (r: Option<String>)
    ensures
        match r {
            Some(rest) => prefix@.len() <= s@.len() && s@.take(prefix@.len() as int) == prefix@
                && rest@ == s@.skip(prefix@.len() as int),
            None => !(prefix@.len() <= s@.len() && s@.take(prefix@.len() as int) == prefix@),
        },
{
    let sc = chars_of(s);
    let pc = chars_of(prefix);
    if pc.len() > sc.len() {
        return None;
    }
    let mut k: usize = 0;
    while k < pc.len()
        invariant
            k <= pc.len() <= sc.len(),
            sc@ == s@,
            pc@ == prefix@,
            forall|j: int| 0 <= j < k ==> sc@[j] == pc@[j],
        decreases pc.len() - k,
    {
        if sc[k] != pc[k] {
            assert(s@.take(prefix@.len() as int)[k as int] != prefix@[k as int]);
            return None;
        }
        k = k + 1;
    }
    assert(s@.take(prefix@.len() as int) =~= prefix@);
    let mut rest: Vec<char> = Vec::new();
    let mut i = pc.len();
    while i < sc.len()
        invariant
            pc.len() <= i <= sc.len(),
            sc@ == s@,
            rest@ == s@.subrange(pc@.len() as int, i as int),
        decreases sc.len() - i,
    {
        rest.push(sc[i]);
        i = i + 1;
    }
    assert(rest@ =~= s@.skip(prefix@.len() as int));
    Some(string_from_chars(&rest))
}

/// The id that a tab widget's name carries after `prefix`.
pub fn tab_id_from_widget_name(widget_name: Option<&str>, prefix: &str) -> (r: Option<u64>)
    ensures
        match widget_name {
            None => r is None,
            Some(name) => if prefix@.len() <= name@.len() && name@.take(prefix@.len() as int)
                == prefix@ {
                match parse_unsigned_spec(name@.skip(prefix@.len() as int), u64::MAX as nat) {
                    Some(v) => r == Some(v as u64),
                    None => r is None,
                }
            } else {
                r is None
            },
        },
{
    match widget_name {
        None => None,
        Some(name) => match strip_prefix(name, prefix) {
            None => None,
            Some(rest) => parse_unsigned(rest.as_str(), u64::MAX),
        },
    }
}

/// The widget name of a tab: the prefix followed by the tab's id.
pub fn tab_widget_name(prefix: &str, id: u64) -> (r: String)
    ensures
        r@ == prefix@ + decimal(id as nat),
{
    let mut r = prefix.to_string();
    crate::text::push_decimal(&mut r, id);
    r
}

/// A tab's widget name gives back the tab's id: reading the id after the
/// prefix undoes `tab_widget_name`.
pub proof fn widget_name_gives_back_the_id(prefix: Seq<char>, id: u64)
    ensures
        ({
            let name = prefix + decimal(id as nat);
            &&& prefix.len() <= name.len()
            &&& name.take(prefix.len() as int) == prefix
            &&& parse_unsigned_spec(name.skip(prefix.len() as int), u64::MAX as nat) == Some(
                id as nat,
            )
        }),
{
    let name = prefix + decimal(id as nat);
    crate::text::lemma_decimal_reads_back(id as nat);
    assert(name.take(prefix.len() as int) =~= prefix);
    assert(name.skip(prefix.len() as int) =~= decimal(id as nat));
    let d = decimal(id as nat);
    assert(is_digit(d[0]));
    assert(unsigned_digits(d) == d);
}

/// The databases offered for switching: the listed ones, with the active
/// database put first when the list lacks it.
pub fn databases_with_active_database(active_database: Option<&String>, databases: Vec<String>) -> (r:
    Vec<String>)
    ensures
        match active_database {
            None => r@ == databases@,
            Some(active) => if exists|i: int| 0 <= i < databases@.len() && #[trigger] databases@[i]@
                == active@ {
                r@ == databases@
            } else {
                r@.len() == databases@.len() + 1 && r@[0]@ == active@ && r@.skip(1) == databases@
            },
        },
{
    match active_database {
        None => databases,
        Some(active) => {
            let mut i: usize = 0;
            while i < databases.len()
                invariant
                    i <= databases.len(),
                    active_database == Some(active),
                    forall|j: int| 0 <= j < i ==> #[trigger] databases@[j]@ != active@,
                decreases databases.len() - i,
            {
                if databases[i] == *active {
                    assert(databases@[i as int]@ == active@);
                    return databases;
                }
                i = i + 1;
            }
            let mut r = databases;
            r.insert(0, active.clone());
            assert(r@.skip(1) =~= databases@);
            r
        },
    }
}

/// Whether an event about `connection_id` and `database` concerns the
/// workspace's active connection and database.
pub fn matches_active_database(
    active_connection_id: Option<&String>,
    active_database: Option<&String>,
    connection_id: &str,
    database: &str,
) -> (r: bool)
    ensures
        r == (active_connection_id is Some && active_connection_id->0@ == connection_id@
            && active_database is Some && active_database->0@ == database@),
{
    let same_connection = match active_connection_id {
        Some(id) => crate::text::same_text(id.as_str(), connection_id),
        None => false,
    };
    let same_database = match active_database {
        Some(name) => crate::text::same_text(name.as_str(), database),
        None => false,
    };
    same_connection && same_database
}

/// Whether the object sidebar is shown beside the workspace.
#[derive(Clone, Copy, Debug, PartialEq, Eq, Structural)]
pub enum WorkspaceNavigation {
    SidebarVisible,
    SidebarHidden,
}

impl WorkspaceNavigation {
    pub fn from_sidebar_visibility(show_sidebar: bool) -> (r: WorkspaceNavigation)
        ensures
            r == (if show_sidebar {
                WorkspaceNavigation::SidebarVisible
            } else {
                WorkspaceNavigation::SidebarHidden
            }),
    {
        if show_sidebar {
            WorkspaceNavigation::SidebarVisible
        } else {
            WorkspaceNavigation::SidebarHidden
        }
    }

    /// The text of the message id of the tooltip of the sidebar button.
    pub open spec fn sidebar_toggle_text(self) -> Seq<char> {
        match self {
            WorkspaceNavigation::SidebarVisible => "Hide Objects"@,
            WorkspaceNavigation::SidebarHidden => "Show Objects"@,
        }
    }

    /// The message id of the tooltip of the sidebar button.
    pub fn sidebar_toggle_msgid(self) -> (r: &'static str)
        ensures
            r == (match self {
                WorkspaceNavigation::SidebarVisible => "Hide Objects",
                WorkspaceNavigation::SidebarHidden => "Show Objects",
            }),
    {
        match self {
            WorkspaceNavigation::SidebarVisible => "Hide Objects",
            WorkspaceNavigation::SidebarHidden => "Show Objects",
        }
    }

    /// The tooltip of the sidebar button, translated.
    pub fn sidebar_toggle_tooltip(self) -> (r: String)
        ensures
            translated(self.sidebar_toggle_text(), r@),
    {
        tr(self.sidebar_toggle_msgid())
    }
}

} // verus!
