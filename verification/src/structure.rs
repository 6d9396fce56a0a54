//! Texts of the table structure view: column defaults and keys, index
//! summaries, and markup-safe text.

use vstd::prelude::*;
use crate::i18n::{tr, translated};
use crate::models::{StructureActionKind, TableColumnIdentity, TableIndex, TableStructureColumn};
use crate::text::{chars_of, decimal, join, join_spec, push_char, views};

verus! {

impl TableColumnIdentity {
    /// How the identity is shown: `Always` or `By Default`.
    pub fn label(self) -> (r: &'static str)
        ensures
            r@ == (match self {
                TableColumnIdentity::Always => "Always"@,
                TableColumnIdentity::ByDefault => "By Default"@,
            }),
    {
        match self {
            TableColumnIdentity::Always => "Always",
            TableColumnIdentity::ByDefault => "By Default",
        }
    }
}

/// The Default column of the structure view: the identity kind for identity
/// columns, a note for generated columns, else the default expression.
pub fn default_label(column: &TableStructureColumn) -> (r: String)
    ensures
        column.identity matches Some(identity) ==> r@ == "Identity ("@ + (match identity {
            TableColumnIdentity::Always => "Always"@,
            TableColumnIdentity::ByDefault => "By Default"@,
        }) + ")"@,
        column.identity is None && column.generated is Some ==> translated("Generated"@, r@),
        column.identity is None && column.generated is None ==> r@ == match column.default_expression {
            Some(e) => e@,
            None => Seq::<char>::empty(),
        },
{
    match column.identity {
        Some(identity) => {
            let mut r = String::new();
            r.append("Identity (");
            r.append(identity.label());
            r.append(")");
            r
        },
        None => {
            if column.generated.is_some() {
                return tr("Generated");
            }
            match &column.default_expression {
                Some(e) => e.clone(),
                None => String::new(),
            }
        },
    }
}

/// The Key column of the structure view: a translated mark for primary key
/// columns, empty otherwise.
pub fn key_label(column: &TableStructureColumn) -> (r: String)
    ensures
        !column.is_primary_key ==> r@ == Seq::<char>::empty(),
        column.is_primary_key ==> translated("Primary"@, r@),
{
    if column.is_primary_key {
        tr("Primary")
    } else {
        String::new()
    }
}

/// The notes that follow an index's method: primary or unique, invalid,
/// partial.
pub open spec fn index_notes_spec(index: TableIndex) -> Seq<Seq<char>> {
    (if index.is_primary {
        seq!["Primary"@]
    } else if index.is_unique {
        seq!["Unique"@]
    } else {
        Seq::empty()
    }) + (if !index.is_valid {
        seq!["Invalid"@]
    } else {
        Seq::empty()
    }) + (if index.predicate is Some {
        seq!["Partial"@]
    } else {
        Seq::empty()
    })
}

/// The message ids of the notes that follow an index's method.
pub fn index_notes(index: &TableIndex) -> (r: Vec<&'static str>)
    ensures
        r@.map_values(|m: &'static str| m@) == index_notes_spec(*index),
{
    let mut notes: Vec<&'static str> = Vec::new();
    if index.is_primary {
        notes.push("Primary");
    } else if index.is_unique {
        notes.push("Unique");
    }
    if !index.is_valid {
        notes.push("Invalid");
    }
    if index.predicate.is_some() {
        notes.push("Partial");
    }
    assert(notes@.map_values(|m: &'static str| m@) =~= index_notes_spec(*index));
    notes
}

/// The summary of an index: its method and the translated notes, with ` · `
/// between them.
pub fn index_summary(index: &TableIndex) -> (r: String)
    ensures
        exists|notes: Seq<Seq<char>>|
            notes.len() == index_notes_spec(*index).len() && (forall|k: int|
                0 <= k < notes.len() ==> translated(index_notes_spec(*index)[k], #[trigger] notes[k]))
                && r@ == #[trigger] join_spec(seq![index.method@] + notes, " · "@),
{
    let notes = index_notes(index);
    let ghost spec = index_notes_spec(*index);
    assert(spec.len() == notes@.len()) by {
        assert(notes@.map_values(|m: &'static str| m@).len() == notes@.len());
    }
    let mut parts: Vec<String> = Vec::new();
    parts.push(index.method.clone());
    let mut i: usize = 0;
    while i < notes.len()
        invariant
            i <= notes.len(),
            spec == index_notes_spec(*index),
            spec == notes@.map_values(|m: &'static str| m@),
            parts@.len() == i + 1,
            parts@[0]@ == index.method@,
            forall|k: int| 0 <= k < i ==> translated(spec[k], #[trigger] parts@[k + 1]@),
        decreases notes.len() - i,
    {
        let note = tr(notes[i]);
        proof {
            assert(spec[i as int] == notes@[i as int]@);
        }
        parts.push(note);
        i = i + 1;
    }
    let r = join(&parts, " · ");
    let ghost rest = views(parts@).skip(1);
    assert(views(parts@) =~= seq![index.method@] + rest);
    assert forall|k: int| 0 <= k < rest.len() implies translated(spec[k], #[trigger] rest[k]) by {
        assert(rest[k] == parts@[k + 1]@);
    }
    r
}

/// The note on a deferrable constraint: deferred, deferrable, or none.
pub fn deferrable_summary_msgid(is_deferrable: bool, is_initially_deferred: bool) -> (r: Option<
    &'static str,
>)
    ensures
        r == (if is_deferrable && is_initially_deferred {
            Some("Deferred")
        } else if is_deferrable {
            Some("Deferrable")
        } else {
            None::<&'static str>
        }),
{
    if is_deferrable && is_initially_deferred {
        Some("Deferred")
    } else if is_deferrable {
        Some("Deferrable")
    } else {
        None
    }
}

/// The note on a deferrable constraint, translated; empty when it is not
/// deferrable.
pub fn deferrable_summary(is_deferrable: bool, is_initially_deferred: bool) -> (r: String)
    ensures
        !is_deferrable ==> r@ == Seq::<char>::empty(),
        is_deferrable ==> translated(
            if is_initially_deferred {
                "Deferred"@
            } else {
                "Deferrable"@
            },
            r@,
        ),
{
    match deferrable_summary_msgid(is_deferrable, is_initially_deferred) {
        Some(msgid) => tr(msgid),
        None => String::new(),
    }
}

/// The summary of a constraint: its kind, then a translated note when it is
/// not validated and the deferrable note when there is one, with ` · `
/// between them.
pub fn constraint_summary(
    kind_label: &str,
    is_validated: bool,
    is_deferrable: bool,
    is_initially_deferred: bool,
) -> (r: String)
    ensures
        exists|not_validated: Seq<char>, deferrable: Seq<char>|
            #![trigger constraint_notes(is_validated, is_deferrable, not_validated, deferrable)]
            (!is_validated ==> translated("Not validated"@, not_validated)) && (is_deferrable
                ==> translated(
                if is_initially_deferred {
                    "Deferred"@
                } else {
                    "Deferrable"@
                },
                deferrable,
            )) && r@ == join_spec(
                seq![kind_label@] + constraint_notes(
                    is_validated,
                    is_deferrable,
                    not_validated,
                    deferrable,
                ),
                " · "@,
            ),
        is_validated && !is_deferrable ==> r@ == kind_label@,
{
    let mut parts: Vec<String> = Vec::new();
    parts.push(kind_label.to_string());
    let mut not_validated = String::new();
    if !is_validated {
        not_validated = tr("Not validated");
        parts.push(not_validated.clone());
    }
    let deferrable = deferrable_summary(is_deferrable, is_initially_deferred);
    let deferrable_note = deferrable.clone();
    if !deferrable.as_str().is_empty() {
        parts.push(deferrable);
    }
    let r = join(&parts, " · ");
    proof {
        let notes = constraint_notes(is_validated, is_deferrable, not_validated@, deferrable_note@);
        assert(views(parts@) =~= seq![kind_label@] + notes);
        if is_validated && !is_deferrable {
            assert(views(parts@) =~= seq![kind_label@]);
        }
    }
    r
}

/// The notes after a constraint's kind: the note that it is not validated,
/// then the deferrable note when there is one and it is not empty.
pub open spec fn constraint_notes(
    is_validated: bool,
    is_deferrable: bool,
    not_validated: Seq<char>,
    deferrable: Seq<char>,
) -> Seq<Seq<char>> {
    (if is_validated {
        Seq::empty()
    } else {
        seq![not_validated]
    }) + (if is_deferrable && deferrable.len() > 0 {
        seq![deferrable]
    } else {
        Seq::empty()
    })
}

/// `a, b, c`: the names with a comma and a space between them.
pub open spec fn name_list(names: Seq<String>) -> Seq<char> {
    join_spec(views(names), ", "@)
}

/// The subtitle of a foreign key: its columns, the referenced table and
/// columns, and the update and delete actions.
pub fn foreign_key_subtitle(
    columns: &Vec<String>,
    referenced_schema: &str,
    referenced_table: &str,
    referenced_columns: &Vec<String>,
    on_update: &str,
    on_delete: &str,
) -> (r: String)
    ensures
        r@ == name_list(columns@) + " -> "@ + referenced_schema@ + "."@ + referenced_table@
            + " ("@ + name_list(referenced_columns@) + ")"@ + " · ON UPDATE "@ + on_update@
            + " · ON DELETE "@ + on_delete@,
{
    let mut r = join(columns, ", ");
    r.append(" -> ");
    r.append(referenced_schema);
    r.append(".");
    r.append(referenced_table);
    r.append(" (");
    let referenced = join(referenced_columns, ", ");
    r.append(referenced.as_str());
    r.append(")");
    r.append(" · ON UPDATE ");
    r.append(on_update);
    r.append(" · ON DELETE ");
    r.append(on_delete);
    r
}

/// The subtitle of a trigger: the function it runs and its definition.
pub fn trigger_subtitle(function_schema: &str, function_name: &str, definition: &str) -> (r:
    String)
    ensures
        r@ == function_schema@ + "."@ + function_name@ + " · "@ + definition@,
{
    let mut r = function_schema.to_string();
    r.append(".");
    r.append(function_name);
    r.append(" · ");
    r.append(definition);
    r
}

/// The Nullable column of the structure view, as a message id.
pub fn nullable_label_msgid(is_nullable: bool) -> (r: &'static str)
    ensures
        r@ == (if is_nullable {
            "Yes"@
        } else {
            "No"@
        }),
{
    if is_nullable {
        "Yes"
    } else {
        "No"
    }
}

/// The message id of the notice shown after a structure item's name was
/// copied.
pub fn copied_message_msgid(kind: StructureActionKind) -> (r: &'static str)
    ensures
        r@ == copied_message_text(kind),
{
    match kind {
        StructureActionKind::Column => "Column name copied.",
        StructureActionKind::Index => "Index name copied.",
        StructureActionKind::Constraint => "Constraint name copied.",
        StructureActionKind::ForeignKey => "Foreign key name copied.",
        StructureActionKind::Trigger => "Trigger name copied.",
    }
}

/// The text of the message id of the notice after a structure item's name
/// was copied.
pub open spec fn copied_message_text(kind: StructureActionKind) -> Seq<char> {
    match kind {
        StructureActionKind::Column => "Column name copied."@,
        StructureActionKind::Index => "Index name copied."@,
        StructureActionKind::Constraint => "Constraint name copied."@,
        StructureActionKind::ForeignKey => "Foreign key name copied."@,
        StructureActionKind::Trigger => "Trigger name copied."@,
    }
}

/// The translated notice shown after a structure item's name was copied.
pub fn copied_message(kind: StructureActionKind) -> (r: String)
    ensures
        translated(copied_message_text(kind), r@),
{
    tr(copied_message_msgid(kind))
}

/// A section heading with the number of its entries: `title (count)`.
pub fn section_title(title: &str, count: usize) -> (r: String)
    ensures
        r@ == title@ + " ("@ + decimal(count as nat) + ")"@,
{
    let mut r = title.to_string();
    r.append(" (");
    crate::text::push_decimal(&mut r, count as u64);
    r.append(")");
    r
}

/// A lower-case hexadecimal digit.
pub open spec fn hex_digit(d: nat) -> char {
    if d < 10 {
        ((d + 48) as u32) as char
    } else {
        ((d + 87) as u32) as char
    }
}

/// The lower-case hexadecimal form of `n` < 256, without leading zeros.
pub open spec fn hex_spec(n: nat) -> Seq<char> {
    if n < 16 {
        seq![hex_digit(n)]
    } else {
        seq![hex_digit(n / 16), hex_digit(n % 16)]
    }
}

/// Control characters that markup escaping writes as character references.
pub open spec fn escaped_control(c: char) -> bool {
    let n = c as u32;
    (1 <= n <= 8) || (11 <= n <= 12) || (14 <= n <= 31) || (127 <= n <= 132) || (134 <= n <= 159)
}

/// How markup escaping writes one character: the five markup characters as
/// entities, control characters as `&#x..;`, everything else as it is.
pub open spec fn escape_char_spec(c: char) -> Seq<char> {
    if c == '&' {
        "&amp;"@
    } else if c == '<' {
        "&lt;"@
    } else if c == '>' {
        "&gt;"@
    } else if c == '\'' {
        "&apos;"@
    } else if c == '"' {
        "&quot;"@
    } else if escaped_control(c) {
        "&#x"@ + hex_spec(c as u32 as nat) + ";"@
    } else {
        seq![c]
    }
}

/// The escaped form of a text, character by character.
pub open spec fn escaped_spec(s: Seq<char>) -> Seq<char>
    decreases s.len(),
{
    if s.len() == 0 {
        Seq::empty()
    } else {
        escaped_spec(s.drop_last()) + escape_char_spec(s.last())
    }
}

/// The text holds none of the characters that markup gives a meaning:
/// `<`, `>` and quotes.
pub open spec fn markup_free(t: Seq<char>) -> bool {
    forall|i: int|
        0 <= i < t.len() ==> #[trigger] t[i] != '<' && t[i] != '>' && t[i] != '"' && t[i] != '\''
}

proof fn lemma_escaped_char_is_markup_free(c: char)
    ensures
        markup_free(escape_char_spec(c)),
{
    reveal_strlit("&amp;");
    reveal_strlit("&lt;");
    reveal_strlit("&gt;");
    reveal_strlit("&apos;");
    reveal_strlit("&quot;");
    reveal_strlit("&#x");
    reveal_strlit(";");
    if escaped_control(c) && !(c == '&' || c == '<' || c == '>' || c == '\'' || c == '"') {
        let n = c as u32 as nat;
        let h = hex_spec(n);
        assert(markup_free(h)) by {
            assert forall|d: nat| d < 16 implies {
                let x = #[trigger] hex_digit(d);
                x != '<' && x != '>' && x != '"' && x != '\''
            } by {
                if d < 10 {
                    assert((((d + 48) as u32) as char) as u32 == d + 48);
                } else {
                    assert((((d + 87) as u32) as char) as u32 == d + 87);
                }
            }
            if n < 16 {
                assert(h =~= seq![hex_digit(n)]);
            } else {
                assert(n / 16 < 16);
                assert(h =~= seq![hex_digit(n / 16), hex_digit(n % 16)]);
            }
        }
        let t = "&#x"@ + h + ";"@;
        assert forall|i: int| 0 <= i < t.len() implies #[trigger] t[i] != '<' && t[i] != '>' && t[i]
            != '"' && t[i] != '\'' by {
            if i < 3 {
                assert(t[i] == "&#x"@[i]);
            } else if i < 3 + h.len() {
                assert(t[i] == h[i - 3]);
            } else {
                assert(t[i] == ";"@[i - 3 - h.len()]);
            }
        }
    }
}

/// Escaped text shows literally: it holds no `<`, `>` or quote, whatever
/// the text was.
pub proof fn escaped_text_is_markup_free(s: Seq<char>)
    ensures
        markup_free(escaped_spec(s)),
    decreases s.len(),
{
    if s.len() > 0 {
        escaped_text_is_markup_free(s.drop_last());
        lemma_escaped_char_is_markup_free(s.last());
        let a = escaped_spec(s.drop_last());
        let b = escape_char_spec(s.last());
        assert(escaped_spec(s) == a + b);
        assert forall|i: int| 0 <= i < (a + b).len() implies #[trigger] (a + b)[i] != '<' && (a
            + b)[i] != '>' && (a + b)[i] != '"' && (a + b)[i] != '\'' by {
            if i < a.len() {
                assert((a + b)[i] == a[i]);
            } else {
                assert((a + b)[i] == b[i - a.len()]);
            }
        }
    }
}

fn hex_digit_char(d: u32) -> (r: char)
    requires
        d < 16,
    ensures
        r == hex_digit(d as nat),
{
    let b = d as u8;
    if b < 10 {
        (b + 48) as char
    } else {
        (b + 87) as char
    }
}

/// Text that Pango markup shows literally (`glib::markup_escape_text`).
pub fn escaped_markup(text: &str) -> (r: String)
    ensures
        r@ == escaped_spec(text@),
{
    let chars = chars_of(text);
    let mut r = String::new();
    let mut i: usize = 0;
    while i < chars.len()
        invariant
            i <= chars.len(),
            chars@ == text@,
            r@ == escaped_spec(text@.take(i as int)),
        decreases chars.len() - i,
    {
        let c = chars[i];
        let n = c as u32;
        let ghost before = r@;
        if c == '&' {
            r.append("&amp;");
        } else if c == '<' {
            r.append("&lt;");
        } else if c == '>' {
            r.append("&gt;");
        } else if c == '\'' {
            r.append("&apos;");
        } else if c == '"' {
            r.append("&quot;");
        } else if (1 <= n && n <= 8) || (11 <= n && n <= 12) || (14 <= n && n <= 31) || (127 <= n
            && n <= 132) || (134 <= n && n <= 159) {
            r.append("&#x");
            if n >= 16 {
                push_char(&mut r, hex_digit_char(n / 16));
                push_char(&mut r, hex_digit_char(n % 16));
            } else {
                push_char(&mut r, hex_digit_char(n));
            }
            r.append(";");
            proof {
                reveal_strlit("&#x");
                reveal_strlit(";");
            }
        } else {
            push_char(&mut r, c);
        }
        assert(text@.take(i + 1).drop_last() =~= text@.take(i as int));
        assert(r@ =~= before + escape_char_spec(c));
        i = i + 1;
    }
    assert(text@.take(chars.len() as int) =~= text@);
    r
}

} // verus!
