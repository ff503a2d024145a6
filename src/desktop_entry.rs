//! The desktop entry: seven text fields and their rendering as a
//! `[Desktop Entry]` block.
use vstd::prelude::*;
use crate::text::{
    join_with, lemma_trimmed_idempotent, trim_white_space, trimmed,
};

verus! {

/// What a desktop entry holds, as sequences of characters.
pub struct EntryFields {
    pub name: Seq<char>,
    pub comment: Seq<char>,
    pub exec_path: Seq<char>,
    pub icon_path: Seq<char>,
    pub terminal_app: Seq<char>,
    pub app_type: Seq<char>,
    pub categories: Seq<char>,
}

/// The entry with each field trimmed.
pub open spec fn trimmed_fields(e: EntryFields) -> EntryFields {
    EntryFields {
        name: trimmed(e.name),
        comment: trimmed(e.comment),
        exec_path: trimmed(e.exec_path),
        icon_path: trimmed(e.icon_path),
        terminal_app: trimmed(e.terminal_app),
        app_type: trimmed(e.app_type),
        categories: trimmed(e.categories),
    }
}

/// The lines of the rendered entry: the header, then one `Key=value` line per
/// field, each value trimmed.
pub open spec fn entry_lines(e: EntryFields) -> Seq<Seq<char>> {
    seq![
        "[Desktop Entry]"@,
        "Name="@ + trimmed(e.name),
        "Comment="@ + trimmed(e.comment),
        "Exec="@ + trimmed(e.exec_path),
        "Icon="@ + trimmed(e.icon_path),
        "Terminal="@ + trimmed(e.terminal_app),
        "Type="@ + trimmed(e.app_type),
        "Categories="@ + trimmed(e.categories),
    ]
}

/// The text of an entry: its lines separated by `\n`, with no newline after
/// the last one.
pub open spec fn render(e: EntryFields) -> Seq<char> {
    join_with(entry_lines(e), '\n')
}

/// No field holds a line break once the white space around it is dropped.
pub open spec fn fields_on_one_line(e: EntryFields) -> bool {
    &&& !trimmed(e.name).contains('\n')
    &&& !trimmed(e.comment).contains('\n')
    &&& !trimmed(e.exec_path).contains('\n')
    &&& !trimmed(e.icon_path).contains('\n')
    &&& !trimmed(e.terminal_app).contains('\n')
    &&& !trimmed(e.app_type).contains('\n')
    &&& !trimmed(e.categories).contains('\n')
}

/// A freedesktop launcher entry. The fields are kept as given; white space
/// around them is dropped when the entry is rendered.
pub struct DesktopEntry {
    name: String,
    comment: String,
    exec_path: String,
    icon_path: String,
    terminal_app: String,
    app_type: String,
    categories: String,
}

impl View for DesktopEntry {
    type V = EntryFields;

    closed spec fn view(&self) -> EntryFields {
        EntryFields {
            name: self.name@,
            comment: self.comment@,
            exec_path: self.exec_path@,
            icon_path: self.icon_path@,
            terminal_app: self.terminal_app@,
            app_type: self.app_type@,
            categories: self.categories@,
        }
    }
}

impl DesktopEntry {
    /// An entry that holds the seven given values.
    pub fn new(
        name: String,
        comment: String,
        exec_path: String,
        icon_path: String,
        terminal_app: String,
        app_type: String,
        categories: String,
    ) -> (r: Self)
        ensures
            r@ == (EntryFields {
                name: name@,
                comment: comment@,
                exec_path: exec_path@,
                icon_path: icon_path@,
                terminal_app: terminal_app@,
                app_type: app_type@,
                categories: categories@,
            }),
    {
        DesktopEntry { name, comment, exec_path, icon_path, terminal_app, app_type, categories }
    }

    /// The name as given.
    pub fn name(&self) -> (r: &str)
        ensures
            r@ == self@.name,
    {
        self.name.as_str()
    }

    /// The text of the `.desktop` file for this entry.
    pub fn to_string(&self) -> (r: String)
        ensures
            r@ == render(self@),
    {
        let mut out = String::new();
        out.append("[Desktop Entry]\nName=");
        out.append(trim_white_space(self.name.as_str()));
        out.append("\nComment=");
        out.append(trim_white_space(self.comment.as_str()));
        out.append("\nExec=");
        out.append(trim_white_space(self.exec_path.as_str()));
        out.append("\nIcon=");
        out.append(trim_white_space(self.icon_path.as_str()));
        out.append("\nTerminal=");
        out.append(trim_white_space(self.terminal_app.as_str()));
        out.append("\nType=");
        out.append(trim_white_space(self.app_type.as_str()));
        out.append("\nCategories=");
        out.append(trim_white_space(self.categories.as_str()));
        proof {
            reveal_strlit("[Desktop Entry]\nName=");
            reveal_strlit("[Desktop Entry]");
            reveal_strlit("Name=");
            reveal_strlit("\nComment=");
            reveal_strlit("Comment=");
            reveal_strlit("\nExec=");
            reveal_strlit("Exec=");
            reveal_strlit("\nIcon=");
            reveal_strlit("Icon=");
            reveal_strlit("\nTerminal=");
            reveal_strlit("Terminal=");
            reveal_strlit("\nType=");
            reveal_strlit("Type=");
            reveal_strlit("\nCategories=");
            reveal_strlit("Categories=");
            lemma_render_unfold(self@);
        }
        out
    }
}

proof fn lemma_render_unfold(e: EntryFields)
    ensures
        render(e) == "[Desktop Entry]"@ + seq!['\n'] + "Name="@ + trimmed(e.name) + seq!['\n']
            + "Comment="@ + trimmed(e.comment) + seq!['\n'] + "Exec="@ + trimmed(e.exec_path)
            + seq!['\n'] + "Icon="@ + trimmed(e.icon_path) + seq!['\n'] + "Terminal="@
            + trimmed(e.terminal_app) + seq!['\n'] + "Type="@ + trimmed(e.app_type) + seq!['\n']
            + "Categories="@ + trimmed(e.categories),
{
    let ls = entry_lines(e);
    reveal_with_fuel(join_with, 9);
    assert(ls.drop_last().drop_last().drop_last().drop_last().drop_last().drop_last().drop_last()
        =~= seq![ls[0]]);
    assert(render(e) =~= "[Desktop Entry]"@ + seq!['\n'] + "Name="@ + trimmed(e.name) + seq!['\n']
        + "Comment="@ + trimmed(e.comment) + seq!['\n'] + "Exec="@ + trimmed(e.exec_path)
        + seq!['\n'] + "Icon="@ + trimmed(e.icon_path) + seq!['\n'] + "Terminal="@
        + trimmed(e.terminal_app) + seq!['\n'] + "Type="@ + trimmed(e.app_type) + seq!['\n']
        + "Categories="@ + trimmed(e.categories));
}

proof fn lemma_concat_lacks(a: Seq<char>, b: Seq<char>, c: char)
    requires
        !a.contains(c),
        !b.contains(c),
    ensures
        !(a + b).contains(c),
{
    if (a + b).contains(c) {
        let i = choose|i: int| 0 <= i < (a + b).len() && (a + b)[i] == c;
        if i < a.len() {
            assert(a[i] == c);
        } else {
            assert(b[i - a.len()] == c);
        }
    }
}

proof fn lemma_key_line(key: Seq<char>, value: Seq<char>)
    requires
        !key.contains('\n'),
        !trimmed(value).contains('\n'),
    ensures
        !(key + trimmed(value)).contains('\n'),
{
    lemma_concat_lacks(key, trimmed(value), '\n');
}

/// When no trimmed field holds a line break, the rendered text is the header line
/// `[Desktop Entry]` followed by exactly seven lines, in the fixed order
/// `Name`, `Comment`, `Exec`, `Icon`, `Terminal`, `Type`, `Categories`: it
/// is eight lines free of line breaks, joined by `\n`.
pub proof fn lemma_render_has_header_and_seven_lines(e: EntryFields)
    requires
        fields_on_one_line(e),
    ensures
        render(e) == join_with(entry_lines(e), '\n'),
        entry_lines(e).len() == 8,
        entry_lines(e)[0] == "[Desktop Entry]"@,
        entry_lines(e)[1] == "Name="@ + trimmed(e.name),
        entry_lines(e)[2] == "Comment="@ + trimmed(e.comment),
        entry_lines(e)[3] == "Exec="@ + trimmed(e.exec_path),
        entry_lines(e)[4] == "Icon="@ + trimmed(e.icon_path),
        entry_lines(e)[5] == "Terminal="@ + trimmed(e.terminal_app),
        entry_lines(e)[6] == "Type="@ + trimmed(e.app_type),
        entry_lines(e)[7] == "Categories="@ + trimmed(e.categories),
        forall|i: int| 0 <= i < 8 ==> !(#[trigger] entry_lines(e)[i]).contains('\n'),
{
    reveal_strlit("[Desktop Entry]");
    reveal_strlit("Name=");
    reveal_strlit("Comment=");
    reveal_strlit("Exec=");
    reveal_strlit("Icon=");
    reveal_strlit("Terminal=");
    reveal_strlit("Type=");
    reveal_strlit("Categories=");
    lemma_key_line("Name="@, e.name);
    lemma_key_line("Comment="@, e.comment);
    lemma_key_line("Exec="@, e.exec_path);
    lemma_key_line("Icon="@, e.icon_path);
    lemma_key_line("Terminal="@, e.terminal_app);
    lemma_key_line("Type="@, e.app_type);
    lemma_key_line("Categories="@, e.categories);
}

/// Rendering does not depend on white space around the field values: an
/// entry renders as the entry with every field already trimmed.
pub proof fn lemma_render_ignores_surrounding_white_space(e: EntryFields)
    ensures
        render(trimmed_fields(e)) == render(e),
{
    lemma_trimmed_idempotent(e.name);
    lemma_trimmed_idempotent(e.comment);
    lemma_trimmed_idempotent(e.exec_path);
    lemma_trimmed_idempotent(e.icon_path);
    lemma_trimmed_idempotent(e.terminal_app);
    lemma_trimmed_idempotent(e.app_type);
    lemma_trimmed_idempotent(e.categories);
    assert(entry_lines(trimmed_fields(e)) == entry_lines(e));
}

} // verus!
